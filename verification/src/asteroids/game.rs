//! The states of an Asteroids game and the rules that move between them.
//!
//! Motion, collisions and timers are floating-point work done by the caller each frame. These
//! rules decide, from the state and what the frame reported, what the frame does and what state
//! follows: `begin_frame` is asked before the world moves, `end_frame` after.
use vstd::prelude::*;
use crate::asteroids::score::Score;
use crate::text::{push_decimal, decimal};

verus! {

/// Lives at the start of a game.
pub const LIVES: u32 = 3;

/// State of a game.
#[derive(Clone, Copy, Debug, PartialEq, Eq, Structural)]
pub enum GameState {
    WaitingToStart,
    Playing,
    PlayerDestroyed,
    WaveCompleted,
    GameOver,
}

/// The text shown to the player in `state`; `wave` is the number of the wave that starts next.
pub open spec fn message_text(state: GameState, wave: nat) -> Option<Seq<char>> {
    match state {
        GameState::WaitingToStart => Some("Press SPACE to start"@),
        GameState::Playing => None,
        GameState::PlayerDestroyed => Some("Ship destroyed"@),
        GameState::WaveCompleted => Some("Wave "@ + decimal(wave)),
        GameState::GameOver => Some("GAME OVER\nPress R to restart"@),
    }
}

impl GameState {
    /// The message shown in this state, if any; `wave` is the number of the next wave.
    pub fn message(self, wave: u32) -> (text: Option<String>)
        ensures
            text matches Some(t) ==> message_text(self, wave as nat) == Some(t@),
            text is None ==> message_text(self, wave as nat) is None,
    {
        match self {
            GameState::WaitingToStart => Some(String::from_str("Press SPACE to start")),
            GameState::Playing => None,
            GameState::PlayerDestroyed => Some(String::from_str("Ship destroyed")),
            GameState::WaveCompleted => {
                let mut text = String::from_str("Wave ");
                push_decimal(&mut text, wave);
                Some(text)
            },
            GameState::GameOver => Some(String::from_str("GAME OVER\nPress R to restart")),
        }
    }
}

/// What a frame does, decided before anything moves.
#[derive(Clone, Copy, Debug, PartialEq, Eq, Structural)]
pub enum Command {
    /// The game is over: nothing moves and nothing is counted.
    Freeze,
    /// The ship steers and the world moves; the gun is silent.
    Steer,
    /// The ship steers, the gun's cooldown runs, and a shot is tried when `fire` is set.
    Fight { fire: bool },
    /// The ship is wrecked: its respawn pause runs on while the world moves.
    CountDown,
    /// The pause is over: the ship returns to the centre at rest, invulnerable, and play resumes.
    Respawn,
    /// The next wave is spawned (`Game::wave` holds its number), old bullets vanish, the ship
    /// steers.
    NextWave,
}

/// What the end of a frame decided.
#[derive(Clone, Copy, Debug, PartialEq, Eq, Structural)]
pub enum Outcome {
    /// Nothing changed.
    Continue,
    /// The ship was hit and a life was lost; the respawn pause starts.
    ShipLost,
    /// The ship was hit on its last life.
    GameOver,
    /// The last asteroid is gone: bullets are cleared and the game waits for the next wave.
    WaveCleared,
}

/// The parts of an Asteroids game that are counted rather than measured.
pub struct Game {
    pub score: Score,
    pub lives: u32,
    pub wave: u32,
    pub state: GameState,
}

/// The command for a frame that begins in `state`, given the frame's space key and whether the
/// respawn pause runs out in this frame.
pub open spec fn command_for(state: GameState, space_pressed: bool, respawn_elapsed: bool) -> Command {
    match state {
        GameState::GameOver => Command::Freeze,
        GameState::WaitingToStart => Command::Steer,
        GameState::Playing => Command::Fight { fire: space_pressed },
        GameState::PlayerDestroyed => if respawn_elapsed {
            Command::Respawn
        } else {
            Command::CountDown
        },
        GameState::WaveCompleted => if space_pressed {
            Command::NextWave
        } else {
            Command::Steer
        },
    }
}

/// The state once a frame that begins in `state` has been commanded.
pub open spec fn state_after_command(
    state: GameState,
    space_pressed: bool,
    respawn_elapsed: bool,
) -> GameState {
    match state {
        GameState::WaitingToStart => if space_pressed {
            GameState::Playing
        } else {
            state
        },
        GameState::PlayerDestroyed => if respawn_elapsed {
            GameState::Playing
        } else {
            state
        },
        GameState::WaveCompleted => if space_pressed {
            GameState::Playing
        } else {
            state
        },
        _ => state,
    }
}

impl Game {
    /// The game is over exactly when no lives are left, and waves are numbered from one.
    pub open spec fn consistent(&self) -> bool {
        &&& (self.state == GameState::GameOver) <==> (self.lives == 0)
        &&& self.wave >= 1
    }

    /// A new game: no points, three lives, the first wave, waiting for the start signal.
    pub fn new() -> (game: Self)
        ensures
            game.score@ == 0,
            game.lives == LIVES,
            game.wave == 1,
            game.state == GameState::WaitingToStart,
            game.consistent(),
    {
        Game { score: Score::new(), lives: LIVES, wave: 1, state: GameState::WaitingToStart }
    }

    /// A full restart from any state: a new game.
    pub fn restart(&mut self)
        ensures
            final(self).score@ == 0,
            final(self).lives == LIVES,
            final(self).wave == 1,
            final(self).state == GameState::WaitingToStart,
    {
        *self = Game::new();
    }

    /// Decides the frame before the world moves. The space key starts the round from waiting,
    /// fires during play and calls the next wave once a wave is cleared; a wrecked ship comes back
    /// by itself when its pause is over.
    pub fn begin_frame(&mut self, space_pressed: bool, respawn_elapsed: bool) -> (command: Command)
        requires
            old(self).state == GameState::WaveCompleted && space_pressed ==> old(self).wave
                < u32::MAX,
        ensures
            command == command_for(old(self).state, space_pressed, respawn_elapsed),
            final(self).state == state_after_command(old(self).state, space_pressed, respawn_elapsed),
            final(self).wave == old(self).wave + if command == Command::NextWave {
                1int
            } else {
                0int
            },
            final(self).lives == old(self).lives,
            final(self).score@ == old(self).score@,
            old(self).consistent() ==> final(self).consistent(),
    {
        match self.state {
            GameState::GameOver => Command::Freeze,
            GameState::WaitingToStart => {
                if space_pressed {
                    self.state = GameState::Playing;
                }
                Command::Steer
            },
            GameState::Playing => Command::Fight { fire: space_pressed },
            GameState::PlayerDestroyed => {
                if respawn_elapsed {
                    self.state = GameState::Playing;
                    Command::Respawn
                } else {
                    Command::CountDown
                }
            },
            GameState::WaveCompleted => {
                if space_pressed {
                    self.wave = self.wave + 1;
                    self.state = GameState::Playing;
                    Command::NextWave
                } else {
                    Command::Steer
                }
            },
        }
    }

    /// Ends a frame once the world has moved. `ship_hit`: the ship, not invulnerable, touches an
    /// asteroid; `field_clear`: no asteroid is left. Both count only during play.
    pub fn end_frame(&mut self, ship_hit: bool, field_clear: bool) -> (outcome: Outcome)
        requires
            old(self).state == GameState::Playing && ship_hit ==> old(self).lives > 0,
        ensures
            old(self).state != GameState::Playing ==> outcome == Outcome::Continue && *final(self)
                == *old(self),
            old(self).state == GameState::Playing && ship_hit ==> {
                &&& final(self).lives == old(self).lives - 1
                &&& (final(self).lives == 0 ==> outcome == Outcome::GameOver && final(self).state
                    == GameState::GameOver)
                &&& (final(self).lives > 0 ==> outcome == Outcome::ShipLost && final(self).state
                    == GameState::PlayerDestroyed)
            },
            old(self).state == GameState::Playing && !ship_hit && field_clear ==> outcome
                == Outcome::WaveCleared && final(self).state == GameState::WaveCompleted
                && final(self).lives == old(self).lives,
            old(self).state == GameState::Playing && !ship_hit && !field_clear ==> outcome
                == Outcome::Continue && *final(self) == *old(self),
            final(self).wave == old(self).wave,
            final(self).score@ == old(self).score@,
            old(self).consistent() ==> final(self).consistent(),
    {
        if self.state != GameState::Playing {
            return Outcome::Continue;
        }
        if ship_hit {
            self.lives = self.lives - 1;
            if self.lives == 0 {
                self.state = GameState::GameOver;
                return Outcome::GameOver;
            } else {
                self.state = GameState::PlayerDestroyed;
                return Outcome::ShipLost;
            }
        }
        if field_clear {
            self.state = GameState::WaveCompleted;
            Outcome::WaveCleared
        } else {
            Outcome::Continue
        }
    }
}

/// A finished game stays finished: no frame changes it, whatever the keys and the world report.
pub proof fn game_over_is_final(space_pressed: bool, respawn_elapsed: bool)
    ensures
        command_for(GameState::GameOver, space_pressed, respawn_elapsed) == Command::Freeze,
        state_after_command(GameState::GameOver, space_pressed, respawn_elapsed)
            == GameState::GameOver,
{
}

/// Shots are fired only during play, and only when the space key asks for one.
pub proof fn shots_only_in_play(state: GameState, space_pressed: bool, respawn_elapsed: bool)
    ensures
        command_for(state, space_pressed, respawn_elapsed) == (Command::Fight { fire: true })
            <==> state == GameState::Playing && space_pressed,
{
}

/// Only a finished game freezes a frame; every other state moves the world.
pub proof fn only_game_over_freezes(state: GameState, space_pressed: bool, respawn_elapsed: bool)
    ensures
        command_for(state, space_pressed, respawn_elapsed) == Command::Freeze <==> state
            == GameState::GameOver,
{
}

/// What each command is issued for: the ship steers without a gun while waiting for the start
/// and between waves until the space key; the next wave comes exactly on the space key after a
/// cleared wave; a wrecked ship counts down its pause and respawns exactly when it runs out; and
/// the gun fires exactly on the space key during play.
pub proof fn commands_by_state(state: GameState, space_pressed: bool, respawn_elapsed: bool)
    ensures
        command_for(state, space_pressed, respawn_elapsed) == Command::Steer <==> (state
            == GameState::WaitingToStart || (state == GameState::WaveCompleted && !space_pressed)),
        command_for(state, space_pressed, respawn_elapsed) == Command::NextWave <==> (state
            == GameState::WaveCompleted && space_pressed),
        command_for(state, space_pressed, respawn_elapsed) == Command::Respawn <==> (state
            == GameState::PlayerDestroyed && respawn_elapsed),
        command_for(state, space_pressed, respawn_elapsed) == Command::CountDown <==> (state
            == GameState::PlayerDestroyed && !respawn_elapsed),
        (command_for(state, space_pressed, respawn_elapsed) is Fight) <==> state
            == GameState::Playing,
        command_for(GameState::Playing, space_pressed, respawn_elapsed) == (Command::Fight {
            fire: space_pressed,
        }),
{
}

/// The start of a frame leads into play exactly on the start signal, on the next wave and on a
/// respawn; otherwise the state stays as it was.
pub proof fn play_resumes_only_on_its_signals(
    state: GameState,
    space_pressed: bool,
    respawn_elapsed: bool,
)
    ensures
        state_after_command(state, space_pressed, respawn_elapsed) != state ==> state_after_command(
            state,
            space_pressed,
            respawn_elapsed,
        ) == GameState::Playing,
        state_after_command(state, space_pressed, respawn_elapsed) != state <==> ((state
            == GameState::WaitingToStart && space_pressed) || (state == GameState::WaveCompleted
            && space_pressed) || (state == GameState::PlayerDestroyed && respawn_elapsed)),
{
}

} // verus!
