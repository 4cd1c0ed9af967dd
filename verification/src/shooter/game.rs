//! The states of a shooter match, the player's health and ammunition.
//!
//! Movement, aiming, the cooldown of the gun and the invulnerability after a touch are
//! floating-point work done by the caller; these rules hold the counted state and decide what
//! follows from what the frame reported.
use vstd::prelude::*;
use crate::shooter::score::Score;

verus! {

/// Health of the player at the start; a number rather than a count of lives.
pub const PLAYER_MAX_HEALTH: i32 = 100;

/// Damage of one touch by an enemy.
pub const CONTACT_DAMAGE: i32 = 20;

/// Rounds at the start of a match.
pub const START_AMMO: i32 = 40;

/// State of a match.
#[derive(Clone, Copy, Debug, PartialEq, Eq, Structural)]
pub enum GameState {
    WaitingToStart,
    Playing,
    GameOver,
}

/// What a frame does, decided before anything moves.
#[derive(Clone, Copy, Debug, PartialEq, Eq, Structural)]
pub enum Command {
    /// The match is over: nothing moves.
    Freeze,
    /// Only the player moves and aims.
    Move,
    /// The player moves and aims, the gun works, bullets and enemies move and fight.
    Fight,
}

/// The counted parts of a match.
pub struct Game {
    pub score: Score,
    pub state: GameState,
    pub health: i32,
    pub ammo: i32,
    pub wave: u32,
}

/// The command for a frame that begins in `state`.
pub open spec fn command_for(state: GameState) -> Command {
    match state {
        GameState::GameOver => Command::Freeze,
        GameState::WaitingToStart => Command::Move,
        GameState::Playing => Command::Fight,
    }
}

impl Game {
    /// The match is over exactly when the player has no health left, and ammunition never runs
    /// below zero.
    pub open spec fn consistent(&self) -> bool {
        &&& (self.state == GameState::GameOver) <==> (self.health <= 0)
        &&& self.ammo >= 0
    }

    /// A new match: full health, the starting rounds, no points, the first wave, waiting.
    pub fn new() -> (game: Self)
        ensures
            game.score@ == 0,
            game.state == GameState::WaitingToStart,
            game.health == PLAYER_MAX_HEALTH,
            game.ammo == START_AMMO,
            game.wave == 1,
            game.consistent(),
    {
        Game {
            score: Score::new(),
            state: GameState::WaitingToStart,
            health: PLAYER_MAX_HEALTH,
            ammo: START_AMMO,
            wave: 1,
        }
    }

    /// A full restart from any state: a new match.
    pub fn restart(&mut self)
        ensures
            final(self).score@ == 0,
            final(self).state == GameState::WaitingToStart,
            final(self).health == PLAYER_MAX_HEALTH,
            final(self).ammo == START_AMMO,
            final(self).wave == 1,
    {
        *self = Game::new();
    }

    /// Decides the frame. The space key starts the match from waiting; a match that is over
    /// stays frozen and the space key does not revive it.
    pub fn begin_frame(&mut self, space_pressed: bool) -> (command: Command)
        ensures
            command == command_for(old(self).state),
            final(self).state == (if old(self).state == GameState::WaitingToStart && space_pressed {
                GameState::Playing
            } else {
                old(self).state
            }),
            final(self).health == old(self).health,
            final(self).ammo == old(self).ammo,
            final(self).wave == old(self).wave,
            final(self).score@ == old(self).score@,
            old(self).consistent() ==> final(self).consistent(),
    {
        match self.state {
            GameState::GameOver => Command::Freeze,
            GameState::WaitingToStart => {
                if space_pressed {
                    self.state = GameState::Playing;
                }
                Command::Move
            },
            GameState::Playing => Command::Fight,
        }
    }

    /// Whether the trigger may try a shot: only with rounds left. Without rounds the gun's
    /// cooldown is not started for nothing.
    pub fn may_fire(&self, fire: bool) -> (allowed: bool)
        ensures
            allowed == (fire && self.ammo > 0),
    {
        fire && self.ammo > 0
    }

    /// A shot left the barrel: one round fewer.
    pub fn spend_round(&mut self)
        requires
            old(self).ammo > 0,
        ensures
            final(self).ammo == old(self).ammo - 1,
            final(self).state == old(self).state,
            final(self).health == old(self).health,
            final(self).wave == old(self).wave,
            final(self).score@ == old(self).score@,
            old(self).consistent() ==> final(self).consistent(),
    {
        self.ammo = self.ammo - 1;
    }

    /// A touch by an enemy during play, counted only when the player is not invulnerable (the
    /// caller's timer): several enemies touching at once are one touch. Returns whether damage
    /// was dealt, which starts the invulnerability; no health left ends the match.
    pub fn take_contact(&mut self, touched: bool) -> (hurt: bool)
        requires
            old(self).state == GameState::Playing && touched ==> old(self).health - CONTACT_DAMAGE
                >= i32::MIN,
        ensures
            hurt == (old(self).state == GameState::Playing && touched),
            hurt ==> final(self).health == old(self).health - CONTACT_DAMAGE,
            hurt ==> final(self).state == (if final(self).health <= 0 {
                GameState::GameOver
            } else {
                GameState::Playing
            }),
            !hurt ==> final(self).health == old(self).health && final(self).state == old(self).state,
            final(self).ammo == old(self).ammo,
            final(self).wave == old(self).wave,
            final(self).score@ == old(self).score@,
            old(self).consistent() ==> final(self).consistent(),
    {
        if self.state != GameState::Playing || !touched {
            return false;
        }
        self.health = self.health - CONTACT_DAMAGE;
        if self.health <= 0 {
            self.state = GameState::GameOver;
        }
        true
    }
}

/// A finished match stays finished: its frames are frozen whatever the keys.
pub proof fn game_over_is_final()
    ensures
        command_for(GameState::GameOver) == Command::Freeze,
{
}

/// Only a finished match freezes; the world fights exactly during play and only the player
/// moves while waiting.
pub proof fn commands_by_state(state: GameState)
    ensures
        command_for(state) == Command::Freeze <==> state == GameState::GameOver,
        command_for(state) == Command::Fight <==> state == GameState::Playing,
        command_for(state) == Command::Move <==> state == GameState::WaitingToStart,
{
}

} // verus!
