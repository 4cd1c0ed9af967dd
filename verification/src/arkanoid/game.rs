//! The states of an Arkanoid game: serving from the paddle, play, a lost ball, and the end.
//!
//! The paddle, the ball and the bricks are geometry kept and moved by the caller. These rules say
//! what the ball does in each state and what follows when the ball is lost.
use vstd::prelude::*;
use crate::arkanoid::brick::Score;

verus! {

/// How many balls the player may lose before the game ends.
pub const LIVES: u32 = 3;

/// State of a game.
#[derive(Clone, Copy, Debug, PartialEq, Eq, Structural)]
pub enum GameState {
    /// The ball lies on the paddle and waits for the start signal.
    WaitingToStart,
    /// The round is on: the ball flies, bounces, breaks bricks and may be lost.
    Playing,
    /// The ball was just lost and a life taken; held until the start signal.
    LifeLost,
    /// No lives are left. The game does not leave this state by itself.
    GameOver,
}

/// What the ball does in a frame.
#[derive(Clone, Copy, Debug, PartialEq, Eq, Structural)]
pub enum BallStep {
    /// Nothing moves but the paddle: the game is over.
    Freeze,
    /// The ball rides on the paddle, centred over it, waiting to be served.
    Ride,
    /// The ball flies, bounces off the walls, the paddle and the bricks.
    Fly,
}

/// The step the ball takes in a frame played in `state`.
pub open spec fn ball_step_in(state: GameState) -> BallStep {
    match state {
        GameState::Playing => BallStep::Fly,
        GameState::GameOver => BallStep::Freeze,
        _ => BallStep::Ride,
    }
}

/// The state after the start signal in `state`: a round starts from waiting and after a lost
/// life, never from a game that is over.
pub open spec fn state_after_start(state: GameState) -> GameState {
    if state == GameState::WaitingToStart || state == GameState::LifeLost {
        GameState::Playing
    } else {
        state
    }
}

/// The counted parts of a game: score, lives and state.
pub struct Game {
    pub score: Score,
    pub lives: u32,
    pub state: GameState,
}

impl Game {
    /// The game is over exactly when no lives are left.
    pub open spec fn consistent(&self) -> bool {
        (self.state == GameState::GameOver) <==> (self.lives == 0)
    }

    /// The start of a game: no points, three lives, the ball on the paddle.
    pub fn new() -> (game: Self)
        ensures
            game.score.points == 0,
            game.lives == LIVES,
            game.state == GameState::WaitingToStart,
            game.consistent(),
    {
        Game { score: Score::default(), lives: LIVES, state: GameState::WaitingToStart }
    }

    /// The start signal: starts the round from waiting and after a lost ball.
    pub fn start_round(&mut self)
        ensures
            final(self).state == state_after_start(old(self).state),
            final(self).lives == old(self).lives,
            final(self).score.points == old(self).score.points,
            old(self).consistent() ==> final(self).consistent(),
    {
        if self.state == GameState::WaitingToStart || self.state == GameState::LifeLost {
            self.state = GameState::Playing;
        }
    }

    /// What the ball does in this frame; the paddle follows the player in every state.
    pub fn ball_step(&self) -> (step: BallStep)
        ensures
            step == ball_step_in(self.state),
    {
        match self.state {
            GameState::Playing => BallStep::Fly,
            GameState::GameOver => BallStep::Freeze,
            GameState::WaitingToStart | GameState::LifeLost => BallStep::Ride,
        }
    }

    /// Ends a frame. `ball_lost`: the ball has wholly left the field through the bottom. During
    /// play that costs a life and puts the ball back on the paddle (the returned flag); losing the
    /// last life ends the game.
    pub fn update(&mut self, ball_lost: bool) -> (life_lost: bool)
        requires
            old(self).state == GameState::Playing && ball_lost ==> old(self).lives > 0,
        ensures
            life_lost == (old(self).state == GameState::Playing && ball_lost),
            life_lost ==> final(self).lives == old(self).lives - 1,
            life_lost && final(self).lives == 0 ==> final(self).state == GameState::GameOver,
            life_lost && final(self).lives > 0 ==> final(self).state == GameState::LifeLost,
            !life_lost ==> final(self).lives == old(self).lives,
            !life_lost ==> final(self).state == old(self).state,
            final(self).score.points == old(self).score.points,
            old(self).consistent() ==> final(self).consistent(),
    {
        if self.state == GameState::Playing && ball_lost {
            self.lose_life();
            true
        } else {
            false
        }
    }

    fn lose_life(&mut self)
        requires
            old(self).lives > 0,
        ensures
            final(self).lives == old(self).lives - 1,
            final(self).state == (if final(self).lives == 0 {
                GameState::GameOver
            } else {
                GameState::LifeLost
            }),
            final(self).score.points == old(self).score.points,
    {
        self.lives = self.lives - 1;
        self.state = if self.lives == 0 {
            GameState::GameOver
        } else {
            GameState::LifeLost
        };
    }
}

/// A finished game stays finished: the start signal does not revive it and the ball is frozen.
pub proof fn game_over_is_final()
    ensures
        state_after_start(GameState::GameOver) == GameState::GameOver,
        ball_step_in(GameState::GameOver) == BallStep::Freeze,
{
}

/// The ball flies exactly during play, is frozen exactly when the game is over, and otherwise
/// rides on the paddle waiting for the serve.
pub proof fn ball_flies_exactly_in_play(state: GameState)
    ensures
        ball_step_in(state) == BallStep::Fly <==> state == GameState::Playing,
        ball_step_in(state) == BallStep::Freeze <==> state == GameState::GameOver,
        ball_step_in(state) == BallStep::Ride <==> (state == GameState::WaitingToStart || state
            == GameState::LifeLost),
{
}

/// The start signal starts a round exactly from waiting and after a lost ball; otherwise it
/// changes nothing.
pub proof fn start_signal_starts_rounds(state: GameState)
    ensures
        state_after_start(state) == GameState::Playing <==> (state == GameState::WaitingToStart
            || state == GameState::LifeLost || state == GameState::Playing),
        state_after_start(state) != state <==> (state == GameState::WaitingToStart || state
            == GameState::LifeLost),
{
}

} // verus!
