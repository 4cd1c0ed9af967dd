//! Pong: the score of a match and the three states a round goes through.
//!
//! Where the ball is and how it bounces is floating-point geometry computed outside this crate;
//! what reaches these rules is the verdict of that geometry: where the ball left the field.
use vstd::prelude::*;

verus! {

/// Where the ball is relative to the side boundaries after a frame.
#[derive(Clone, Copy, Debug, PartialEq, Eq, Structural)]
pub enum Exit {
    /// Some part of the ball is still on the field.
    Inside,
    /// The ball is wholly past the left boundary: a point for the right player.
    PastLeft,
    /// The ball is wholly past the right boundary: a point for the left player.
    PastRight,
}

/// The score of the match. There is no winning score: the numbers only grow until a restart.
pub struct Score {
    pub left: u32,
    pub right: u32,
}

impl Default for Score {
    fn default() -> (score: Self)
        ensures
            score.left == 0,
            score.right == 0,
    {
        Score { left: 0, right: 0 }
    }
}

impl Score {
    /// Counts a goal: a ball past the left boundary scores for the right player, one past the right
    /// boundary for the left player. Returns whether a goal was scored.
    pub fn count_goal(&mut self, exit: Exit) -> (goal: bool)
        requires
            exit == Exit::PastLeft ==> old(self).right < u32::MAX,
            exit == Exit::PastRight ==> old(self).left < u32::MAX,
        ensures
            goal == (exit != Exit::Inside),
            final(self).left == old(self).left + if exit == Exit::PastRight { 1int } else { 0int },
            final(self).right == old(self).right + if exit == Exit::PastLeft { 1int } else { 0int },
    {
        match exit {
            Exit::PastLeft => {
                self.right = self.right + 1;
                true
            },
            Exit::PastRight => {
                self.left = self.left + 1;
                true
            },
            Exit::Inside => false,
        }
    }
}

/// State of a match.
#[derive(Clone, Copy, Debug, PartialEq, Eq, Structural)]
pub enum GameState {
    /// The ball stands in the centre and waits for the serve.
    WaitingToStart,
    /// The round is on: the ball flies, bounces and may leave the field.
    Playing,
    /// A goal was just counted. The state lasts exactly one frame.
    PointScored,
}

/// What the ball does in a frame, decided by the state of the match.
#[derive(Clone, Copy, Debug, PartialEq, Eq, Structural)]
pub enum BallStep {
    /// The ball stays where it is, waiting for the serve.
    Hold,
    /// The ball moves, bounces off the edges and the paddles, and may leave the field.
    Fly,
    /// The ball goes back to the centre of the field.
    Recenter,
}

/// The match: its score and its state. The paddles and the ball are geometry kept by the caller.
pub struct Game {
    pub score: Score,
    pub state: GameState,
}

/// The step the ball takes in a frame played in `state`.
pub open spec fn ball_step_in(state: GameState) -> BallStep {
    match state {
        GameState::WaitingToStart => BallStep::Hold,
        GameState::Playing => BallStep::Fly,
        GameState::PointScored => BallStep::Recenter,
    }
}

/// The state after a frame that began in `state` and in which the ball ended at `exit`.
pub open spec fn state_after_frame(state: GameState, exit: Exit) -> GameState {
    match state {
        GameState::WaitingToStart => GameState::WaitingToStart,
        GameState::Playing => if exit == Exit::Inside {
            GameState::Playing
        } else {
            GameState::PointScored
        },
        GameState::PointScored => GameState::WaitingToStart,
    }
}

/// The state after the serve signal arrives in `state`.
pub open spec fn state_after_serve(state: GameState) -> GameState {
    if state == GameState::WaitingToStart {
        GameState::Playing
    } else {
        state
    }
}

impl Game {
    /// A new match: no points yet, waiting for the first serve.
    pub fn new() -> (game: Self)
        ensures
            game.score.left == 0,
            game.score.right == 0,
            game.state == GameState::WaitingToStart,
    {
        Game { score: Score::default(), state: GameState::WaitingToStart }
    }

    /// The serve signal. It starts a round only from waiting: during a round it means nothing, and
    /// in the frame of a goal it would skip the ball's return to the centre.
    pub fn start_round(&mut self)
        ensures
            final(self).state == state_after_serve(old(self).state),
            final(self).score == old(self).score,
    {
        if self.state == GameState::WaitingToStart {
            self.state = GameState::Playing;
        }
    }

    /// Restarts the match from any state: it is exactly a new match.
    pub fn restart_match(&mut self)
        ensures
            final(self).score.left == 0,
            final(self).score.right == 0,
            final(self).state == GameState::WaitingToStart,
    {
        *self = Self::new();
    }

    /// What the ball does in this frame. The paddles move in every state.
    pub fn ball_step(&self) -> (step: BallStep)
        ensures
            step == ball_step_in(self.state),
    {
        match self.state {
            GameState::WaitingToStart => BallStep::Hold,
            GameState::Playing => BallStep::Fly,
            GameState::PointScored => BallStep::Recenter,
        }
    }

    /// Ends a frame. `exit` is where the ball stands after the step `ball_step` asked for; only a
    /// frame of play can score. A goal ends the round, and the frame after it waits for the serve.
    pub fn update(&mut self, exit: Exit)
        requires
            old(self).state == GameState::Playing && exit == Exit::PastLeft
                ==> old(self).score.right < u32::MAX,
            old(self).state == GameState::Playing && exit == Exit::PastRight
                ==> old(self).score.left < u32::MAX,
        ensures
            final(self).state == state_after_frame(old(self).state, exit),
            old(self).state == GameState::Playing ==> {
                &&& final(self).score.left == old(self).score.left + if exit == Exit::PastRight {
                    1int
                } else {
                    0int
                }
                &&& final(self).score.right == old(self).score.right + if exit == Exit::PastLeft {
                    1int
                } else {
                    0int
                }
            },
            old(self).state != GameState::Playing ==> final(self).score == old(self).score,
    {
        match self.state {
            GameState::WaitingToStart => {},
            GameState::Playing => {
                if self.score.count_goal(exit) {
                    self.state = GameState::PointScored;
                }
            },
            GameState::PointScored => {
                self.state = GameState::WaitingToStart;
            },
        }
    }
}

/// A scored point lasts one frame: whatever the ball does, the next frame waits for the serve,
/// and a serve signal in the frame of the goal does not start a round.
pub proof fn point_lasts_one_frame(exit: Exit)
    ensures
        state_after_frame(GameState::PointScored, exit) == GameState::WaitingToStart,
        state_after_serve(GameState::PointScored) == GameState::PointScored,
        ball_step_in(GameState::PointScored) == BallStep::Recenter,
{
}

/// A round ends by a goal and only by one: a frame of play stays in play exactly when the ball
/// is still on the field.
pub proof fn round_ends_only_by_goal(exit: Exit)
    ensures
        (state_after_frame(GameState::Playing, exit) == GameState::Playing) <==> (exit
            == Exit::Inside),
{
}

/// The ball moves only during a round: before the serve it holds still.
pub proof fn ball_flies_only_in_play(state: GameState)
    ensures
        (ball_step_in(state) == BallStep::Fly) <==> (state == GameState::Playing),
{
}

/// Only the serve starts a round: a waiting frame keeps waiting whatever the ball does, and the
/// serve changes the state exactly when waiting, into play.
pub proof fn only_the_serve_starts_a_round(state: GameState, exit: Exit)
    ensures
        state_after_frame(GameState::WaitingToStart, exit) == GameState::WaitingToStart,
        state_after_serve(state) != state <==> state == GameState::WaitingToStart,
        state_after_serve(GameState::WaitingToStart) == GameState::Playing,
        state_after_frame(state, exit) == GameState::PointScored <==> (state == GameState::Playing
            && exit != Exit::Inside),
{
}

} // verus!
