use vstd::prelude::*;

verus! {

/// State of an animation or of a single sampler control. Elapsed play time is
/// held in nanoseconds.
#[derive(Debug, Clone, Copy, PartialEq, Eq, Structural)]
pub enum ControlState {
    /// Animation was just requested, not started yet
    Requested,
    /// Animation is running, with the accumulated play time
    Running(u64),
    /// Animation is paused at the accumulated play time
    Paused(u64),
    /// Request termination of the animation
    Abort,
    /// Animation is completed
    Done,
}

impl ControlState {
    /// Is the state `Running`
    pub fn is_running(&self) -> (r: bool)
        ensures
            r == (*self is Running),
    {
        match *self {
            ControlState::Running(_) => true,
            _ => false,
        }
    }

    /// Is the state `Paused`
    pub fn is_paused(&self) -> (r: bool)
        ensures
            r == (*self is Paused),
    {
        match *self {
            ControlState::Paused(_) => true,
            _ => false,
        }
    }
}

/// Control handling of animation/sampler end
#[derive(Debug, Clone, Copy, PartialEq, Eq, Structural)]
pub enum EndControl {
    /// Loop: each tick that reaches the end wraps the time modulo the track's
    /// length and uses up one of the remaining wraps; with none left the end
    /// is handled as `Normal`. None = loop infinitely
    Loop(Option<u32>),
    /// When the end of the track is reached, go back to rest state
    Normal,
}

/// Used when doing animation stepping (i.e only move forward/backward to discrete input values)
#[derive(Debug, Clone, Copy, PartialEq, Eq, Structural)]
pub enum StepDirection {
    /// Take a step forward
    Forward,
    /// Take a step backward
    Backward,
}

/// Animation command
#[derive(Debug, Clone, Copy, PartialEq, Eq, Structural)]
pub enum AnimationCommand {
    /// Start the animation, or unpause if it's paused
    Start,
    /// Step the animation forward/backward (move to the next/previous input value in sequence)
    Step(StepDirection),
    /// Forcibly set the current interpolation point, in nanoseconds
    SetInputValue(u64),
    /// Pause the animation
    Pause,
    /// Abort the animation, will cause the control object to be removed
    Abort,
}

/// The state after a pause: the running time is kept, any other state pauses at zero.
pub open spec fn paused_state(s: ControlState) -> ControlState {
    match s {
        ControlState::Running(d) => ControlState::Paused(d),
        _ => ControlState::Paused(0),
    }
}

/// The state after an unpause: only a paused state resumes.
pub open spec fn unpaused_state(s: ControlState) -> ControlState {
    match s {
        ControlState::Paused(d) => ControlState::Running(d),
        _ => s,
    }
}

/// The state after a start: a requested state begins at zero, a paused one resumes.
pub open spec fn started_state(s: ControlState) -> ControlState {
    match s {
        ControlState::Requested => ControlState::Running(0),
        ControlState::Paused(d) => ControlState::Running(d),
        _ => s,
    }
}

/// The state after an abort request: everything but a finished state aborts.
pub open spec fn aborted_state(s: ControlState) -> ControlState {
    if s == ControlState::Done {
        s
    } else {
        ControlState::Abort
    }
}

/// The state after a forced seek to `t`: only a running state moves.
pub open spec fn sought_state(s: ControlState, t: u64) -> ControlState {
    match s {
        ControlState::Running(_) => ControlState::Running(t),
        _ => s,
    }
}

/// A state that lets its control set terminate.
pub open spec fn is_settled(s: ControlState) -> bool {
    s == ControlState::Done || s == ControlState::Requested
}

pub fn pause_state(s: ControlState) -> (r: ControlState)
    ensures
        r == paused_state(s),
{
    match s {
        ControlState::Running(d) => ControlState::Paused(d),
        _ => ControlState::Paused(0),
    }
}

pub fn unpause_state(s: ControlState) -> (r: ControlState)
    ensures
        r == unpaused_state(s),
{
    match s {
        ControlState::Paused(d) => ControlState::Running(d),
        _ => s,
    }
}

pub fn start_state(s: ControlState) -> (r: ControlState)
    ensures
        r == started_state(s),
{
    match s {
        ControlState::Requested => ControlState::Running(0),
        ControlState::Paused(d) => ControlState::Running(d),
        _ => s,
    }
}

pub fn abort_state(s: ControlState) -> (r: ControlState)
    ensures
        r == aborted_state(s),
{
    match s {
        ControlState::Done => s,
        _ => ControlState::Abort,
    }
}

pub fn seek_state(s: ControlState, t: u64) -> (r: ControlState)
    ensures
        r == sought_state(s, t),
{
    match s {
        ControlState::Running(_) => ControlState::Running(t),
        _ => s,
    }
}

/// Pausing and then unpausing gives back the running state, at the time it had
/// when running and at zero from any other state.
pub proof fn lemma_pause_unpause(s: ControlState)
    ensures
        unpaused_state(paused_state(s)) == (match s {
            ControlState::Running(d) => ControlState::Running(d),
            _ => ControlState::Running(0),
        }),
{
}

} // verus!
