use vstd::prelude::*;
use crate::state::{
    AnimationCommand, ControlState, EndControl, abort_state, aborted_state, paused_state,
    seek_state, sought_state, start_state, started_state, unpaused_state,
};
use crate::sampler::Sampler;
use crate::control_set::{Sample, SamplerControlSet, advanced, scale, scaled, track_end};

verus! {

/// Controls the state of a single requested animation
#[derive(Debug, Clone, Copy)]
pub struct AnimationControl {
    /// Index of the animation in the animation store
    pub animation: usize,
    /// What to do when animation ends
    pub end: EndControl,
    /// State of animation
    pub state: ControlState,
    /// The pending animation command, used up when it is applied
    pub command: Option<AnimationCommand>,
    /// Control the rate of animation, in thousandths (1000 is real time)
    pub rate_multiplier: u64,
}

/// The animation's own state after `cmd`: a start begins or resumes, a pause
/// freezes a running state, a seek moves a running state, an abort request
/// ends any state but a finished one; a step moves only the channels.
pub open spec fn commanded_state(s: ControlState, cmd: AnimationCommand) -> ControlState {
    match cmd {
        AnimationCommand::Start => started_state(s),
        AnimationCommand::Pause => match s {
            ControlState::Running(d) => ControlState::Paused(d),
            _ => s,
        },
        AnimationCommand::SetInputValue(t) => sought_state(s, t),
        AnimationCommand::Step(_) => s,
        AnimationCommand::Abort => aborted_state(s),
    }
}

/// The channel controls after `cmd` is broadcast to them by an animation in
/// state `s`. A pause reaches the channels only while the animation runs.
pub open spec fn commanded_set<V: Copy>(
    old_set: SamplerControlSet<V>,
    new_set: SamplerControlSet<V>,
    store: Seq<Sampler<V>>,
    s: ControlState,
    cmd: AnimationCommand,
) -> bool {
    let o = old_set.samplers@;
    let n = new_set.samplers@;
    match cmd {
        AnimationCommand::Start => SamplerControlSet::states_mapped(o, n, |s| started_state(s)),
        AnimationCommand::Pause => if s is Running {
            SamplerControlSet::states_mapped(o, n, |s| paused_state(s))
        } else {
            n == o
        },
        AnimationCommand::SetInputValue(t) => SamplerControlSet::states_mapped(
            o,
            n,
            |s| sought_state(s, t),
        ),
        AnimationCommand::Step(dir) => SamplerControlSet::steps_to(o, n, store, dir),
        AnimationCommand::Abort => SamplerControlSet::states_mapped(o, n, |s| aborted_state(s)),
    }
}

impl AnimationControl {
    pub fn new(
        animation: usize,
        end: EndControl,
        state: ControlState,
        command: AnimationCommand,
        rate_multiplier: u64,
    ) -> (r: Self)
        ensures
            r == (AnimationControl { animation, end, state, command: Some(command), rate_multiplier }),
    {
        AnimationControl { animation, end, state, command: Some(command), rate_multiplier }
    }

    /// Apply the pending command, if any, to this animation and broadcast it
    /// to the channel controls of `set`; the command is then used up.
    pub fn apply_command<V: Copy>(&mut self, set: &mut SamplerControlSet<V>, store: &Vec<Sampler<V>>)
        ensures
            *final(self) == (AnimationControl {
                state: match old(self).command {
                    Some(cmd) => commanded_state(old(self).state, cmd),
                    None => old(self).state,
                },
                command: None,
                ..*old(self)
            }),
            match old(self).command {
                Some(cmd) => commanded_set(*old(set), *final(set), store@, old(self).state, cmd),
                None => final(set).samplers@ == old(set).samplers@,
            },
    {
        match self.command {
            None => {},
            Some(AnimationCommand::Start) => {
                self.state = start_state(self.state);
                set.start();
            },
            Some(AnimationCommand::Pause) => {
                if let ControlState::Running(d) = self.state {
                    self.state = ControlState::Paused(d);
                    set.pause();
                }
            },
            Some(AnimationCommand::SetInputValue(t)) => {
                self.state = seek_state(self.state, t);
                set.set_input(t);
            },
            Some(AnimationCommand::Step(dir)) => {
                set.step(store, dir);
            },
            Some(AnimationCommand::Abort) => {
                self.state = abort_state(self.state);
                set.abort();
            },
        }
        self.command = None;
    }

    /// Advance the channel controls of `set` by `delta` nanoseconds, scaled by
    /// this animation's rate and then by each channel's own rate.
    pub fn advance<V: Copy>(&self, set: &mut SamplerControlSet<V>, delta: u64, store: &Vec<Sampler<V>>) -> (r: Vec<Sample<V>>)
        ensures
            final(set).samplers@.len() == old(set).samplers@.len(),
            r@.len() == old(set).samplers@.len(),
            forall|j: int|
                0 <= j < old(set).samplers@.len() ==> (final(set).samplers@[j], r@[j])
                    == advanced(
                    old(set).samplers@[j],
                    scaled(delta, self.rate_multiplier),
                    track_end(store@, old(set).samplers@[j]),
                ),
    {
        set.advance(scale(delta, self.rate_multiplier), store)
    }

    /// Fold the channels' completion back into this animation. Returns whether
    /// the animation was aborted and is to be removed with its channels;
    /// otherwise a running or paused animation under `Normal` end is done
    /// once every channel is done or still requested.
    pub fn finish<V: Copy>(&mut self, set: &SamplerControlSet<V>) -> (remove: bool)
        ensures
            remove == (old(self).state == ControlState::Abort),
            final(self).state == (if !remove && old(self).end == EndControl::Normal && (
            old(self).state is Running || old(self).state is Paused) && forall|j: int|
                0 <= j < set.samplers@.len() ==> crate::state::is_settled(
                #[trigger] set.samplers@[j].state,
            ) {
                ControlState::Done
            } else {
                old(self).state
            }),
            *final(self) == (AnimationControl { state: final(self).state, ..*old(self) }),
    {
        if self.state == ControlState::Abort {
            return true;
        }
        if self.end == EndControl::Normal && (self.state.is_running() || self.state.is_paused())
            && set.check_termination() {
            self.state = ControlState::Done;
        }
        false
    }
}

/// Links an entity to all animations that can be run on it, by their
/// indices in the animation store. Not used by the controls themselves.
#[derive(Debug, Clone)]
pub struct AnimationSet {
    pub animations: Vec<usize>,
}

} // verus!
