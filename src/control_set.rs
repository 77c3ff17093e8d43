use vstd::prelude::*;
use crate::state::{
    ControlState, EndControl, StepDirection, abort_state, aborted_state, is_settled, pause_state,
    paused_state, seek_state, sought_state, start_state, started_state, unpause_state,
    unpaused_state,
};
use crate::sampler::{Sampler, is_sorted, step_state, stepped_state};

verus! {

/// Rate multipliers are held in thousandths: 1000 plays in real time.
pub const RATE_UNIT: u64 = 1000;

/// Control a single active sampler
#[derive(Debug, Clone, Copy)]
pub struct SamplerControl<V> {
    /// Channel
    pub channel: u64,
    /// Index of the sampler in the sampler store
    pub sampler: usize,
    /// State of sampling
    pub state: ControlState,
    /// What to do when sampler ends
    pub end: EndControl,
    /// What the channel should return to after end
    pub after: V,
    /// Control the rate of animation, in thousandths (1000 is real time)
    pub rate_multiplier: u64,
}

/// What a channel receives on one tick.
#[derive(Debug, Clone, Copy, PartialEq, Eq)]
pub enum Sample<V> {
    /// The channel is not running: nothing is applied
    Hold,
    /// The track is to be evaluated at this time, in nanoseconds
    At(u64),
    /// The track has ended: the rest value is applied
    Rest(V),
}

/// Sampler control set, holding at most one sampler control per channel.
///
/// Only a single sampler per channel is supported, i.e no animation blending.
/// Blending is however possible to build on top of this by dynamically
/// updating the samplers referenced from here.
#[derive(Debug, Clone)]
pub struct SamplerControlSet<V> {
    pub samplers: Vec<SamplerControl<V>>,
}

pub open spec fn with_state<V>(c: SamplerControl<V>, s: ControlState) -> SamplerControl<V> {
    SamplerControl {
        channel: c.channel,
        sampler: c.sampler,
        state: s,
        end: c.end,
        after: c.after,
        rate_multiplier: c.rate_multiplier,
    }
}

/// `delta` scaled by a rate in thousandths, saturating at the largest time.
pub open spec fn scaled(delta: u64, rate: u64) -> u64 {
    let x = delta as int * rate as int / RATE_UNIT as int;
    if x > u64::MAX { u64::MAX } else { x as u64 }
}

/// The control and the sample after advancing `c` by `delta` on a track that
/// ends at `t_end`, or whose sampler is not loaded where `t_end` is `None`.
/// A control whose sampler is not loaded is skipped: it stays as it is and
/// receives nothing. Under a loop, a tick that reaches the track end wraps
/// the time to `e mod t_end` and takes one of the remaining iterations; with
/// none left, or on a track of no length, the end behaves as `Normal`: the
/// control is done and rests. An aborted control rests.
pub open spec fn advanced<V>(c: SamplerControl<V>, delta: u64, end_at: Option<u64>) -> (
    SamplerControl<V>,
    Sample<V>,
) {
    match c.state {
        ControlState::Running(d) => if end_at is None {
            (c, Sample::Hold)
        } else {
            let t_end = end_at->Some_0;
            let s = d as int + scaled(delta, c.rate_multiplier) as int;
            let e: u64 = if s > u64::MAX { u64::MAX } else { s as u64 };
            let done = (with_state(c, ControlState::Done), Sample::Rest(c.after));
            if e < t_end {
                (with_state(c, ControlState::Running(e)), Sample::At(e))
            } else if t_end == 0 {
                done
            } else {
                let w = (e % t_end) as u64;
                match c.end {
                    EndControl::Normal => done,
                    EndControl::Loop(None) => (
                        with_state(c, ControlState::Running(w)),
                        Sample::At(w),
                    ),
                    EndControl::Loop(Some(n)) => if n >= 1 {
                        let c2 = SamplerControl { end: EndControl::Loop(Some((n - 1) as u32)), ..c };
                        (with_state(c2, ControlState::Running(w)), Sample::At(w))
                    } else {
                        done
                    },
                }
            }
        },
        ControlState::Abort => (c, Sample::Rest(c.after)),
        _ => (c, Sample::Hold),
    }
}

/// Whether the sampler of `c` is loaded in `store`: it is there and has key
/// frames.
pub open spec fn is_loaded<V>(store: Seq<Sampler<V>>, c: SamplerControl<V>) -> bool {
    c.sampler < store.len() && store[c.sampler as int].input@.len() > 0
}

/// The time at which the track of `c` ends, its sampler's last key frame
/// time, or `None` where its sampler is not loaded.
pub open spec fn track_end<V>(store: Seq<Sampler<V>>, c: SamplerControl<V>) -> Option<u64> {
    if is_loaded(store, c) {
        Some(store[c.sampler as int].end_time())
    } else {
        None
    }
}

/// `delta` scaled by a rate in thousandths, saturating at the largest time.
pub fn scale(delta: u64, rate: u64) -> (r: u64)
    ensures
        r == scaled(delta, rate),
{
    assert(delta as int * rate as int <= u64::MAX as int * u64::MAX as int) by (nonlinear_arith);
    let x: u128 = (delta as u128) * (rate as u128) / (RATE_UNIT as u128);
    if x > u64::MAX as u128 {
        u64::MAX
    } else {
        x as u64
    }
}

/// Advance a single control by `delta` on a track that ends at `end_at`
/// (`None` where its sampler is not loaded).
pub fn advance_control<V: Copy>(c: SamplerControl<V>, delta: u64, end_at: Option<u64>) -> (r: (
    SamplerControl<V>,
    Sample<V>,
))
    ensures
        r == advanced(c, delta, end_at),
{
    match c.state {
        ControlState::Running(d) => {
            let t_end = match end_at {
                Some(t) => t,
                None => {
                    return (c, Sample::Hold);
                },
            };
            let e = d.saturating_add(scale(delta, c.rate_multiplier));
            let mut c2 = c;
            if e < t_end {
                c2.state = ControlState::Running(e);
                return (c2, Sample::At(e));
            }
            if t_end > 0 {
                let w = e % t_end;
                match c.end {
                    EndControl::Loop(None) => {
                        c2.state = ControlState::Running(w);
                        return (c2, Sample::At(w));
                    },
                    EndControl::Loop(Some(n)) => {
                        if n >= 1 {
                            c2.state = ControlState::Running(w);
                            c2.end = EndControl::Loop(Some(n - 1));
                            return (c2, Sample::At(w));
                        }
                    },
                    EndControl::Normal => {},
                }
            }
            c2.state = ControlState::Done;
            (c2, Sample::Rest(c.after))
        },
        ControlState::Abort => (c, Sample::Rest(c.after)),
        _ => (c, Sample::Hold),
    }
}

impl<V: Copy> SamplerControlSet<V> {
    /// Channels are unique.
    pub open spec fn wf(&self) -> bool {
        forall|i: int, j: int|
            0 <= i < j < self.samplers@.len() ==> self.samplers@[i].channel
                != self.samplers@[j].channel
    }

    /// Every control's state is `f` of its old state, everything else unchanged.
    pub open spec fn states_mapped(
        old_set: Seq<SamplerControl<V>>,
        new_set: Seq<SamplerControl<V>>,
        f: spec_fn(ControlState) -> ControlState,
    ) -> bool {
        new_set.len() == old_set.len() && forall|i: int|
            0 <= i < old_set.len() ==> new_set[i] == with_state(old_set[i], f(old_set[i].state))
    }

    /// Every control that is not done and whose sampler is loaded has stepped
    /// over its sampler's key frames; the others are unchanged.
    pub open spec fn steps_to(
        old_set: Seq<SamplerControl<V>>,
        new_set: Seq<SamplerControl<V>>,
        store: Seq<Sampler<V>>,
        direction: StepDirection,
    ) -> bool {
        new_set.len() == old_set.len() && forall|j: int|
            0 <= j < old_set.len() ==> new_set[j] == ({
                let c = old_set[j];
                if c.state == ControlState::Done || !is_loaded(store, c) {
                    c
                } else {
                    with_state(c, stepped_state(c.state, store[c.sampler as int].input@, direction))
                }
            })
    }

    /// An empty control set
    pub fn new() -> (r: Self)
        ensures
            r.samplers@.len() == 0,
            r.wf(),
    {
        SamplerControlSet { samplers: Vec::new() }
    }

    /// Set channel control: replaces the control of `channel`, or adds one.
    pub fn set_channel(&mut self, channel: u64, control: SamplerControl<V>)
        ensures
            ({
                let c = SamplerControl { channel: channel, ..control };
                let o = old(self).samplers@;
                if exists|i: int| 0 <= i < o.len() && o[i].channel == channel {
                    exists|i: int|
                        0 <= i < o.len() && o[i].channel == channel && final(self).samplers@
                            == o.update(i, c)
                } else {
                    final(self).samplers@ == o.push(c)
                }
            }),
            old(self).wf() ==> final(self).wf(),
    {
        let c = SamplerControl {
            channel: channel,
            sampler: control.sampler,
            state: control.state,
            end: control.end,
            after: control.after,
            rate_multiplier: control.rate_multiplier,
        };
        assert(c == SamplerControl { channel: channel, ..control });
        let mut i: usize = 0;
        while i < self.samplers.len()
            invariant
                i <= self.samplers@.len(),
                self.samplers@ == old(self).samplers@,
                c == (SamplerControl { channel: channel, ..control }),
                forall|j: int| 0 <= j < i ==> self.samplers@[j].channel != channel,
            decreases self.samplers@.len() - i,
        {
            if self.samplers[i].channel == channel {
                self.samplers.set(i, c);
                assert(self.samplers@ == old(self).samplers@.update(i as int, c));
                assert(old(self).samplers@[i as int].channel == channel);
                assert forall|j: int| 0 <= j < self.samplers@.len() implies self.samplers@[j].channel
                    == old(self).samplers@[j].channel by {}
                return;
            }
            i = i + 1;
        }
        self.samplers.push(c);
    }

    /// Abort control set: every control that is not done aborts.
    pub fn abort(&mut self)
        ensures
            Self::states_mapped(old(self).samplers@, final(self).samplers@, |s| aborted_state(s)),
    {
        let mut i: usize = 0;
        while i < self.samplers.len()
            invariant
                i <= self.samplers@.len(),
                self.samplers@.len() == old(self).samplers@.len(),
                forall|j: int|
                    0 <= j < i ==> self.samplers@[j] == with_state(
                        old(self).samplers@[j],
                        aborted_state(old(self).samplers@[j].state),
                    ),
                forall|j: int| i <= j < self.samplers@.len() ==> self.samplers@[j] == old(self).samplers@[j],
            decreases self.samplers@.len() - i,
        {
            let mut c = self.samplers[i];
            c.state = abort_state(c.state);
            self.samplers.set(i, c);
            i = i + 1;
        }
    }

    /// Pause control set: every control pauses at its running time, or at zero.
    pub fn pause(&mut self)
        ensures
            Self::states_mapped(old(self).samplers@, final(self).samplers@, |s| paused_state(s)),
    {
        let mut i: usize = 0;
        while i < self.samplers.len()
            invariant
                i <= self.samplers@.len(),
                self.samplers@.len() == old(self).samplers@.len(),
                forall|j: int|
                    0 <= j < i ==> self.samplers@[j] == with_state(
                        old(self).samplers@[j],
                        paused_state(old(self).samplers@[j].state),
                    ),
                forall|j: int| i <= j < self.samplers@.len() ==> self.samplers@[j] == old(self).samplers@[j],
            decreases self.samplers@.len() - i,
        {
            let mut c = self.samplers[i];
            c.state = pause_state(c.state);
            self.samplers.set(i, c);
            i = i + 1;
        }
    }

    /// Unpause control set: every paused control runs again from its time.
    pub fn unpause(&mut self)
        ensures
            Self::states_mapped(old(self).samplers@, final(self).samplers@, |s| unpaused_state(s)),
    {
        let mut i: usize = 0;
        while i < self.samplers.len()
            invariant
                i <= self.samplers@.len(),
                self.samplers@.len() == old(self).samplers@.len(),
                forall|j: int|
                    0 <= j < i ==> self.samplers@[j] == with_state(
                        old(self).samplers@[j],
                        unpaused_state(old(self).samplers@[j].state),
                    ),
                forall|j: int| i <= j < self.samplers@.len() ==> self.samplers@[j] == old(self).samplers@[j],
            decreases self.samplers@.len() - i,
        {
            let mut c = self.samplers[i];
            c.state = unpause_state(c.state);
            self.samplers.set(i, c);
            i = i + 1;
        }
    }

    /// Start control set: requested controls begin at zero, paused ones resume.
    pub fn start(&mut self)
        ensures
            Self::states_mapped(old(self).samplers@, final(self).samplers@, |s| started_state(s)),
    {
        let mut i: usize = 0;
        while i < self.samplers.len()
            invariant
                i <= self.samplers@.len(),
                self.samplers@.len() == old(self).samplers@.len(),
                forall|j: int|
                    0 <= j < i ==> self.samplers@[j] == with_state(
                        old(self).samplers@[j],
                        started_state(old(self).samplers@[j].state),
                    ),
                forall|j: int| i <= j < self.samplers@.len() ==> self.samplers@[j] == old(self).samplers@[j],
            decreases self.samplers@.len() - i,
        {
            let mut c = self.samplers[i];
            c.state = start_state(c.state);
            self.samplers.set(i, c);
            i = i + 1;
        }
    }

    /// Forcibly set the input value (point of interpolation), in nanoseconds,
    /// on every running control.
    pub fn set_input(&mut self, input: u64)
        ensures
            Self::states_mapped(
                old(self).samplers@,
                final(self).samplers@,
                |s| sought_state(s, input),
            ),
    {
        let mut i: usize = 0;
        while i < self.samplers.len()
            invariant
                i <= self.samplers@.len(),
                self.samplers@.len() == old(self).samplers@.len(),
                forall|j: int|
                    0 <= j < i ==> self.samplers@[j] == with_state(
                        old(self).samplers@[j],
                        sought_state(old(self).samplers@[j].state, input),
                    ),
                forall|j: int| i <= j < self.samplers@.len() ==> self.samplers@[j] == old(self).samplers@[j],
            decreases self.samplers@.len() - i,
        {
            let mut c = self.samplers[i];
            c.state = seek_state(c.state, input);
            self.samplers.set(i, c);
            i = i + 1;
        }
    }

    /// Update rate multiplier (in thousandths) of every control.
    pub fn set_rate_multiplier(&mut self, rate_multiplier: u64)
        ensures
            final(self).samplers@.len() == old(self).samplers@.len(),
            forall|j: int|
                0 <= j < old(self).samplers@.len() ==> final(self).samplers@[j] == (SamplerControl {
                    rate_multiplier: rate_multiplier,
                    ..old(self).samplers@[j]
                }),
    {
        let mut i: usize = 0;
        while i < self.samplers.len()
            invariant
                i <= self.samplers@.len(),
                self.samplers@.len() == old(self).samplers@.len(),
                forall|j: int|
                    0 <= j < i ==> self.samplers@[j] == (SamplerControl {
                        rate_multiplier: rate_multiplier,
                        ..old(self).samplers@[j]
                    }),
                forall|j: int| i <= j < self.samplers@.len() ==> self.samplers@[j] == old(self).samplers@[j],
            decreases self.samplers@.len() - i,
        {
            let mut c = self.samplers[i];
            c.rate_multiplier = rate_multiplier;
            self.samplers.set(i, c);
            i = i + 1;
        }
    }

    /// Step animation: every running control whose sampler is loaded jumps to
    /// the neighbouring key frame of its sampler in `direction`. A control whose
    /// sampler is not loaded is skipped.
    pub fn step(&mut self, store: &Vec<Sampler<V>>, direction: StepDirection)
        ensures
            Self::steps_to(old(self).samplers@, final(self).samplers@, store@, direction),
    {
        let mut i: usize = 0;
        while i < self.samplers.len()
            invariant
                i <= self.samplers@.len(),
                self.samplers@.len() == old(self).samplers@.len(),
                forall|j: int|
                    0 <= j < i ==> self.samplers@[j] == ({
                        let c = old(self).samplers@[j];
                        if c.state == ControlState::Done || !is_loaded(store@, c) {
                            c
                        } else {
                            with_state(c, stepped_state(c.state, store@[c.sampler as int].input@, direction))
                        }
                    }),
                forall|j: int| i <= j < self.samplers@.len() ==> self.samplers@[j] == old(self).samplers@[j],
            decreases self.samplers@.len() - i,
        {
            let mut c = self.samplers[i];
            if c.state != ControlState::Done && c.sampler < store.len()
                && store[c.sampler].input.len() > 0 {
                c.state = step_state(c.state, &store[c.sampler].input, direction);
                self.samplers.set(i, c);
            }
            i = i + 1;
        }
    }

    /// Advance every running control by `delta` nanoseconds (scaled by its own
    /// rate), and give what each channel receives on this tick, in the order of
    /// the controls.
    pub fn advance(&mut self, delta: u64, store: &Vec<Sampler<V>>) -> (r: Vec<Sample<V>>)
        ensures
            final(self).samplers@.len() == old(self).samplers@.len(),
            r@.len() == old(self).samplers@.len(),
            forall|j: int|
                0 <= j < old(self).samplers@.len() ==> (final(self).samplers@[j], r@[j])
                    == advanced(
                    old(self).samplers@[j],
                    delta,
                    track_end(store@, old(self).samplers@[j]),
                ),
    {
        let mut out: Vec<Sample<V>> = Vec::new();
        let mut i: usize = 0;
        while i < self.samplers.len()
            invariant
                i <= self.samplers@.len(),
                out@.len() == i,
                self.samplers@.len() == old(self).samplers@.len(),
                forall|j: int|
                    0 <= j < i ==> (self.samplers@[j], out@[j]) == advanced(
                        old(self).samplers@[j],
                        delta,
                        track_end(store@, old(self).samplers@[j]),
                    ),
                forall|j: int| i <= j < self.samplers@.len() ==> self.samplers@[j] == old(self).samplers@[j],
            decreases self.samplers@.len() - i,
        {
            let c = self.samplers[i];
            let end_at: Option<u64> = if c.sampler < store.len() && store[c.sampler].input.len() > 0 {
                let n = store[c.sampler].input.len();
                Some(store[c.sampler].input[n - 1])
            } else {
                None
            };
            let (c2, sample) = advance_control(c, delta, end_at);
            self.samplers.set(i, c2);
            out.push(sample);
            i = i + 1;
        }
        out
    }

    /// Check if a control set can be terminated: every control is done or
    /// still requested.
    pub fn check_termination(&self) -> (r: bool)
        ensures
            r == forall|j: int|
                0 <= j < self.samplers@.len() ==> is_settled(#[trigger] self.samplers@[j].state),
    {
        let mut i: usize = 0;
        while i < self.samplers.len()
            invariant
                i <= self.samplers@.len(),
                forall|j: int| 0 <= j < i ==> is_settled(#[trigger] self.samplers@[j].state),
            decreases self.samplers@.len() - i,
        {
            let s = self.samplers[i].state;
            if !(s == ControlState::Done || s == ControlState::Requested) {
                return false;
            }
            i = i + 1;
        }
        true
    }
}

/// Pausing a control set and then unpausing it leaves every control running:
/// at the time it ran at before the pause, or at zero from any other state.
pub proof fn lemma_pause_unpause_set<V: Copy>(
    before: Seq<SamplerControl<V>>,
    paused: Seq<SamplerControl<V>>,
    after: Seq<SamplerControl<V>>,
)
    requires
        SamplerControlSet::states_mapped(before, paused, |s| paused_state(s)),
        SamplerControlSet::states_mapped(paused, after, |s| unpaused_state(s)),
    ensures
        after.len() == before.len(),
        forall|j: int|
            0 <= j < before.len() ==> after[j] == with_state(
                before[j],
                match before[j].state {
                    ControlState::Running(d) => ControlState::Running(d),
                    _ => ControlState::Running(0),
                },
            ),
{
    assert forall|j: int| 0 <= j < before.len() implies after[j] == with_state(
        before[j],
        match before[j].state {
            ControlState::Running(d) => ControlState::Running(d),
            _ => ControlState::Running(0),
        },
    ) by {
        crate::state::lemma_pause_unpause(before[j].state);
    }
}

/// A backward step over sorted key frames changes nothing when every
/// running control with a loaded sampler stands at its first key frame.
pub proof fn lemma_step_backward_at_first<V: Copy>(
    before: Seq<SamplerControl<V>>,
    after: Seq<SamplerControl<V>>,
    store: Seq<Sampler<V>>,
)
    requires
        forall|k: int| 0 <= k < store.len() ==> is_sorted(#[trigger] store[k].input@),
        forall|j: int|
            0 <= j < before.len() && is_loaded(store, before[j]) && before[j].state is Running
                ==> before[j].state == ControlState::Running(
                store[before[j].sampler as int].input@[0],
            ),
        SamplerControlSet::steps_to(before, after, store, StepDirection::Backward),
    ensures
        after == before,
{
    assert forall|j: int| 0 <= j < before.len() implies after[j] == before[j] by {
        let c = before[j];
        if c.state != ControlState::Done && is_loaded(store, c) {
            let s = store[c.sampler as int].input@;
            if c.state is Running {
                crate::sampler::lemma_step_clamped(s);
            }
        }
    }
    assert(after =~= before);
}

} // verus!
