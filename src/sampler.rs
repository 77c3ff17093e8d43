use vstd::prelude::*;
use crate::state::{ControlState, StepDirection};

verus! {

/// A keyframe track for a single channel: key frame times in nanoseconds and
/// the values at those times.
#[derive(Debug, Clone)]
pub struct Sampler<V> {
    /// Time of key frames
    pub input: Vec<u64>,
    /// Actual output data to interpolate
    pub output: Vec<V>,
}

/// Key frame times never decrease.
pub open spec fn is_sorted(s: Seq<u64>) -> bool {
    forall|i: int, j: int| 0 <= i <= j < s.len() ==> s[i] <= s[j]
}

impl<V> Sampler<V> {
    /// One value per key frame, and key frame times in order.
    pub open spec fn wf(&self) -> bool {
        self.input@.len() == self.output@.len() && is_sorted(self.input@)
    }

    /// The time of the last key frame, which ends the track.
    pub open spec fn end_time(&self) -> u64 {
        self.input@.last()
    }
}

/// The greatest index whose key frame time is at or before `t`, if any.
pub open spec fn input_index(s: Seq<u64>, t: u64) -> Option<int>
    decreases s.len(),
{
    if s.len() == 0 {
        None
    } else if s.last() <= t {
        Some(s.len() - 1)
    } else {
        input_index(s.drop_last(), t)
    }
}

/// The key frame index one step away from `idx` in `dir`, kept within a track
/// of `len` key frames.
pub open spec fn step_target(idx: Option<int>, len: int, dir: StepDirection) -> int {
    match (idx, dir) {
        (Some(i), StepDirection::Forward) => if i >= len - 1 { len - 1 } else { i + 1 },
        (Some(i), StepDirection::Backward) => if i == 0 { 0 } else { i - 1 },
        (None, _) => 0,
    }
}

/// The state after a step over the key frame times `s`: a running state jumps
/// to the time of the neighbouring key frame; other states stay.
pub open spec fn stepped_state(st: ControlState, s: Seq<u64>, dir: StepDirection) -> ControlState {
    match st {
        ControlState::Running(d) => ControlState::Running(
            s[step_target(input_index(s, d), s.len() as int, dir)],
        ),
        _ => st,
    }
}

/// What `input_index` gives: the greatest index at or before `t`, or none when
/// every key frame lies after `t`.
pub proof fn lemma_input_index(s: Seq<u64>, t: u64)
    ensures
        match input_index(s, t) {
            None => forall|j: int| 0 <= j < s.len() ==> s[j] > t,
            Some(i) => 0 <= i < s.len() && s[i] <= t && forall|j: int|
                i < j < s.len() ==> s[j] > t,
        },
    decreases s.len(),
{
    if s.len() > 0 && s.last() > t {
        lemma_input_index(s.drop_last(), t);
        assert forall|j: int| 0 <= j < s.len() - 1 implies s[j] == s.drop_last()[j] by {}
    }
}

/// On sorted key frames the query gives none exactly when `t` precedes the
/// first key frame, and otherwise the greatest index whose time is at or
/// before `t`.
pub proof fn lemma_input_index_sorted(s: Seq<u64>, t: u64)
    requires
        is_sorted(s),
        s.len() > 0,
    ensures
        input_index(s, t) is None <==> t < s[0],
        input_index(s, t) matches Some(i) ==> 0 <= i < s.len() && s[i] <= t && forall|j: int|
            i < j < s.len() ==> s[j] > t,
{
    lemma_input_index(s, t);
}

/// Stepping is idempotent at the track's bounds: forward from the last key
/// frame stays there, and backward from the first key frame stays there.
pub proof fn lemma_step_clamped(s: Seq<u64>)
    requires
        is_sorted(s),
        s.len() > 0,
    ensures
        stepped_state(ControlState::Running(s.last()), s, StepDirection::Forward)
            == ControlState::Running(s.last()),
        stepped_state(ControlState::Running(s[0]), s, StepDirection::Backward)
            == ControlState::Running(s[0]),
        step_target(Some(s.len() - 1), s.len() as int, StepDirection::Forward) == s.len() - 1,
        step_target(Some(0), s.len() as int, StepDirection::Backward) == 0,
{
    lemma_input_index(s, s.last());
    lemma_input_index(s, s[0]);
}

/// On sorted key frames a running state before the first key frame steps
/// to the first key frame, in either direction.
pub proof fn lemma_step_before_first(s: Seq<u64>, d: u64, dir: StepDirection)
    requires
        is_sorted(s),
        s.len() > 0,
        d < s[0],
    ensures
        stepped_state(ControlState::Running(d), s, dir) == ControlState::Running(s[0]),
{
    lemma_input_index_sorted(s, d);
}

/// On sorted key frames a backward step from the first key frame's span (at
/// index 0, or before any key frame) stays at the first key frame.
pub proof fn lemma_step_backward_first(s: Seq<u64>, d: u64)
    requires
        is_sorted(s),
        s.len() > 0,
        s.len() == 1 || d < s[1],
    ensures
        stepped_state(ControlState::Running(d), s, StepDirection::Backward)
            == ControlState::Running(s[0]),
{
    lemma_input_index(s, d);
    if s.len() > 1 {
        assert forall|j: int| 1 <= j < s.len() implies s[j] > d by {
            assert(s[1] <= s[j]);
        }
    }
}

/// The index of the key frame at or before `t`: the greatest index whose time
/// is at most `t`, or `None` when `t` precedes every key frame.
pub fn get_input_index(t: u64, input: &Vec<u64>) -> (r: Option<usize>)
    ensures
        r matches Some(i) ==> input_index(input@, t) == Some(i as int),
        r is None ==> input_index(input@, t) is None,
{
    let mut i: usize = input.len();
    assert(input@.subrange(0, i as int) =~= input@);
    while i > 0 && input[i - 1] > t
        invariant
            i <= input@.len(),
            input_index(input@, t) == input_index(input@.subrange(0, i as int), t),
        decreases i,
    {
        let ghost sub = input@.subrange(0, i as int);
        assert(sub.drop_last() =~= input@.subrange(0, i - 1));
        i = i - 1;
    }
    if i == 0 {
        None
    } else {
        Some(i - 1)
    }
}

/// The key frame index one step away from `idx`, kept within `len` key frames.
pub fn step_index(idx: Option<usize>, len: usize, dir: StepDirection) -> (r: usize)
    requires
        len > 0,
        idx matches Some(i) ==> i < len,
    ensures
        r as int == step_target(
            match idx {
                Some(i) => Some(i as int),
                None => None,
            },
            len as int,
            dir,
        ),
        r < len,
{
    match (idx, dir) {
        (Some(i), StepDirection::Forward) => if i >= len - 1 { len - 1 } else { i + 1 },
        (Some(i), StepDirection::Backward) => if i == 0 { 0 } else { i - 1 },
        (None, _) => 0,
    }
}

/// Step a state over the key frame times `input`.
pub fn step_state(st: ControlState, input: &Vec<u64>, dir: StepDirection) -> (r: ControlState)
    requires
        st is Running ==> input@.len() > 0,
    ensures
        r == stepped_state(st, input@, dir),
{
    match st {
        ControlState::Running(d) => {
            let idx = get_input_index(d, input);
            proof {
                lemma_input_index(input@, d);
            }
            let n = step_index(idx, input.len(), dir);
            ControlState::Running(input[n])
        },
        _ => st,
    }
}

} // verus!
