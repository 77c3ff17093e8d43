use amethyst_animation::control::AnimationControl;
use amethyst_animation::control_set::{scale, Sample, SamplerControl, SamplerControlSet};
use amethyst_animation::hierarchy::{Animation, AnimationHierarchy};
use amethyst_animation::sampler::{get_input_index, step_index, step_state, Sampler};
use amethyst_animation::state::{AnimationCommand, ControlState, EndControl, StepDirection};

const SEC: u64 = 1_000_000_000;

fn control(channel: u64, state: ControlState, end: EndControl) -> SamplerControl<i32> {
    SamplerControl {
        channel,
        sampler: 0,
        state,
        end,
        after: -1,
        rate_multiplier: 1000,
    }
}

fn track() -> Vec<Sampler<i32>> {
    vec![Sampler {
        input: vec![0, SEC, 2 * SEC],
        output: vec![10, 20, 30],
    }]
}

fn set_of(states: &[ControlState]) -> SamplerControlSet<i32> {
    let mut set = SamplerControlSet::new();
    for (i, s) in states.iter().enumerate() {
        set.set_channel(i as u64, control(i as u64, *s, EndControl::Normal));
    }
    set
}

#[test]
fn state_predicates() {
    assert!(ControlState::Running(3).is_running());
    assert!(!ControlState::Paused(3).is_running());
    assert!(ControlState::Paused(3).is_paused());
    assert!(!ControlState::Requested.is_paused());
    assert!(!ControlState::Done.is_running());
}

#[test]
fn input_index_before_first_is_none() {
    let input = vec![SEC, 2 * SEC, 3 * SEC];
    assert_eq!(get_input_index(SEC / 2, &input), None);
    assert_eq!(get_input_index(0, &Vec::new()), None);
}

#[test]
fn input_index_is_greatest_at_or_before() {
    let input = vec![0, SEC, 2 * SEC];
    assert_eq!(get_input_index(0, &input), Some(0));
    assert_eq!(get_input_index(SEC / 2, &input), Some(0));
    assert_eq!(get_input_index(SEC, &input), Some(1));
    assert_eq!(get_input_index(3 * SEC / 2, &input), Some(1));
    assert_eq!(get_input_index(5 * SEC, &input), Some(2));
}

#[test]
fn step_clamps_at_bounds() {
    let input = vec![0, SEC, 2 * SEC];
    assert_eq!(step_index(Some(2), 3, StepDirection::Forward), 2);
    assert_eq!(step_index(Some(0), 3, StepDirection::Backward), 0);
    assert_eq!(step_index(None, 3, StepDirection::Forward), 0);
    assert_eq!(
        step_state(ControlState::Running(2 * SEC), &input, StepDirection::Forward),
        ControlState::Running(2 * SEC)
    );
    assert_eq!(
        step_state(ControlState::Running(0), &input, StepDirection::Backward),
        ControlState::Running(0)
    );
}

#[test]
fn step_moves_one_key_frame() {
    let input = vec![0, SEC, 2 * SEC];
    assert_eq!(
        step_state(ControlState::Running(SEC / 2), &input, StepDirection::Forward),
        ControlState::Running(SEC)
    );
    assert_eq!(
        step_state(ControlState::Running(3 * SEC / 2), &input, StepDirection::Backward),
        ControlState::Running(0)
    );
    assert_eq!(
        step_state(ControlState::Paused(SEC / 2), &input, StepDirection::Forward),
        ControlState::Paused(SEC / 2)
    );
}

#[test]
fn set_step_skips_done_controls() {
    let store = track();
    let mut set = set_of(&[ControlState::Running(SEC / 2), ControlState::Done]);
    set.step(&store, StepDirection::Forward);
    assert_eq!(set.samplers[0].state, ControlState::Running(SEC));
    assert_eq!(set.samplers[1].state, ControlState::Done);
}

#[test]
fn pause_then_unpause_round_trip() {
    let mut set = set_of(&[
        ControlState::Running(700),
        ControlState::Requested,
        ControlState::Paused(5),
    ]);
    set.pause();
    assert_eq!(set.samplers[0].state, ControlState::Paused(700));
    assert_eq!(set.samplers[1].state, ControlState::Paused(0));
    assert_eq!(set.samplers[2].state, ControlState::Paused(0));
    set.unpause();
    assert_eq!(set.samplers[0].state, ControlState::Running(700));
    assert_eq!(set.samplers[1].state, ControlState::Running(0));
    assert_eq!(set.samplers[2].state, ControlState::Running(0));
}

#[test]
fn unpause_leaves_other_states() {
    let mut set = set_of(&[ControlState::Requested, ControlState::Done, ControlState::Paused(9)]);
    set.unpause();
    assert_eq!(set.samplers[0].state, ControlState::Requested);
    assert_eq!(set.samplers[1].state, ControlState::Done);
    assert_eq!(set.samplers[2].state, ControlState::Running(9));
}

#[test]
fn termination_check() {
    assert!(set_of(&[]).check_termination());
    assert!(set_of(&[ControlState::Requested, ControlState::Done]).check_termination());
    assert!(!set_of(&[ControlState::Done, ControlState::Running(0)]).check_termination());
    assert!(!set_of(&[ControlState::Paused(1)]).check_termination());
    assert!(!set_of(&[ControlState::Requested, ControlState::Abort]).check_termination());
}

#[test]
fn abort_keeps_done() {
    let mut set = set_of(&[ControlState::Running(4), ControlState::Done, ControlState::Requested]);
    set.abort();
    assert_eq!(set.samplers[0].state, ControlState::Abort);
    assert_eq!(set.samplers[1].state, ControlState::Done);
    assert_eq!(set.samplers[2].state, ControlState::Abort);
}

#[test]
fn set_input_only_moves_running() {
    let mut set = set_of(&[ControlState::Running(4), ControlState::Paused(3), ControlState::Requested]);
    set.set_input(SEC);
    assert_eq!(set.samplers[0].state, ControlState::Running(SEC));
    assert_eq!(set.samplers[1].state, ControlState::Paused(3));
    assert_eq!(set.samplers[2].state, ControlState::Requested);
}

#[test]
fn set_rate_multiplier_broadcasts() {
    let mut set = set_of(&[ControlState::Running(4), ControlState::Done]);
    set.set_rate_multiplier(2500);
    assert_eq!(set.samplers[0].rate_multiplier, 2500);
    assert_eq!(set.samplers[1].rate_multiplier, 2500);
    assert_eq!(set.samplers[0].state, ControlState::Running(4));
}

#[test]
fn set_channel_replaces_or_adds() {
    let mut set = set_of(&[ControlState::Requested]);
    set.set_channel(0, control(7, ControlState::Done, EndControl::Normal));
    assert_eq!(set.samplers.len(), 1);
    assert_eq!(set.samplers[0].state, ControlState::Done);
    assert_eq!(set.samplers[0].channel, 0);
    set.set_channel(5, control(5, ControlState::Requested, EndControl::Normal));
    assert_eq!(set.samplers.len(), 2);
    assert_eq!(set.samplers[1].channel, 5);
}

#[test]
fn scale_by_rate() {
    assert_eq!(scale(SEC, 1000), SEC);
    assert_eq!(scale(SEC, 1500), 3 * SEC / 2);
    assert_eq!(scale(10, 333), 3);
    assert_eq!(scale(u64::MAX, 2000), u64::MAX);
}

#[test]
fn loop_twice_then_done() {
    let store = vec![Sampler { input: vec![0, SEC], output: vec![1, 2] }];
    let mut set = SamplerControlSet::new();
    set.set_channel(0, control(0, ControlState::Running(0), EndControl::Loop(Some(2))));
    let out = set.advance(3 * SEC / 2, &store);
    assert_eq!(out, vec![Sample::At(SEC / 2)]);
    assert_eq!(set.samplers[0].state, ControlState::Running(SEC / 2));
    assert_eq!(set.samplers[0].end, EndControl::Loop(Some(1)));
    let out = set.advance(SEC, &store);
    assert_eq!(out, vec![Sample::At(SEC / 2)]);
    assert_eq!(set.samplers[0].state, ControlState::Running(SEC / 2));
    assert_eq!(set.samplers[0].end, EndControl::Loop(Some(0)));
    let out = set.advance(SEC, &store);
    assert_eq!(out, vec![Sample::Rest(-1)]);
    assert_eq!(set.samplers[0].state, ControlState::Done);
}

fn started(end: EndControl) -> (AnimationControl, SamplerControlSet<i32>) {
    let store = track();
    let mut anim = AnimationControl::new(0, end, ControlState::Requested, AnimationCommand::Start, 1000);
    let mut set = SamplerControlSet::new();
    set.set_channel(3, control(3, ControlState::Requested, end));
    anim.apply_command(&mut set, &store);
    assert_eq!(anim.state, ControlState::Running(0));
    assert_eq!(set.samplers[0].state, ControlState::Running(0));
    (anim, set)
}

#[test]
fn end_to_end_normal() {
    let store = track();
    let (mut anim, mut set) = started(EndControl::Normal);
    let out = anim.advance(&mut set, SEC / 2, &store);
    assert_eq!(out, vec![Sample::At(SEC / 2)]);
    assert!(!anim.finish(&set));
    assert_eq!(anim.state, ControlState::Running(0));
    let out = anim.advance(&mut set, SEC, &store);
    assert_eq!(out, vec![Sample::At(3 * SEC / 2)]);
    let out = anim.advance(&mut set, SEC / 2, &store);
    assert_eq!(out, vec![Sample::Rest(-1)]);
    assert_eq!(set.samplers[0].state, ControlState::Done);
    assert!(!anim.finish(&set));
    assert_eq!(anim.state, ControlState::Done);
}

#[test]
fn end_to_end_loop_forever() {
    let store = track();
    let (mut anim, mut set) = started(EndControl::Loop(None));
    anim.advance(&mut set, SEC, &store);
    let out = anim.advance(&mut set, 3 * SEC / 2, &store);
    assert_eq!(out, vec![Sample::At(SEC / 2)]);
    assert_eq!(set.samplers[0].state, ControlState::Running(SEC / 2));
    assert!(!anim.finish(&set));
    assert_eq!(anim.state, ControlState::Running(0));
}

#[test]
fn rates_compose() {
    let store = track();
    let (mut anim, mut set) = started(EndControl::Normal);
    anim.rate_multiplier = 2000;
    set.set_rate_multiplier(500);
    let out = anim.advance(&mut set, SEC / 4, &store);
    assert_eq!(out, vec![Sample::At(SEC / 4)]);
}

#[test]
fn seek_while_paused_is_ignored() {
    let store = track();
    let (mut anim, mut set) = started(EndControl::Normal);
    anim.advance(&mut set, SEC / 2, &store);
    anim.command = Some(AnimationCommand::SetInputValue(SEC));
    anim.apply_command(&mut set, &store);
    assert_eq!(set.samplers[0].state, ControlState::Running(SEC));
    anim.command = Some(AnimationCommand::Pause);
    anim.apply_command(&mut set, &store);
    assert_eq!(anim.state, ControlState::Paused(SEC));
    assert_eq!(set.samplers[0].state, ControlState::Paused(SEC));
    anim.command = Some(AnimationCommand::SetInputValue(SEC / 4));
    anim.apply_command(&mut set, &store);
    assert_eq!(anim.state, ControlState::Paused(SEC));
    assert_eq!(set.samplers[0].state, ControlState::Paused(SEC));
    anim.command = Some(AnimationCommand::Start);
    anim.apply_command(&mut set, &store);
    assert_eq!(set.samplers[0].state, ControlState::Running(SEC));
}

#[test]
fn step_command_moves_channels() {
    let store = track();
    let (mut anim, mut set) = started(EndControl::Normal);
    anim.command = Some(AnimationCommand::Step(StepDirection::Forward));
    anim.apply_command(&mut set, &store);
    assert_eq!(set.samplers[0].state, ControlState::Running(SEC));
    anim.command = Some(AnimationCommand::Step(StepDirection::Backward));
    anim.apply_command(&mut set, &store);
    assert_eq!(set.samplers[0].state, ControlState::Running(0));
}

#[test]
fn abort_command_removes() {
    let store = track();
    let (mut anim, mut set) = started(EndControl::Normal);
    anim.command = Some(AnimationCommand::Abort);
    anim.apply_command(&mut set, &store);
    assert_eq!(anim.state, ControlState::Abort);
    assert_eq!(set.samplers[0].state, ControlState::Abort);
    assert!(anim.finish(&set));
}

#[test]
fn hierarchy_lookup() {
    assert_eq!(AnimationHierarchy::new().get(0), None);
    let single = AnimationHierarchy::new_single(2, 40);
    assert_eq!(single.get(2), Some(40));
    assert_eq!(single.get(1), None);
    let many = AnimationHierarchy::new_many(vec![(0, 10), (1, 11), (0, 12)]);
    assert_eq!(many.get(0), Some(12));
    assert_eq!(many.get(1), Some(11));
    assert_eq!(many.get(9), None);
}

#[test]
fn animation_resolves_targets() {
    let anim = Animation { nodes: vec![(0, 1, 0), (1, 2, 0), (5, 1, 0)] };
    let h = AnimationHierarchy::new_many(vec![(0, 10), (1, 11)]);
    assert_eq!(anim.resolve(Some(&h), 99), vec![Some(10), Some(11), None]);
    assert_eq!(anim.resolve(None, 99), vec![Some(99), Some(99), Some(99)]);
}

#[test]
fn unloaded_sampler_is_skipped() {
    let store = track();
    let mut set = SamplerControlSet::new();
    set.set_channel(0, control(0, ControlState::Running(SEC / 2), EndControl::Normal));
    let mut missing = control(1, ControlState::Running(SEC / 2), EndControl::Normal);
    missing.sampler = 7;
    set.set_channel(1, missing);
    let out = set.advance(SEC / 4, &store);
    assert_eq!(out, vec![Sample::At(3 * SEC / 4), Sample::Hold]);
    assert_eq!(set.samplers[1].state, ControlState::Running(SEC / 2));
    set.step(&store, StepDirection::Forward);
    assert_eq!(set.samplers[0].state, ControlState::Running(SEC));
    assert_eq!(set.samplers[1].state, ControlState::Running(SEC / 2));
}

#[test]
fn empty_track_ends_nothing_when_not_running() {
    assert_eq!(
        step_state(ControlState::Paused(4), &Vec::new(), StepDirection::Forward),
        ControlState::Paused(4)
    );
}

#[test]
fn track_of_no_length_ends_at_once() {
    let store = vec![Sampler { input: vec![0], output: vec![5] }];
    let mut set = SamplerControlSet::new();
    set.set_channel(0, control(0, ControlState::Running(0), EndControl::Loop(None)));
    assert_eq!(set.advance(1, &store), vec![Sample::Rest(-1)]);
    assert_eq!(set.samplers[0].state, ControlState::Done);
}

#[test]
fn aborted_control_rests() {
    let store = track();
    let mut set = set_of(&[ControlState::Abort, ControlState::Requested]);
    assert_eq!(set.advance(SEC, &store), vec![Sample::Rest(-1), Sample::Hold]);
}

#[test]
fn command_is_used_up() {
    let store = track();
    let (mut anim, mut set) = started(EndControl::Normal);
    assert_eq!(anim.command, None);
    anim.advance(&mut set, SEC / 2, &store);
    anim.command = Some(AnimationCommand::Pause);
    anim.apply_command(&mut set, &store);
    assert_eq!(anim.command, None);
    anim.apply_command(&mut set, &store);
    assert_eq!(anim.state, ControlState::Paused(0));
    assert_eq!(set.samplers[0].state, ControlState::Paused(SEC / 2));
    anim.command = Some(AnimationCommand::Pause);
    anim.apply_command(&mut set, &store);
    assert_eq!(set.samplers[0].state, ControlState::Paused(SEC / 2));
    anim.command = Some(AnimationCommand::Start);
    anim.apply_command(&mut set, &store);
    assert_eq!(anim.state, ControlState::Running(0));
    assert_eq!(set.samplers[0].state, ControlState::Running(SEC / 2));
}

#[test]
fn step_is_applied_once() {
    let store = track();
    let (mut anim, mut set) = started(EndControl::Normal);
    anim.command = Some(AnimationCommand::Step(StepDirection::Forward));
    anim.apply_command(&mut set, &store);
    anim.apply_command(&mut set, &store);
    assert_eq!(set.samplers[0].state, ControlState::Running(SEC));
}

#[test]
fn loop_counts_one_wrap_per_tick() {
    let store = vec![Sampler { input: vec![0, SEC], output: vec![1, 2] }];
    let mut set = SamplerControlSet::new();
    set.set_channel(0, control(0, ControlState::Running(0), EndControl::Loop(Some(2))));
    assert_eq!(set.advance(3 * SEC / 2, &store), vec![Sample::At(SEC / 2)]);
    assert_eq!(set.advance(3 * SEC / 2, &store), vec![Sample::At(0)]);
    assert_eq!(set.samplers[0].state, ControlState::Running(0));
    assert_eq!(set.samplers[0].end, EndControl::Loop(Some(0)));
    assert!(!set.check_termination());
    assert_eq!(set.advance(3 * SEC / 2, &store), vec![Sample::Rest(-1)]);
    assert_eq!(set.samplers[0].state, ControlState::Done);
    assert!(set.check_termination());
}
