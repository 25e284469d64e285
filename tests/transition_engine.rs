use bevy_animation_graph::animation_collection::AnimationCollection;
use bevy_animation_graph::animation_graph::{
    AnimationGraph, AnimationGraphErr, AnimationTransitionCondition, AnimationTransitionMode,
};
use bevy_animation_graph::animation_manager::{
    tick_animation, transition_animations, AnimationManager,
};
use bevy_animation_graph::spritesheet_animation::{
    AnimationBounds, SpritesheetAnimation, SpritesheetAnimationCollection,
};

const MS: u64 = 1_000_000;

fn always() -> AnimationTransitionCondition {
    AnimationTransitionCondition::new(None, false)
}

fn when(name: &str) -> AnimationTransitionCondition {
    AnimationTransitionCondition::new(Some(name.to_string()), false)
}

fn unless(name: &str) -> AnimationTransitionCondition {
    AnimationTransitionCondition::new(Some(name.to_string()), true)
}

fn clip(first: usize, last: usize, millis: u64) -> SpritesheetAnimation {
    SpritesheetAnimation::new(AnimationBounds::new(first, last), millis * MS)
}

#[test]
fn graph_without_nodes_is_refused() {
    assert!(matches!(AnimationGraph::new(0, 0), Err(AnimationGraphErr::EmptyGraph)));
    assert!(matches!(AnimationManager::new(0, 0), Err(AnimationGraphErr::EmptyGraph)));
}

#[test]
fn start_node_out_of_range_is_refused() {
    assert!(matches!(AnimationGraph::new(3, 3), Err(AnimationGraphErr::InvalidStartNode)));
    assert!(matches!(AnimationManager::new(2, 5), Err(AnimationGraphErr::InvalidStartNode)));
}

#[test]
fn new_graph_starts_at_start_node() {
    let graph = AnimationGraph::new(4, 2).unwrap();
    assert_eq!(graph.len(), 4);
    assert_eq!(graph.active_node(), 2);
    let manager = AnimationManager::new(4, 3).unwrap();
    assert_eq!(manager.active_node(), 3);
    assert_eq!(manager.node_num(), 4);
}

#[test]
fn edge_with_invalid_index_is_refused() {
    let mut graph = AnimationGraph::new(2, 0).unwrap();
    assert_eq!(graph.add_edge(0, 2, always()), Err(AnimationGraphErr::NodeIndexOutOfBounds));
    assert_eq!(graph.add_edge(2, 0, always()), Err(AnimationGraphErr::NodeIndexOutOfBounds));
    assert_eq!(graph.add_edge(0, 1, always()), Ok(()));
    let mut manager = AnimationManager::new(2, 0).unwrap();
    assert_eq!(
        manager.add_graph_edge(5, 0, always()),
        Err(AnimationGraphErr::NodeIndexOutOfBounds)
    );
}

/// Runs one transition step from node 0 of a two-node manager whose only edge
/// is `condition`, with states `a` = true and `b` = false declared, and
/// returns the node reached.
fn step_on(condition: AnimationTransitionCondition, finished: bool) -> usize {
    let mut manager = AnimationManager::new(2, 0).unwrap();
    manager.add_state("a".to_string(), true);
    manager.add_state("b".to_string(), false);
    manager.add_graph_edge(0, 1, condition).unwrap();
    let mut clips = SpritesheetAnimationCollection::new(vec![clip(0, 3, 100), clip(4, 6, 100)]);
    if finished {
        clips.current_frame_index = 4;
    }
    transition_animations(&mut manager, &mut clips);
    manager.active_node()
}

fn immediate(condition: AnimationTransitionCondition) -> AnimationTransitionCondition {
    condition.with_mode(AnimationTransitionMode::Immediate)
}

#[test]
fn condition_reads_named_state() {
    assert_eq!(step_on(immediate(always()), false), 1);
    assert_eq!(step_on(immediate(AnimationTransitionCondition::new(None, true)), false), 0);
    assert_eq!(step_on(immediate(when("a")), false), 1);
    assert_eq!(step_on(immediate(when("b")), false), 0);
    assert_eq!(step_on(immediate(unless("a")), false), 0);
    assert_eq!(step_on(immediate(unless("b")), false), 1);
}

#[test]
fn negated_absent_state_is_false() {
    assert_eq!(step_on(immediate(unless("missing")), false), 0);
    assert_eq!(step_on(immediate(when("missing")), false), 0);
    assert_eq!(step_on(unless("missing"), true), 0);
}

#[test]
fn with_mode_changes_only_the_mode() {
    let condition = when("a").with_mode(AnimationTransitionMode::Immediate);
    assert_eq!(condition.mode, AnimationTransitionMode::Immediate);
    assert_eq!(condition.state, Some("a".to_string()));
    assert!(!condition.negated);
    assert_eq!(when("a").mode, AnimationTransitionMode::AfterFinish);
    assert_eq!(AnimationTransitionMode::default(), AnimationTransitionMode::AfterFinish);
}

#[test]
fn first_declared_edge_wins() {
    for finished in [false, true] {
        let mut manager = AnimationManager::new(3, 0).unwrap();
        manager.add_graph_edge(0, 2, immediate(always())).unwrap();
        manager.add_graph_edge(0, 1, immediate(always())).unwrap();
        let mut clips =
            SpritesheetAnimationCollection::new(vec![clip(0, 3, 100), clip(4, 6, 100), clip(7, 8, 100)]);
        if finished {
            clips.current_frame_index = 4;
        }
        transition_animations(&mut manager, &mut clips);
        assert_eq!(manager.active_node(), 2);
    }
}

#[test]
fn later_edge_fires_when_earlier_does_not() {
    let mut manager = AnimationManager::new(3, 0).unwrap();
    manager.add_state("go".to_string(), false);
    manager.add_graph_edge(0, 2, immediate(when("go"))).unwrap();
    manager.add_graph_edge(0, 1, immediate(always())).unwrap();
    let mut clips =
        SpritesheetAnimationCollection::new(vec![clip(0, 3, 100), clip(4, 6, 100), clip(7, 8, 100)]);
    transition_animations(&mut manager, &mut clips);
    assert_eq!(manager.active_node(), 1);
}

#[test]
fn after_finish_edge_waits_for_finish() {
    assert_eq!(step_on(always(), false), 0);
    assert_eq!(step_on(always(), true), 1);
}

#[test]
fn immediate_edge_ignores_finish() {
    assert_eq!(step_on(immediate(always()), false), 1);
    assert_eq!(step_on(immediate(always()), true), 1);
}

#[test]
fn node_without_edges_never_moves() {
    let mut manager = AnimationManager::new(2, 1).unwrap();
    manager.add_graph_edge(0, 1, immediate(always())).unwrap();
    let mut clips = SpritesheetAnimationCollection::new(vec![clip(0, 3, 100), clip(4, 6, 100)]);
    clips.transition(1);
    transition_animations(&mut manager, &mut clips);
    assert_eq!(manager.active_node(), 1);
    clips.current_frame_index = 7;
    transition_animations(&mut manager, &mut clips);
    assert_eq!(manager.active_node(), 1);
    assert_eq!(clips.current_frame_index, 7);
}

#[test]
fn transition_restarts_target_clip() {
    let mut manager = AnimationManager::new(2, 0).unwrap();
    manager
        .add_graph_edge(0, 1, always().with_mode(AnimationTransitionMode::Immediate))
        .unwrap();
    let mut clips = SpritesheetAnimationCollection::new(vec![clip(0, 3, 100), clip(4, 6, 100)]);
    clips.current_frame_index = 2;
    clips.frame_elapsed_nanos = 7;
    transition_animations(&mut manager, &mut clips);
    assert_eq!(manager.active_node(), 1);
    assert_eq!(clips.current_animation_index, 1);
    assert_eq!(clips.current_frame_index, 4);
    assert_eq!(clips.frame_elapsed_nanos, 0);
    assert!(!clips.is_current_animation_finished());
}

#[test]
fn no_firing_edge_leaves_everything() {
    let mut manager = AnimationManager::new(2, 0).unwrap();
    manager.add_graph_edge(0, 1, always()).unwrap();
    let mut clips = SpritesheetAnimationCollection::new(vec![clip(0, 3, 100), clip(4, 6, 100)]);
    clips.current_frame_index = 2;
    clips.frame_elapsed_nanos = 7;
    transition_animations(&mut manager, &mut clips);
    assert_eq!(manager.active_node(), 0);
    assert_eq!(clips.current_animation_index, 0);
    assert_eq!(clips.current_frame_index, 2);
    assert_eq!(clips.frame_elapsed_nanos, 7);
}

#[test]
fn self_loop_restarts_clip_every_tick() {
    let mut manager = AnimationManager::new(1, 0).unwrap();
    manager
        .add_graph_edge(0, 0, always().with_mode(AnimationTransitionMode::Immediate))
        .unwrap();
    let mut clips = SpritesheetAnimationCollection::new(vec![clip(2, 5, 100)]);
    for _ in 0..5 {
        assert_eq!(tick_animation(&mut manager, &mut clips, 150 * MS), 0);
        assert_eq!(clips.current_frame_index, 2);
        assert_eq!(clips.frame_elapsed_nanos, 0);
    }
}

#[test]
fn terminal_node_keeps_finished_clip() {
    let mut manager = AnimationManager::new(2, 0).unwrap();
    manager.add_graph_edge(0, 1, always()).unwrap();
    let mut clips = SpritesheetAnimationCollection::new(vec![clip(0, 0, 100), clip(3, 4, 100)]);
    // node 0 finishes after one frame and moves on to the terminal node 1
    assert_eq!(tick_animation(&mut manager, &mut clips, 100 * MS), 1);
    assert_eq!(clips.current_frame_index, 3);
    tick_animation(&mut manager, &mut clips, 100 * MS);
    tick_animation(&mut manager, &mut clips, 100 * MS);
    assert!(clips.is_current_animation_finished());
    assert_eq!(clips.current_frame_index, 5);
    for _ in 0..10 {
        assert_eq!(tick_animation(&mut manager, &mut clips, 100 * MS), 1);
        assert!(clips.is_current_animation_finished());
        assert_eq!(clips.current_frame_index, 5);
    }
}

#[test]
fn idle_climb_jump_scenario() {
    let mut manager = AnimationManager::new(3, 0).unwrap();
    manager.add_state("climb".to_string(), false);
    manager.add_state("jump".to_string(), false);
    manager
        .add_graph_edge(0, 1, when("climb").with_mode(AnimationTransitionMode::Immediate))
        .unwrap();
    manager.add_graph_edge(0, 0, always()).unwrap();
    manager
        .add_graph_edge(1, 0, unless("climb").with_mode(AnimationTransitionMode::Immediate))
        .unwrap();
    manager
        .add_graph_edge(1, 2, when("jump").with_mode(AnimationTransitionMode::Immediate))
        .unwrap();
    manager.add_graph_edge(2, 0, always()).unwrap();
    let mut clips = SpritesheetAnimationCollection::new(vec![
        clip(0, 3, 500),
        clip(5, 6, 300),
        clip(7, 8, 500),
    ]);

    for _ in 0..30 {
        assert_eq!(tick_animation(&mut manager, &mut clips, 100 * MS), 0);
    }

    manager.set_state("climb".to_string(), true).unwrap();
    assert_eq!(tick_animation(&mut manager, &mut clips, 100 * MS), 1);
    assert_eq!(clips.current_frame_index, 5);

    manager.set_state("jump".to_string(), true).unwrap();
    assert_eq!(tick_animation(&mut manager, &mut clips, 100 * MS), 2);
    assert_eq!(clips.current_frame_index, 7);

    for _ in 0..9 {
        assert_eq!(tick_animation(&mut manager, &mut clips, 100 * MS), 2);
        assert!(!clips.is_current_animation_finished());
    }
    assert_eq!(tick_animation(&mut manager, &mut clips, 100 * MS), 0);
    assert_eq!(clips.current_animation_index, 0);
    assert_eq!(clips.current_frame_index, 0);
    assert_eq!(clips.frame_elapsed_nanos, 0);
}
