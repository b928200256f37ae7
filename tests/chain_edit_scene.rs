use track_terrain::chain::chain_frames;
use track_terrain::scene::{
    advance, is_core_geometry, overlay_flag, sampler_step, visibility, Event, Phase, SceneItem,
    Step, ViewOptions,
};
use track_terrain::segments::{
    default_insert_index, delete_segment, insert_segment, move_segment_down, move_segment_up,
};

/// A planar rigid motion with yaw in quarter turns, exact in integers.
#[derive(Clone, Copy, Debug, PartialEq)]
struct Pose {
    x: i64,
    y: i64,
    quarter_turns: i64,
}

fn then(a: Pose, b: Pose) -> Pose {
    let (dx, dy) = match a.quarter_turns.rem_euclid(4) {
        0 => (b.x, b.y),
        1 => (-b.y, b.x),
        2 => (-b.x, -b.y),
        _ => (b.y, -b.x),
    };
    Pose { x: a.x + dx, y: a.y + dy, quarter_turns: (a.quarter_turns + b.quarter_turns).rem_euclid(4) }
}

const IDENTITY: Pose = Pose { x: 0, y: 0, quarter_turns: 0 };

#[test]
fn straight_then_quarter_left() {
    let straight = Pose { x: 10, y: 0, quarter_turns: 0 };
    let quarter_left = Pose { x: 10, y: 10, quarter_turns: 1 };
    let frames = chain_frames(IDENTITY, &vec![Some(straight), Some(quarter_left)], then);
    assert_eq!(frames.len(), 3);
    assert_eq!(frames[0], IDENTITY);
    assert_eq!(frames[1], straight);
    assert_eq!(frames[2], Pose { x: 20, y: 10, quarter_turns: 1 });
}

#[test]
fn chain_entries_follow_previous_exits() {
    let ends = vec![
        Some(Pose { x: 10, y: 10, quarter_turns: 1 }),
        Some(Pose { x: 5, y: 0, quarter_turns: 0 }),
        Some(Pose { x: 3, y: -3, quarter_turns: 3 }),
    ];
    let frames = chain_frames(IDENTITY, &ends, then);
    for k in 0..ends.len() {
        assert_eq!(frames[k + 1], then(frames[k], ends[k].unwrap()));
    }
    assert_eq!(frames[2], Pose { x: 10, y: 15, quarter_turns: 1 });
    assert_eq!(frames[3], Pose { x: 13, y: 18, quarter_turns: 0 });
}

#[test]
fn skipped_segment_leaves_chain_unchanged() {
    let a = Pose { x: 10, y: 0, quarter_turns: 0 };
    let b = Pose { x: 10, y: 10, quarter_turns: 1 };
    let with_skip = chain_frames(IDENTITY, &vec![Some(a), None, Some(b)], then);
    let without = chain_frames(IDENTITY, &vec![Some(a), Some(b)], then);
    assert_eq!(with_skip[1], with_skip[2]);
    assert_eq!(with_skip.last(), without.last());
}

#[test]
fn empty_track_list_chain() {
    let frames = chain_frames(IDENTITY, &Vec::new(), then);
    assert_eq!(frames, vec![IDENTITY]);
}

#[test]
fn chain_with_integer_offsets() {
    let frames = chain_frames(7i64, &vec![Some(3i64), None, Some(-2)], |a: i64, b: i64| a + b);
    assert_eq!(frames, vec![7, 10, 10, 8]);
}

#[test]
fn insert_clamps_to_end() {
    let mut list = vec![1, 2, 3];
    assert_eq!(insert_segment(&mut list, 1, 9), 1);
    assert_eq!(list, vec![1, 9, 2, 3]);
    assert_eq!(insert_segment(&mut list, 10, 8), 4);
    assert_eq!(list, vec![1, 9, 2, 3, 8]);
    assert_eq!(insert_segment(&mut list, 0, 7), 0);
    assert_eq!(list, vec![7, 1, 9, 2, 3, 8]);
}

#[test]
fn default_index_before_last() {
    assert_eq!(default_insert_index(0), 0);
    assert_eq!(default_insert_index(1), 0);
    assert_eq!(default_insert_index(7), 6);
}

#[test]
fn delete_in_and_out_of_range() {
    let mut list = vec![1, 2, 3];
    assert!(delete_segment(&mut list, 1));
    assert_eq!(list, vec![1, 3]);
    assert!(!delete_segment(&mut list, 2));
    assert_eq!(list, vec![1, 3]);
}

#[test]
fn move_up_and_down() {
    let mut list = vec![1, 2, 3];
    assert!(!move_segment_up(&mut list, 0));
    assert!(move_segment_up(&mut list, 2));
    assert_eq!(list, vec![1, 3, 2]);
    assert!(!move_segment_down(&mut list, 2));
    assert!(!move_segment_up(&mut list, 5));
    assert!(move_segment_down(&mut list, 0));
    assert_eq!(list, vec![3, 1, 2]);
    assert_eq!(list.len(), 3);
}

#[test]
fn view_options_govern_visibility() {
    let mut options = ViewOptions::new();
    assert_eq!(visibility(SceneItem::TrackRibbon, &options), Some(false));
    assert_eq!(visibility(SceneItem::Terrain, &options), Some(false));
    options.show_track = true;
    options.show_terrain = true;
    assert_eq!(visibility(SceneItem::TrackRibbon, &options), Some(true));
    assert_eq!(visibility(SceneItem::Terrain, &options), Some(true));
    assert_eq!(visibility(SceneItem::TrackMapPreview, &options), Some(false));
    options.show_track_texture = true;
    assert_eq!(visibility(SceneItem::TrackMapPreview, &options), Some(true));
    assert_eq!(visibility(SceneItem::TrackMapRibbon, &options), None);
    assert_eq!(visibility(SceneItem::Fixture, &options), None);
}

#[test]
fn overlay_switch() {
    let mut options = ViewOptions::new();
    assert_eq!(overlay_flag(&options), 0);
    options.show_track_map = true;
    assert_eq!(overlay_flag(&options), 1);
}

#[test]
fn core_geometry_is_rebuilt() {
    assert!(is_core_geometry(SceneItem::TrackRibbon));
    assert!(is_core_geometry(SceneItem::TrackMapRibbon));
    assert!(is_core_geometry(SceneItem::TrackMapCamera));
    assert!(is_core_geometry(SceneItem::TrackMapPreview));
    assert!(is_core_geometry(SceneItem::Terrain));
    assert!(!is_core_geometry(SceneItem::Fixture));
}

#[test]
fn rebuild_runs_in_order() {
    let (phase, steps) = advance(Phase::Live, Event::RebuildRequested);
    assert_eq!(phase, Phase::MapPending);
    assert_eq!(
        steps,
        vec![
            Step::DespawnCore,
            Step::BuildTrack,
            Step::RenderTrackMap,
            Step::BuildTerrain,
            Step::SpawnTerrain
        ]
    );
    let (phase, steps) = advance(phase, Event::Tick);
    assert_eq!(phase, Phase::Live);
    assert_eq!(steps, vec![Step::PushUniforms]);
    let (phase, steps) = advance(Phase::Empty, Event::Tick);
    assert_eq!(phase, Phase::Empty);
    assert!(steps.is_empty());
}

#[test]
fn sampler_configured_once() {
    assert_eq!(sampler_step(false, false), (false, false));
    assert_eq!(sampler_step(false, true), (true, true));
    assert_eq!(sampler_step(true, true), (true, false));
    assert_eq!(sampler_step(true, false), (true, false));
}
