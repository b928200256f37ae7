//! Scene bookkeeping: what the view options show, what a rebuild replaces,
//! and in which order a rebuild runs.
use vstd::prelude::*;

verus! {

/// Kinds of items placed in the scene.
#[derive(Clone, Copy, Debug, PartialEq, Eq, Structural)]
pub enum SceneItem {
    /// A segment's ribbon in the main view.
    TrackRibbon,
    /// A segment's ribbon drawn into the offscreen track map.
    TrackMapRibbon,
    /// The orthographic camera of the offscreen track-map pass.
    TrackMapCamera,
    /// The plane that shows the rendered track map in the main view.
    TrackMapPreview,
    /// The displaced terrain grid.
    Terrain,
    /// Lights, cameras and helpers that live as long as the scene.
    Fixture,
}

/// Visibility switches of the editor.
#[derive(Clone, Copy, Debug, PartialEq, Eq, Structural)]
pub struct ViewOptions {
    pub show_track: bool,
    pub show_track_texture: bool,
    pub show_terrain: bool,
    pub show_track_map: bool,
}

impl ViewOptions {
    /// Options at start-up: everything switched off.
    pub fn new() -> (r: ViewOptions)
        ensures
            !r.show_track && !r.show_track_texture && !r.show_terrain && !r.show_track_map,
    {
        ViewOptions {
            show_track: false,
            show_track_texture: false,
            show_terrain: false,
            show_track_map: false,
        }
    }
}

/// Whether the options show `item`, for the items they govern.
pub open spec fn visibility_of(item: SceneItem, options: ViewOptions) -> Option<bool> {
    match item {
        SceneItem::TrackRibbon => Some(options.show_track),
        SceneItem::TrackMapPreview => Some(options.show_track_texture),
        SceneItem::Terrain => Some(options.show_terrain),
        _ => None,
    }
}

/// Whether `item` is shown under `options`; `None` for items whose
/// visibility the options leave alone.
pub fn visibility(item: SceneItem, options: &ViewOptions) -> (r: Option<bool>)
    ensures
        r == visibility_of(item, *options),
{
    match item {
        SceneItem::TrackRibbon => Some(options.show_track),
        SceneItem::TrackMapPreview => Some(options.show_track_texture),
        SceneItem::Terrain => Some(options.show_terrain),
        _ => None,
    }
}

/// Items built by a rebuild, and so removed before the next one.
pub open spec fn is_core_spec(item: SceneItem) -> bool {
    !(item is Fixture)
}

/// Whether a rebuild removes `item` before building anew.
pub fn is_core_geometry(item: SceneItem) -> (r: bool)
    ensures
        r == is_core_spec(item),
{
    match item {
        SceneItem::Fixture => false,
        _ => true,
    }
}

/// Value of the shader's track-map overlay switch.
pub fn overlay_flag(options: &ViewOptions) -> (r: u32)
    ensures
        r == (if options.show_track_map {
            1u32
        } else {
            0u32
        }),
{
    if options.show_track_map {
        1
    } else {
        0
    }
}

/// One step of the work a frame does.
#[derive(Clone, Copy, Debug, PartialEq, Eq, Structural)]
pub enum Step {
    /// Remove every core item.
    DespawnCore,
    /// Build the segment ribbons and chain them, growing the world extent.
    BuildTrack,
    /// Set up the one-shot offscreen pass that renders the track map.
    RenderTrackMap,
    /// Build the terrain grid over the world extent.
    BuildTerrain,
    /// Spawn the terrain with a material holding the fresh track map.
    SpawnTerrain,
    /// Copy the noise and view parameters into the live terrain material.
    PushUniforms,
}

/// Where the scene stands between rebuilds.
#[derive(Clone, Copy, Debug, PartialEq, Eq, Structural)]
pub enum Phase {
    /// Nothing built yet.
    Empty,
    /// Rebuilt this frame; the track map is rendered before the next one.
    MapPending,
    /// The terrain samples a rendered track map.
    Live,
}

/// What happens in a frame.
#[derive(Clone, Copy, Debug, PartialEq, Eq, Structural)]
pub enum Event {
    /// The user asked for the track to be rebuilt.
    RebuildRequested,
    /// A frame went by without a rebuild request.
    Tick,
}

/// The steps of a rebuild, in order.
pub open spec fn rebuild_steps() -> Seq<Step> {
    seq![
        Step::DespawnCore,
        Step::BuildTrack,
        Step::RenderTrackMap,
        Step::BuildTerrain,
        Step::SpawnTerrain,
    ]
}

/// Next phase and the steps to run for `event` in `phase`.
pub open spec fn advance_spec(phase: Phase, event: Event) -> (Phase, Seq<Step>) {
    match event {
        Event::RebuildRequested => (Phase::MapPending, rebuild_steps()),
        Event::Tick => match phase {
            Phase::Empty => (Phase::Empty, Seq::empty()),
            _ => (Phase::Live, seq![Step::PushUniforms]),
        },
    }
}

/// Decides a frame: a rebuild request tears the core items down and builds
/// them again in order; otherwise a built scene only refreshes its terrain
/// parameters, which need no rebuild.
pub fn advance(phase: Phase, event: Event) -> (r: (Phase, Vec<Step>))
    ensures
        r.0 == advance_spec(phase, event).0,
        r.1@ == advance_spec(phase, event).1,
{
    match event {
        Event::RebuildRequested => {
            let steps = vec![
                Step::DespawnCore,
                Step::BuildTrack,
                Step::RenderTrackMap,
                Step::BuildTerrain,
                Step::SpawnTerrain,
            ];
            assert(steps@ =~= rebuild_steps());
            (Phase::MapPending, steps)
        },
        Event::Tick => match phase {
            Phase::Empty => (Phase::Empty, Vec::new()),
            _ => {
                let steps = vec![Step::PushUniforms];
                assert(steps@ =~= seq![Step::PushUniforms]);
                (Phase::Live, steps)
            },
        },
    }
}

/// One-shot configuration of the asphalt texture's sampler: given whether it
/// was configured already and whether the image has loaded, returns whether
/// it is configured after this frame and whether to configure it now.
pub fn sampler_step(configured: bool, image_loaded: bool) -> (r: (bool, bool))
    ensures
        r.1 == (!configured && image_loaded),
        r.0 == (configured || image_loaded),
{
    if configured {
        (true, false)
    } else if image_loaded {
        (true, true)
    } else {
        (false, false)
    }
}

} // verus!
