//! The split automaton: pure decision logic mapping watched game state,
//! user configuration and the current timer phase to timer actions.
//!
//! Fade samples are stored as order-preserving integer encodings of the
//! game's fade scalar (the raw bit pattern of the non-negative value), so
//! threshold comparisons on the encoding agree with comparisons on the
//! scalar itself.

use vstd::prelude::*;
use vstd::string::StringSliceAdditionalSpecFns;
use crate::scene::{SceneName, spec_starts_with};
use crate::watcher::Watcher;

verus! {

/// Order-preserving encoding of the fade threshold that separates a faded
/// screen from a visible one (the bit pattern of scalar one).
pub const FADE_THRESHOLD: u32 = 0x3F80_0000;

/// The aggregate of the four watched values that describe where the game
/// currently is. The four watchers are independent: each may be present
/// while the others are not.
#[derive(Clone, Copy)]
pub struct GameVars {
    /// Fade scalar of the screen fade, as an order-preserving encoding.
    pub fade: Watcher<u32>,
    /// Number of stages cleared in the current run.
    pub stage_count: Watcher<i32>,
    /// Whether the end-of-run results panel is shown.
    pub results: Watcher<bool>,
    /// Name of the current scene.
    pub scene: Watcher<SceneName>,
}

/// Both scene samples, when present, are well-formed names.
pub open spec fn scene_samples_wf(g: GameVars) -> bool {
    crate::scene::scene_pair_wf(g.scene)
}

impl Default for GameVars {
    /// Game state with no successful reading yet.
    fn default() -> (r: GameVars)
        ensures
            r.fade.pair is None,
            r.stage_count.pair is None,
            r.results.pair is None,
            r.scene.pair is None,
    {
        GameVars::new()
    }
}

impl GameVars {
    /// Game state with no successful reading yet.
    pub fn new() -> (r: GameVars)
        ensures
            r.fade.pair is None,
            r.stage_count.pair is None,
            r.results.pair is None,
            r.scene.pair is None,
            scene_samples_wf(r),
    {
        GameVars {
            fade: Watcher::absent(),
            stage_count: Watcher::absent(),
            results: Watcher::absent(),
            scene: Watcher::absent(),
        }
    }
}

/// Permissions for the automatic timer commands.
#[derive(Clone, Copy)]
pub struct AutoSplitterSettings {
    /// Allow the automaton to start the timer.
    pub start: bool,
    /// Allow the automaton to split.
    pub split: bool,
    /// Allow the automaton to reset the timer.
    pub reset: bool,
}

impl Default for AutoSplitterSettings {
    /// All timer commands are permitted by default.
    fn default() -> (r: Self)
        ensures
            r.start && r.split && r.reset,
    {
        AutoSplitterSettings { start: true, split: true, reset: true }
    }
}

/// Split-policy flags: which scene exits split, and whether ordinary stage
/// transitions are excluded.
#[derive(Clone, Copy)]
pub struct GameSettings {
    /// Split when leaving the bazaar scene.
    pub bazaar: bool,
    /// Split when leaving the arena scene.
    pub arena: bool,
    /// Split when leaving the gilded shores scene.
    pub goldshores: bool,
    /// Split when leaving the artifact world scene.
    pub artifactworld: bool,
    /// Do not split on ordinary stage transitions.
    pub fin: bool,
}

impl Default for GameSettings {
    /// Only the bazaar exit splits by default.
    fn default() -> (r: Self)
        ensures
            r.bazaar && !r.arena && !r.goldshores && !r.artifactworld && !r.fin,
    {
        GameSettings {
            bazaar: true,
            arena: false,
            goldshores: false,
            artifactworld: false,
            fin: false,
        }
    }
}

/// The only state the decision logic itself carries across ticks.
#[derive(Clone, Copy)]
pub struct AutoSplitterState {
    /// Whether the game counted as loading after the previous tick.
    pub was_loading: bool,
}

impl Default for AutoSplitterState {
    /// The game does not count as loading before the first tick.
    fn default() -> (r: Self)
        ensures
            !r.was_loading,
    {
        AutoSplitterState { was_loading: false }
    }
}

/// The phase the external timer is currently in.
#[derive(Clone, Copy, PartialEq, Eq, Structural, Debug)]
pub enum TimerPhase {
    NotRunning,
    Running,
    Paused,
    Ended,
    Unknown,
}

/// The timer command a tick decides on.
#[derive(Clone, Copy, PartialEq, Eq, Structural, Debug)]
pub enum TimerAction {
    Idle,
    Start,
    Split,
    Reset,
}

/// The game-time command a tick decides on.
#[derive(Clone, Copy, PartialEq, Eq, Structural, Debug)]
pub enum GameTimeAction {
    Keep,
    Pause,
    Resume,
}

/// Everything one tick of the automaton asks of the external timer.
#[derive(Clone, Copy, PartialEq, Eq, Structural, Debug)]
pub struct TickDecision {
    pub timer: TimerAction,
    pub game_time: GameTimeAction,
}

/// Scenes whose fade-in starts a run: the stage-one equivalents.
pub open spec fn spec_is_stage_start_scene(s: Seq<u8>) -> bool {
    ||| spec_starts_with(s, "golemplains".spec_bytes())
    ||| spec_starts_with(s, "blackbeach".spec_bytes())
    ||| spec_starts_with(s, "snowyforest".spec_bytes())
    ||| spec_starts_with(s, "lakes".spec_bytes())
    ||| spec_starts_with(s, "village".spec_bytes())
}

/// Menu and lobby scenes in which the timer is reset.
pub open spec fn spec_is_menu_scene(s: Seq<u8>) -> bool {
    ||| s == "lobby".spec_bytes()
    ||| s == "title".spec_bytes()
    ||| s == "crystalworld".spec_bytes()
    ||| s == "eclipseworld".spec_bytes()
    ||| s == "infinitetowerworld".spec_bytes()
}

/// Leaving scene `s` splits under the flags in `cfg`; leaving the outro
/// always splits.
pub open spec fn spec_split_on_scene_exit(s: Seq<u8>, cfg: GameSettings) -> bool {
    ||| s == "outro".spec_bytes()
    ||| (s == "bazaar".spec_bytes() && cfg.bazaar)
    ||| (s == "arena".spec_bytes() && cfg.arena)
    ||| (s == "goldshores".spec_bytes() && cfg.goldshores)
    ||| (s == "artifactworld".spec_bytes() && cfg.artifactworld)
}

/// Scenes in which the appearance of the results panel ends a run.
pub open spec fn spec_is_run_end_scene(s: Seq<u8>) -> bool {
    ||| s == "limbo".spec_bytes()
    ||| s == "mysteryspace".spec_bytes()
    ||| s == "voidraid".spec_bytes()
}

pub fn is_stage_start_scene(n: &SceneName) -> (r: bool)
    requires
        n.wf(),
    ensures
        r == spec_is_stage_start_scene(n@),
{
    n.starts_with("golemplains".as_bytes()) || n.starts_with("blackbeach".as_bytes())
        || n.starts_with("snowyforest".as_bytes()) || n.starts_with("lakes".as_bytes())
        || n.starts_with("village".as_bytes())
}

pub fn is_menu_scene(n: &SceneName) -> (r: bool)
    requires
        n.wf(),
    ensures
        r == spec_is_menu_scene(n@),
{
    n.eq_bytes("lobby".as_bytes()) || n.eq_bytes("title".as_bytes()) || n.eq_bytes(
        "crystalworld".as_bytes(),
    ) || n.eq_bytes("eclipseworld".as_bytes()) || n.eq_bytes("infinitetowerworld".as_bytes())
}

pub fn split_on_scene_exit(n: &SceneName, cfg: &GameSettings) -> (r: bool)
    requires
        n.wf(),
    ensures
        r == spec_split_on_scene_exit(n@, *cfg),
{
    n.eq_bytes("outro".as_bytes()) || (n.eq_bytes("bazaar".as_bytes()) && cfg.bazaar) || (
    n.eq_bytes("arena".as_bytes()) && cfg.arena) || (n.eq_bytes("goldshores".as_bytes())
        && cfg.goldshores) || (n.eq_bytes("artifactworld".as_bytes()) && cfg.artifactworld)
}

pub fn is_run_end_scene(n: &SceneName) -> (r: bool)
    requires
        n.wf(),
    ensures
        r == spec_is_run_end_scene(n@),
{
    n.eq_bytes("limbo".as_bytes()) || n.eq_bytes("mysteryspace".as_bytes()) || n.eq_bytes(
        "voidraid".as_bytes(),
    )
}

/// The timer should start: scene and fade both present, the scene is a
/// stage-one equivalent, and the fade dropped through the threshold in this
/// tick.
pub open spec fn spec_should_start(g: GameVars) -> bool {
    match g.scene.pair {
        Option::Some(s) => match g.fade.pair {
            Option::Some(f) => spec_is_stage_start_scene(s.current@) && f.current < FADE_THRESHOLD
                && f.old >= FADE_THRESHOLD,
            Option::None => false,
        },
        Option::None => false,
    }
}

/// The timer should reset: the current scene is one of the menu scenes.
pub open spec fn spec_should_reset(g: GameVars) -> bool {
    match g.scene.pair {
        Option::Some(s) => spec_is_menu_scene(s.current@),
        Option::None => false,
    }
}

/// An ordinary stage transition: the stage counter is present, at least one,
/// and increased, and stage splitting is not excluded.
pub open spec fn spec_stage_split(g: GameVars, cfg: GameSettings) -> bool {
    match g.stage_count.pair {
        Option::Some(p) => !cfg.fin && p.current >= 1 && p.current > p.old,
        Option::None => false,
    }
}

/// The scene changed away from a scene whose exit splits.
pub open spec fn spec_scene_exit_split(g: GameVars, cfg: GameSettings) -> bool {
    match g.scene.pair {
        Option::Some(s) => s.current@ != s.old@ && spec_split_on_scene_exit(s.old@, cfg),
        Option::None => false,
    }
}

/// The results panel appeared in this tick while standing in a run-end
/// scene.
pub open spec fn spec_run_end_split(g: GameVars) -> bool {
    match g.scene.pair {
        Option::Some(s) => match g.results.pair {
            Option::Some(r) => r.current && !r.old && spec_is_run_end_scene(s.current@),
            Option::None => false,
        },
        Option::None => false,
    }
}

/// The timer should split: any of the three split rules fires.
pub open spec fn spec_should_split(g: GameVars, cfg: GameSettings) -> bool {
    spec_stage_split(g, cfg) || spec_scene_exit_split(g, cfg) || spec_run_end_split(g)
}

/// Whether the game counts as loading this tick: a rising fade means
/// loading, a falling or fully cleared fade means not loading, and an
/// unchanged positive fade (or an absent reading) keeps the previous
/// answer.
pub open spec fn spec_is_loading(g: GameVars, previous: bool) -> bool {
    match g.fade.pair {
        Option::Some(f) => if f.current > f.old {
            true
        } else if (f.current < f.old && f.current > 0) || f.current == 0 {
            false
        } else {
            previous
        },
        Option::None => previous,
    }
}

/// Start on stage-one equivalents during fade-in.
pub fn should_start(game_state: &GameVars) -> (r: bool)
    requires
        scene_samples_wf(*game_state),
    ensures
        r == spec_should_start(*game_state),
{
    match (&game_state.scene.pair, &game_state.fade.pair) {
        (Option::Some(s), Option::Some(f)) => is_stage_start_scene(&s.current) && f.current
            < FADE_THRESHOLD && f.old >= FADE_THRESHOLD,
        _ => false,
    }
}

/// Reset on menu screens.
pub fn should_reset(game_state: &GameVars) -> (r: bool)
    requires
        scene_samples_wf(*game_state),
    ensures
        r == spec_should_reset(*game_state),
{
    match &game_state.scene.pair {
        Option::Some(s) => is_menu_scene(&s.current),
        Option::None => false,
    }
}

/// Split on stage increments, on leaving selected scenes, and on run-end
/// conditions.
pub fn should_split(game_state: &GameVars, settings: &GameSettings) -> (r: bool)
    requires
        scene_samples_wf(*game_state),
    ensures
        r == spec_should_split(*game_state, *settings),
{
    let stage = match &game_state.stage_count.pair {
        Option::Some(p) => !settings.fin && p.current >= 1 && p.current > p.old,
        Option::None => false,
    };
    let scene_exit = match &game_state.scene.pair {
        Option::Some(s) => game_state.scene.changed() && split_on_scene_exit(&s.old, settings),
        Option::None => false,
    };
    let run_end = match (&game_state.scene.pair, &game_state.results.pair) {
        (Option::Some(s), Option::Some(r)) => r.current && !r.old && is_run_end_scene(&s.current),
        _ => false,
    };
    stage || scene_exit || run_end
}

/// The game is loading when the fade is rising; it is not when the fade is
/// falling or fully cleared; otherwise the previous answer stands.
pub fn is_loading(game_state: &GameVars, unchanged_state: bool) -> (r: bool)
    ensures
        r == spec_is_loading(*game_state, unchanged_state),
{
    match &game_state.fade.pair {
        Option::Some(f) => {
            if f.current > f.old {
                true
            } else if (f.current < f.old && f.current > 0) || f.current == 0 {
                false
            } else {
                unchanged_state
            }
        }
        Option::None => unchanged_state,
    }
}

/// The timer command one tick decides on, given the phase the timer is in.
/// A permitted reset takes precedence and suppresses the rest of the tick;
/// nothing is done in the terminal phases.
pub open spec fn spec_timer_action(
    g: GameVars,
    cfg: GameSettings,
    state: AutoSplitterState,
    perms: AutoSplitterSettings,
    phase: TimerPhase,
) -> TimerAction {
    match phase {
        TimerPhase::NotRunning => if perms.start && spec_should_start(g) {
            TimerAction::Start
        } else {
            TimerAction::Idle
        },
        TimerPhase::Running => spec_running_action(g, cfg, perms),
        TimerPhase::Paused => spec_running_action(g, cfg, perms),
        TimerPhase::Ended => TimerAction::Idle,
        TimerPhase::Unknown => TimerAction::Idle,
    }
}

/// The timer command while the timer runs: reset first, else split, else
/// nothing.
pub open spec fn spec_running_action(
    g: GameVars,
    cfg: GameSettings,
    perms: AutoSplitterSettings,
) -> TimerAction {
    if perms.reset && spec_should_reset(g) {
        TimerAction::Reset
    } else if perms.split && spec_should_split(g, cfg) {
        TimerAction::Split
    } else {
        TimerAction::Idle
    }
}

/// Whether this tick evaluates the loading state at all: only while the
/// timer runs, and not when a permitted reset fires.
pub open spec fn spec_evaluates_loading(
    g: GameVars,
    perms: AutoSplitterSettings,
    phase: TimerPhase,
) -> bool {
    &&& (phase == TimerPhase::Running || phase == TimerPhase::Paused)
    &&& !(perms.reset && spec_should_reset(g))
}

/// The loading flag carried into the next tick.
pub open spec fn spec_loading_after(
    g: GameVars,
    state: AutoSplitterState,
    perms: AutoSplitterSettings,
    phase: TimerPhase,
) -> bool {
    if spec_evaluates_loading(g, perms, phase) {
        spec_is_loading(g, state.was_loading)
    } else {
        state.was_loading
    }
}

/// The game-time command one tick decides on: pause on the transition into
/// loading, resume on the transition out, nothing otherwise.
pub open spec fn spec_game_time_action(
    g: GameVars,
    state: AutoSplitterState,
    perms: AutoSplitterSettings,
    phase: TimerPhase,
) -> GameTimeAction {
    if spec_evaluates_loading(g, perms, phase) {
        let loading = spec_is_loading(g, state.was_loading);
        if loading && !state.was_loading {
            GameTimeAction::Pause
        } else if !loading && state.was_loading {
            GameTimeAction::Resume
        } else {
            GameTimeAction::Keep
        }
    } else {
        GameTimeAction::Keep
    }
}

/// One tick of the automaton: decide the timer command and the game-time
/// command for the current phase, and carry the loading flag forward.
pub fn update_loop(
    game_state: &GameVars,
    game_settings: &GameSettings,
    autosplitter_state: &mut AutoSplitterState,
    autosplitter_settings: &AutoSplitterSettings,
    phase: TimerPhase,
) -> (d: TickDecision)
    requires
        scene_samples_wf(*game_state),
    ensures
        d.timer == spec_timer_action(
            *game_state,
            *game_settings,
            *old(autosplitter_state),
            *autosplitter_settings,
            phase,
        ),
        d.game_time == spec_game_time_action(
            *game_state,
            *old(autosplitter_state),
            *autosplitter_settings,
            phase,
        ),
        final(autosplitter_state).was_loading == spec_loading_after(
            *game_state,
            *old(autosplitter_state),
            *autosplitter_settings,
            phase,
        ),
{
    match phase {
        TimerPhase::NotRunning => {
            if autosplitter_settings.start && should_start(game_state) {
                TickDecision { timer: TimerAction::Start, game_time: GameTimeAction::Keep }
            } else {
                TickDecision { timer: TimerAction::Idle, game_time: GameTimeAction::Keep }
            }
        }
        TimerPhase::Running | TimerPhase::Paused => running_tick(
            game_state,
            game_settings,
            autosplitter_state,
            autosplitter_settings,
        ),
        TimerPhase::Ended | TimerPhase::Unknown => TickDecision {
            timer: TimerAction::Idle,
            game_time: GameTimeAction::Keep,
        },
    }
}

/// One tick while the timer runs: reset takes precedence and suppresses the
/// rest; otherwise split and the loading edge are evaluated independently.
fn running_tick(
    game_state: &GameVars,
    game_settings: &GameSettings,
    autosplitter_state: &mut AutoSplitterState,
    autosplitter_settings: &AutoSplitterSettings,
) -> (d: TickDecision)
    requires
        scene_samples_wf(*game_state),
    ensures
        d.timer == spec_running_action(*game_state, *game_settings, *autosplitter_settings),
        d.game_time == spec_game_time_action(
            *game_state,
            *old(autosplitter_state),
            *autosplitter_settings,
            TimerPhase::Running,
        ),
        final(autosplitter_state).was_loading == spec_loading_after(
            *game_state,
            *old(autosplitter_state),
            *autosplitter_settings,
            TimerPhase::Running,
        ),
{
    if autosplitter_settings.reset && should_reset(game_state) {
        return TickDecision { timer: TimerAction::Reset, game_time: GameTimeAction::Keep };
    }
    let timer = if autosplitter_settings.split && should_split(game_state, game_settings) {
        TimerAction::Split
    } else {
        TimerAction::Idle
    };
    let loading = is_loading(game_state, autosplitter_state.was_loading);
    let game_time = if loading && !autosplitter_state.was_loading {
        GameTimeAction::Pause
    } else if !loading && autosplitter_state.was_loading {
        GameTimeAction::Resume
    } else {
        GameTimeAction::Keep
    };
    autosplitter_state.was_loading = loading;
    TickDecision { timer, game_time }
}

} // verus!
