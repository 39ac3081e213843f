//! Per-attachment session state and the decision half of the polling loop.
//!
//! One session lives exactly as long as one attachment to the target
//! process. Each tick the host harness performs the fallible outside work
//! (metadata lookups and memory reads) and hands the outcomes in as plain
//! values; the session decides what to cache, discards caches whose
//! dependent lookups failed, feeds the watchers, and runs the split
//! automaton. Nothing of a session survives the target process: the harness
//! builds a fresh one on every attachment.

use vstd::prelude::*;
use vstd::string::StringSliceAdditionalSpecFns;
use crate::automaton::{
    spec_game_time_action, spec_loading_after, spec_timer_action, scene_samples_wf, update_loop,
    AutoSplitterSettings, AutoSplitterState, GameSettings, GameVars, TickDecision, TimerPhase,
};
use crate::resolve::{
    spec_absorbed, spec_field_offset, spec_field_offset_either, spec_static_field_address,
    ClassHandle, ResolvedClass, StaticField,
};
use crate::scene::SceneName;
use crate::watcher::{spec_update, Watcher};
use vstd::slice::slice_to_vec;
use vstd::wrapping::u64_specs;

verus! {

/// The process name the harness waits for. Process names reported on linux
/// hosts are capped at fifteen bytes, so the name is truncated there.
pub fn process_name(os: &[u8]) -> (r: &'static str)
    ensures
        crate::scene::spec_starts_with(os@, "linux".spec_bytes()) ==> r@ == "Risk of Rain 2."@,
        !crate::scene::spec_starts_with(os@, "linux".spec_bytes()) ==> r@ == "Risk of Rain 2.exe"@,
{
    if crate::scene::bytes_starts_with(os, "linux".as_bytes()) {
        "Risk of Rain 2."
    } else {
        "Risk of Rain 2.exe"
    }
}

/// The address of the fade scalar: a static field of the fade manager type,
/// read directly from its static storage.
pub open spec fn spec_fade_recipe(c: ResolvedClass) -> Option<u64> {
    spec_static_field_address(c, "alpha".spec_bytes())
}

/// Where to read the stage counter: the run singleton pointer sits in the
/// run type's static storage, and the counter is a field of the instance it
/// points at.
pub open spec fn spec_stage_recipe(c: ResolvedClass) -> Option<StaticField> {
    match spec_field_offset(c.fields@, "<instance>k__BackingField".spec_bytes()) {
        Option::Some(i) => match spec_field_offset(c.fields@, "stageClearCount".spec_bytes()) {
            Option::Some(f) => Option::Some(
                (StaticField {
                    base_address: u64_specs::wrapping_add(c.static_table, i),
                    field_offset: f,
                }),
            ),
            Option::None => Option::None,
        },
        Option::None => Option::None,
    }
}

/// Where to read the results-panel flag: like the stage counter, but the
/// flag's field name differs across target versions, so the newer name is
/// tried before the older one.
pub open spec fn spec_panel_recipe(c: ResolvedClass) -> Option<StaticField> {
    match spec_field_offset(c.fields@, "<instance>k__BackingField".spec_bytes()) {
        Option::Some(i) => match spec_field_offset_either(
            c.fields@,
            "<shouldDisplayGameEndReportPanels>k__BackingField".spec_bytes(),
            "_shouldDisplayGameEndReportPanels".spec_bytes(),
        ) {
            Option::Some(f) => Option::Some(
                (StaticField {
                    base_address: u64_specs::wrapping_add(c.static_table, i),
                    field_offset: f,
                }),
            ),
            Option::None => Option::None,
        },
        Option::None => Option::None,
    }
}

fn fade_recipe(c: &ResolvedClass) -> (r: Option<u64>)
    ensures
        r == spec_fade_recipe(*c),
{
    c.static_field_address("alpha".as_bytes())
}

fn stage_recipe(c: &ResolvedClass) -> (r: Option<StaticField>)
    ensures
        r == spec_stage_recipe(*c),
{
    let instance = c.field_offset("<instance>k__BackingField".as_bytes());
    let counter = c.field_offset("stageClearCount".as_bytes());
    match instance {
        Option::Some(i) => match counter {
            Option::Some(f) => Option::Some(
                StaticField { base_address: c.static_table.wrapping_add(i), field_offset: f },
            ),
            Option::None => Option::None,
        },
        Option::None => Option::None,
    }
}

fn panel_recipe(c: &ResolvedClass) -> (r: Option<StaticField>)
    ensures
        r == spec_panel_recipe(*c),
{
    let instance = c.field_offset("<instance>k__BackingField".as_bytes());
    let flag = c.field_offset_either(
        "<shouldDisplayGameEndReportPanels>k__BackingField".as_bytes(),
        "_shouldDisplayGameEndReportPanels".as_bytes(),
    );
    match instance {
        Option::Some(i) => match flag {
            Option::Some(f) => Option::Some(
                StaticField { base_address: c.static_table.wrapping_add(i), field_offset: f },
            ),
            Option::None => Option::None,
        },
        Option::None => Option::None,
    }
}

/// One metadata step of the fade source: an unresolved handle clears the
/// cached address; a resolved handle with no cached address computes it, and
/// is discarded whole when the lookup it depends on fails.
pub open spec fn spec_fade_source_step(h: ClassHandle, loc: Option<u64>) -> (ClassHandle, Option<
    u64,
>) {
    match h.resolved {
        Option::None => (h, Option::None),
        Option::Some(c) => match loc {
            Option::Some(_) => (h, loc),
            Option::None => match spec_fade_recipe(c) {
                Option::Some(a) => (h, Option::Some(a)),
                Option::None => ((ClassHandle { name: h.name, resolved: Option::None }), Option::None),
            },
        },
    }
}

/// One metadata step of the stage-counter source; see the fade source step.
pub open spec fn spec_stage_source_step(h: ClassHandle, loc: Option<StaticField>) -> (
    ClassHandle,
    Option<StaticField>,
) {
    match h.resolved {
        Option::None => (h, Option::None),
        Option::Some(c) => match loc {
            Option::Some(_) => (h, loc),
            Option::None => match spec_stage_recipe(c) {
                Option::Some(s) => (h, Option::Some(s)),
                Option::None => ((ClassHandle { name: h.name, resolved: Option::None }), Option::None),
            },
        },
    }
}

/// One metadata step of the results-panel source; see the fade source step.
pub open spec fn spec_panel_source_step(h: ClassHandle, loc: Option<StaticField>) -> (
    ClassHandle,
    Option<StaticField>,
) {
    match h.resolved {
        Option::None => (h, Option::None),
        Option::Some(c) => match loc {
            Option::Some(_) => (h, loc),
            Option::None => match spec_panel_recipe(c) {
                Option::Some(s) => (h, Option::Some(s)),
                Option::None => ((ClassHandle { name: h.name, resolved: Option::None }), Option::None),
            },
        },
    }
}

fn fade_source_step(h: &mut ClassHandle, loc: &mut Option<u64>)
    ensures
        (*final(h), *final(loc)) == spec_fade_source_step(*old(h), *old(loc)),
{
    let computed: Option<u64> = match &h.resolved {
        Option::Some(c) => fade_recipe(c),
        Option::None => Option::None,
    };
    if h.is_resolved() {
        if loc.is_none() {
            match computed {
                Option::Some(a) => {
                    *loc = Option::Some(a);
                }
                Option::None => {
                    h.invalidate();
                    *loc = Option::None;
                }
            }
        }
    } else {
        *loc = Option::None;
    }
}

fn stage_source_step(h: &mut ClassHandle, loc: &mut Option<StaticField>)
    ensures
        (*final(h), *final(loc)) == spec_stage_source_step(*old(h), *old(loc)),
{
    let computed: Option<StaticField> = match &h.resolved {
        Option::Some(c) => stage_recipe(c),
        Option::None => Option::None,
    };
    if h.is_resolved() {
        if loc.is_none() {
            match computed {
                Option::Some(s) => {
                    *loc = Option::Some(s);
                }
                Option::None => {
                    h.invalidate();
                    *loc = Option::None;
                }
            }
        }
    } else {
        *loc = Option::None;
    }
}

fn panel_source_step(h: &mut ClassHandle, loc: &mut Option<StaticField>)
    ensures
        (*final(h), *final(loc)) == spec_panel_source_step(*old(h), *old(loc)),
{
    let computed: Option<StaticField> = match &h.resolved {
        Option::Some(c) => panel_recipe(c),
        Option::None => Option::None,
    };
    if h.is_resolved() {
        if loc.is_none() {
            match computed {
                Option::Some(s) => {
                    *loc = Option::Some(s);
                }
                Option::None => {
                    h.invalidate();
                    *loc = Option::None;
                }
            }
        }
    } else {
        *loc = Option::None;
    }
}

/// Once the fade source is resolved and its location computed, further
/// resolution attempts change neither the cached metadata nor the location.
pub proof fn law_fade_source_stable(h: ClassHandle, loc: u64, probe: Option<ResolvedClass>)
    requires
        h.resolved is Some,
    ensures
        spec_fade_source_step(spec_absorbed(h, probe), Option::Some(loc)) == (h, Option::Some(loc)),
{
}

/// Once the stage-counter source is resolved and its location computed,
/// further resolution attempts change nothing.
pub proof fn law_stage_source_stable(h: ClassHandle, loc: StaticField, probe: Option<ResolvedClass>)
    requires
        h.resolved is Some,
    ensures
        spec_stage_source_step(spec_absorbed(h, probe), Option::Some(loc)) == (h, Option::Some(loc)),
{
}

/// Once the results-panel source is resolved and its location computed,
/// further resolution attempts change nothing.
pub proof fn law_panel_source_stable(h: ClassHandle, loc: StaticField, probe: Option<ResolvedClass>)
    requires
        h.resolved is Some,
    ensures
        spec_panel_source_step(spec_absorbed(h, probe), Option::Some(loc)) == (h, Option::Some(loc)),
{
}

/// The outcome of this tick's scene-path read. The path is unreadable
/// during scene transitions, in which case the scene watcher keeps its
/// previous samples rather than being cleared.
pub enum SceneReading {
    /// The path could not be read; the scene watcher is left untouched.
    Skipped,
    /// The path was read but carried no usable name; the watcher is cleared.
    Invalid,
    /// The scene name the path carried.
    Name(SceneName),
}

/// The scene watcher that results from one scene reading.
pub open spec fn spec_scene_update(w: Watcher<SceneName>, r: SceneReading) -> Watcher<SceneName> {
    match r {
        SceneReading::Skipped => w,
        SceneReading::Invalid => spec_update(w, Option::None),
        SceneReading::Name(n) => spec_update(w, Option::Some(n)),
    }
}

/// All state scoped to one attachment to the target process.
pub struct Session {
    /// Handle to the fade manager type.
    pub ftbm: ClassHandle,
    /// Handle to the run type.
    pub run: ClassHandle,
    /// Handle to the game-over controller type.
    pub goc: ClassHandle,
    /// Address of the fade scalar, once its metadata resolved.
    pub alpha_loc: Option<u64>,
    /// Where to read the stage counter, once its metadata resolved.
    pub stage_loc: Option<StaticField>,
    /// Where to read the results-panel flag, once its metadata resolved.
    pub panel_loc: Option<StaticField>,
    /// The four watched values.
    pub vars: GameVars,
    /// The automaton's own cross-tick state.
    pub state: AutoSplitterState,
}

impl Session {
    /// A fresh session: nothing resolved, nothing watched, not loading.
    pub fn new() -> (r: Session)
        ensures
            r.ftbm.name@ == "FadeToBlackManager".spec_bytes(),
            r.ftbm.resolved is None,
            r.run.name@ == "Run".spec_bytes(),
            r.run.resolved is None,
            r.goc.name@ == "GameOverController".spec_bytes(),
            r.goc.resolved is None,
            r.alpha_loc is None,
            r.stage_loc is None,
            r.panel_loc is None,
            r.vars.fade.pair is None,
            r.vars.stage_count.pair is None,
            r.vars.results.pair is None,
            r.vars.scene.pair is None,
            !r.state.was_loading,
    {
        Session {
            ftbm: ClassHandle::new(slice_to_vec("FadeToBlackManager".as_bytes())),
            run: ClassHandle::new(slice_to_vec("Run".as_bytes())),
            goc: ClassHandle::new(slice_to_vec("GameOverController".as_bytes())),
            alpha_loc: Option::None,
            stage_loc: Option::None,
            panel_loc: Option::None,
            vars: GameVars::new(),
            state: AutoSplitterState { was_loading: false },
        }
    }

    /// Absorb this tick's class-resolution attempts and recompute the value
    /// locations that are missing. Probes for classes that are already
    /// resolved are ignored; a resolved class whose dependent field lookup
    /// fails is discarded whole, to be retried from scratch next tick.
    pub fn metadata_tick(
        &mut self,
        ftbm_probe: Option<ResolvedClass>,
        run_probe: Option<ResolvedClass>,
        goc_probe: Option<ResolvedClass>,
    )
        ensures
            (final(self).ftbm, final(self).alpha_loc) == spec_fade_source_step(
                spec_absorbed(old(self).ftbm, ftbm_probe),
                old(self).alpha_loc,
            ),
            (final(self).run, final(self).stage_loc) == spec_stage_source_step(
                spec_absorbed(old(self).run, run_probe),
                old(self).stage_loc,
            ),
            (final(self).goc, final(self).panel_loc) == spec_panel_source_step(
                spec_absorbed(old(self).goc, goc_probe),
                old(self).panel_loc,
            ),
            final(self).vars == old(self).vars,
            final(self).state == old(self).state,
    {
        self.ftbm.absorb(ftbm_probe);
        self.run.absorb(run_probe);
        self.goc.absorb(goc_probe);
        fade_source_step(&mut self.ftbm, &mut self.alpha_loc);
        stage_source_step(&mut self.run, &mut self.stage_loc);
        panel_source_step(&mut self.goc, &mut self.panel_loc);
    }

    /// Feed this tick's readings into the watchers. A failed read clears
    /// the watcher it belongs to, so that the next successful reading does
    /// not register a false edge.
    pub fn watchers_tick(
        &mut self,
        fade: Option<u32>,
        stage: Option<i32>,
        results: Option<bool>,
        scene: SceneReading,
    )
        requires
            match scene {
                SceneReading::Name(n) => n.wf(),
                _ => true,
            },
            scene_samples_wf(old(self).vars),
        ensures
            final(self).vars.fade == spec_update(old(self).vars.fade, fade),
            final(self).vars.stage_count == spec_update(old(self).vars.stage_count, stage),
            final(self).vars.results == spec_update(old(self).vars.results, results),
            final(self).vars.scene == spec_scene_update(old(self).vars.scene, scene),
            scene_samples_wf(final(self).vars),
            final(self).ftbm == old(self).ftbm,
            final(self).run == old(self).run,
            final(self).goc == old(self).goc,
            final(self).alpha_loc == old(self).alpha_loc,
            final(self).stage_loc == old(self).stage_loc,
            final(self).panel_loc == old(self).panel_loc,
            final(self).state == old(self).state,
    {
        self.vars.fade.update(fade);
        self.vars.stage_count.update(stage);
        self.vars.results.update(results);
        match scene {
            SceneReading::Skipped => {}
            SceneReading::Invalid => {
                self.vars.scene.update(Option::None);
            }
            SceneReading::Name(n) => {
                self.vars.scene.update(Option::Some(n));
            }
        }
    }

    /// Run the split automaton over the current watchers for the phase the
    /// external timer is in, carrying the loading flag forward.
    pub fn decide(
        &mut self,
        phase: TimerPhase,
        game_settings: &GameSettings,
        autosplitter_settings: &AutoSplitterSettings,
    ) -> (d: TickDecision)
        requires
            scene_samples_wf(old(self).vars),
        ensures
            d.timer == spec_timer_action(
                old(self).vars,
                *game_settings,
                old(self).state,
                *autosplitter_settings,
                phase,
            ),
            d.game_time == spec_game_time_action(
                old(self).vars,
                old(self).state,
                *autosplitter_settings,
                phase,
            ),
            final(self).state.was_loading == spec_loading_after(
                old(self).vars,
                old(self).state,
                *autosplitter_settings,
                phase,
            ),
            final(self).vars == old(self).vars,
            final(self).ftbm == old(self).ftbm,
            final(self).run == old(self).run,
            final(self).goc == old(self).goc,
            final(self).alpha_loc == old(self).alpha_loc,
            final(self).stage_loc == old(self).stage_loc,
            final(self).panel_loc == old(self).panel_loc,
    {
        update_loop(&self.vars, game_settings, &mut self.state, autosplitter_settings, phase)
    }
}

} // verus!
