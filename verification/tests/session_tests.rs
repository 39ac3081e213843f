use ror2_splitter::automaton::{
    AutoSplitterSettings, GameSettings, GameTimeAction, TimerAction, TimerPhase,
};
use ror2_splitter::resolve::{FieldSlot, ResolvedClass};
use ror2_splitter::scene::SceneName;
use ror2_splitter::session::{process_name, SceneReading, Session};

fn slot(name: &str, offset: u64) -> FieldSlot {
    FieldSlot { name: name.as_bytes().to_vec(), offset }
}

fn fade_class() -> ResolvedClass {
    ResolvedClass { static_table: 0x1000, fields: vec![slot("alpha", 0x20)] }
}

fn run_class() -> ResolvedClass {
    ResolvedClass {
        static_table: 0x2000,
        fields: vec![slot("<instance>k__BackingField", 0x8), slot("stageClearCount", 0x40)],
    }
}

fn goc_class_new_schema() -> ResolvedClass {
    ResolvedClass {
        static_table: 0x3000,
        fields: vec![
            slot("<instance>k__BackingField", 0x10),
            slot("<shouldDisplayGameEndReportPanels>k__BackingField", 0x50),
            slot("_shouldDisplayGameEndReportPanels", 0x60),
        ],
    }
}

fn goc_class_old_schema() -> ResolvedClass {
    ResolvedClass {
        static_table: 0x3000,
        fields: vec![
            slot("<instance>k__BackingField", 0x10),
            slot("_shouldDisplayGameEndReportPanels", 0x60),
        ],
    }
}

fn scene(name: &str) -> SceneReading {
    SceneReading::Name(SceneName::new(name.as_bytes()).unwrap())
}

#[test]
fn the_process_name_is_truncated_on_linux_hosts() {
    assert_eq!(process_name(b"linux"), "Risk of Rain 2.");
    assert_eq!(process_name(b"linux-gnu"), "Risk of Rain 2.");
    assert_eq!(process_name(b"windows"), "Risk of Rain 2.exe");
    assert_eq!(process_name(b""), "Risk of Rain 2.exe");
    assert_eq!(process_name(b"linux").len(), 15);
}

#[test]
fn a_fresh_session_has_nothing_resolved() {
    let s = Session::new();
    assert!(!s.ftbm.is_resolved());
    assert!(!s.run.is_resolved());
    assert!(!s.goc.is_resolved());
    assert!(s.alpha_loc.is_none());
    assert!(s.stage_loc.is_none());
    assert!(s.panel_loc.is_none());
    assert!(!s.state.was_loading);
    assert_eq!(s.ftbm.name, b"FadeToBlackManager".to_vec());
    assert_eq!(s.run.name, b"Run".to_vec());
    assert_eq!(s.goc.name, b"GameOverController".to_vec());
}

#[test]
fn metadata_tick_computes_the_value_locations() {
    let mut s = Session::new();
    s.metadata_tick(None, None, None);
    assert!(s.alpha_loc.is_none());
    s.metadata_tick(Some(fade_class()), Some(run_class()), Some(goc_class_new_schema()));
    assert_eq!(s.alpha_loc, Some(0x1020));
    let stage = s.stage_loc.unwrap();
    assert_eq!(stage.base_address, 0x2008);
    assert_eq!(stage.field_offset, 0x40);
    let panel = s.panel_loc.unwrap();
    assert_eq!(panel.base_address, 0x3010);
    assert_eq!(panel.field_offset, 0x50);
}

#[test]
fn the_older_panel_field_name_is_a_fallback() {
    let mut s = Session::new();
    s.metadata_tick(None, None, Some(goc_class_old_schema()));
    let panel = s.panel_loc.unwrap();
    assert_eq!(panel.field_offset, 0x60);
}

#[test]
fn reresolving_a_resolved_session_changes_nothing() {
    let mut s = Session::new();
    s.metadata_tick(Some(fade_class()), Some(run_class()), Some(goc_class_new_schema()));
    let other = ResolvedClass { static_table: 0x7777, fields: vec![slot("alpha", 0x1)] };
    s.metadata_tick(Some(other), None, None);
    assert_eq!(s.alpha_loc, Some(0x1020));
    assert_eq!(s.ftbm.resolved.as_ref().unwrap().static_table, 0x1000);
    assert!(s.run.is_resolved());
    assert!(s.goc.is_resolved());
}

#[test]
fn a_failed_dependent_lookup_discards_the_class() {
    let mut s = Session::new();
    let missing_fields = ResolvedClass { static_table: 0x3000, fields: vec![] };
    s.metadata_tick(None, None, Some(missing_fields));
    assert!(!s.goc.is_resolved());
    assert!(s.panel_loc.is_none());
    s.metadata_tick(None, None, Some(goc_class_new_schema()));
    assert!(s.goc.is_resolved());
    assert_eq!(s.panel_loc.unwrap().field_offset, 0x50);
}

#[test]
fn watcher_readings_flow_through_the_session() {
    let mut s = Session::new();
    s.watchers_tick(Some(0.5f32.to_bits()), Some(1), Some(false), scene("limbo"));
    s.watchers_tick(Some(0.8f32.to_bits()), Some(1), Some(true), SceneReading::Skipped);
    let fade = s.vars.fade.pair.unwrap();
    assert_eq!(fade.old, 0.5f32.to_bits());
    assert_eq!(fade.current, 0.8f32.to_bits());
    let sc = s.vars.scene.pair.unwrap();
    assert!(sc.current.eq_bytes(b"limbo"));
    assert!(sc.old.eq_bytes(b"limbo"));
}

#[test]
fn a_skipped_scene_reading_keeps_the_samples() {
    let mut s = Session::new();
    s.watchers_tick(None, None, None, scene("bazaar"));
    s.watchers_tick(None, None, None, scene("goldshores"));
    s.watchers_tick(None, None, None, SceneReading::Skipped);
    let sc = s.vars.scene.pair.unwrap();
    assert!(sc.old.eq_bytes(b"bazaar"));
    assert!(sc.current.eq_bytes(b"goldshores"));
}

#[test]
fn an_invalid_scene_reading_clears_the_watcher() {
    let mut s = Session::new();
    s.watchers_tick(None, None, None, scene("bazaar"));
    s.watchers_tick(None, None, None, SceneReading::Invalid);
    assert!(s.vars.scene.pair.is_none());
}

#[test]
fn a_run_end_split_decided_through_the_session() {
    let mut s = Session::new();
    s.watchers_tick(None, None, Some(false), scene("limbo"));
    s.watchers_tick(None, None, Some(true), SceneReading::Skipped);
    let d = s.decide(
        TimerPhase::Running,
        &GameSettings::default(),
        &AutoSplitterSettings::default(),
    );
    assert_eq!(d.timer, TimerAction::Split);
    assert_eq!(d.game_time, GameTimeAction::Keep);
}

#[test]
fn the_loading_flag_is_carried_across_ticks() {
    let mut s = Session::new();
    s.watchers_tick(Some(0.5f32.to_bits()), None, None, SceneReading::Skipped);
    s.watchers_tick(Some(0.8f32.to_bits()), None, None, SceneReading::Skipped);
    let d = s.decide(
        TimerPhase::Running,
        &GameSettings::default(),
        &AutoSplitterSettings::default(),
    );
    assert_eq!(d.game_time, GameTimeAction::Pause);
    assert!(s.state.was_loading);
    s.watchers_tick(Some(0.8f32.to_bits()), None, None, SceneReading::Skipped);
    let d2 = s.decide(
        TimerPhase::Running,
        &GameSettings::default(),
        &AutoSplitterSettings::default(),
    );
    assert_eq!(d2.game_time, GameTimeAction::Keep);
    assert!(s.state.was_loading);
}
