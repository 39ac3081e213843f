use ror2_splitter::automaton::{
    is_loading, should_reset, should_split, should_start, update_loop, AutoSplitterSettings,
    AutoSplitterState, GameSettings, GameTimeAction, GameVars, TickDecision, TimerAction,
    TimerPhase,
};
use ror2_splitter::scene::SceneName;

fn fade_bits(x: f32) -> u32 {
    x.to_bits()
}

fn scene(name: &str) -> SceneName {
    SceneName::new(name.as_bytes()).unwrap()
}

fn vars() -> GameVars {
    GameVars::new()
}

fn permissive() -> AutoSplitterSettings {
    AutoSplitterSettings::default()
}

#[test]
fn default_settings_match_the_documented_defaults() {
    let a = AutoSplitterSettings::default();
    assert!(a.start && a.split && a.reset);
    let g = GameSettings::default();
    assert!(g.bazaar);
    assert!(!g.arena && !g.goldshores && !g.artifactworld && !g.fin);
    let s = AutoSplitterState::default();
    assert!(!s.was_loading);
}

#[test]
fn loading_true_when_fade_rises() {
    let mut g = vars();
    g.fade.update(Some(fade_bits(0.5)));
    g.fade.update(Some(fade_bits(0.8)));
    assert!(is_loading(&g, false));
    assert!(is_loading(&g, true));
}

#[test]
fn loading_false_when_fade_falls_but_stays_positive() {
    let mut g = vars();
    g.fade.update(Some(fade_bits(0.8)));
    g.fade.update(Some(fade_bits(0.3)));
    assert!(!is_loading(&g, false));
    assert!(!is_loading(&g, true));
}

#[test]
fn loading_false_when_fade_fully_cleared() {
    let mut g = vars();
    g.fade.update(Some(fade_bits(0.0)));
    g.fade.update(Some(fade_bits(0.0)));
    assert!(!is_loading(&g, false));
    assert!(!is_loading(&g, true));
}

#[test]
fn loading_keeps_previous_answer_when_fade_unchanged() {
    let mut g = vars();
    g.fade.update(Some(fade_bits(1.0)));
    g.fade.update(Some(fade_bits(1.0)));
    assert!(!is_loading(&g, false));
    assert!(is_loading(&g, true));
}

#[test]
fn loading_keeps_previous_answer_when_fade_absent() {
    let g = vars();
    assert!(!is_loading(&g, false));
    assert!(is_loading(&g, true));
}

#[test]
fn starts_when_fade_drops_through_threshold_on_stage_one() {
    let mut g = vars();
    g.scene.update(Some(scene("golemplains")));
    g.fade.update(Some(fade_bits(1.2)));
    g.fade.update(Some(fade_bits(0.9)));
    assert!(should_start(&g));
}

#[test]
fn no_start_when_fade_rises_on_stage_one() {
    let mut g = vars();
    g.scene.update(Some(scene("golemplains")));
    g.fade.update(Some(fade_bits(0.9)));
    g.fade.update(Some(fade_bits(1.2)));
    assert!(!should_start(&g));
}

#[test]
fn start_scene_matches_by_prefix() {
    let mut g = vars();
    g.scene.update(Some(scene("blackbeach2")));
    g.fade.update(Some(fade_bits(1.5)));
    g.fade.update(Some(fade_bits(0.5)));
    assert!(should_start(&g));
}

#[test]
fn no_start_on_other_scenes() {
    let mut g = vars();
    g.scene.update(Some(scene("bazaar")));
    g.fade.update(Some(fade_bits(1.2)));
    g.fade.update(Some(fade_bits(0.9)));
    assert!(!should_start(&g));
}

#[test]
fn no_start_while_a_watcher_is_absent() {
    let mut g = vars();
    g.scene.update(Some(scene("golemplains")));
    assert!(!should_start(&g));
}

#[test]
fn resets_only_on_menu_scenes() {
    for name in ["lobby", "title", "crystalworld", "eclipseworld"] {
        let mut g = vars();
        g.scene.update(Some(scene(name)));
        assert!(should_reset(&g), "{name} must reset");
    }
    // The fifth menu name exceeds the scene-name capacity, so a watcher can
    // never hold it; the rule exists but cannot fire through a watcher.
    assert!(SceneName::new(b"infinitetowerworld").is_none());
    let mut g = vars();
    g.scene.update(Some(scene("golemplains")));
    assert!(!should_reset(&g));
    assert!(!should_reset(&vars()));
}

#[test]
fn splits_on_stage_increment_when_not_excluded() {
    let mut g = vars();
    g.stage_count.update(Some(1));
    g.stage_count.update(Some(2));
    let cfg = GameSettings::default();
    assert!(should_split(&g, &cfg));
    let excluded = GameSettings { fin: true, ..GameSettings::default() };
    assert!(!should_split(&g, &excluded));
}

#[test]
fn no_stage_split_below_one_or_without_increase() {
    let cfg = GameSettings::default();
    let mut g = vars();
    g.stage_count.update(Some(0));
    g.stage_count.update(Some(0));
    assert!(!should_split(&g, &cfg));
    let mut h = vars();
    h.stage_count.update(Some(3));
    h.stage_count.update(Some(2));
    assert!(!should_split(&h, &cfg));
}

#[test]
fn splits_when_leaving_bazaar_only_if_enabled() {
    let mut g = vars();
    g.scene.update(Some(scene("bazaar")));
    g.scene.update(Some(scene("goldshores")));
    let enabled = GameSettings::default();
    assert!(should_split(&g, &enabled));
    let disabled = GameSettings { bazaar: false, ..GameSettings::default() };
    assert!(!should_split(&g, &disabled));
}

#[test]
fn leaving_outro_always_splits() {
    let mut g = vars();
    g.scene.update(Some(scene("outro")));
    g.scene.update(Some(scene("title")));
    let all_off = GameSettings {
        bazaar: false,
        arena: false,
        goldshores: false,
        artifactworld: false,
        fin: false,
    };
    assert!(should_split(&g, &all_off));
}

#[test]
fn scene_exit_split_needs_a_change() {
    let mut g = vars();
    g.scene.update(Some(scene("bazaar")));
    g.scene.update(Some(scene("bazaar")));
    assert!(!should_split(&g, &GameSettings::default()));
}

#[test]
fn results_panel_in_limbo_splits_regardless_of_other_rules() {
    let mut g = vars();
    g.scene.update(Some(scene("limbo")));
    g.results.update(Some(false));
    g.results.update(Some(true));
    let all_off = GameSettings {
        bazaar: false,
        arena: false,
        goldshores: false,
        artifactworld: false,
        fin: true,
    };
    assert!(should_split(&g, &all_off));
}

#[test]
fn results_panel_elsewhere_does_not_split() {
    let mut g = vars();
    g.scene.update(Some(scene("golemplains")));
    g.results.update(Some(false));
    g.results.update(Some(true));
    assert!(!should_split(&g, &GameSettings::default()));
}

#[test]
fn update_loop_starts_only_when_permitted() {
    let mut g = vars();
    g.scene.update(Some(scene("golemplains")));
    g.fade.update(Some(fade_bits(1.2)));
    g.fade.update(Some(fade_bits(0.9)));
    let mut st = AutoSplitterState::default();
    let d = update_loop(&g, &GameSettings::default(), &mut st, &permissive(), TimerPhase::NotRunning);
    assert_eq!(d, TickDecision { timer: TimerAction::Start, game_time: GameTimeAction::Keep });
    let no_start = AutoSplitterSettings { start: false, ..AutoSplitterSettings::default() };
    let d2 = update_loop(&g, &GameSettings::default(), &mut st, &no_start, TimerPhase::NotRunning);
    assert_eq!(d2.timer, TimerAction::Idle);
}

#[test]
fn update_loop_reset_takes_precedence_and_stops_the_tick() {
    let mut g = vars();
    g.scene.update(Some(scene("lobby")));
    g.stage_count.update(Some(1));
    g.stage_count.update(Some(2));
    g.fade.update(Some(fade_bits(0.1)));
    g.fade.update(Some(fade_bits(0.9)));
    let mut st = AutoSplitterState::default();
    let d = update_loop(&g, &GameSettings::default(), &mut st, &permissive(), TimerPhase::Running);
    assert_eq!(d.timer, TimerAction::Reset);
    assert_eq!(d.game_time, GameTimeAction::Keep);
    assert!(!st.was_loading);
}

#[test]
fn update_loop_splits_while_running() {
    let mut g = vars();
    g.stage_count.update(Some(1));
    g.stage_count.update(Some(2));
    let mut st = AutoSplitterState::default();
    let d = update_loop(&g, &GameSettings::default(), &mut st, &permissive(), TimerPhase::Running);
    assert_eq!(d.timer, TimerAction::Split);
    let no_split = AutoSplitterSettings { split: false, ..AutoSplitterSettings::default() };
    let d2 = update_loop(&g, &GameSettings::default(), &mut st, &no_split, TimerPhase::Running);
    assert_eq!(d2.timer, TimerAction::Idle);
}

#[test]
fn update_loop_pauses_on_the_loading_edge_only_once() {
    let mut g = vars();
    g.fade.update(Some(fade_bits(0.5)));
    g.fade.update(Some(fade_bits(0.8)));
    let mut st = AutoSplitterState::default();
    let d = update_loop(&g, &GameSettings::default(), &mut st, &permissive(), TimerPhase::Running);
    assert_eq!(d.game_time, GameTimeAction::Pause);
    assert!(st.was_loading);
    let mut g2 = vars();
    g2.fade.update(Some(fade_bits(0.8)));
    g2.fade.update(Some(fade_bits(0.8)));
    let d2 = update_loop(&g2, &GameSettings::default(), &mut st, &permissive(), TimerPhase::Running);
    assert_eq!(d2.game_time, GameTimeAction::Keep);
    assert!(st.was_loading);
}

#[test]
fn update_loop_resumes_when_loading_ends() {
    let mut g = vars();
    g.fade.update(Some(fade_bits(0.8)));
    g.fade.update(Some(fade_bits(0.3)));
    let mut st = AutoSplitterState { was_loading: true };
    let d = update_loop(&g, &GameSettings::default(), &mut st, &permissive(), TimerPhase::Paused);
    assert_eq!(d.game_time, GameTimeAction::Resume);
    assert!(!st.was_loading);
}

#[test]
fn update_loop_is_inert_in_terminal_phases() {
    let mut g = vars();
    g.scene.update(Some(scene("lobby")));
    g.fade.update(Some(fade_bits(0.5)));
    g.fade.update(Some(fade_bits(0.8)));
    for phase in [TimerPhase::Ended, TimerPhase::Unknown] {
        let mut st = AutoSplitterState::default();
        let d = update_loop(&g, &GameSettings::default(), &mut st, &permissive(), phase);
        assert_eq!(d, TickDecision { timer: TimerAction::Idle, game_time: GameTimeAction::Keep });
        assert!(!st.was_loading);
    }
}
