use statusengine::StatusEngine;
use statusengine::StatusEngineConfig;
use statusengine::StatusEngineState;
use statusengine::StatusItem;

fn engine_with_state(state: StatusEngineState) -> StatusEngine {
    let mut engine = StatusEngine::new(StatusEngineConfig::default());
    engine.set_state(state);
    engine
}

#[test]
fn test_statusengine_creation() {
    let config = StatusEngineConfig::default();
    let engine = StatusEngine::new(config);
    assert_eq!(engine.line2_items().len(), 6);
    assert_eq!(engine.line2_items()[0], StatusItem::Model);
}

#[test]
fn test_default_config_values() {
    let config = StatusEngineConfig::default();
    assert_eq!(config.command_timeout_ms, 300);
    assert!(config.command.is_none());
    assert!(!config.enabled);
    assert_eq!(config.provider, "builtin");
}

#[test]
fn test_line2_building() {
    let config = StatusEngineConfig::default();
    let mut engine = StatusEngine::new(config);

    let mut state = StatusEngineState::default();
    state.model = Some("gpt-4o-mini".to_string());
    state.effort = Some("medium".to_string());
    state.workspace_name = Some("codex".to_string());

    engine.set_state(state);
    let line2 = engine.build_line2();

    assert!(line2.contains("gpt-4o-mini"));
    assert!(line2.contains("medium"));
    assert!(line2.contains("codex"));
}

#[test]
fn test_selected_model_and_branch_with_counts() {
    let mut state = StatusEngineState::default();
    state.model = Some("gpt5".to_string());
    state.git_branch = Some("main".to_string());
    state.git_counts = Some("+1 -0".to_string());
    let mut engine = engine_with_state(state);
    engine.set_line2_selection(&[StatusItem::Model, StatusItem::GitBranch]);
    assert_eq!(engine.build_line2(), "gpt5 | main +1 -0");
}

#[test]
fn test_empty_selection_yields_empty_line() {
    let mut state = StatusEngineState::default();
    state.model = Some("gpt5".to_string());
    let mut engine = engine_with_state(state);
    engine.set_line2_selection(&[]);
    assert_eq!(engine.build_line2(), "");
}

#[test]
fn test_all_absent_fields_yield_empty_line() {
    let engine = engine_with_state(StatusEngineState::default());
    assert_eq!(engine.build_line2(), "");
}

#[test]
fn test_selection_order_and_duplicates_are_respected() {
    let mut state = StatusEngineState::default();
    state.model = Some("m".to_string());
    state.sandbox = Some("read-only".to_string());
    let mut engine = engine_with_state(state);
    engine.set_line2_selection(&[StatusItem::Sandbox, StatusItem::Model, StatusItem::Sandbox]);
    assert_eq!(engine.build_line2(), "read-only | m | read-only");
}

#[test]
fn test_branch_without_counts_renders_alone() {
    let mut state = StatusEngineState::default();
    state.git_branch = Some("main".to_string());
    let mut engine = engine_with_state(state);
    engine.set_line2_selection(&[StatusItem::GitBranch]);
    assert_eq!(engine.build_line2(), "main");
}

#[test]
fn test_git_refresh_overwrites_with_absence() {
    let mut engine = engine_with_state(StatusEngineState::default());
    engine.set_line2_selection(&[StatusItem::GitBranch]);
    engine.apply_git_refresh(Some("main".to_string()), Some((2, 1)));
    assert_eq!(engine.build_line2(), "main +2 -1");
    engine.apply_git_refresh(None, None);
    assert_eq!(engine.build_line2(), "");
}

#[test]
fn test_git_refresh_formats_counts() {
    let mut engine = engine_with_state(StatusEngineState::default());
    engine.set_line2_selection(&[StatusItem::GitBranch]);
    engine.apply_git_refresh(Some("b".to_string()), Some((0, 0)));
    assert_eq!(engine.build_line2(), "b +0 -0");
    engine.apply_git_refresh(Some("b".to_string()), Some((12345, 67890)));
    assert_eq!(engine.build_line2(), "b +12345 -67890");
    engine.apply_git_refresh(Some("b".to_string()), Some((u64::MAX, 10)));
    assert_eq!(engine.build_line2(), "b +18446744073709551615 -10");
}

#[test]
fn test_width_aware_line_keeps_short_fields_intact() {
    let mut state = StatusEngineState::default();
    state.model = Some("m1".to_string());
    state.git_branch = Some("verylongbranchname".to_string());
    let mut engine = engine_with_state(state);
    engine.set_line2_selection(&[StatusItem::Model, StatusItem::GitBranch]);
    // Consumed before the branch: 2 for "m1", 3 for the separator; the
    // branch budget at width 15 is 10, so only the branch is truncated.
    assert_eq!(engine.get_line2_with_width(15), "m1 | very…hname");
    // At width 30 the budget is 25 and nothing is truncated.
    assert_eq!(engine.get_line2_with_width(30), "m1 | verylongbranchname");
}

#[test]
fn test_width_aware_line_reserves_allowance_for_pending_items() {
    let mut state = StatusEngineState::default();
    state.model = Some("m1".to_string());
    state.git_branch = Some("verylongbranchname".to_string());
    state.sandbox = Some("sb".to_string());
    let mut engine = engine_with_state(state);
    engine.set_line2_selection(&[StatusItem::Model, StatusItem::GitBranch, StatusItem::Sandbox]);
    // Consumed before the branch: 2 + 3 for the separator + 15 for the one
    // pending item; the budget at width 30 is 10.
    assert_eq!(engine.get_line2_with_width(30), "m1 | very…hname | sb");
}

#[test]
fn test_width_aware_line_falls_back_to_whole_line_truncation() {
    let mut state = StatusEngineState::default();
    state.model = Some("abcdefghijklmnopqrstuvwxyz".to_string());
    let mut engine = engine_with_state(state);
    engine.set_line2_selection(&[StatusItem::Model]);
    assert_eq!(engine.get_line2_with_width(10), "abcd…vwxyz");
}

#[test]
fn test_width_aware_line_empty_state_is_empty() {
    let engine = engine_with_state(StatusEngineState::default());
    assert_eq!(engine.get_line2_with_width(40), "");
}
