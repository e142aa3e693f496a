use charon::builder::{BuilderCategory, BuilderField, BuilderState};
use charon::models::{GhostAgent, Task, TaskStatus};
use charon::state::{
    AppState, ConfigField, ConfigState, CurrentScreen, DashboardState, TerminalState,
};

#[test]
fn test_dashboard_selection() {
    let mut state = DashboardState::default();
    state.select_next();
    assert_eq!(state.selected_ghost_index(), Some(0));

    state.ghosts.push(GhostAgent {
        id: "1".into(),
        hostname: "hostname".into(),
        os: "os".into(),
        last_seen: 0,
    });
    state.ghosts.push(GhostAgent {
        id: "2".into(),
        hostname: "hostname".into(),
        os: "os".into(),
        last_seen: 0,
    });

    assert_eq!(state.selected_ghost_index(), Some(0));

    state.select_next();
    assert_eq!(state.selected_ghost_index(), Some(1));

    state.select_next();
    assert_eq!(state.selected_ghost_index(), Some(0));

    state.select_prev();
    assert_eq!(state.selected_ghost_index(), Some(1));
}

#[test]
fn test_terminal_scrolling() {
    let mut state = TerminalState::default();
    state.scroll_down();
    assert_eq!(state.scroll_cursor, None);

    state.tasks.push(Task {
        id: "1".into(),
        command: "command".into(),
        args: "".into(),
        status: TaskStatus::Pending,
        result: None,
    });
    state.tasks.push(Task {
        id: "2".into(),
        command: "command".into(),
        args: "".into(),
        status: TaskStatus::Pending,
        result: None,
    });

    state.scroll_cursor = Some(0);

    state.scroll_down();
    assert_eq!(state.scroll_cursor, Some(1));

    state.scroll_down();
    assert_eq!(state.scroll_cursor, Some(1));

    state.scroll_up();
    assert_eq!(state.scroll_cursor, Some(0));
}

#[test]
fn test_config_field_navigation() {
    let mut state = ConfigState::default();

    assert_eq!(state.selected_field, ConfigField::Sleep);
    state.next_field();
    assert_eq!(state.selected_field, ConfigField::Jitter);
    state.next_field();
    assert_eq!(state.selected_field, ConfigField::Submit);
    state.next_field();
    assert_eq!(state.selected_field, ConfigField::Sleep);

    state.prev_field();
    assert_eq!(state.selected_field, ConfigField::Submit);
}

#[test]
fn test_app_tab_navigation() {
    let mut app = AppState::default();
    assert_eq!(app.current_screen, CurrentScreen::Dashboard);

    app.next_tab();
    assert_eq!(app.current_screen, CurrentScreen::Terminal);

    app.next_tab();
    assert_eq!(app.current_screen, CurrentScreen::Config);

    app.next_tab();
    assert_eq!(app.current_screen, CurrentScreen::Builder);

    app.next_tab();
    assert_eq!(app.current_screen, CurrentScreen::Dashboard);

    app.prev_tab();
    assert_eq!(app.current_screen, CurrentScreen::Builder);
}

#[test]
fn test_builder_category_navigation() {
    let mut state = BuilderState::default();

    state.active_category = BuilderCategory::General;
    state.selected_field = BuilderField::CategorySelect;

    state.next_field();
    assert_eq!(state.selected_field, BuilderField::Url);

    let next_cat = state.active_category.next();
    assert_eq!(next_cat, BuilderCategory::Persistence)
}

#[test]
fn test_builder_navigation_persistence_skips() {
    let mut state = BuilderState::default();
    state.active_category = BuilderCategory::Persistence;

    state.selected_field = BuilderField::CategorySelect;
    state.next_field();
    assert_eq!(state.selected_field, BuilderField::PersistToggle);
    state.next_field();
    assert_eq!(state.selected_field, BuilderField::PersistRunControl);

    state.enable_persistence = false;
    state.selected_field = BuilderField::PersistToggle;
    state.next_field();
    assert_eq!(state.selected_field, BuilderField::Submit);
}

#[test]
fn test_builder_navigation_impact_skips() {
    let mut state = BuilderState::default();
    state.active_category = BuilderCategory::Impact;

    state.selected_field = BuilderField::CategorySelect;
    state.next_field();
    assert_eq!(state.selected_field, BuilderField::ImpactToggle);
    state.next_field();
    assert_eq!(state.selected_field, BuilderField::ImpactEncrypt);

    state.enable_impact = false;
    state.selected_field = BuilderField::ImpactToggle;
    state.next_field();
    assert_eq!(state.selected_field, BuilderField::Submit);
}

#[test]
fn test_builder_navigation_exfil_skips() {
    let mut state = BuilderState::default();
    state.active_category = BuilderCategory::Exfiltration;

    state.selected_field = BuilderField::CategorySelect;
    state.next_field();
    assert_eq!(state.selected_field, BuilderField::ExfilToggle);
    state.next_field();
    assert_eq!(state.selected_field, BuilderField::ExfilHttp);

    state.enable_exfil = false;
    state.selected_field = BuilderField::ExfilToggle;
    state.next_field();
    assert_eq!(state.selected_field, BuilderField::Submit);
}

#[test]
fn test_terminal_scroll_to_bottom() {
    let mut state = TerminalState::default();

    for i in 0..5 {
        state.tasks.push(Task {
            id: i.to_string(),
            command: "".into(),
            args: "".into(),
            status: TaskStatus::Pending,
            result: None,
        });
    }

    state.scroll_to_bottom();
    assert_eq!(state.scroll_cursor, Some(4));
}

#[test]
fn builder_enabled_persistence_full_sequence() {
    let mut state = BuilderState::default();
    state.active_category = BuilderCategory::Persistence;
    state.enable_persistence = true;
    state.selected_field = BuilderField::PersistToggle;

    state.next_field();
    assert_eq!(state.selected_field, BuilderField::PersistRunControl);
    state.next_field();
    assert_eq!(state.selected_field, BuilderField::PersistService);
    state.next_field();
    assert_eq!(state.selected_field, BuilderField::PersistCron);
    state.next_field();
    assert_eq!(state.selected_field, BuilderField::Submit);
    state.next_field();
    assert_eq!(state.selected_field, BuilderField::CategorySelect);
}

#[test]
fn builder_prev_from_submit_skips_disabled_fields() {
    let mut state = BuilderState::default();

    state.active_category = BuilderCategory::Persistence;
    state.enable_persistence = false;
    state.selected_field = BuilderField::Submit;
    state.prev_field();
    assert_eq!(state.selected_field, BuilderField::PersistToggle);

    state.active_category = BuilderCategory::Impact;
    state.enable_impact = false;
    state.selected_field = BuilderField::Submit;
    state.prev_field();
    assert_eq!(state.selected_field, BuilderField::CategorySelect);

    state.active_category = BuilderCategory::Exfiltration;
    state.enable_exfil = false;
    state.selected_field = BuilderField::Submit;
    state.prev_field();
    assert_eq!(state.selected_field, BuilderField::CategorySelect);
}

#[test]
fn builder_prev_from_submit_reaches_last_enabled_field() {
    let mut state = BuilderState::default();
    state.active_category = BuilderCategory::Impact;
    state.enable_impact = true;
    state.selected_field = BuilderField::Submit;
    state.prev_field();
    assert_eq!(state.selected_field, BuilderField::ImpactWipe);

    state.active_category = BuilderCategory::Exfiltration;
    state.enable_exfil = true;
    state.selected_field = BuilderField::Submit;
    state.prev_field();
    assert_eq!(state.selected_field, BuilderField::ExfilDns);
}

#[test]
fn builder_category_cycle_is_circular() {
    let c = BuilderCategory::General;
    assert_eq!(c.next(), BuilderCategory::Persistence);
    assert_eq!(c.next().next(), BuilderCategory::Impact);
    assert_eq!(c.next().next().next(), BuilderCategory::Exfiltration);
    assert_eq!(c.next().next().next().next(), BuilderCategory::General);
    assert_eq!(c.prev(), BuilderCategory::Exfiltration);
    assert_eq!(BuilderCategory::Persistence.prev(), BuilderCategory::General);
}

#[test]
fn app_default_state_is_ready() {
    let app = AppState::default();
    assert_eq!(app.current_screen, CurrentScreen::Dashboard);
    assert!(app.dashboard.ghosts.is_empty());
    assert_eq!(app.dashboard.selection_cursor, Some(0));
    assert!(app.terminal.tasks.is_empty());
    assert_eq!(app.terminal.scroll_cursor, None);
    assert_eq!(app.terminal.input_buffer, "");
    assert_eq!(app.terminal.active_ghost_id, None);
    assert_eq!(app.config.selected_field, ConfigField::Sleep);
    assert_eq!(app.config.sleep_input, "10");
    assert_eq!(app.config.jitter_input, "5");
    assert_eq!(app.builder.active_category, BuilderCategory::General);
    assert_eq!(app.builder.selected_field, BuilderField::CategorySelect);
    assert_eq!(app.builder.target_url, "127.0.0.1");
    assert_eq!(app.builder.target_port, "9999");
    assert_eq!(app.builder.build_status_msg, "IDLE");
    assert!(!app.show_help);
    assert!(!app.show_action_menu);
    assert_eq!(app.status_message, "READY - press 'h' for help");
}
