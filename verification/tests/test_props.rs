use charon::action::Action;
use charon::builder::BuilderField;
use charon::models::{GhostAgent, Task, TaskStatus};
use charon::state::{AppState, ConfigField, CurrentScreen};
use charon::update::{update, Command};

fn ghost(id: &str) -> GhostAgent {
    GhostAgent {
        id: id.to_string(),
        hostname: "hostname".to_string(),
        os: "linux".to_string(),
        last_seen: 0,
    }
}

fn task(id: &str) -> Task {
    Task {
        id: id.to_string(),
        command: "command".to_string(),
        args: "".to_string(),
        status: TaskStatus::Pending,
        result: None,
    }
}

#[test]
fn dashboard_cursor_wraps_both_ways() {
    let mut app = AppState::default();
    app.dashboard.ghosts.push(ghost("a"));
    app.dashboard.ghosts.push(ghost("b"));
    app.dashboard.selection_cursor = Some(0);

    update(&mut app, Action::Down);
    assert_eq!(app.dashboard.selection_cursor, Some(1));
    update(&mut app, Action::Down);
    assert_eq!(app.dashboard.selection_cursor, Some(0));
    update(&mut app, Action::Up);
    assert_eq!(app.dashboard.selection_cursor, Some(1));
}

#[test]
fn terminal_scroll_clamps_not_wraps() {
    let mut app = AppState::default();
    app.current_screen = CurrentScreen::Terminal;
    app.terminal.tasks.push(task("1"));
    app.terminal.tasks.push(task("2"));
    app.terminal.scroll_cursor = Some(1);

    update(&mut app, Action::Down);
    assert_eq!(app.terminal.scroll_cursor, Some(1));
    update(&mut app, Action::Up);
    assert_eq!(app.terminal.scroll_cursor, Some(0));
    update(&mut app, Action::Up);
    assert_eq!(app.terminal.scroll_cursor, Some(0));
}

#[test]
fn config_cycle_via_directional_input() {
    let mut app = AppState::default();
    app.current_screen = CurrentScreen::Config;
    assert_eq!(app.config.selected_field, ConfigField::Sleep);

    update(&mut app, Action::Down);
    assert_eq!(app.config.selected_field, ConfigField::Jitter);
    update(&mut app, Action::Down);
    assert_eq!(app.config.selected_field, ConfigField::Submit);
    update(&mut app, Action::Down);
    assert_eq!(app.config.selected_field, ConfigField::Sleep);
    update(&mut app, Action::Up);
    assert_eq!(app.config.selected_field, ConfigField::Submit);
}

#[test]
fn action_menu_swallows_directional_input() {
    let mut app = AppState::default();
    app.dashboard.ghosts.push(ghost("a"));
    app.dashboard.ghosts.push(ghost("b"));
    app.dashboard.selection_cursor = Some(0);
    app.show_action_menu = true;

    update(&mut app, Action::Down);
    assert_eq!(app.dashboard.selection_cursor, Some(0));
    update(&mut app, Action::Up);
    assert_eq!(app.dashboard.selection_cursor, Some(0));
}

#[test]
fn receive_ghosts_ok_replaces_roster_and_reports_count() {
    let mut app = AppState::default();
    let command = update(&mut app, Action::ReceiveGhosts(Ok(vec![ghost("g1")])));
    assert_eq!(app.dashboard.ghosts.len(), 1);
    assert_eq!(app.dashboard.ghosts[0].id, "g1");
    assert_eq!(app.status_message, "Updated: 1 ghosts online");
    assert_eq!(command, None);
}

#[test]
fn receive_ghosts_err_leaves_roster_untouched() {
    let mut app = AppState::default();
    update(&mut app, Action::ReceiveGhosts(Ok(vec![ghost("g1")])));
    let command = update(&mut app, Action::ReceiveGhosts(Err("boom".to_string())));
    assert_eq!(app.dashboard.ghosts.len(), 1);
    assert_eq!(app.status_message, "Error fetching ghosts: boom");
    assert_eq!(command, None);
}

#[test]
fn receive_kill_result_triggers_roster_refresh() {
    let mut app = AppState::default();
    let command = update(&mut app, Action::ReceiveKillResult(Ok("done".to_string())));
    assert_eq!(command, Some(Command::FetchGhosts));
    assert_eq!(app.status_message, "Kill result: done");

    let command = update(&mut app, Action::ReceiveKillResult(Err("no".to_string())));
    assert_eq!(command, None);
    assert_eq!(app.status_message, "Error: no");
}

#[test]
fn enter_on_dashboard_activates_ghost_end_to_end() {
    let mut app = AppState::default();
    app.dashboard.ghosts.push(ghost("g1"));
    app.dashboard.selection_cursor = Some(0);

    let command = update(&mut app, Action::Enter);

    assert_eq!(app.current_screen, CurrentScreen::Terminal);
    assert_eq!(app.terminal.active_ghost_id, Some("g1".to_string()));
    assert_eq!(app.status_message, "Viewing tasks for g1");
    assert_eq!(command, Some(Command::FetchTasks("g1".to_string())));
}

#[test]
fn enter_on_empty_dashboard_does_nothing() {
    let mut app = AppState::default();
    app.dashboard.ghosts.clear();
    let command = update(&mut app, Action::Enter);
    assert_eq!(app.current_screen, CurrentScreen::Dashboard);
    assert_eq!(command, None);
}

#[test]
fn recognized_verb_splits_into_command_and_args() {
    let mut app = AppState::default();
    app.current_screen = CurrentScreen::Terminal;
    app.terminal.active_ghost_id = Some("g1".to_string());
    app.terminal.input_buffer = "IMPACT wipe-disk".to_string();

    let command = update(&mut app, Action::Enter);
    match command {
        Some(Command::SendTask { ghost_id, req }) => {
            assert_eq!(ghost_id, "g1");
            assert_eq!(req.command, "IMPACT");
            assert_eq!(req.args, "wipe-disk");
        },
        _ => panic!("Expected SendTask command"),
    }
}

#[test]
fn bare_verb_sends_empty_args() {
    let r = charon::update::parse_task_line("STOP_HAUNT");
    assert_eq!(r.command, "STOP_HAUNT");
    assert_eq!(r.args, "");

    let r = charon::update::parse_task_line("ls -la");
    assert_eq!(r.command, "EXEC");
    assert_eq!(r.args, "ls -la");

    let r = charon::update::parse_task_line("EXEC whoami");
    assert_eq!(r.command, "EXEC");
    assert_eq!(r.args, "whoami");
}

#[test]
fn terminal_enter_trims_and_ignores_blank_input() {
    let mut app = AppState::default();
    app.current_screen = CurrentScreen::Terminal;
    app.terminal.active_ghost_id = Some("g1".to_string());
    app.terminal.input_buffer = "   ".to_string();
    let command = update(&mut app, Action::Enter);
    assert_eq!(command, None);

    app.terminal.input_buffer = "  whoami  ".to_string();
    let command = update(&mut app, Action::Enter);
    match command {
        Some(Command::SendTask { req, .. }) => {
            assert_eq!(req.command, "EXEC");
            assert_eq!(req.args, "whoami");
        },
        _ => panic!("Expected SendTask command"),
    }
    assert_eq!(app.terminal.input_buffer, "");
}

#[test]
fn terminal_enter_without_active_ghost_does_nothing() {
    let mut app = AppState::default();
    app.current_screen = CurrentScreen::Terminal;
    app.terminal.active_ghost_id = None;
    app.terminal.input_buffer = "whoami".to_string();
    let command = update(&mut app, Action::Enter);
    assert_eq!(command, None);
    assert_eq!(app.terminal.input_buffer, "whoami");
}

#[test]
fn config_submit_falls_back_on_unparsable_fields() {
    let mut app = AppState::default();
    app.dashboard.ghosts.push(ghost("g1"));
    app.dashboard.selection_cursor = Some(0);
    app.config.sleep_input = "abc".to_string();
    app.config.jitter_input = "".to_string();

    let command = update(&mut app, Action::SubmitGhostConfig);
    match command {
        Some(Command::UpdateGhostConfig { config, .. }) => {
            assert_eq!(config.sleep_interval, 10);
            assert_eq!(config.jitter_percent, 5);
        },
        _ => panic!("Expected UpdateGhostConfig command"),
    }
    assert_eq!(app.status_message, "Sending config...");
}

#[test]
fn config_submit_parses_signed_and_oversized_values() {
    let mut app = AppState::default();
    app.dashboard.ghosts.push(ghost("g1"));
    app.dashboard.selection_cursor = Some(0);
    app.config.sleep_input = "-42".to_string();
    app.config.jitter_input = "40000".to_string();

    let command = update(&mut app, Action::SubmitGhostConfig);
    match command {
        Some(Command::UpdateGhostConfig { config, .. }) => {
            assert_eq!(config.sleep_interval, -42);
            assert_eq!(config.jitter_percent, 5);
        },
        _ => panic!("Expected UpdateGhostConfig command"),
    }
}

#[test]
fn config_submit_without_selection_does_nothing() {
    let mut app = AppState::default();
    app.dashboard.ghosts.clear();
    let command = update(&mut app, Action::SubmitGhostConfig);
    assert_eq!(command, None);
}

#[test]
fn start_build_carries_full_snapshot_and_coerced_port() {
    let mut app = AppState::default();
    app.builder.target_url = "10.0.0.5".to_string();
    app.builder.target_port = "8080".to_string();
    app.builder.enable_debug = false;
    app.builder.persist_cron = true;

    let command = update(&mut app, Action::StartBuild);
    match command {
        Some(Command::BuildPayload { url, port, debug, persistence, persist_runcontrol, persist_service, persist_cron, impact, impact_encrypt, impact_wipe, exfil, exfil_http, exfil_dns }) => {
            assert_eq!(url, "10.0.0.5");
            assert_eq!(port, 8080);
            assert!(!debug);
            assert!(persistence);
            assert!(persist_runcontrol);
            assert!(!persist_service);
            assert!(persist_cron);
            assert!(impact);
            assert!(impact_encrypt);
            assert!(!impact_wipe);
            assert!(exfil);
            assert!(exfil_http);
            assert!(!exfil_dns);
        },
        _ => panic!("Expected BuildPayload command"),
    }
    assert_eq!(app.builder.build_status_msg, "BUILDING...");
    assert_eq!(app.status_message, "Starting build process...");
}

#[test]
fn start_build_falls_back_on_bad_port() {
    let mut app = AppState::default();
    app.builder.target_port = "0".to_string();
    match update(&mut app, Action::StartBuild) {
        Some(Command::BuildPayload { port, .. }) => assert_eq!(port, 9999),
        _ => panic!("Expected BuildPayload command"),
    }

    app.builder.target_port = "70000".to_string();
    match update(&mut app, Action::StartBuild) {
        Some(Command::BuildPayload { port, .. }) => assert_eq!(port, 9999),
        _ => panic!("Expected BuildPayload command"),
    }
}

#[test]
fn receive_build_result_sets_wizard_status() {
    let mut app = AppState::default();
    update(&mut app, Action::ReceiveBuildResult(Ok("artifact ready".to_string())));
    assert_eq!(app.builder.build_status_msg, "SUCCESS");
    assert_eq!(app.status_message, "Build success: artifact ready");

    update(&mut app, Action::ReceiveBuildResult(Err("linker".to_string())));
    assert_eq!(app.builder.build_status_msg, "FAILED");
    assert_eq!(app.status_message, "Error: linker");
}

#[test]
fn receive_tasks_growth_scrolls_to_bottom() {
    let mut app = AppState::default();
    update(&mut app, Action::ReceiveTasks(Ok(vec![task("1"), task("2"), task("3")])));
    assert_eq!(app.terminal.tasks.len(), 3);
    assert_eq!(app.terminal.scroll_cursor, Some(2));

    app.terminal.scroll_cursor = Some(0);
    update(&mut app, Action::ReceiveTasks(Ok(vec![task("1"), task("2")])));
    assert_eq!(app.terminal.tasks.len(), 2);
    assert_eq!(app.terminal.scroll_cursor, Some(0));

    update(&mut app, Action::ReceiveTasks(Err("offline".to_string())));
    assert_eq!(app.terminal.tasks.len(), 2);
    assert_eq!(app.status_message, "Error fetching tasks: offline");
}

#[test]
fn task_send_result_refreshes_active_ghost() {
    let mut app = AppState::default();
    app.terminal.active_ghost_id = Some("g1".to_string());
    let command = update(&mut app, Action::ReceiveTaskSendResult(Ok("queued".to_string())));
    assert_eq!(command, Some(Command::FetchTasks("g1".to_string())));
    assert_eq!(app.status_message, "Task send: queued");

    app.terminal.active_ghost_id = None;
    let command = update(&mut app, Action::ReceiveTaskSendResult(Ok("queued".to_string())));
    assert_eq!(command, None);
}

#[test]
fn char_shortcuts_on_dashboard() {
    let mut app = AppState::default();
    let command = update(&mut app, Action::Char('q'));
    assert_eq!(command, Some(Command::Quit));

    let command = update(&mut app, Action::Char('r'));
    assert_eq!(command, Some(Command::FetchGhosts));

    assert!(!app.show_help);
    update(&mut app, Action::Char('h'));
    assert!(app.show_help);
    update(&mut app, Action::Char('h'));
    assert!(!app.show_help);
}

#[test]
fn char_x_opens_action_menu_only_over_selection() {
    let mut app = AppState::default();
    app.dashboard.ghosts.clear();
    app.dashboard.selection_cursor = None;
    update(&mut app, Action::Char('x'));
    assert!(!app.show_action_menu);

    app.dashboard.ghosts.push(ghost("g1"));
    app.dashboard.selection_cursor = Some(0);
    update(&mut app, Action::Char('x'));
    assert!(app.show_action_menu);
}

#[test]
fn terminal_typing_captures_command_characters() {
    let mut app = AppState::default();
    app.current_screen = CurrentScreen::Terminal;
    update(&mut app, Action::Char('q'));
    update(&mut app, Action::Char('h'));
    assert_eq!(app.terminal.input_buffer, "qh");
    assert!(!app.show_help);

    update(&mut app, Action::Backspace);
    assert_eq!(app.terminal.input_buffer, "q");
}

#[test]
fn config_fields_accept_digits_only() {
    let mut app = AppState::default();
    app.current_screen = CurrentScreen::Config;
    app.config.sleep_input = "".to_string();
    update(&mut app, Action::Char('3'));
    update(&mut app, Action::Char('a'));
    update(&mut app, Action::Char('7'));
    assert_eq!(app.config.sleep_input, "37");

    app.config.selected_field = ConfigField::Jitter;
    app.config.jitter_input = "".to_string();
    update(&mut app, Action::Char('9'));
    assert_eq!(app.config.jitter_input, "9");

    update(&mut app, Action::Backspace);
    assert_eq!(app.config.jitter_input, "");
}

#[test]
fn builder_port_accepts_digits_only_and_url_anything() {
    let mut app = AppState::default();
    app.current_screen = CurrentScreen::Builder;
    app.builder.selected_field = BuilderField::Port;
    app.builder.target_port = "".to_string();
    update(&mut app, Action::Char('8'));
    update(&mut app, Action::Char('x'));
    assert_eq!(app.builder.target_port, "8");

    app.builder.selected_field = BuilderField::Url;
    app.builder.target_url = "".to_string();
    update(&mut app, Action::Char('q'));
    update(&mut app, Action::Char('.'));
    assert_eq!(app.builder.target_url, "q.");

    update(&mut app, Action::Backspace);
    assert_eq!(app.builder.target_url, "q");
}

#[test]
fn esc_closes_modals_then_leaves_terminal() {
    let mut app = AppState::default();
    app.show_action_menu = true;
    app.show_help = true;
    update(&mut app, Action::Esc);
    assert!(!app.show_action_menu);
    assert!(app.show_help);
    update(&mut app, Action::Esc);
    assert!(!app.show_help);

    app.current_screen = CurrentScreen::Terminal;
    update(&mut app, Action::Esc);
    assert_eq!(app.current_screen, CurrentScreen::Dashboard);
    update(&mut app, Action::Esc);
    assert_eq!(app.current_screen, CurrentScreen::Dashboard);
}

#[test]
fn confirm_kill_closes_menu_and_emits_kill() {
    let mut app = AppState::default();
    app.dashboard.ghosts.push(ghost("g9"));
    app.dashboard.selection_cursor = Some(0);
    app.show_action_menu = true;

    let command = update(&mut app, Action::ConfirmKillGhost);
    assert!(!app.show_action_menu);
    assert_eq!(app.status_message, "Killing ghost g9...");
    assert_eq!(command, Some(Command::KillGhost("g9".to_string())));
}

#[test]
fn enter_with_menu_open_requests_kill() {
    let mut app = AppState::default();
    app.dashboard.ghosts.push(ghost("g2"));
    app.dashboard.selection_cursor = Some(0);
    app.show_action_menu = true;

    let command = update(&mut app, Action::Enter);
    assert_eq!(command, Some(Command::KillGhost("g2".to_string())));
}

#[test]
fn auto_refresh_fetches_roster() {
    let mut app = AppState::default();
    let command = update(&mut app, Action::AutoRefresh);
    assert_eq!(command, Some(Command::FetchGhosts));

    let command = update(&mut app, Action::Tick);
    assert_eq!(command, None);
    let command = update(&mut app, Action::Resize(80, 24));
    assert_eq!(command, None);
}

#[test]
fn left_right_always_switch_screens() {
    let mut app = AppState::default();
    app.current_screen = CurrentScreen::Terminal;
    app.terminal.input_buffer = "typing".to_string();
    update(&mut app, Action::Right);
    assert_eq!(app.current_screen, CurrentScreen::Config);
    update(&mut app, Action::Left);
    assert_eq!(app.current_screen, CurrentScreen::Terminal);
    assert_eq!(app.terminal.input_buffer, "typing");
}

#[test]
fn enter_advances_config_field_when_not_on_submit() {
    let mut app = AppState::default();
    app.current_screen = CurrentScreen::Config;
    assert_eq!(app.config.selected_field, ConfigField::Sleep);
    let command = update(&mut app, Action::Enter);
    assert_eq!(command, None);
    assert_eq!(app.config.selected_field, ConfigField::Jitter);
}

#[test]
fn enter_on_builder_toggles_or_advances() {
    let mut app = AppState::default();
    app.current_screen = CurrentScreen::Builder;

    app.builder.selected_field = BuilderField::Url;
    let command = update(&mut app, Action::Enter);
    assert_eq!(command, None);
    assert_eq!(app.builder.selected_field, BuilderField::Port);

    app.builder.selected_field = BuilderField::EnableDebug;
    let was = app.builder.enable_debug;
    update(&mut app, Action::Enter);
    assert_eq!(app.builder.enable_debug, !was);

    app.builder.selected_field = BuilderField::Submit;
    let command = update(&mut app, Action::Enter);
    assert!(matches!(command, Some(Command::BuildPayload { .. })));
}

#[test]
fn toggle_builder_switch_flips_each_switch() {
    let mut app = AppState::default();
    let cases = [
        BuilderField::PersistToggle,
        BuilderField::PersistRunControl,
        BuilderField::PersistService,
        BuilderField::PersistCron,
        BuilderField::ImpactToggle,
        BuilderField::ImpactEncrypt,
        BuilderField::ImpactWipe,
        BuilderField::ExfilToggle,
        BuilderField::ExfilHttp,
        BuilderField::ExfilDns,
    ];
    for field in cases {
        app.builder.selected_field = field;
        let before = (
            app.builder.enable_persistence,
            app.builder.persist_runcontrol,
            app.builder.persist_service,
            app.builder.persist_cron,
            app.builder.enable_impact,
            app.builder.impact_encrypt,
            app.builder.impact_wipe,
            app.builder.enable_exfil,
            app.builder.exfil_http,
            app.builder.exfil_dns,
        );
        update(&mut app, Action::ToggleBuilderSwitch);
        let after = (
            app.builder.enable_persistence,
            app.builder.persist_runcontrol,
            app.builder.persist_service,
            app.builder.persist_cron,
            app.builder.enable_impact,
            app.builder.impact_encrypt,
            app.builder.impact_wipe,
            app.builder.enable_exfil,
            app.builder.exfil_http,
            app.builder.exfil_dns,
        );
        let mut flips = 0;
        if before.0 != after.0 { flips += 1; }
        if before.1 != after.1 { flips += 1; }
        if before.2 != after.2 { flips += 1; }
        if before.3 != after.3 { flips += 1; }
        if before.4 != after.4 { flips += 1; }
        if before.5 != after.5 { flips += 1; }
        if before.6 != after.6 { flips += 1; }
        if before.7 != after.7 { flips += 1; }
        if before.8 != after.8 { flips += 1; }
        if before.9 != after.9 { flips += 1; }
        assert_eq!(flips, 1);
    }

    app.builder.selected_field = BuilderField::CategorySelect;
    let url_before = app.builder.target_url.clone();
    update(&mut app, Action::ToggleBuilderSwitch);
    assert_eq!(app.builder.target_url, url_before);
}

#[test]
fn config_update_result_sets_status_only() {
    let mut app = AppState::default();
    let command = update(&mut app, Action::ReceiveConfigUpdateResult(Ok("saved".to_string())));
    assert_eq!(command, None);
    assert_eq!(app.status_message, "Config updated: saved");

    let command = update(&mut app, Action::ReceiveConfigUpdateResult(Err("http 500".to_string())));
    assert_eq!(command, None);
    assert_eq!(app.status_message, "Error: http 500");
}
