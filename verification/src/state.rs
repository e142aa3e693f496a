//! Aggregate UI state: one sub-state per screen plus the global flags. The
//! state is owned exclusively by the reducer loop and only ever mutated
//! field-wise; it is never reconstructed.

use vstd::prelude::*;
use crate::builder::{BuilderState, BuilderV};
use crate::models::{GhostAgent, GhostAgentV, Task, TaskV};

verus! {

/// The four screens of the console.
#[derive(Clone, Copy, Debug, PartialEq, Eq, Structural)]
pub enum CurrentScreen {
    Dashboard,
    Terminal,
    Config,
    Builder,
}

/// Screen that follows `s` in tab order, wrapping around.
pub open spec fn screen_next_spec(s: CurrentScreen) -> CurrentScreen {
    match s {
        CurrentScreen::Dashboard => CurrentScreen::Terminal,
        CurrentScreen::Terminal => CurrentScreen::Config,
        CurrentScreen::Config => CurrentScreen::Builder,
        CurrentScreen::Builder => CurrentScreen::Dashboard,
    }
}

/// Screen that precedes `s` in tab order, wrapping around.
pub open spec fn screen_prev_spec(s: CurrentScreen) -> CurrentScreen {
    match s {
        CurrentScreen::Dashboard => CurrentScreen::Builder,
        CurrentScreen::Terminal => CurrentScreen::Dashboard,
        CurrentScreen::Config => CurrentScreen::Terminal,
        CurrentScreen::Builder => CurrentScreen::Config,
    }
}

/// The tab order is circular in both directions.
pub proof fn lemma_screen_cycle(s: CurrentScreen)
    ensures
        screen_prev_spec(screen_next_spec(s)) == s,
        screen_next_spec(screen_prev_spec(s)) == s,
        screen_next_spec(
            screen_next_spec(screen_next_spec(screen_next_spec(s))),
        ) == s,
{
}

/// An optional index, read as an unbounded integer.
pub open spec fn index_view(o: Option<usize>) -> Option<int> {
    match o {
        Some(i) => Some(i as int),
        None => None,
    }
}

/// An optional string, read as an optional character sequence.
pub open spec fn opt_str_view(o: Option<String>) -> Option<Seq<char>> {
    match o {
        Some(s) => Some(s@),
        None => None,
    }
}

/// Circular successor over `len` entries: from the last entry the cursor
/// wraps to the first. An empty roster leaves the cursor untouched; a
/// cleared or out-of-range cursor restarts at the first entry.
pub open spec fn cursor_next_wrapped(cur: Option<int>, len: int) -> Option<int> {
    if len == 0 {
        cur
    } else {
        match cur {
            Some(i) => if i >= len - 1 {
                Some(0)
            } else {
                Some(i + 1)
            },
            None => Some(0),
        }
    }
}

/// Circular predecessor over `len` entries: from the first entry the cursor
/// wraps to the last.
pub open spec fn cursor_prev_wrapped(cur: Option<int>, len: int) -> Option<int> {
    if len == 0 {
        cur
    } else {
        match cur {
            Some(i) => if i == 0 {
                Some(len - 1)
            } else {
                Some(i - 1)
            },
            None => Some(0),
        }
    }
}

/// Clamped successor over `len` entries: the cursor stops at the last
/// entry instead of wrapping.
pub open spec fn cursor_next_clamped(cur: Option<int>, len: int) -> Option<int> {
    if len == 0 {
        cur
    } else {
        match cur {
            Some(i) => if i >= len - 1 {
                Some(i)
            } else {
                Some(i + 1)
            },
            None => Some(0),
        }
    }
}

/// Clamped predecessor over `len` entries: the cursor stops at the first
/// entry instead of wrapping.
pub open spec fn cursor_prev_clamped(cur: Option<int>, len: int) -> Option<int> {
    if len == 0 {
        cur
    } else {
        match cur {
            Some(i) => if i == 0 {
                Some(0)
            } else {
                Some(i - 1)
            },
            None => Some(0),
        }
    }
}

/// Wraparound law of the roster cursor: for any roster of at least one
/// entry, stepping down from the last index lands on the first, and
/// stepping up from the first lands on the last.
pub proof fn lemma_dashboard_wraparound(len: int)
    requires
        len >= 1,
    ensures
        cursor_next_wrapped(Some(len - 1), len) == Some(0int),
        cursor_prev_wrapped(Some(0int), len) == Some(len - 1),
{
}

/// Clamp law of the scroll cursor: for any list of at least one entry,
/// stepping down from the last index stays on the last, and stepping up
/// from the first stays on the first.
pub proof fn lemma_terminal_clamp(len: int)
    requires
        len >= 1,
    ensures
        cursor_next_clamped(Some(len - 1), len) == Some(len - 1int),
        cursor_prev_clamped(Some(0int), len) == Some(0int),
{
}

/// Mathematical value of a [`DashboardState`].
#[verifier::ext_equal]
pub ghost struct DashboardV {
    pub ghosts: Seq<GhostAgentV>,
    pub selection_cursor: Option<int>,
}

/// Ghost roster plus the row selection of the dashboard table.
#[derive(Clone, Debug, PartialEq, Eq)]
pub struct DashboardState {
    pub ghosts: Vec<GhostAgent>,
    pub selection_cursor: Option<usize>,
}

impl View for DashboardState {
    type V = DashboardV;

    open spec fn view(&self) -> DashboardV {
        DashboardV {
            ghosts: crate::models::ghost_seq_view(self.ghosts@),
            selection_cursor: index_view(self.selection_cursor),
        }
    }
}

/// Identifier of the ghost under the selection cursor, if the cursor
/// stands on a roster entry.
pub open spec fn selected_id_spec(d: DashboardV) -> Option<Seq<char>> {
    match d.selection_cursor {
        Some(i) => if 0 <= i < d.ghosts.len() {
            Some(d.ghosts[i].id)
        } else {
            None
        },
        None => None,
    }
}

impl Default for DashboardState {
    /// Fresh dashboard: empty roster, selection primed on the first row so
    /// the first fetched roster is immediately navigable.
    fn default() -> (s: Self)
        ensures
            s@.ghosts == Seq::<GhostAgentV>::empty(),
            s@.selection_cursor == Some(0int),
    {
        let s = DashboardState { ghosts: Vec::new(), selection_cursor: Some(0) };
        proof {
            assert(s@.ghosts =~= Seq::<GhostAgentV>::empty());
        }
        s
    }
}

impl DashboardState {
    /// Moves the selection down one row, wrapping from the last row to the
    /// first. No effect on an empty roster.
    pub fn select_next(&mut self)
        ensures
            final(self).ghosts == old(self).ghosts,
            final(self)@.selection_cursor == cursor_next_wrapped(
                old(self)@.selection_cursor,
                old(self)@.ghosts.len() as int,
            ),
    {
        if self.ghosts.len() == 0 {
            return;
        }
        let i: usize = match self.selection_cursor {
            Some(i) => if i >= self.ghosts.len() - 1 {
                0
            } else {
                i + 1
            },
            None => 0,
        };
        self.selection_cursor = Some(i);
    }

    /// Moves the selection up one row, wrapping from the first row to the
    /// last. No effect on an empty roster.
    pub fn select_prev(&mut self)
        ensures
            final(self).ghosts == old(self).ghosts,
            final(self)@.selection_cursor == cursor_prev_wrapped(
                old(self)@.selection_cursor,
                old(self)@.ghosts.len() as int,
            ),
    {
        if self.ghosts.len() == 0 {
            return;
        }
        let i: usize = match self.selection_cursor {
            Some(i) => if i == 0 {
                self.ghosts.len() - 1
            } else {
                i - 1
            },
            None => 0,
        };
        self.selection_cursor = Some(i);
    }

    /// Identifier of the selected ghost, if the cursor stands on a row.
    pub fn selected_ghost_id(&self) -> (r: Option<String>)
        ensures
            opt_str_view(r) == selected_id_spec(self@),
    {
        match self.selection_cursor {
            Some(i) => if i < self.ghosts.len() {
                Some(self.ghosts[i].id.clone())
            } else {
                None
            },
            None => None,
        }
    }

    /// Index of the selected row, if any.
    pub fn selected_ghost_index(&self) -> (r: Option<usize>)
        ensures
            index_view(r) == self@.selection_cursor,
    {
        self.selection_cursor
    }
}

/// Mathematical value of a [`TerminalState`].
#[verifier::ext_equal]
pub ghost struct TerminalV {
    pub tasks: Seq<TaskV>,
    pub scroll_cursor: Option<int>,
    pub input_buffer: Seq<char>,
    pub active_ghost_id: Option<Seq<char>>,
    pub input_mode: bool,
}

/// Task list, scroll position and input line of the terminal screen.
/// `active_ghost_id` is a lookup key, not an ownership reference: it is
/// resolved against the roster by equality each time it is needed and may
/// go stale when the roster changes.
#[derive(Clone, Debug, PartialEq, Eq)]
pub struct TerminalState {
    pub tasks: Vec<Task>,
    pub scroll_cursor: Option<usize>,
    pub input_buffer: String,
    pub active_ghost_id: Option<String>,
    pub input_mode: bool,
}

impl View for TerminalState {
    type V = TerminalV;

    open spec fn view(&self) -> TerminalV {
        TerminalV {
            tasks: crate::models::task_seq_view(self.tasks@),
            scroll_cursor: index_view(self.scroll_cursor),
            input_buffer: self.input_buffer@,
            active_ghost_id: opt_str_view(self.active_ghost_id),
            input_mode: self.input_mode,
        }
    }
}

impl Default for TerminalState {
    /// Fresh terminal: no tasks, no scroll position, empty input line, no
    /// active ghost.
    fn default() -> (s: Self)
        ensures
            s@.tasks == Seq::<TaskV>::empty(),
            s@.scroll_cursor is None,
            s@.input_buffer == Seq::<char>::empty(),
            s@.active_ghost_id is None,
            !s@.input_mode,
    {
        let s = TerminalState {
            tasks: Vec::new(),
            scroll_cursor: None,
            input_buffer: String::new(),
            active_ghost_id: None,
            input_mode: false,
        };
        proof {
            assert(s@.tasks =~= Seq::<TaskV>::empty());
        }
        s
    }
}

impl TerminalState {
    /// Moves the scroll cursor down one entry, stopping at the last. No
    /// effect on an empty task list.
    pub fn scroll_down(&mut self)
        ensures
            final(self).tasks == old(self).tasks,
            final(self).input_buffer == old(self).input_buffer,
            final(self).active_ghost_id == old(self).active_ghost_id,
            final(self).input_mode == old(self).input_mode,
            final(self)@.scroll_cursor == cursor_next_clamped(
                old(self)@.scroll_cursor,
                old(self)@.tasks.len() as int,
            ),
    {
        if self.tasks.len() == 0 {
            return;
        }
        let i: usize = match self.scroll_cursor {
            Some(i) => if i >= self.tasks.len() - 1 {
                i
            } else {
                i + 1
            },
            None => 0,
        };
        self.scroll_cursor = Some(i);
    }

    /// Moves the scroll cursor up one entry, stopping at the first. No
    /// effect on an empty task list.
    pub fn scroll_up(&mut self)
        ensures
            final(self).tasks == old(self).tasks,
            final(self).input_buffer == old(self).input_buffer,
            final(self).active_ghost_id == old(self).active_ghost_id,
            final(self).input_mode == old(self).input_mode,
            final(self)@.scroll_cursor == cursor_prev_clamped(
                old(self)@.scroll_cursor,
                old(self)@.tasks.len() as int,
            ),
    {
        if self.tasks.len() == 0 {
            return;
        }
        let i: usize = match self.scroll_cursor {
            Some(i) => if i == 0 {
                0
            } else {
                i - 1
            },
            None => 0,
        };
        self.scroll_cursor = Some(i);
    }

    /// Puts the scroll cursor on the last task. No effect on an empty list.
    pub fn scroll_to_bottom(&mut self)
        ensures
            final(self).tasks == old(self).tasks,
            final(self).input_buffer == old(self).input_buffer,
            final(self).active_ghost_id == old(self).active_ghost_id,
            final(self).input_mode == old(self).input_mode,
            final(self)@.scroll_cursor == if old(self)@.tasks.len() == 0 {
                old(self)@.scroll_cursor
            } else {
                Some(old(self)@.tasks.len() - 1)
            },
    {
        if self.tasks.len() > 0 {
            self.scroll_cursor = Some(self.tasks.len() - 1);
        }
    }
}

/// The three focusable positions of the config form.
#[derive(Clone, Copy, Debug, PartialEq, Eq, Structural)]
pub enum ConfigField {
    Sleep,
    Jitter,
    Submit,
}

/// Field that follows `f` in the config form, wrapping around.
pub open spec fn config_next_spec(f: ConfigField) -> ConfigField {
    match f {
        ConfigField::Sleep => ConfigField::Jitter,
        ConfigField::Jitter => ConfigField::Submit,
        ConfigField::Submit => ConfigField::Sleep,
    }
}

/// Field that precedes `f` in the config form, wrapping around.
pub open spec fn config_prev_spec(f: ConfigField) -> ConfigField {
    match f {
        ConfigField::Sleep => ConfigField::Submit,
        ConfigField::Jitter => ConfigField::Sleep,
        ConfigField::Submit => ConfigField::Jitter,
    }
}

/// The config field cycle is circular: three steps forward return to the
/// start, and one step back undoes one step forward.
pub proof fn lemma_config_cycle(f: ConfigField)
    ensures
        config_prev_spec(config_next_spec(f)) == f,
        config_next_spec(config_prev_spec(f)) == f,
        config_next_spec(config_next_spec(config_next_spec(f))) == f,
{
}

/// Mathematical value of a [`ConfigState`].
#[verifier::ext_equal]
pub ghost struct ConfigV {
    pub selected_field: ConfigField,
    pub sleep_input: Seq<char>,
    pub jitter_input: Seq<char>,
}

/// Per-ghost configuration form. Both numeric fields are raw text buffers,
/// parsed only at submit time.
#[derive(Clone, Debug, PartialEq, Eq)]
pub struct ConfigState {
    pub selected_field: ConfigField,
    pub sleep_input: String,
    pub jitter_input: String,
}

impl View for ConfigState {
    type V = ConfigV;

    open spec fn view(&self) -> ConfigV {
        ConfigV {
            selected_field: self.selected_field,
            sleep_input: self.sleep_input@,
            jitter_input: self.jitter_input@,
        }
    }
}

impl Default for ConfigState {
    /// Fresh config form: sleep field focused, default sleep and jitter
    /// values as text.
    fn default() -> (s: Self)
        ensures
            s.selected_field == ConfigField::Sleep,
            s.sleep_input@ == "10"@,
            s.jitter_input@ == "5"@,
    {
        ConfigState {
            selected_field: ConfigField::Sleep,
            sleep_input: "10".to_owned(),
            jitter_input: "5".to_owned(),
        }
    }
}

impl ConfigState {
    /// Moves the focus to the next field, wrapping around after Submit.
    pub fn next_field(&mut self)
        ensures
            final(self).selected_field == config_next_spec(old(self).selected_field),
            final(self).sleep_input == old(self).sleep_input,
            final(self).jitter_input == old(self).jitter_input,
    {
        self.selected_field = match self.selected_field {
            ConfigField::Sleep => ConfigField::Jitter,
            ConfigField::Jitter => ConfigField::Submit,
            ConfigField::Submit => ConfigField::Sleep,
        };
    }

    /// Moves the focus to the previous field, wrapping around before Sleep.
    pub fn prev_field(&mut self)
        ensures
            final(self).selected_field == config_prev_spec(old(self).selected_field),
            final(self).sleep_input == old(self).sleep_input,
            final(self).jitter_input == old(self).jitter_input,
    {
        self.selected_field = match self.selected_field {
            ConfigField::Sleep => ConfigField::Submit,
            ConfigField::Jitter => ConfigField::Sleep,
            ConfigField::Submit => ConfigField::Jitter,
        };
    }
}

/// Mathematical value of an [`AppState`].
#[verifier::ext_equal]
pub ghost struct AppStateV {
    pub current_screen: CurrentScreen,
    pub dashboard: DashboardV,
    pub terminal: TerminalV,
    pub config: ConfigV,
    pub builder: BuilderV,
    pub show_help: bool,
    pub show_action_menu: bool,
    pub status_message: Seq<char>,
}

/// The aggregate state of the console: one sub-state per screen plus the
/// global modal flags and the one-line status text.
#[derive(Clone, Debug, PartialEq, Eq)]
pub struct AppState {
    pub current_screen: CurrentScreen,
    pub dashboard: DashboardState,
    pub terminal: TerminalState,
    pub config: ConfigState,
    pub builder: BuilderState,
    pub show_help: bool,
    pub show_action_menu: bool,
    pub status_message: String,
}

impl View for AppState {
    type V = AppStateV;

    open spec fn view(&self) -> AppStateV {
        AppStateV {
            current_screen: self.current_screen,
            dashboard: self.dashboard@,
            terminal: self.terminal@,
            config: self.config@,
            builder: self.builder@,
            show_help: self.show_help,
            show_action_menu: self.show_action_menu,
            status_message: self.status_message@,
        }
    }
}

impl Default for AppState {
    /// Startup state: dashboard screen, every sub-state fresh, no modal
    /// open, ready prompt in the status line.
    fn default() -> (s: Self)
        ensures
            s.current_screen == CurrentScreen::Dashboard,
            s@.dashboard.ghosts == Seq::<GhostAgentV>::empty(),
            s@.dashboard.selection_cursor == Some(0int),
            s@.terminal.tasks == Seq::<TaskV>::empty(),
            s@.terminal.scroll_cursor is None,
            s@.terminal.input_buffer == Seq::<char>::empty(),
            s@.terminal.active_ghost_id is None,
            s.config.selected_field == ConfigField::Sleep,
            s.config.sleep_input@ == "10"@,
            s.config.jitter_input@ == "5"@,
            s.builder.active_category == crate::builder::BuilderCategory::General,
            s.builder.selected_field == crate::builder::BuilderField::CategorySelect,
            !s.show_help,
            !s.show_action_menu,
            s.status_message@ == "READY - press 'h' for help"@,
    {
        AppState {
            current_screen: CurrentScreen::Dashboard,
            dashboard: DashboardState::default(),
            terminal: TerminalState::default(),
            config: ConfigState::default(),
            builder: BuilderState::default(),
            show_help: false,
            show_action_menu: false,
            status_message: "READY - press 'h' for help".to_owned(),
        }
    }
}

impl AppState {
    /// Switches to the next screen in tab order.
    pub fn next_tab(&mut self)
        ensures
            final(self)@ == (AppStateV {
                current_screen: screen_next_spec(old(self).current_screen),
                ..old(self)@
            }),
    {
        self.current_screen = match self.current_screen {
            CurrentScreen::Dashboard => CurrentScreen::Terminal,
            CurrentScreen::Terminal => CurrentScreen::Config,
            CurrentScreen::Config => CurrentScreen::Builder,
            CurrentScreen::Builder => CurrentScreen::Dashboard,
        };
    }

    /// Switches to the previous screen in tab order.
    pub fn prev_tab(&mut self)
        ensures
            final(self)@ == (AppStateV {
                current_screen: screen_prev_spec(old(self).current_screen),
                ..old(self)@
            }),
    {
        self.current_screen = match self.current_screen {
            CurrentScreen::Dashboard => CurrentScreen::Builder,
            CurrentScreen::Terminal => CurrentScreen::Dashboard,
            CurrentScreen::Config => CurrentScreen::Terminal,
            CurrentScreen::Builder => CurrentScreen::Config,
        };
    }
}

} // verus!
