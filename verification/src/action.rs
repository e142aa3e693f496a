//! The event model: a closed, flat set of input and result events. Raw key
//! input is translated one-to-one by the executor; result events wrap the
//! outcome of a previously emitted command as plain data.

use vstd::prelude::*;
use crate::models::{ghost_seq_view, task_seq_view, GhostAgent, GhostAgentV, Task, TaskV};

verus! {

/// Mathematical value of an [`Action`]: payload strings as character
/// sequences, payload lists element-wise by view.
#[verifier::ext_equal]
pub ghost enum ActionV {
    Tick,
    Quit,
    Resize(u16, u16),
    NextTab,
    PrevTab,
    ToggleHelp,
    Enter,
    Esc,
    Backspace,
    Up,
    Down,
    Left,
    Right,
    Char(char),
    OpenActionMenu,
    ConfirmKillGhost,
    SubmitGhostConfig,
    ToggleBuilderSwitch,
    StartBuild,
    ReceiveGhosts(Result<Seq<GhostAgentV>, Seq<char>>),
    ReceiveTasks(Result<Seq<TaskV>, Seq<char>>),
    ReceiveTaskSendResult(Result<Seq<char>, Seq<char>>),
    ReceiveConfigUpdateResult(Result<Seq<char>, Seq<char>>),
    ReceiveKillResult(Result<Seq<char>, Seq<char>>),
    ReceiveBuildResult(Result<Seq<char>, Seq<char>>),
    AutoRefresh,
}

/// View of a fetched roster result.
pub open spec fn ghosts_result_view(r: Result<Vec<GhostAgent>, String>) -> Result<
    Seq<GhostAgentV>,
    Seq<char>,
> {
    match r {
        Ok(v) => Ok(ghost_seq_view(v@)),
        Err(e) => Err(e@),
    }
}

/// View of a fetched task-list result.
pub open spec fn tasks_result_view(r: Result<Vec<Task>, String>) -> Result<
    Seq<TaskV>,
    Seq<char>,
> {
    match r {
        Ok(v) => Ok(task_seq_view(v@)),
        Err(e) => Err(e@),
    }
}

/// View of a plain confirmation-or-error result.
pub open spec fn msg_result_view(r: Result<String, String>) -> Result<Seq<char>, Seq<char>> {
    match r {
        Ok(m) => Ok(m@),
        Err(e) => Err(e@),
    }
}

/// One event fed to the reducer: lifecycle, global navigation, raw
/// directional or editing input, screen-specific triggers, and one result
/// event per outstanding command kind, each wrapping success or an error
/// message.
#[derive(Debug, PartialEq)]
pub enum Action {
    Tick,
    Quit,
    Resize(u16, u16),
    NextTab,
    PrevTab,
    ToggleHelp,
    Enter,
    Esc,
    Backspace,
    Up,
    Down,
    Left,
    Right,
    Char(char),
    OpenActionMenu,
    ConfirmKillGhost,
    SubmitGhostConfig,
    ToggleBuilderSwitch,
    StartBuild,
    ReceiveGhosts(Result<Vec<GhostAgent>, String>),
    ReceiveTasks(Result<Vec<Task>, String>),
    ReceiveTaskSendResult(Result<String, String>),
    ReceiveConfigUpdateResult(Result<String, String>),
    ReceiveKillResult(Result<String, String>),
    ReceiveBuildResult(Result<String, String>),
    AutoRefresh,
}

impl View for Action {
    type V = ActionV;

    open spec fn view(&self) -> ActionV {
        match self {
            Action::Tick => ActionV::Tick,
            Action::Quit => ActionV::Quit,
            Action::Resize(w, h) => ActionV::Resize(*w, *h),
            Action::NextTab => ActionV::NextTab,
            Action::PrevTab => ActionV::PrevTab,
            Action::ToggleHelp => ActionV::ToggleHelp,
            Action::Enter => ActionV::Enter,
            Action::Esc => ActionV::Esc,
            Action::Backspace => ActionV::Backspace,
            Action::Up => ActionV::Up,
            Action::Down => ActionV::Down,
            Action::Left => ActionV::Left,
            Action::Right => ActionV::Right,
            Action::Char(c) => ActionV::Char(*c),
            Action::OpenActionMenu => ActionV::OpenActionMenu,
            Action::ConfirmKillGhost => ActionV::ConfirmKillGhost,
            Action::SubmitGhostConfig => ActionV::SubmitGhostConfig,
            Action::ToggleBuilderSwitch => ActionV::ToggleBuilderSwitch,
            Action::StartBuild => ActionV::StartBuild,
            Action::ReceiveGhosts(r) => ActionV::ReceiveGhosts(ghosts_result_view(*r)),
            Action::ReceiveTasks(r) => ActionV::ReceiveTasks(tasks_result_view(*r)),
            Action::ReceiveTaskSendResult(r) => ActionV::ReceiveTaskSendResult(
                msg_result_view(*r),
            ),
            Action::ReceiveConfigUpdateResult(r) => ActionV::ReceiveConfigUpdateResult(
                msg_result_view(*r),
            ),
            Action::ReceiveKillResult(r) => ActionV::ReceiveKillResult(msg_result_view(*r)),
            Action::ReceiveBuildResult(r) => ActionV::ReceiveBuildResult(msg_result_view(*r)),
            Action::AutoRefresh => ActionV::AutoRefresh,
        }
    }
}

} // verus!
