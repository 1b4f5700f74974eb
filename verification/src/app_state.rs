//! The state of a front end and how it moves: a message comes in, the state
//! changes, and commands go out for the front end to carry out.

use vstd::prelude::*;
use vstd::string::*;

use crate::status::{
    RecentStatus, RecentStatusView, SysMainStatus, SysMainStatusView, SystemRestoreStatus,
};

verus! {

/// What can happen: the user asks for something, or a command has finished.
#[derive(Debug)]
pub enum Message {
    EnableRecent,
    EnableSysMain,
    EnableSystemRestore,
    Refresh,
    RecentChecked(Result<RecentStatus, String>),
    SysMainChecked(Result<SysMainStatus, String>),
    SystemRestoreChecked(Result<SystemRestoreStatus, String>),
    RecentEnabled(Result<String, String>),
    SysMainEnabled(Result<String, String>),
    SystemRestoreEnabled(Result<String, String>),
    OpenRecentFolder,
    OpenPrefetchFolder,
    RestartAsAdmin,
}

/// The mathematical value of a [`Message`].
pub enum MessageView {
    EnableRecent,
    EnableSysMain,
    EnableSystemRestore,
    Refresh,
    RecentChecked(Result<RecentStatusView, Seq<char>>),
    SysMainChecked(Result<SysMainStatusView, Seq<char>>),
    SystemRestoreChecked(Result<SystemRestoreStatus, Seq<char>>),
    RecentEnabled(Result<Seq<char>, Seq<char>>),
    SysMainEnabled(Result<Seq<char>, Seq<char>>),
    SystemRestoreEnabled(Result<Seq<char>, Seq<char>>),
    OpenRecentFolder,
    OpenPrefetchFolder,
    RestartAsAdmin,
}

/// The mathematical value of the outcome of an enable command.
pub open spec fn text_outcome(result: Result<String, String>) -> Result<Seq<char>, Seq<char>> {
    match result {
        Ok(text) => Ok(text@),
        Err(e) => Err(e@),
    }
}

impl View for Message {
    type V = MessageView;

    open spec fn view(&self) -> MessageView {
        match self {
            Message::EnableRecent => MessageView::EnableRecent,
            Message::EnableSysMain => MessageView::EnableSysMain,
            Message::EnableSystemRestore => MessageView::EnableSystemRestore,
            Message::Refresh => MessageView::Refresh,
            Message::RecentChecked(result) => MessageView::RecentChecked(
                match result {
                    Ok(status) => Ok(status@),
                    Err(e) => Err(e@),
                },
            ),
            Message::SysMainChecked(result) => MessageView::SysMainChecked(
                match result {
                    Ok(status) => Ok(status@),
                    Err(e) => Err(e@),
                },
            ),
            Message::SystemRestoreChecked(result) => MessageView::SystemRestoreChecked(
                match result {
                    Ok(status) => Ok(*status),
                    Err(e) => Err(e@),
                },
            ),
            Message::RecentEnabled(result) => MessageView::RecentEnabled(text_outcome(*result)),
            Message::SysMainEnabled(result) => MessageView::SysMainEnabled(text_outcome(*result)),
            Message::SystemRestoreEnabled(result) => MessageView::SystemRestoreEnabled(
                text_outcome(*result),
            ),
            Message::OpenRecentFolder => MessageView::OpenRecentFolder,
            Message::OpenPrefetchFolder => MessageView::OpenPrefetchFolder,
            Message::RestartAsAdmin => MessageView::RestartAsAdmin,
        }
    }
}

/// What the front end is to do. Each check and each enable command ends in
/// the message of its name.
#[derive(Debug, Clone)]
pub enum Command {
    CheckRecent,
    CheckSysMain,
    CheckSystemRestore,
    EnableRecent,
    EnableSysMain,
    EnableSystemRestore,
    /// Show this folder in the file manager.
    OpenFolder(String),
    /// Start the program again with administrator rights, and end this one.
    RestartAsAdmin,
}

/// The mathematical value of a [`Command`].
pub enum CommandView {
    CheckRecent,
    CheckSysMain,
    CheckSystemRestore,
    EnableRecent,
    EnableSysMain,
    EnableSystemRestore,
    OpenFolder(Seq<char>),
    RestartAsAdmin,
}

impl View for Command {
    type V = CommandView;

    open spec fn view(&self) -> CommandView {
        match self {
            Command::CheckRecent => CommandView::CheckRecent,
            Command::CheckSysMain => CommandView::CheckSysMain,
            Command::CheckSystemRestore => CommandView::CheckSystemRestore,
            Command::EnableRecent => CommandView::EnableRecent,
            Command::EnableSysMain => CommandView::EnableSysMain,
            Command::EnableSystemRestore => CommandView::EnableSystemRestore,
            Command::OpenFolder(path) => CommandView::OpenFolder(path@),
            Command::RestartAsAdmin => CommandView::RestartAsAdmin,
        }
    }
}

impl DeepView for Command {
    type V = CommandView;

    open spec fn deep_view(&self) -> CommandView {
        self@
    }
}

/// What the front end shows: the last snapshot of each feature, a message,
/// and whether the process has administrator rights.
#[derive(Debug)]
pub struct State {
    pub recent_status: Option<RecentStatus>,
    pub sysmain_status: Option<SysMainStatus>,
    pub system_restore_status: Option<SystemRestoreStatus>,
    pub status_message: String,
    pub is_admin: bool,
}

/// The mathematical value of a [`State`].
pub struct StateView {
    pub recent_status: Option<RecentStatusView>,
    pub sysmain_status: Option<SysMainStatusView>,
    pub system_restore_status: Option<SystemRestoreStatus>,
    pub status_message: Seq<char>,
    pub is_admin: bool,
}

impl View for State {
    type V = StateView;

    open spec fn view(&self) -> StateView {
        StateView {
            recent_status: match self.recent_status {
                Some(status) => Some(status@),
                None => None,
            },
            sysmain_status: match self.sysmain_status {
                Some(status) => Some(status@),
                None => None,
            },
            system_restore_status: self.system_restore_status,
            status_message: self.status_message@,
            is_admin: self.is_admin,
        }
    }
}

/// The three checks, as they are run at the start and on a refresh.
pub open spec fn all_checks() -> Seq<CommandView> {
    seq![CommandView::CheckRecent, CommandView::CheckSysMain, CommandView::CheckSystemRestore]
}

/// The message shown when an enable command failed.
pub open spec fn failure_text(error: Seq<char>) -> Seq<char> {
    "Ошибка: "@ + error
}

/// What follows an enable command: on success its text is shown and the
/// checks in `checks` are run again; on failure the error is shown.
pub open spec fn after_enable(
    state: StateView,
    result: Result<Seq<char>, Seq<char>>,
    checks: Seq<CommandView>,
) -> (StateView, Seq<CommandView>) {
    match result {
        Ok(text) => (StateView { status_message: text, ..state }, checks),
        Err(e) => (StateView { status_message: failure_text(e), ..state }, seq![]),
    }
}

/// The rule of the front end: the state and the commands that follow from a
/// state and a message.
///
/// A request becomes its command. A finished check stores its snapshot and
/// clears the message, or shows its error and keeps the old snapshot. A
/// finished enable command shows its text and has the feature checked
/// again. A folder is opened only once its path is known. The rights of the
/// process never change.
pub open spec fn step(state: StateView, message: MessageView) -> (StateView, Seq<CommandView>) {
    match message {
        MessageView::Refresh => (state, all_checks()),
        MessageView::EnableRecent => (state, seq![CommandView::EnableRecent]),
        MessageView::EnableSysMain => (state, seq![CommandView::EnableSysMain]),
        MessageView::EnableSystemRestore => (state, seq![CommandView::EnableSystemRestore]),
        MessageView::RecentChecked(result) => match result {
            Ok(status) => (
                StateView { recent_status: Some(status), status_message: seq![], ..state },
                seq![],
            ),
            Err(e) => (StateView { status_message: "Ошибка Recent: "@ + e, ..state }, seq![]),
        },
        MessageView::SysMainChecked(result) => match result {
            Ok(status) => (
                StateView { sysmain_status: Some(status), status_message: seq![], ..state },
                seq![],
            ),
            Err(e) => (StateView { status_message: "Ошибка Prefetch: "@ + e, ..state }, seq![]),
        },
        MessageView::SystemRestoreChecked(result) => match result {
            Ok(status) => (
                StateView { system_restore_status: Some(status), status_message: seq![], ..state },
                seq![],
            ),
            Err(e) => (
                StateView { status_message: "Ошибка System Restore: "@ + e, ..state },
                seq![],
            ),
        },
        MessageView::RecentEnabled(result) => after_enable(
            state,
            result,
            seq![CommandView::CheckRecent],
        ),
        MessageView::SysMainEnabled(result) => after_enable(
            state,
            result,
            seq![CommandView::CheckRecent, CommandView::CheckSysMain],
        ),
        MessageView::SystemRestoreEnabled(result) => after_enable(
            state,
            result,
            seq![CommandView::CheckSystemRestore],
        ),
        MessageView::OpenRecentFolder => match state.recent_status {
            Some(status) => (state, seq![CommandView::OpenFolder(status.path)]),
            None => (state, seq![]),
        },
        MessageView::OpenPrefetchFolder => match state.sysmain_status {
            Some(status) => (state, seq![CommandView::OpenFolder(status.prefetch_path)]),
            None => (state, seq![]),
        },
        MessageView::RestartAsAdmin => (state, seq![CommandView::RestartAsAdmin]),
    }
}

impl State {
    /// The state at the start: nothing checked, nothing to say.
    pub fn new(is_admin: bool) -> (state: State)
        ensures
            state@ == (StateView {
                recent_status: None,
                sysmain_status: None,
                system_restore_status: None,
                status_message: seq![],
                is_admin,
            }),
    {
        State {
            recent_status: None,
            sysmain_status: None,
            system_restore_status: None,
            status_message: String::new(),
            is_admin,
        }
    }
}

/// The commands to run at the start: the three checks.
pub fn init() -> (commands: Vec<Command>)
    ensures
        commands.deep_view() == all_checks(),
{
    let mut commands: Vec<Command> = Vec::new();
    commands.push(Command::CheckRecent);
    commands.push(Command::CheckSysMain);
    commands.push(Command::CheckSystemRestore);
    assert(commands.deep_view() =~= all_checks());
    commands
}

fn one(command: Command) -> (commands: Vec<Command>)
    ensures
        commands.deep_view() == seq![command@],
{
    let mut commands: Vec<Command> = Vec::new();
    commands.push(command);
    assert(commands.deep_view() =~= seq![command@]);
    commands
}

fn two(first: Command, second: Command) -> (commands: Vec<Command>)
    ensures
        commands.deep_view() == seq![first@, second@],
{
    let mut commands: Vec<Command> = Vec::new();
    commands.push(first);
    commands.push(second);
    assert(commands.deep_view() =~= seq![first@, second@]);
    commands
}

fn none() -> (commands: Vec<Command>)
    ensures
        commands.deep_view() == Seq::<CommandView>::empty(),
{
    let commands: Vec<Command> = Vec::new();
    assert(commands.deep_view() =~= Seq::<CommandView>::empty());
    commands
}

fn finish_enable(
    state: &mut State,
    result: Result<String, String>,
    checks: Vec<Command>,
) -> (commands: Vec<Command>)
    ensures
        (final(state)@, commands.deep_view()) == after_enable(
            old(state)@,
            text_outcome(result),
            checks.deep_view(),
        ),
{
    match result {
        Ok(text) => {
            state.status_message = text;
            checks
        },
        Err(e) => {
            state.status_message = String::from_str("Ошибка: ").concat(e.as_str());
            none()
        },
    }
}

/// Takes a message: changes the state and says what is to be done next.
pub fn update(state: &mut State, message: Message) -> (commands: Vec<Command>)
    ensures
        (final(state)@, commands.deep_view()) == step(old(state)@, message@),
{
    match message {
        Message::Refresh => init(),
        Message::EnableRecent => one(Command::EnableRecent),
        Message::EnableSysMain => one(Command::EnableSysMain),
        Message::EnableSystemRestore => one(Command::EnableSystemRestore),
        Message::RecentChecked(result) => {
            match result {
                Ok(status) => {
                    state.recent_status = Some(status);
                    state.status_message = String::new();
                },
                Err(e) => {
                    state.status_message = String::from_str("Ошибка Recent: ").concat(e.as_str());
                },
            }
            none()
        },
        Message::SysMainChecked(result) => {
            match result {
                Ok(status) => {
                    state.sysmain_status = Some(status);
                    state.status_message = String::new();
                },
                Err(e) => {
                    state.status_message = String::from_str("Ошибка Prefetch: ").concat(
                        e.as_str(),
                    );
                },
            }
            none()
        },
        Message::SystemRestoreChecked(result) => {
            match result {
                Ok(status) => {
                    state.system_restore_status = Some(status);
                    state.status_message = String::new();
                },
                Err(e) => {
                    state.status_message = String::from_str("Ошибка System Restore: ").concat(
                        e.as_str(),
                    );
                },
            }
            none()
        },
        Message::RecentEnabled(result) => finish_enable(state, result, one(Command::CheckRecent)),
        Message::SysMainEnabled(result) => finish_enable(
            state,
            result,
            two(Command::CheckRecent, Command::CheckSysMain),
        ),
        Message::SystemRestoreEnabled(result) => finish_enable(
            state,
            result,
            one(Command::CheckSystemRestore),
        ),
        Message::OpenRecentFolder => match &state.recent_status {
            Some(status) => one(Command::OpenFolder(status.path.clone())),
            None => none(),
        },
        Message::OpenPrefetchFolder => match &state.sysmain_status {
            Some(status) => one(Command::OpenFolder(status.prefetch_path.clone())),
            None => none(),
        },
        Message::RestartAsAdmin => one(Command::RestartAsAdmin),
    }
}

/// No message changes the rights that the state records, and only a
/// finished check changes a snapshot.
pub proof fn lemma_step_keeps(state: StateView, message: MessageView)
    ensures
        step(state, message).0.is_admin == state.is_admin,
        !(message is RecentChecked) ==> step(state, message).0.recent_status
            == state.recent_status,
        !(message is SysMainChecked) ==> step(state, message).0.sysmain_status
            == state.sysmain_status,
        !(message is SystemRestoreChecked) ==> step(state, message).0.system_restore_status
            == state.system_restore_status,
{
}

} // verus!
