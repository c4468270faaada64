//! The failures that the library reports.

use vstd::prelude::*;
use crate::text::{joined, owned};

verus! {

/// What can go wrong when items are stored, launched or registered.
#[derive(Clone, Debug, PartialEq, Eq)]
pub enum StartupError {
    /// A file or a process could not be reached. Holds the message to show.
    Io(String),
    /// A stored file does not hold what it should. Holds the message to show.
    Format(String),
    /// Registering with administrator rights was asked for by a process that
    /// has none.
    PrivilegeRequired,
    /// An item that starts a program names no program.
    EmptyTarget,
    /// An item that runs a command holds no command.
    EmptyCommand,
    /// An item's mode is neither of the two known ones. Holds the mode.
    UnknownMode(String),
    /// The operating system refused to start a process. Holds the message to
    /// show, which ends with what the operating system said.
    Spawn(String),
}

/// A `StartupError` with its texts as sequences of characters.
pub enum StartupErrorView {
    Io(Seq<char>),
    Format(Seq<char>),
    PrivilegeRequired,
    EmptyTarget,
    EmptyCommand,
    UnknownMode(Seq<char>),
    Spawn(Seq<char>),
}

impl View for StartupError {
    type V = StartupErrorView;

    open spec fn view(&self) -> StartupErrorView {
        match *self {
            StartupError::Io(message) => StartupErrorView::Io(message@),
            StartupError::Format(message) => StartupErrorView::Format(message@),
            StartupError::PrivilegeRequired => StartupErrorView::PrivilegeRequired,
            StartupError::EmptyTarget => StartupErrorView::EmptyTarget,
            StartupError::EmptyCommand => StartupErrorView::EmptyCommand,
            StartupError::UnknownMode(mode) => StartupErrorView::UnknownMode(mode@),
            StartupError::Spawn(message) => StartupErrorView::Spawn(message@),
        }
    }
}

/// The message shown for an error.
pub open spec fn message_text(error: StartupErrorView) -> Seq<char> {
    match error {
        StartupErrorView::Io(message) => message,
        StartupErrorView::Format(message) => message,
        StartupErrorView::PrivilegeRequired => "需要管理员权限来设置管理员自启动"@,
        StartupErrorView::EmptyTarget => "可执行文件路径为空"@,
        StartupErrorView::EmptyCommand => "命令为空"@,
        StartupErrorView::UnknownMode(mode) => "未知的启动项模式: "@ + mode,
        StartupErrorView::Spawn(message) => message,
    }
}

impl StartupError {
    /// Returns the message to show for this error.
    pub fn message(&self) -> (text: String)
        ensures
            text@ == message_text(self@),
    {
        match self {
            StartupError::Io(message) => message.clone(),
            StartupError::Format(message) => message.clone(),
            StartupError::PrivilegeRequired => owned("需要管理员权限来设置管理员自启动"),
            StartupError::EmptyTarget => owned("可执行文件路径为空"),
            StartupError::EmptyCommand => owned("命令为空"),
            StartupError::UnknownMode(mode) => joined("未知的启动项模式: ", mode.as_str()),
            StartupError::Spawn(message) => message.clone(),
        }
    }

    /// Returns a copy of this error.
    pub fn duplicate(&self) -> (copy: StartupError)
        ensures
            copy@ == self@,
    {
        match self {
            StartupError::Io(message) => StartupError::Io(message.clone()),
            StartupError::Format(message) => StartupError::Format(message.clone()),
            StartupError::PrivilegeRequired => StartupError::PrivilegeRequired,
            StartupError::EmptyTarget => StartupError::EmptyTarget,
            StartupError::EmptyCommand => StartupError::EmptyCommand,
            StartupError::UnknownMode(mode) => StartupError::UnknownMode(mode.clone()),
            StartupError::Spawn(message) => StartupError::Spawn(message.clone()),
        }
    }
}

} // verus!
