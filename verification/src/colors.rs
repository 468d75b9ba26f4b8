//! The named terminal colours the interface draws with: the mode badge, toasts and
//! status indicators each have one. The renderer maps them to terminal colours.
use vstd::prelude::*;
use crate::app::{CommandStatus, InputMode};
use crate::events::ConnectionState;
use crate::feedback::{StatusIndicator, ToastLevel};
use crate::mode::AppMode;

verus! {

/// A named terminal colour.
#[derive(Debug, Clone, Copy, PartialEq, Eq, Structural)]
pub enum UiColor {
    Gray,
    Cyan,
    Green,
    Yellow,
    Red,
    Blue,
}

/// Colour of a mode badge.
pub open spec fn spec_mode_color(m: AppMode) -> UiColor {
    match m {
        AppMode::Navigation => UiColor::Green,
        AppMode::Edit => UiColor::Yellow,
        AppMode::View => UiColor::Cyan,
    }
}

/// Colour of a toast.
pub open spec fn spec_toast_color(l: ToastLevel) -> UiColor {
    match l {
        ToastLevel::Info => UiColor::Cyan,
        ToastLevel::Success => UiColor::Green,
        ToastLevel::Warning => UiColor::Yellow,
        ToastLevel::Error => UiColor::Red,
    }
}

/// Colour of a status indicator.
pub open spec fn spec_status_color(s: StatusIndicator) -> UiColor {
    match s {
        StatusIndicator::Idle => UiColor::Gray,
        StatusIndicator::Active => UiColor::Cyan,
        StatusIndicator::Success => UiColor::Green,
        StatusIndicator::Warning => UiColor::Yellow,
        StatusIndicator::Error => UiColor::Red,
        StatusIndicator::Loading => UiColor::Blue,
    }
}

impl AppMode {
    /// Colour of this mode's badge (see `spec_mode_color`).
    pub fn color(&self) -> (r: UiColor)
        ensures
            r == spec_mode_color(*self),
    {
        match self {
            AppMode::Navigation => UiColor::Green,
            AppMode::Edit => UiColor::Yellow,
            AppMode::View => UiColor::Cyan,
        }
    }
}

impl ToastLevel {
    /// Colour of a toast of this level (see `spec_toast_color`).
    pub fn color(&self) -> (r: UiColor)
        ensures
            r == spec_toast_color(*self),
    {
        match self {
            ToastLevel::Info => UiColor::Cyan,
            ToastLevel::Success => UiColor::Green,
            ToastLevel::Warning => UiColor::Yellow,
            ToastLevel::Error => UiColor::Red,
        }
    }
}

impl StatusIndicator {
    /// Colour of this status (see `spec_status_color`).
    pub fn color(&self) -> (r: UiColor)
        ensures
            r == spec_status_color(*self),
    {
        match self {
            StatusIndicator::Idle => UiColor::Gray,
            StatusIndicator::Active => UiColor::Cyan,
            StatusIndicator::Success => UiColor::Green,
            StatusIndicator::Warning => UiColor::Yellow,
            StatusIndicator::Error => UiColor::Red,
            StatusIndicator::Loading => UiColor::Blue,
        }
    }
}

/// Colour of a connection badge.
pub open spec fn spec_connection_color(c: ConnectionState) -> UiColor {
    match c {
        ConnectionState::Connected => UiColor::Green,
        ConnectionState::Starting => UiColor::Blue,
        ConnectionState::Retrying => UiColor::Red,
    }
}

/// Colour of a command outcome.
pub open spec fn spec_command_color(c: CommandStatus) -> UiColor {
    match c {
        CommandStatus::Accepted => UiColor::Blue,
        CommandStatus::Completed => UiColor::Green,
        CommandStatus::Failed => UiColor::Red,
    }
}

impl ConnectionState {
    /// Colour of a connection badge in this state (see `spec_connection_color`).
    pub fn color(&self) -> (r: UiColor)
        ensures
            r == spec_connection_color(*self),
    {
        match self {
            ConnectionState::Connected => UiColor::Green,
            ConnectionState::Starting => UiColor::Blue,
            ConnectionState::Retrying => UiColor::Red,
        }
    }
}

impl CommandStatus {
    /// Colour of a command outcome (see `spec_command_color`).
    pub fn color(&self) -> (r: UiColor)
        ensures
            r == spec_command_color(*self),
    {
        match self {
            CommandStatus::Accepted => UiColor::Blue,
            CommandStatus::Completed => UiColor::Green,
            CommandStatus::Failed => UiColor::Red,
        }
    }
}

/// Colour of the mode indicator of an input surface: cyan for the Charts search,
/// yellow for the other surfaces that have an indicator.
pub fn mode_indicator_color(mode: InputMode) -> (r: UiColor)
    ensures
        r == if mode == InputMode::ChartSearch { UiColor::Cyan } else { UiColor::Yellow },
{
    if mode == InputMode::ChartSearch { UiColor::Cyan } else { UiColor::Yellow }
}

} // verus!
