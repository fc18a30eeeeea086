//! The errors the library's operations report.

use vstd::prelude::*;

verus! {

/// Why a window operation could not be carried out.
///
/// `NoWindowFound` is the not-found failure of main-window setup: no window
/// exists under any known label and the fallback search found none either.
/// `MainWindowAbsent` reports a missing "main" window to a move request, and
/// `DashboardAbsent` a missing "dashboard" window where one was expected.
/// `InvalidDirection` rejects a move request whose direction is none of the
/// four recognized literals.
#[derive(Clone, Copy, PartialEq, Eq, Structural, Debug)]
pub enum WindowError {
    NoWindowFound,
    MainWindowAbsent,
    DashboardAbsent,
    InvalidDirection,
}

/// The view of each error's descriptive message.
pub open spec fn error_message(e: WindowError) -> Seq<char> {
    match e {
        WindowError::NoWindowFound => "No window found"@,
        WindowError::MainWindowAbsent => "Main window not found"@,
        WindowError::DashboardAbsent => "Dashboard window not found"@,
        WindowError::InvalidDirection => "Invalid direction"@,
    }
}

impl WindowError {
    /// The descriptive message for this error.
    pub fn message(&self) -> (r: &'static str)
        ensures
            r@ == error_message(*self),
    {
        match self {
            WindowError::NoWindowFound => "No window found",
            WindowError::MainWindowAbsent => "Main window not found",
            WindowError::DashboardAbsent => "Dashboard window not found",
            WindowError::InvalidDirection => "Invalid direction",
        }
    }
}

} // verus!
