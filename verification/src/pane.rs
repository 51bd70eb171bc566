//! The panes of the viewer and the state of the link to the device.

use vstd::prelude::*;
use vstd::view::View as _;

verus! {

/// The pane that is shown.
#[derive(Copy, Clone, PartialEq, Eq, Structural, Debug)]
pub enum View {
    Logs,
    Stats,
    Storage,
}

/// Whether the device that produces the log can be reached.
#[derive(Copy, Clone, PartialEq, Eq, Structural, Debug)]
pub enum ConnectionStatus {
    Connected,
    Disconnected,
    Error,
}

impl View {
    /// The title of the pane.
    pub open spec fn title(self) -> Seq<char> {
        match self {
            View::Logs => "Logs"@,
            View::Stats => "Stats"@,
            View::Storage => "Storage"@,
        }
    }

    /// The position of the pane among the tabs.
    pub open spec fn position(self) -> int {
        match self {
            View::Logs => 0,
            View::Stats => 1,
            View::Storage => 2,
        }
    }

    /// The title of the pane.
    pub fn label(&self) -> (s: &'static str)
        ensures
            s@ == self.title(),
    {
        match self {
            View::Logs => "Logs",
            View::Stats => "Stats",
            View::Storage => "Storage",
        }
    }

    /// The position of the pane among the tabs.
    pub fn index(&self) -> (i: usize)
        ensures
            i == self.position(),
    {
        match self {
            View::Logs => 0,
            View::Stats => 1,
            View::Storage => 2,
        }
    }
}

} // verus!
