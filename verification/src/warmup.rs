//! The start-up phase: before the first full draw the viewer collects
//! entries behind a spinner, until enough have come or none has come for a
//! while.

use crate::text::{decimal, push_decimal};
use vstd::prelude::*;
use vstd::string::StringExecFns;

verus! {

/// How many entries the start-up phase waits for at most.
pub const WARM_UP_ENTRIES: usize = 50;

/// After how many polls in a row without an entry the start-up phase ends.
pub const WARM_UP_IDLE_POLLS: usize = 20;

/// How many frames the spinner has.
pub const SPINNER_FRAMES: usize = 10;

/// The start-up phase, in which the viewer collects the first entries behind
/// a spinner.
#[derive(Clone, Copy, PartialEq, Eq, Structural, Debug)]
pub struct WarmUp {
    /// Entries received so far.
    pub collected: usize,
    /// Polls without an entry since the last entry.
    pub idle_polls: usize,
    /// The frame of the spinner to draw next.
    pub spinner: usize,
}

/// The frame `i` of the spinner.
pub open spec fn spinner_text(i: int) -> Seq<char> {
    if i == 0 {
        "⠋"@
    } else if i == 1 {
        "⠙"@
    } else if i == 2 {
        "⠹"@
    } else if i == 3 {
        "⠸"@
    } else if i == 4 {
        "⠼"@
    } else if i == 5 {
        "⠴"@
    } else if i == 6 {
        "⠦"@
    } else if i == 7 {
        "⠧"@
    } else if i == 8 {
        "⠇"@
    } else {
        "⠏"@
    }
}

impl WarmUp {
    /// Whether the spinner points at one of its frames.
    pub open spec fn wf(self) -> bool {
        self.spinner < SPINNER_FRAMES
    }

    /// Whether the phase goes on: fewer than `WARM_UP_ENTRIES` entries are
    /// in and fewer than `WARM_UP_IDLE_POLLS` polls in a row were empty.
    pub open spec fn running(self) -> bool {
        self.collected < WARM_UP_ENTRIES && self.idle_polls < WARM_UP_IDLE_POLLS
    }

    /// A bound on the polls that the phase can still take.
    pub open spec fn budget(self) -> int {
        (WARM_UP_ENTRIES - self.collected) * WARM_UP_IDLE_POLLS + (WARM_UP_IDLE_POLLS
            - self.idle_polls)
    }

    /// The phase after one more poll, which brought an entry or not.
    pub open spec fn polled(self, received: bool) -> WarmUp {
        WarmUp {
            collected: if received {
                (self.collected + 1) as usize
            } else {
                self.collected
            },
            idle_polls: if received {
                0
            } else {
                (self.idle_polls + 1) as usize
            },
            spinner: ((self.spinner + 1) % (SPINNER_FRAMES as int)) as usize,
        }
    }

    /// The text in the box that is shown meanwhile.
    pub open spec fn loading(self) -> Seq<char> {
        if self.collected == 0 {
            spinner_text(self.spinner as int) + " Waiting for logs..."@
        } else {
            spinner_text(self.spinner as int) + " Collecting logs "@ + decimal(
                self.collected as nat,
            ) + "/"@ + decimal(WARM_UP_ENTRIES as nat)
        }
    }

    /// The phase at its start.
    pub fn new() -> (w: WarmUp)
        ensures
            w == (WarmUp { collected: 0, idle_polls: 0, spinner: 0 }),
            w.wf(),
            w.running(),
    {
        WarmUp { collected: 0, idle_polls: 0, spinner: 0 }
    }

    /// Whether the phase goes on.
    pub fn in_progress(&self) -> (b: bool)
        ensures
            b == self.running(),
    {
        self.collected < WARM_UP_ENTRIES && self.idle_polls < WARM_UP_IDLE_POLLS
    }

    /// Notes the outcome of one poll and advances the spinner. Each poll
    /// brings the end of the phase nearer.
    pub fn record_poll(&mut self, received: bool)
        requires
            old(self).wf(),
            old(self).running(),
        ensures
            *final(self) == old(self).polled(received),
            final(self).wf(),
            0 <= final(self).budget() < old(self).budget(),
    {
        self.spinner = (self.spinner + 1) % SPINNER_FRAMES;
        if received {
            self.collected += 1;
            self.idle_polls = 0;
        } else {
            self.idle_polls += 1;
        }
    }

    /// The frame of the spinner to draw.
    pub fn spinner_frame(&self) -> (s: &'static str)
        ensures
            s@ == spinner_text(self.spinner as int),
    {
        if self.spinner == 0 {
            "⠋"
        } else if self.spinner == 1 {
            "⠙"
        } else if self.spinner == 2 {
            "⠹"
        } else if self.spinner == 3 {
            "⠸"
        } else if self.spinner == 4 {
            "⠼"
        } else if self.spinner == 5 {
            "⠴"
        } else if self.spinner == 6 {
            "⠦"
        } else if self.spinner == 7 {
            "⠧"
        } else if self.spinner == 8 {
            "⠇"
        } else {
            "⠏"
        }
    }

    /// The text in the box that is shown meanwhile.
    pub fn loading_text(&self) -> (text: String)
        ensures
            text@ == self.loading(),
    {
        let mut text = self.spinner_frame().to_owned();
        if self.collected == 0 {
            text.append(" Waiting for logs...");
        } else {
            text.append(" Collecting logs ");
            push_decimal(&mut text, self.collected as u128);
            text.append("/");
            push_decimal(&mut text, WARM_UP_ENTRIES as u128);
        }
        proof {
            assert(text@ =~= self.loading());
        }
        text
    }
}

} // verus!
