//! What a registered process shows and how it scrolls.

use crate::keys::KeyCode;
use vstd::prelude::*;

verus! {

/// Which streams of a process get a pane.
#[derive(Clone, Copy, Debug, PartialEq, Eq, Structural)]
pub enum MessageSettings {
    Neither,
    Output,
    Error,
    All,
}

impl MessageSettings {
    /// The number of panes that a process with this setting takes.
    pub open spec fn stream_count(self) -> nat {
        match self {
            MessageSettings::Neither => 0,
            MessageSettings::Output => 1,
            MessageSettings::Error => 1,
            MessageSettings::All => 2,
        }
    }

    /// Whether the output stream has a pane.
    pub open spec fn spec_shows_output(self) -> bool {
        self == MessageSettings::Output || self == MessageSettings::All
    }

    /// Whether the error stream has a pane.
    pub open spec fn spec_shows_error(self) -> bool {
        self == MessageSettings::Error || self == MessageSettings::All
    }

    /// Whether the output stream has a pane.
    #[verifier::when_used_as_spec(spec_shows_output)]
    pub fn shows_output(self) -> (shown: bool)
        ensures
            shown == self.spec_shows_output(),
    {
        match self {
            MessageSettings::Output | MessageSettings::All => true,
            _ => false,
        }
    }

    /// Whether the error stream has a pane.
    #[verifier::when_used_as_spec(spec_shows_error)]
    pub fn shows_error(self) -> (shown: bool)
        ensures
            shown == self.spec_shows_error(),
    {
        match self {
            MessageSettings::Error | MessageSettings::All => true,
            _ => false,
        }
    }

    /// The number of panes that a process with this setting takes.
    pub fn streams(&self) -> (n: usize)
        ensures
            n == self.stream_count(),
    {
        match self {
            MessageSettings::Neither => 0,
            MessageSettings::Output => 1,
            MessageSettings::Error => 1,
            MessageSettings::All => 2,
        }
    }
}

/// Whether the panes of a process scroll, and on which keys.
#[derive(Clone, Copy, Debug, PartialEq, Eq, Structural)]
pub enum ScrollSettings {
    Disable,
    Enable { up: KeyCode, down: KeyCode },
}

impl ScrollSettings {
    /// Scrolling on the keys `up` and `down`.
    pub fn enable(up: KeyCode, down: KeyCode) -> (s: Self)
        ensures
            s == (ScrollSettings::Enable { up, down }),
    {
        ScrollSettings::Enable { up, down }
    }
}

/// The display settings of one process.
#[derive(Clone, Copy, Debug, PartialEq, Eq, Structural)]
pub struct ProcessSettings {
    pub messages: MessageSettings,
    pub scroll: ScrollSettings,
    /// Whether escape sequences are stripped from captured lines.
    pub clear_regex: bool,
}

impl ProcessSettings {
    /// Settings without scrolling; escape sequences are stripped.
    pub fn new(messages: MessageSettings) -> (s: Self)
        ensures
            s == (ProcessSettings { messages, scroll: ScrollSettings::Disable, clear_regex: true }),
    {
        Self { messages, scroll: ScrollSettings::Disable, clear_regex: true }
    }

    /// Settings with the given scrolling; escape sequences are stripped.
    pub fn new_with_scroll(messages: MessageSettings, scroll: ScrollSettings) -> (s: Self)
        ensures
            s == (ProcessSettings { messages, scroll, clear_regex: true }),
    {
        Self { messages, scroll, clear_regex: true }
    }

    /// The same settings, with captured lines stored as they arrive.
    pub fn disable_clear_regex(self) -> (s: Self)
        ensures
            s == (ProcessSettings { clear_regex: false, ..self }),
    {
        Self { messages: self.messages, scroll: self.scroll, clear_regex: false }
    }
}

} // verus!
