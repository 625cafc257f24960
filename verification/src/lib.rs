//! A multi-pane process dashboard, modelled as plain values.
//!
//! The crate keeps the state of a terminal dashboard that shows the output
//! and error streams of several processes: the registry of processes, their
//! line buffers, the keyboard bindings, the scroll and focus status, the
//! pending substring searches and the plan of each frame. Every operation is
//! a function from state and input to state and result. Reading pipes and
//! keys, painting, sleeping and ending the program are left to the caller.

pub mod draw;
pub mod error;
pub mod escape;
pub mod functions;
pub mod keyboard_actions;
pub mod keys;
pub mod process;
pub mod scroll;
pub mod search;
pub mod settings;
pub mod shared;
pub mod terminal;
pub mod text;
pub mod wrap;

pub use draw::{
    draw, redraw, render_frame, BlocFocus, BlockType, DrawCache, Frame, Pane, ProcessPanes, Rows,
};
pub use error::TerminalError;
pub use escape::ClearRegex;
pub use functions::{add_process, block_search_message, end_terminal, tprintln, with_exit_callback};
pub use keyboard_actions::{
    to_char, Action, ActionType, BaseStatus, KeyBoardActions, ScrollTarget,
};
pub use keys::{
    Event, KeyCode, KeyCodeExt, KeyEvent, KeyEventKind, KeyEventState, KeyModifiers,
    MediaKeyCode, ModifierKeyCode,
};
pub use process::{DetachProcess, Process, Stream};
pub use scroll::ScrollStatus;
pub use search::SearchMessage;
pub use settings::{MessageSettings, ProcessSettings, ScrollSettings};
pub use shared::{run_guarded, Shared};
pub use terminal::{
    Pipes, Registered, SearchAction, SearchState, Shutdown, Terminal, EXIT_CODE,
    POLL_INTERVAL_MILLIS,
};
pub use wrap::wrap_line;
