//! The requests to a dashboard, as free functions on its handle.

use crate::error::TerminalError;
use crate::settings::ProcessSettings;
use crate::terminal::{
    registration, search_step, Pipes, Registered, SearchAction, SearchState, Shutdown, Terminal,
    TerminalView, EXIT_CODE,
};
use vstd::prelude::*;

verus! {

/// Adds a process to the dashboard.
pub fn add_process<F>(
    terminal: &mut Terminal<F>,
    name: &str,
    pipes: Pipes,
    settings: ProcessSettings,
) -> (res: Result<Registered, TerminalError>)
    ensures
        registration(old(terminal)@, final(terminal)@, name@, pipes, settings, res),
{
    terminal.add_process(name, pipes, settings)
}

/// Prints a line in the main log of the dashboard.
pub fn tprintln<F>(terminal: &mut Terminal<F>, message: String)
    ensures
        final(terminal)@ == (TerminalView {
            main_messages: old(terminal)@.main_messages.push(message),
            ..old(terminal)@
        }),
{
    terminal.add_message(message);
}

/// One step of a search that blocks its caller until a line of the output
/// of `process` holds `submsg`. The caller starts in [`SearchState::Start`],
/// sleeps whenever it is told to wait, and asks again in the state it was
/// given, until it gets the line or the error.
pub fn block_search_message<F>(
    terminal: &mut Terminal<F>,
    process: &str,
    submsg: &str,
    state: SearchState,
) -> (next: SearchAction)
    ensures
        search_step(old(terminal)@, final(terminal)@, process@, submsg@, state, next),
{
    terminal.block_search_message(process, submsg, state)
}

/// Ends the dashboard: hands out the exit callback and the exit code. The
/// caller restores the screen, runs the callback if there is one, and ends
/// the program with the code.
pub fn end_terminal<F>(terminal: &mut Terminal<F>) -> (shutdown: Shutdown<F>)
    ensures
        shutdown.callback == old(terminal)@.exit_callback,
        shutdown.code == EXIT_CODE,
        final(terminal)@ == (TerminalView { exit_callback: None, ..old(terminal)@ }),
{
    terminal.kill()
}

/// Registers the callback that runs when the dashboard ends. The one
/// registered last wins.
pub fn with_exit_callback<F>(terminal: &mut Terminal<F>, closure: F)
    ensures
        final(terminal)@ == (TerminalView { exit_callback: Some(closure), ..old(terminal)@ }),
{
    terminal.with_exit_callback(closure);
}

} // verus!
