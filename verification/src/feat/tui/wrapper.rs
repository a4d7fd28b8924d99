//! The terminal session and the multiplexer of its events.
//!
//! Nothing here touches the terminal. The session says which commands
//! enter and leave the raw mode; the multiplexer says what becomes of each
//! thing that the background task sees, which events still count once the
//! task was restarted or stopped, and how long a stop waits for the task.

use crate::feat::tui::event::{Event, KeyEvent, KeyEventKind, MouseEvent};
use vstd::prelude::*;

verus! {

/// Error type for TUI operations.
///
/// This error is returned when TUI operations fail, such as entering/exiting
/// raw mode, starting/stopping the event loop, or sending/receiving events.
#[derive(Debug, Clone, Copy, PartialEq, Eq)]
pub struct TuiError;

/// A command to the terminal.
#[derive(Debug, Clone, Copy, Hash, PartialEq, Eq, Structural)]
pub enum TerminalCommand {
    EnableRawMode,
    EnterAlternateScreen,
    HideCursor,
    EnableMouseCapture,
    EnableBracketedPaste,
    Flush,
    DisableBracketedPaste,
    DisableMouseCapture,
    LeaveAlternateScreen,
    ShowCursor,
    DisableRawMode,
}

impl TerminalCommand {
    /// The command that takes back what a command of `enter` switched on.
    pub open spec fn undone_by(self) -> Option<TerminalCommand> {
        match self {
            TerminalCommand::EnableRawMode => Some(TerminalCommand::DisableRawMode),
            TerminalCommand::EnterAlternateScreen => Some(TerminalCommand::LeaveAlternateScreen),
            TerminalCommand::HideCursor => Some(TerminalCommand::ShowCursor),
            TerminalCommand::EnableMouseCapture => Some(TerminalCommand::DisableMouseCapture),
            TerminalCommand::EnableBracketedPaste => Some(TerminalCommand::DisableBracketedPaste),
            _ => None,
        }
    }
}

/// Where a session stands in its life.
#[derive(Debug, Clone, Copy, Hash, PartialEq, Eq, Structural)]
pub enum SessionMode {
    /// The terminal was never entered.
    Uninitialized,
    /// The terminal is in raw mode and shows the alternate screen. What was
    /// switched on besides is remembered, so that leaving takes back exactly
    /// that.
    RawMode { mouse: bool, paste: bool },
    /// The terminal was left.
    Closed,
}

/// What the terminal reports.
#[derive(Debug, Clone, PartialEq, Eq)]
pub enum TerminalEvent {
    FocusGained,
    FocusLost,
    Key(KeyEvent),
    Mouse(MouseEvent),
    Paste(String),
    Resize(u16, u16),
}

/// What the background task sees in one turn of its loop.
#[derive(Debug, Clone, PartialEq, Eq)]
pub enum Firing {
    /// The task was told to end.
    Cancelled,
    /// The terminal reported something.
    Input(TerminalEvent),
    /// What the terminal reported could not be read.
    InputError,
    /// The terminal will report nothing more.
    InputClosed,
    /// The tick timer fired.
    Tick,
    /// The render timer fired.
    Render,
}

/// What the background task does with what it saw.
#[derive(Debug, Clone, PartialEq, Eq)]
pub enum Forward {
    /// It ends.
    Exit,
    /// It sends one event and goes on.
    Emit(Event),
    /// It sends nothing and goes on.
    Skip,
}

/// What a stop does after it asked the task whether it has finished.
#[derive(Debug, Clone, Copy, Hash, PartialEq, Eq, Structural)]
pub enum StopStep {
    /// The task has finished: the stop returns.
    Finished,
    /// The task has not finished: the stop sleeps a millisecond, then
    /// aborts the task if `abort` is set, and returns if `give_up` is set.
    Sleep { abort: bool, give_up: bool },
}

/// How often a stop has slept while it waited for the task.
#[derive(Debug, Clone, Copy, Hash, PartialEq, Eq, Structural)]
pub struct StopWait {
    pub sleeps: u32,
}

/// The sleeps after which a stop aborts the task.
pub const ABORT_AFTER: u32 = 50;

/// The sleeps after which a stop returns whatever the task does.
pub const GIVE_UP_AFTER: u32 = 100;

/// The session of the terminal, as far as it can be told without the
/// terminal: what is captured, whether the raw mode is on, and which run of
/// the background task is the current one.
#[derive(Debug, Clone, Copy, Hash, PartialEq, Eq, Structural)]
pub struct Tui {
    /// Whether mouse capture is enabled
    pub mouse: bool,
    /// Whether bracketed paste mode is enabled
    pub paste: bool,
    /// Where the session stands.
    pub mode: SessionMode,
    /// The number of the run of the background task that was started last.
    pub run: u64,
    /// Whether that run was started and not cancelled since.
    pub running: bool,
}

/// The commands that enter the raw mode with the given captures.
pub open spec fn enter_commands(mouse: bool, paste: bool) -> Seq<TerminalCommand> {
    seq![
        TerminalCommand::EnableRawMode,
        TerminalCommand::EnterAlternateScreen,
        TerminalCommand::HideCursor,
    ] + (if mouse {
        seq![TerminalCommand::EnableMouseCapture]
    } else {
        Seq::empty()
    }) + (if paste {
        seq![TerminalCommand::EnableBracketedPaste]
    } else {
        Seq::empty()
    })
}

/// The commands that leave the raw mode that was entered with the given
/// captures: the pending output is flushed first, the raw mode goes last.
pub open spec fn exit_commands(mouse: bool, paste: bool) -> Seq<TerminalCommand> {
    seq![TerminalCommand::Flush] + (if paste {
        seq![TerminalCommand::DisableBracketedPaste]
    } else {
        Seq::empty()
    }) + (if mouse {
        seq![TerminalCommand::DisableMouseCapture]
    } else {
        Seq::empty()
    }) + seq![
        TerminalCommand::LeaveAlternateScreen,
        TerminalCommand::ShowCursor,
        TerminalCommand::DisableRawMode,
    ]
}

/// What the background task does with what it saw.
///
/// A cancellation ends the task. A key is forwarded when it was pressed,
/// and dropped when it is held or released. Everything else that the
/// terminal reports is forwarded as the event of the same name. An input
/// that could not be read is forwarded as an error, and the task goes on.
/// Each timer is forwarded as its event.
pub open spec fn forwarded(firing: Firing) -> Forward {
    match firing {
        Firing::Cancelled => Forward::Exit,
        Firing::Input(TerminalEvent::Key(key)) => if key.kind == KeyEventKind::Press {
            Forward::Emit(Event::Key(key))
        } else {
            Forward::Skip
        },
        Firing::Input(TerminalEvent::Mouse(mouse)) => Forward::Emit(Event::Mouse(mouse)),
        Firing::Input(TerminalEvent::Resize(x, y)) => Forward::Emit(Event::Resize(x, y)),
        Firing::Input(TerminalEvent::FocusLost) => Forward::Emit(Event::FocusLost),
        Firing::Input(TerminalEvent::FocusGained) => Forward::Emit(Event::FocusGained),
        Firing::Input(TerminalEvent::Paste(text)) => Forward::Emit(Event::Paste(text)),
        Firing::InputError => Forward::Emit(Event::Error),
        Firing::InputClosed => Forward::Skip,
        Firing::Tick => Forward::Emit(Event::Tick),
        Firing::Render => Forward::Emit(Event::Render),
    }
}

/// What the background task does with what it saw.
pub fn forward(firing: Firing) -> (r: Forward)
    ensures
        r == forwarded(firing),
{
    match firing {
        Firing::Cancelled => Forward::Exit,
        Firing::Input(event) => match event {
            TerminalEvent::Key(key) => {
                if key.kind == KeyEventKind::Press {
                    Forward::Emit(Event::Key(key))
                } else {
                    Forward::Skip
                }
            },
            TerminalEvent::Mouse(mouse) => Forward::Emit(Event::Mouse(mouse)),
            TerminalEvent::Resize(x, y) => Forward::Emit(Event::Resize(x, y)),
            TerminalEvent::FocusLost => Forward::Emit(Event::FocusLost),
            TerminalEvent::FocusGained => Forward::Emit(Event::FocusGained),
            TerminalEvent::Paste(text) => Forward::Emit(Event::Paste(text)),
        },
        Firing::InputError => Forward::Emit(Event::Error),
        Firing::InputClosed => Forward::Skip,
        Firing::Tick => Forward::Emit(Event::Tick),
        Firing::Render => Forward::Emit(Event::Render),
    }
}

/// The commands that a failing program restores the terminal with before
/// the failure is reported: the raw mode off, then the alternate screen
/// left.
pub fn restore_tui() -> (r: Vec<TerminalCommand>)
    ensures
        r@ == seq![TerminalCommand::DisableRawMode, TerminalCommand::LeaveAlternateScreen],
{
    let mut out: Vec<TerminalCommand> = Vec::new();
    out.push(TerminalCommand::DisableRawMode);
    out.push(TerminalCommand::LeaveAlternateScreen);
    out
}

impl StopWait {
    /// The wait of a stop that has not slept yet.
    pub fn new() -> (r: StopWait)
        ensures
            r.sleeps == 0,
    {
        StopWait { sleeps: 0 }
    }

    /// The wait after one more sleep.
    pub open spec fn slept(self) -> StopWait {
        StopWait {
            sleeps: if self.sleeps < u32::MAX {
                (self.sleeps + 1) as u32
            } else {
                self.sleeps
            },
        }
    }

    /// The wait after a number of sleeps, from none.
    pub open spec fn after(sleeps: nat) -> StopWait
        decreases sleeps,
    {
        if sleeps == 0 {
            StopWait { sleeps: 0 }
        } else {
            StopWait::after((sleeps - 1) as nat).slept()
        }
    }

    /// What a stop does once it knows whether the task has finished.
    pub open spec fn step(self, finished: bool) -> StopStep {
        if finished {
            StopStep::Finished
        } else {
            StopStep::Sleep {
                abort: self.slept().sleeps > ABORT_AFTER,
                give_up: self.slept().sleeps > GIVE_UP_AFTER,
            }
        }
    }

    /// What a stop does once it knows whether the task has finished. A
    /// sleep is counted as it is handed out.
    pub fn poll(&mut self, finished: bool) -> (r: StopStep)
        ensures
            r == old(self).step(finished),
            *final(self) == if finished {
                *old(self)
            } else {
                old(self).slept()
            },
    {
        if finished {
            return StopStep::Finished;
        }
        if self.sleeps < u32::MAX {
            self.sleeps += 1;
        }
        StopStep::Sleep { abort: self.sleeps > ABORT_AFTER, give_up: self.sleeps > GIVE_UP_AFTER }
    }
}

impl Tui {
    /// Creates a new session with default settings: mouse capture and
    /// bracketed paste disabled, the terminal not entered, no run started.
    pub fn new() -> (r: Tui)
        ensures
            r == (Tui {
                mouse: false,
                paste: false,
                mode: SessionMode::Uninitialized,
                run: 0,
                running: false,
            }),
    {
        Tui { mouse: false, paste: false, mode: SessionMode::Uninitialized, run: 0, running: false }
    }

    /// Enables or disables mouse capture. It takes effect when the raw mode
    /// is entered next.
    #[must_use]
    pub fn enable_mouse(self, mouse: bool) -> (r: Tui)
        ensures
            r == (Tui { mouse, ..self }),
    {
        Tui { mouse, ..self }
    }

    /// Enables or disables bracketed paste mode. It takes effect when the
    /// raw mode is entered next.
    #[must_use]
    pub fn enable_paste(self, paste: bool) -> (r: Tui)
        ensures
            r == (Tui { paste, ..self }),
    {
        Tui { paste, ..self }
    }

    /// Whether the terminal is in raw mode.
    pub open spec fn is_raw(self) -> bool {
        self.mode is RawMode
    }

    /// The session once the raw mode was entered.
    pub open spec fn after_enter(self) -> Tui {
        Tui { mode: SessionMode::RawMode { mouse: self.mouse, paste: self.paste }, ..self }
    }

    /// The commands that an exit hands out: those of the cleanup where the
    /// terminal is in raw mode, and none else.
    pub open spec fn exit_plan(self) -> Seq<TerminalCommand> {
        match self.mode {
            SessionMode::RawMode { mouse, paste } => exit_commands(mouse, paste),
            _ => Seq::empty(),
        }
    }

    /// The session once it was left.
    pub open spec fn after_exit(self) -> Tui {
        match self.mode {
            SessionMode::RawMode { mouse, paste } => Tui { mode: SessionMode::Closed, ..self },
            _ => self,
        }
    }

    /// Whether an event of a run still counts: the run is the current one
    /// and was not cancelled.
    pub open spec fn admitted(self, run: u64) -> bool {
        self.running && run == self.run
    }

    /// Enters raw mode and alternate screen buffer.
    ///
    /// Returns the commands that enable raw mode, enter the alternate
    /// screen and hide the cursor, and that enable mouse capture and
    /// bracketed paste where they were asked for.
    pub fn enter_raw_mode(&mut self) -> (r: Vec<TerminalCommand>)
        ensures
            r@ == enter_commands(old(self).mouse, old(self).paste),
            *final(self) == old(self).after_enter(),
    {
        let mut out: Vec<TerminalCommand> = Vec::new();
        out.push(TerminalCommand::EnableRawMode);
        out.push(TerminalCommand::EnterAlternateScreen);
        out.push(TerminalCommand::HideCursor);
        if self.mouse {
            out.push(TerminalCommand::EnableMouseCapture);
        }
        if self.paste {
            out.push(TerminalCommand::EnableBracketedPaste);
        }
        self.mode = SessionMode::RawMode { mouse: self.mouse, paste: self.paste };
        assert(out@ =~= enter_commands(self.mouse, self.paste));
        out
    }

    /// Exits raw mode and returns to the normal screen buffer.
    ///
    /// Returns the commands that take back what entering switched on, and
    /// none where the terminal is not in raw mode.
    pub fn exit_raw_mode(&mut self) -> (r: Vec<TerminalCommand>)
        ensures
            r@ == old(self).exit_plan(),
            *final(self) == old(self).after_exit(),
    {
        let mut out: Vec<TerminalCommand> = Vec::new();
        if let SessionMode::RawMode { mouse, paste } = self.mode {
            out.push(TerminalCommand::Flush);
            if paste {
                out.push(TerminalCommand::DisableBracketedPaste);
            }
            if mouse {
                out.push(TerminalCommand::DisableMouseCapture);
            }
            out.push(TerminalCommand::LeaveAlternateScreen);
            out.push(TerminalCommand::ShowCursor);
            out.push(TerminalCommand::DisableRawMode);
            self.mode = SessionMode::Closed;
            assert(out@ =~= exit_commands(mouse, paste));
        }
        out
    }

    /// Suspends the TUI by exiting raw mode, so that the terminal can be
    /// handed to another program.
    pub fn suspend(&mut self) -> (r: Vec<TerminalCommand>)
        ensures
            r@ == old(self).exit_plan(),
            *final(self) == old(self).after_exit(),
    {
        self.exit_raw_mode()
    }

    /// Resumes the TUI by entering raw mode.
    pub fn resume(&mut self) -> (r: Vec<TerminalCommand>)
        ensures
            r@ == enter_commands(old(self).mouse, old(self).paste),
            *final(self) == old(self).after_enter(),
    {
        self.enter_raw_mode()
    }

    /// Starts a run of the background task: the run before is cancelled,
    /// and the new one gets a number that no run before it had. With the
    /// number comes the event that the run sends before any other, which is
    /// `Init`. It fails, and changes nothing, when the numbers have run out.
    pub fn start(&mut self) -> (r: Result<(u64, Event), TuiError>)
        ensures
            match r {
                Ok((run, first)) => old(self).run < u64::MAX && run == old(self).run + 1 && first
                    == Event::Init && *final(self) == (Tui { run, running: true, ..*old(self) }),
                Err(_) => old(self).run == u64::MAX && *final(self) == *old(self),
            },
    {
        if self.run == u64::MAX {
            return Err(TuiError);
        }
        self.cancel();
        self.run += 1;
        self.running = true;
        Ok((self.run, Event::Init))
    }

    /// Cancels the running event loop: no event of it counts from now on.
    pub fn cancel(&mut self)
        ensures
            *final(self) == (Tui { running: false, ..*old(self) }),
    {
        self.running = false;
    }

    /// Stops the event loop: cancels it and hands out the wait for the
    /// task, which is bounded.
    pub fn stop(&mut self) -> (r: StopWait)
        ensures
            r.sleeps == 0,
            *final(self) == (Tui { running: false, ..*old(self) }),
    {
        self.cancel();
        StopWait::new()
    }

    /// Whether an event that a run of the background task sent still
    /// counts.
    pub fn admits(&self, run: u64) -> (r: bool)
        ensures
            r == self.admitted(run),
    {
        self.running && run == self.run
    }

    /// Retrieves the next event from what the queue handed out: the event
    /// itself where its run still counts, and nothing where the run is
    /// stale or the queue was closed.
    pub fn next(&self, received: Option<(u64, Event)>) -> (r: Option<Event>)
        ensures
            r == match received {
                Some((run, event)) => if self.admitted(run) {
                    Some(event)
                } else {
                    None
                },
                None => None,
            },
    {
        match received {
            Some((run, event)) => if self.admits(run) {
                Some(event)
            } else {
                None
            },
            None => None,
        }
    }
}

/// Leaving the raw mode takes back exactly what entering it switched on:
/// a command is among those of the exit if and only if it is the flush or
/// undoes a command of the entry.
pub proof fn lemma_exit_reverses_enter(mouse: bool, paste: bool, command: TerminalCommand)
    ensures
        exit_commands(mouse, paste).contains(command) <==> (command == TerminalCommand::Flush
            || exists|i: int|
            0 <= i < enter_commands(mouse, paste).len() && (#[trigger] enter_commands(
                mouse,
                paste,
            )[i]).undone_by() == Some(command)),
        exit_commands(mouse, paste).no_duplicates(),
        exit_commands(mouse, paste).last() == TerminalCommand::DisableRawMode,
        exit_commands(mouse, paste).first() == TerminalCommand::Flush,
{
    let enter = enter_commands(mouse, paste);
    let exit = exit_commands(mouse, paste);
    assert(enter[0] == TerminalCommand::EnableRawMode);
    assert(enter[1] == TerminalCommand::EnterAlternateScreen);
    assert(enter[2] == TerminalCommand::HideCursor);
    if mouse {
        assert(enter[3] == TerminalCommand::EnableMouseCapture);
        if paste {
            assert(enter[4] == TerminalCommand::EnableBracketedPaste);
        }
    } else if paste {
        assert(enter[3] == TerminalCommand::EnableBracketedPaste);
    }
    let n = exit.len() as int;
    assert(exit[0] == TerminalCommand::Flush);
    assert(exit[n - 1] == TerminalCommand::DisableRawMode);
    assert(exit[n - 2] == TerminalCommand::ShowCursor);
    assert(exit[n - 3] == TerminalCommand::LeaveAlternateScreen);
    if paste {
        assert(exit[1] == TerminalCommand::DisableBracketedPaste);
        if mouse {
            assert(exit[2] == TerminalCommand::DisableMouseCapture);
        }
    } else if mouse {
        assert(exit[1] == TerminalCommand::DisableMouseCapture);
    }
}

/// A session that was entered is cleaned up exactly once: the first exit
/// hands out the commands of the cleanup, and an exit that follows, with
/// nothing entered in between, hands out none and changes nothing.
pub proof fn lemma_exit_is_idempotent(session: Tui)
    ensures
        session.after_enter().exit_plan() == exit_commands(session.mouse, session.paste),
        session.after_enter().exit_plan().len() >= 4,
        session.after_enter().after_exit().exit_plan() == Seq::<TerminalCommand>::empty(),
        session.after_enter().after_exit().after_exit() == session.after_enter().after_exit(),
        session.after_exit().after_exit() == session.after_exit(),
        session.after_exit().exit_plan() == Seq::<TerminalCommand>::empty(),
{
}

/// A session that was suspended and then resumed is in raw mode again, with
/// the captures that are asked for, whatever it was before.
pub proof fn lemma_resume_reenters_raw_mode(session: Tui)
    ensures
        session.after_exit().after_enter().is_raw(),
        session.after_exit().after_enter().mode == (SessionMode::RawMode {
            mouse: session.mouse,
            paste: session.paste,
        }),
        session.after_exit().after_enter().exit_plan() == exit_commands(
            session.mouse,
            session.paste,
        ),
{
}

/// A stop that finds the task unfinished every time gives up with its
/// sleep number 101, and not before; it aborts the task from its sleep
/// number 51 on. So a stop never sleeps more than 101 times.
pub proof fn lemma_stop_wait_is_bounded(sleeps: nat)
    ensures
        sleeps <= u32::MAX ==> StopWait::after(sleeps).sleeps == sleeps,
        sleeps < u32::MAX ==> StopWait::after(sleeps).step(false) == (StopStep::Sleep {
            abort: sleeps + 1 > 50,
            give_up: sleeps + 1 > 100,
        }),
    decreases sleeps,
{
    if sleeps > 0 {
        lemma_stop_wait_is_bounded((sleeps - 1) as nat);
    }
}

/// Once a session was stopped or cancelled no event counts, whatever run
/// sent it; and once a run was started, the events of every run before it
/// have stopped counting.
pub proof fn lemma_stale_events_are_dropped(before: Tui, run: u64)
    ensures
        !(Tui { running: false, ..before }).admitted(run),
        before.run < u64::MAX && run <= before.run ==> !(Tui {
            run: (before.run + 1) as u64,
            running: true,
            ..before
        }).admitted(run),
{
}

} // verus!
