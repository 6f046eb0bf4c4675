//! The course of one call of `wl-copy`.
//!
//! A [`Session`] says what to do next, and is told what came of it. What it
//! has others do is to look at files and at the standard input, to talk to the
//! clipboard and to fork. Where the clipboard reports an error, the program
//! ends with that error and the session is not told.

use vstd::prelude::*;

use crate::program::{
    choose_clipboard, choose_seat, choose_settings, chosen_clipboard, chosen_seat, chosen_settings,
    ClipboardType, CopySettings, CopySettingsView, Seat, SeatView,
};
use crate::resolution::ImplicitStdin;
use crate::resolver::{
    answer, initial_state, progress, progress_after, requests_left, Progress, ProgressView, Reply,
    ReplyView, Request, RequestView, Resolver, ResolverView,
};
use crate::source::{source_views, FileReplyView, MimeSource, MimeSourceView};
use crate::wl_copy::{error_message, Options};

verus! {

/// What to do next.
#[derive(Debug)]
pub enum Command {
    /// Clear these clipboards of these seats.
    Clear(ClipboardType, Seat),
    /// Find the answer to this request.
    Ask(Request),
    /// Prepare to copy these sources with these settings.
    Copy(CopySettings, Vec<MimeSource>),
    /// Serve paste requests.
    Serve,
    /// Fork the process.
    Fork,
    /// Cut the process off from its standard input and output, then serve
    /// paste requests and disregard how that ends.
    ServeDetached,
    /// End the program with success.
    Exit,
    /// End the program with this message.
    Fail(String),
    /// Abort the program: it could not fork.
    AbortFork,
    /// Nothing: this was not what the session waits for.
    Wait,
}

/// What came of a [`Command`].
#[derive(Debug)]
pub enum Event {
    /// The request has this answer.
    Answered(Reply),
    /// The copy is prepared.
    Prepared,
    /// The fork returned this number.
    Forked(i32),
    /// The clipboards are cleared, or the paste requests are served.
    Finished,
}

/// What a call of the program waits for.
#[derive(Debug)]
pub enum Session {
    /// An answer, to resolve the sources.
    Resolving(Resolver),
    /// The copy to be prepared.
    Preparing,
    /// The fork.
    Forking,
    /// The last command to be done.
    Ending,
}

/// A command, and the session that waits for what comes of it.
#[derive(Debug)]
pub struct Turn {
    pub session: Session,
    pub command: Command,
}

/// What a [`Command`] stands for.
#[verifier::ext_equal]
pub enum CommandView {
    Clear(ClipboardType, SeatView),
    Ask(RequestView),
    Copy(CopySettingsView, Seq<MimeSourceView>),
    Serve,
    Fork,
    ServeDetached,
    Exit,
    Fail(Seq<char>),
    AbortFork,
    Wait,
}

/// What an [`Event`] stands for.
#[verifier::ext_equal]
pub enum EventView {
    Answered(ReplyView),
    Prepared,
    Forked(i32),
    Finished,
}

/// What a [`Session`] stands for.
#[verifier::ext_equal]
pub enum SessionView {
    Resolving(ResolverView),
    Preparing,
    Forking,
    Ending,
}

/// What a [`Turn`] stands for.
#[verifier::ext_equal]
pub struct TurnView {
    pub session: SessionView,
    pub command: CommandView,
}

impl View for Command {
    type V = CommandView;

    open spec fn view(&self) -> CommandView {
        match self {
            Command::Clear(clipboard, seat) => CommandView::Clear(*clipboard, seat@),
            Command::Ask(request) => CommandView::Ask(request@),
            Command::Copy(settings, sources) => CommandView::Copy(
                settings@,
                source_views(sources@),
            ),
            Command::Serve => CommandView::Serve,
            Command::Fork => CommandView::Fork,
            Command::ServeDetached => CommandView::ServeDetached,
            Command::Exit => CommandView::Exit,
            Command::Fail(message) => CommandView::Fail(message@),
            Command::AbortFork => CommandView::AbortFork,
            Command::Wait => CommandView::Wait,
        }
    }
}

impl View for Event {
    type V = EventView;

    open spec fn view(&self) -> EventView {
        match self {
            Event::Answered(reply) => EventView::Answered(reply@),
            Event::Prepared => EventView::Prepared,
            Event::Forked(pid) => EventView::Forked(*pid),
            Event::Finished => EventView::Finished,
        }
    }
}

impl View for Session {
    type V = SessionView;

    open spec fn view(&self) -> SessionView {
        match self {
            Session::Resolving(resolver) => SessionView::Resolving(resolver@),
            Session::Preparing => SessionView::Preparing,
            Session::Forking => SessionView::Forking,
            Session::Ending => SessionView::Ending,
        }
    }
}

impl View for Turn {
    type V = TurnView;

    open spec fn view(&self) -> TurnView {
        TurnView { session: self.session@, command: self.command@ }
    }
}

/// The message where there is nothing to copy.
pub open spec fn no_data_message() -> Seq<char> {
    "no data to copy (specify text, use stdin, or use --file/--literal/--stdin)"@
}

/// The turn in which the resolution has come this far.
pub open spec fn turn_at(options: Options, reached: ProgressView) -> TurnView {
    match reached {
        ProgressView::Ask(request, resolver) => TurnView {
            session: SessionView::Resolving(resolver),
            command: CommandView::Ask(request),
        },
        ProgressView::Done(Err(error)) => TurnView {
            session: SessionView::Ending,
            command: CommandView::Fail(error_message(error)),
        },
        ProgressView::Done(Ok(sources)) => if sources.len() == 0 {
            TurnView {
                session: SessionView::Ending,
                command: CommandView::Fail(no_data_message()),
            }
        } else {
            TurnView {
                session: SessionView::Preparing,
                command: CommandView::Copy(chosen_settings(options), sources),
            }
        },
    }
}

/// The first turn: to clear, or else to resolve the sources.
pub open spec fn first_turn(options: Options) -> TurnView {
    if options.clear {
        TurnView {
            session: SessionView::Ending,
            command: CommandView::Clear(chosen_clipboard(options), chosen_seat(options)),
        }
    } else {
        turn_at(options, progress(options, initial_state(ImplicitStdin::UnlessSourceGiven)))
    }
}

/// The turn after this event.
pub open spec fn turn_after(options: Options, session: SessionView, event: EventView) -> TurnView {
    match (session, event) {
        (SessionView::Resolving(resolver), EventView::Answered(reply)) => turn_at(
            options,
            progress_after(options, resolver, reply),
        ),
        (SessionView::Preparing, EventView::Prepared) => if options.foreground {
            TurnView { session: SessionView::Ending, command: CommandView::Serve }
        } else {
            TurnView { session: SessionView::Forking, command: CommandView::Fork }
        },
        (SessionView::Forking, EventView::Forked(pid)) => TurnView {
            session: SessionView::Ending,
            command: if pid == -1 {
                CommandView::AbortFork
            } else if pid == 0 {
                CommandView::ServeDetached
            } else {
                CommandView::Exit
            },
        },
        (SessionView::Ending, EventView::Finished) => TurnView {
            session: SessionView::Ending,
            command: CommandView::Exit,
        },
        _ => TurnView { session, command: CommandView::Wait },
    }
}

/// The turn that ends the resolution when each request is answered.
pub open spec fn turn_when_resolved(
    options: Options,
    turn: TurnView,
    replies: Seq<FileReplyView>,
    terminal: bool,
) -> TurnView
    decreases
            match turn.session {
                SessionView::Resolving(resolver) => requests_left(options, resolver) + 1,
                _ => 0,
            },
{
    match turn.session {
        SessionView::Resolving(resolver) => turn_when_resolved(
            options,
            turn_after(
                options,
                turn.session,
                EventView::Answered(answer(options, resolver, replies, terminal)),
            ),
            replies,
            terminal,
        ),
        _ => turn,
    }
}

impl Turn {
    /// The turn in which the resolution has come this far.
    fn at(options: &Options, reached: Progress) -> (turn: Turn)
        ensures
            turn@ == turn_at(*options, reached@),
    {
        match reached {
            Progress::Ask(request, resolver) => Turn {
                session: Session::Resolving(resolver),
                command: Command::Ask(request),
            },
            Progress::Done(Err(error)) => Turn {
                session: Session::Ending,
                command: Command::Fail(error.message()),
            },
            Progress::Done(Ok(sources)) => if sources.len() == 0 {
                Turn {
                    session: Session::Ending,
                    command: Command::Fail(
                        "no data to copy (specify text, use stdin, or use --file/--literal/--stdin)".to_string(),
                    ),
                }
            } else {
                Turn {
                    session: Session::Preparing,
                    command: Command::Copy(choose_settings(options), sources),
                }
            },
        }
    }
}

impl Session {
    /// Begins a call of the program.
    pub fn start(options: &Options) -> (turn: Turn)
        ensures
            turn@ == first_turn(*options),
    {
        if options.clear {
            Turn {
                session: Session::Ending,
                command: Command::Clear(choose_clipboard(options), choose_seat(options)),
            }
        } else {
            Turn::at(options, Resolver::start(options, ImplicitStdin::UnlessSourceGiven))
        }
    }

    /// Goes on after this event.
    pub fn step(self, options: &Options, event: Event) -> (turn: Turn)
        ensures
            turn@ == turn_after(*options, self@, event@),
    {
        match (self, event) {
            (Session::Resolving(resolver), Event::Answered(reply)) => Turn::at(
                options,
                resolver.step(options, reply),
            ),
            (Session::Preparing, Event::Prepared) => if options.foreground {
                Turn { session: Session::Ending, command: Command::Serve }
            } else {
                Turn { session: Session::Forking, command: Command::Fork }
            },
            (Session::Forking, Event::Forked(pid)) => Turn {
                session: Session::Ending,
                command: if pid == -1 {
                    Command::AbortFork
                } else if pid == 0 {
                    Command::ServeDetached
                } else {
                    Command::Exit
                },
            },
            (Session::Ending, Event::Finished) => Turn {
                session: Session::Ending,
                command: Command::Exit,
            },
            (session, _) => Turn { session, command: Command::Wait },
        }
    }
}

} // verus!
