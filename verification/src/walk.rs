//! The receiving side of a scan: entries that arrive early are held back so
//! that a fast scan prints sorted; once the deadline passes or too many are
//! held, everything held is printed and later entries are printed on arrival.

use vstd::prelude::*;
use crate::dir_entry::DirEntry;
use crate::exit_codes::ExitCode;
use crate::order::{sort_by_path, sort_entries};

verus! {

/// Milliseconds after the start of a scan until buffering gives way to streaming.
pub const DEFAULT_MAX_BUFFER_TIME: u64 = 100;

/// How many entries may be held back before they are printed.
pub const MAX_BUFFER_LENGTH: usize = 1000;

/// How many worker threads walk the tree.
pub const DEFAULT_THREADS: usize = 4;

#[derive(Clone, Copy, Debug, PartialEq, Eq, Structural)]
pub enum ReceiverMode {
    /// Entries are held back, to be sorted if the scan ends soon enough.
    Buffering,
    /// Entries are printed as they arrive.
    Streaming,
}

/// What a worker sends to the receiver.
#[derive(Debug)]
pub enum WorkerResult {
    Entry(DirEntry),
    /// The message of a traversal error.
    Error(String),
}

/// What the traversal reports to a worker: an object it found, or the
/// message of an error it ran into.
#[derive(Debug)]
pub enum Visit {
    Found(DirEntry),
    Failed(String),
}

/// What a worker does about a visit.
#[derive(Debug)]
pub enum Dispatch {
    /// Send nothing and end this worker's walk.
    Quit,
    /// Send nothing and go on.
    Skip,
    /// Send this message to the receiver.
    Send(WorkerResult),
}

/// What a worker tells the traversal after a visit.
#[derive(Clone, Copy, Debug, PartialEq, Eq, Structural)]
pub enum WalkState {
    Continue,
    Quit,
}

/// How the tree below a root is walked.
#[derive(Debug)]
pub struct WalkOptions {
    pub root: String,
    /// Whether hidden entries are left out.
    pub hidden: bool,
    /// Whether `.ignore` files are respected.
    pub ignore: bool,
    /// Whether ignore files of parent directories are read.
    pub parents: bool,
    /// Whether `.gitignore` files are respected.
    pub git_ignore: bool,
    /// Whether the global gitignore file is respected.
    pub git_global: bool,
    /// Whether the exclude file of a repository is respected.
    pub git_exclude: bool,
    /// Whether symbolic links are followed.
    pub follow_links: bool,
    /// How many worker threads walk the tree.
    pub threads: usize,
}

impl WalkOptions {
    /// The options of a scan below the first of the search paths.
    pub fn new(path_vec: &Vec<String>) -> (options: WalkOptions)
        requires
            path_vec@.len() > 0,
        ensures
            options.root@ == path_vec@[0]@,
            options.hidden,
            !options.ignore,
            options.parents,
            options.git_ignore,
            options.git_global,
            options.git_exclude,
            options.follow_links,
            options.threads == DEFAULT_THREADS,
    {
        WalkOptions {
            root: path_vec[0].clone(),
            hidden: true,
            ignore: false,
            parents: true,
            git_ignore: true,
            git_global: true,
            git_exclude: true,
            follow_links: true,
            threads: DEFAULT_THREADS,
        }
    }
}

/// What to do about a visit when the quit flag reads `quit`: end the walk
/// if it is raised; else send nothing for the root itself, which lies at
/// depth zero, the entry for anything below it, and the message for an error.
pub open spec fn dispatch_of(quit: bool, visit: Visit) -> Dispatch {
    if quit {
        Dispatch::Quit
    } else {
        match visit {
            Visit::Found(entry) => if entry.depth == 0 {
                Dispatch::Skip
            } else {
                Dispatch::Send(WorkerResult::Entry(entry))
            },
            Visit::Failed(message) => Dispatch::Send(WorkerResult::Error(message)),
        }
    }
}

/// Decides what a worker does about a visit, given the quit flag as read
/// at the start of the visit. The root is never sent.
pub fn dispatch(quit: bool, visit: Visit) -> (action: Dispatch)
    ensures
        action == dispatch_of(quit, visit),
        action matches Dispatch::Send(WorkerResult::Entry(entry)) ==> entry.depth > 0,
{
    if quit {
        return Dispatch::Quit;
    }
    match visit {
        Visit::Found(entry) => {
            if entry.depth == 0 {
                Dispatch::Skip
            } else {
                Dispatch::Send(WorkerResult::Entry(entry))
            }
        },
        Visit::Failed(message) => Dispatch::Send(WorkerResult::Error(message)),
    }
}

/// Whether a worker goes on after it tried to send a message: `sent` says
/// whether the receiver was still there to take it. A failed send ends
/// this worker's walk and leaves the quit flag alone.
pub fn after_send(sent: bool) -> (state: WalkState)
    ensures
        state == if sent {
            WalkState::Continue
        } else {
            WalkState::Quit
        },
{
    if sent {
        WalkState::Continue
    } else {
        WalkState::Quit
    }
}

/// What the receiver is woken with.
#[derive(Debug)]
pub enum Event {
    /// A message arrived.
    Message(WorkerResult),
    /// The wait for a message ran out.
    Timeout,
    /// Every worker has finished.
    Disconnected,
    /// Writing to or flushing the output failed.
    SinkFailed,
}

/// How long the receiver may wait for the next message.
#[derive(Clone, Copy, Debug, PartialEq, Eq, Structural)]
pub enum Wait {
    /// The deadline has passed: treat as a timeout without waiting.
    Expired,
    /// Wait at most this many milliseconds.
    AtMost(u64),
    /// Wait until a message arrives or every worker has finished.
    Unbounded,
}

/// What the driver of the receiver does after one event.
#[derive(Debug)]
pub struct Step {
    /// Entries to print now, in this order.
    pub print: Vec<DirEntry>,
    /// Whether to flush the output after printing.
    pub flush: bool,
    /// A traversal error to hand to error reporting.
    pub report: Option<String>,
    /// Whether to raise the quit flag.
    pub quit: bool,
    /// The classification to stop with, if the receiver has stopped.
    pub exit: Option<ExitCode>,
}

/// The mathematical content of a `Step`.
pub struct StepView {
    pub print: Seq<DirEntry>,
    pub flush: bool,
    pub report: Option<String>,
    pub quit: bool,
    pub exit: Option<ExitCode>,
}

impl View for Step {
    type V = StepView;

    open spec fn view(&self) -> StepView {
        StepView {
            print: self.print@,
            flush: self.flush,
            report: self.report,
            quit: self.quit,
            exit: self.exit,
        }
    }
}

/// The mathematical content of a `ReceiverBuffer`.
pub struct ReceiverState {
    pub mode: ReceiverMode,
    pub deadline: u64,
    pub buffer: Seq<DirEntry>,
    pub num_results: usize,
    pub stopped: Option<ExitCode>,
}

impl ReceiverState {
    /// The state at the start of a scan.
    pub open spec fn initial(deadline: u64) -> ReceiverState {
        ReceiverState {
            mode: ReceiverMode::Buffering,
            deadline,
            buffer: Seq::empty(),
            num_results: 0,
            stopped: None,
        }
    }

    /// At most the threshold is held back, and nothing once streaming.
    pub open spec fn inv(self) -> bool {
        &&& self.buffer.len() <= MAX_BUFFER_LENGTH
        &&& self.mode == ReceiverMode::Streaming ==> self.buffer.len() == 0
    }

    /// The state after everything held back was handed out for printing.
    pub open spec fn streamed(self) -> ReceiverState {
        ReceiverState { mode: ReceiverMode::Streaming, buffer: Seq::empty(), ..self }
    }

    /// The counter after one more result; it stays at its maximum.
    pub open spec fn counted(self) -> ReceiverState {
        ReceiverState {
            num_results: if self.num_results < usize::MAX {
                (self.num_results + 1) as usize
            } else {
                self.num_results
            },
            ..self
        }
    }

    /// The classification of a scan that ran to its end.
    pub open spec fn classification(self) -> ExitCode {
        ExitCode::HasResults(self.num_results > 0)
    }

    /// The state after `event`.
    pub open spec fn next(self, event: Event) -> ReceiverState {
        if self.stopped.is_some() {
            self
        } else {
            match event {
                Event::Message(WorkerResult::Entry(entry)) => match self.mode {
                    ReceiverMode::Buffering => {
                        let held = ReceiverState { buffer: self.buffer.push(entry), ..self };
                        if held.buffer.len() > MAX_BUFFER_LENGTH {
                            held.streamed().counted()
                        } else {
                            held.counted()
                        }
                    },
                    ReceiverMode::Streaming => self.counted(),
                },
                Event::Message(WorkerResult::Error(_)) => self,
                Event::Timeout => self.streamed(),
                Event::Disconnected => ReceiverState {
                    stopped: Some(self.classification()),
                    ..self.streamed()
                },
                Event::SinkFailed => ReceiverState { stopped: Some(ExitCode::Success), ..self },
            }
        }
    }

    /// What the driver is told to do after `event`.
    pub open spec fn step(self, event: Event) -> StepView {
        let idle = StepView {
            print: Seq::empty(),
            flush: false,
            report: None,
            quit: false,
            exit: None,
        };
        if self.stopped.is_some() {
            StepView { exit: self.stopped, ..idle }
        } else {
            match event {
                Event::Message(WorkerResult::Entry(entry)) => match self.mode {
                    ReceiverMode::Buffering => {
                        if self.buffer.len() + 1 > MAX_BUFFER_LENGTH {
                            StepView {
                                print: sort_by_path(self.buffer.push(entry)),
                                flush: true,
                                ..idle
                            }
                        } else {
                            idle
                        }
                    },
                    ReceiverMode::Streaming => StepView {
                        print: seq![entry],
                        flush: true,
                        ..idle
                    },
                },
                Event::Message(WorkerResult::Error(message)) => StepView {
                    report: Some(message),
                    ..idle
                },
                Event::Timeout => StepView {
                    print: sort_by_path(self.buffer),
                    flush: true,
                    ..idle
                },
                Event::Disconnected => StepView {
                    print: sort_by_path(self.buffer),
                    flush: self.mode == ReceiverMode::Buffering,
                    quit: true,
                    exit: Some(self.classification()),
                    ..idle
                },
                Event::SinkFailed => StepView {
                    quit: true,
                    exit: Some(ExitCode::Success),
                    ..idle
                },
            }
        }
    }
}

/// The receiver of one scan.
pub struct ReceiverBuffer {
    mode: ReceiverMode,
    deadline: u64,
    buffer: Vec<DirEntry>,
    num_results: usize,
    stopped: Option<ExitCode>,
}

impl View for ReceiverBuffer {
    type V = ReceiverState;

    closed spec fn view(&self) -> ReceiverState {
        ReceiverState {
            mode: self.mode,
            deadline: self.deadline,
            buffer: self.buffer@,
            num_results: self.num_results,
            stopped: self.stopped,
        }
    }
}

impl ReceiverBuffer {
    /// A receiver for a scan that starts at `now`, in milliseconds on the
    /// driver's clock.
    pub fn new(now: u64) -> (receiver: ReceiverBuffer)
        requires
            now + DEFAULT_MAX_BUFFER_TIME <= u64::MAX,
        ensures
            receiver@ == ReceiverState::initial((now + DEFAULT_MAX_BUFFER_TIME) as u64),
            receiver@.inv(),
    {
        ReceiverBuffer {
            mode: ReceiverMode::Buffering,
            deadline: now + DEFAULT_MAX_BUFFER_TIME,
            buffer: Vec::with_capacity(MAX_BUFFER_LENGTH),
            num_results: 0,
            stopped: None,
        }
    }

    pub fn mode(&self) -> (mode: ReceiverMode)
        ensures
            mode == self@.mode,
    {
        self.mode
    }

    pub fn num_results(&self) -> (count: usize)
        ensures
            count == self@.num_results,
    {
        self.num_results
    }

    /// The classification the receiver stopped with, if it has stopped.
    pub fn stopped(&self) -> (exit: Option<ExitCode>)
        ensures
            exit == self@.stopped,
    {
        self.stopped
    }

    /// How long to wait for the next message at time `now`: until the
    /// deadline while buffering, without bound once streaming.
    pub fn recv(&self, now: u64) -> (wait: Wait)
        ensures
            wait == match self@.mode {
                ReceiverMode::Buffering => if now > self@.deadline {
                    Wait::Expired
                } else {
                    Wait::AtMost((self@.deadline - now) as u64)
                },
                ReceiverMode::Streaming => Wait::Unbounded,
            },
    {
        match self.mode {
            ReceiverMode::Buffering => {
                if now > self.deadline {
                    Wait::Expired
                } else {
                    Wait::AtMost(self.deadline - now)
                }
            },
            ReceiverMode::Streaming => Wait::Unbounded,
        }
    }

    /// Switches to streaming and hands out what was held back, sorted by path.
    fn stream(&mut self) -> (held: Vec<DirEntry>)
        ensures
            held@ == sort_by_path(old(self)@.buffer),
            final(self)@ == old(self)@.streamed(),
    {
        self.mode = ReceiverMode::Streaming;
        let mut buffer: Vec<DirEntry> = Vec::new();
        std::mem::swap(&mut self.buffer, &mut buffer);
        sort_entries(buffer)
    }

    /// Stops a scan whose workers have all finished: hands out what is still
    /// held back, sorted, with the classification by the result counter.
    fn stop(&mut self) -> (last: Step)
        requires
            old(self)@.stopped.is_none(),
        ensures
            last@ == old(self)@.step(Event::Disconnected),
            final(self)@ == old(self)@.next(Event::Disconnected),
    {
        let flush = match self.mode {
            ReceiverMode::Buffering => true,
            ReceiverMode::Streaming => false,
        };
        let print = self.stream();
        let exit = ExitCode::HasResults(self.num_results > 0);
        self.stopped = Some(exit);
        Step { print, flush, report: None, quit: true, exit: Some(exit) }
    }

    /// Takes one event and says what to do about it.
    pub fn poll(&mut self, event: Event) -> (step: Step)
        ensures
            step@ == old(self)@.step(event),
            final(self)@ == old(self)@.next(event),
            old(self)@.inv() ==> final(self)@.inv(),
    {
        if self.stopped.is_some() {
            return Step {
                print: Vec::new(),
                flush: false,
                report: None,
                quit: false,
                exit: self.stopped,
            };
        }
        match event {
            Event::Message(WorkerResult::Entry(entry)) => {
                let step = match self.mode {
                    ReceiverMode::Buffering => {
                        self.buffer.push(entry);
                        if self.buffer.len() > MAX_BUFFER_LENGTH {
                            let print = self.stream();
                            Step { print, flush: true, report: None, quit: false, exit: None }
                        } else {
                            Step {
                                print: Vec::new(),
                                flush: false,
                                report: None,
                                quit: false,
                                exit: None,
                            }
                        }
                    },
                    ReceiverMode::Streaming => {
                        let mut print: Vec<DirEntry> = Vec::new();
                        print.push(entry);
                        assert(print@ =~= seq![entry]);
                        Step { print, flush: true, report: None, quit: false, exit: None }
                    },
                };
                if self.num_results < usize::MAX {
                    self.num_results += 1;
                }
                step
            },
            Event::Message(WorkerResult::Error(message)) => Step {
                print: Vec::new(),
                flush: false,
                report: Some(message),
                quit: false,
                exit: None,
            },
            Event::Timeout => {
                let print = self.stream();
                Step { print, flush: true, report: None, quit: false, exit: None }
            },
            Event::Disconnected => self.stop(),
            Event::SinkFailed => {
                self.stopped = Some(ExitCode::Success);
                Step {
                    print: Vec::new(),
                    flush: false,
                    report: None,
                    quit: true,
                    exit: Some(ExitCode::Success),
                }
            },
        }
    }
}

} // verus!
