//! The pmem worker as a state machine.
//!
//! The worker never blocks and never touches a file or an event descriptor.
//! It is driven: it names the next [`Action`], its driver performs it and
//! hands back what came of it, and the worker names the next. A driver that
//! starts with [`Action::Wait`] and follows the worker until [`Action::Exit`]
//! services one virtqueue:
//!
//! * [`Action::Wait`] blocks until event sources are readable and answers
//!   with their tokens in the order the wait reported them. The worker
//!   handles them in that order.
//! * On [`Token::QueueAvailable`] the worker rearms the queue event and
//!   drains the queue: it pops a chain, parses it, has the backing storage
//!   flushed for a valid request, stores the response in guest memory and
//!   publishes the chain in the used ring, until no chain is left.
//! * On [`Token::InterruptResample`] it has the resample event rearmed and
//!   the interrupt status loaded, and asserts the interrupt again if the
//!   status is not zero.
//! * On [`Token::Kill`], or when the wait or the rearming of the queue
//!   event fails, it exits at once.
//! * When all tokens are handled and a chain was published since the wait,
//!   it signals the used queue once, then waits again.
//!
//! An answer that does not fit the action the worker asked for makes it
//! exit.
//!
//! The worker does not log. It keeps a line for each chain that it rejects
//! and for each response that guest memory refuses, for its driver to take
//! and report.
use crate::virtio::guest_memory::error_text;
use crate::virtio::guest_memory::GUEST_ADDRESS_LIMIT;
use crate::virtio::pmem::request::loads;
use crate::virtio::pmem::request::parsed;
use crate::virtio::pmem::request::respond;
use crate::virtio::pmem::request::used_length;
use crate::virtio::pmem::request::ParseError;
use crate::virtio::pmem::request::Request;
use crate::virtio::pmem::request::RESPONSE_SIZE;
use crate::virtio::queue::DescriptorChain;
use sys_util::GuestMemory;
use sys_util::GuestMemoryError;
use vstd::prelude::*;
use vstd::string::StringExecFns;

verus! {

/// The event sources that wake the worker.
#[derive(Clone, Copy, Debug, PartialEq, Eq, Structural)]
pub enum Token {
    /// The guest has made chains available.
    QueueAvailable,
    /// The interrupt was acknowledged and is to be asserted again if work
    /// is still pending.
    InterruptResample,
    /// The device is going away.
    Kill,
}

/// What the worker asks its driver to do.
#[derive(Clone, Copy, Debug, PartialEq, Eq, Structural)]
pub enum Action {
    /// Wait until event sources are readable. Answer:
    /// [`Event::Ready`], or [`Event::Failed`].
    Wait,
    /// Read the queue event to rearm it. Answer: [`Event::Done`], or
    /// [`Event::Failed`].
    RearmQueue,
    /// Pop the next available chain from the queue. Answer:
    /// [`Event::Chain`].
    Pop,
    /// Make the backing storage durable. Answer: [`Event::Flushed`].
    Flush,
    /// Publish the chain whose head has index `index` in the used ring, with
    /// `len` bytes written. Answer: [`Event::Done`].
    AddUsed { index: u16, len: u32 },
    /// Read the resample event to rearm it, then load the interrupt status.
    /// Answer: [`Event::Status`].
    Resample,
    /// Write to the interrupt event. Answer: [`Event::Done`].
    Interrupt,
    /// Set the used-ring bit in the interrupt status, then write to the
    /// interrupt event. Answer: [`Event::Done`].
    SignalUsedQueue,
    /// Stop: the worker is finished.
    Exit,
}

/// What the driver hands back after an action.
#[derive(Debug)]
pub enum Event {
    /// The readable event sources, in the order the wait reported them.
    Ready(Vec<Token>),
    /// The action failed.
    Failed,
    /// The action is done and has nothing to report.
    Done,
    /// The chain that was popped, or `None` when the queue is drained.
    Chain(Option<DescriptorChain>),
    /// Whether the flush succeeded.
    Flushed(bool),
    /// The interrupt status that was loaded.
    Status(usize),
}

/// An event after the worker has done its own part on guest memory: a
/// popped chain is parsed, and the response to a flush is stored.
#[derive(Debug)]
pub enum Input {
    /// The readable event sources, in the order the wait reported them.
    Ready(Vec<Token>),
    /// The action failed.
    Failed,
    /// The action is done and has nothing to report.
    Done,
    /// The queue is drained.
    Empty,
    /// A chain was popped: the index of its head and what it parsed to.
    Parsed { index: u16, request: Result<Request, ParseError> },
    /// The backing storage was flushed, and the response was stored in
    /// guest memory or was not.
    Responded { stored: bool },
    /// The interrupt status that was loaded.
    Status(usize),
}

/// Where the worker stands: which answer it is waiting for.
#[derive(Clone, Copy, Debug, PartialEq, Eq, Structural)]
pub enum Phase {
    /// Waiting for event sources to become readable.
    Waiting,
    /// Having the queue event rearmed.
    Rearming,
    /// Having the next chain popped.
    Popping,
    /// Having the backing storage flushed for the chain with head `index`,
    /// whose response goes to `status_address`.
    Flushing { index: u16, status_address: u64 },
    /// Having a chain published in the used ring.
    Completing,
    /// Having the resample event rearmed and the interrupt status loaded.
    Resampling,
    /// Having the interrupt asserted again after a resample.
    Interrupting,
    /// Having the used queue signalled.
    Signalling,
    /// Finished.
    Exited,
}

/// The worker's state as a mathematical value.
pub ghost struct WorkerState {
    /// The answer that the worker is waiting for.
    pub phase: Phase,
    /// The tokens of this wake-up that are still to be handled.
    pub pending: Seq<Token>,
    /// Whether a chain was published since the last wait.
    pub needs_interrupt: bool,
}

/// The state of a worker that has exited.
pub open spec fn exited() -> WorkerState {
    WorkerState { phase: Phase::Exited, pending: Seq::empty(), needs_interrupt: false }
}

/// Takes up the next pending token, or ends the wake-up when none is left:
/// by signalling the used queue if a chain was published, else by waiting
/// again.
pub open spec fn dispatch(pending: Seq<Token>, needs_interrupt: bool) -> (WorkerState, Action) {
    if pending.len() == 0 {
        if needs_interrupt {
            (
                WorkerState { phase: Phase::Signalling, pending, needs_interrupt: false },
                Action::SignalUsedQueue,
            )
        } else {
            (WorkerState { phase: Phase::Waiting, pending, needs_interrupt: false }, Action::Wait)
        }
    } else {
        let rest = pending.remove(0);
        match pending[0] {
            Token::QueueAvailable => (
                WorkerState { phase: Phase::Rearming, pending: rest, needs_interrupt },
                Action::RearmQueue,
            ),
            Token::InterruptResample => (
                WorkerState { phase: Phase::Resampling, pending: rest, needs_interrupt },
                Action::Resample,
            ),
            Token::Kill => (exited(), Action::Exit),
        }
    }
}

/// The worker's transition function: the state that follows `s` on `input`,
/// and the action that the worker asks for next.
pub open spec fn transition(s: WorkerState, input: Input) -> (WorkerState, Action) {
    match (s.phase, input) {
        (Phase::Waiting, Input::Ready(tokens)) => dispatch(tokens@, false),
        (Phase::Rearming, Input::Done) => (WorkerState { phase: Phase::Popping, ..s }, Action::Pop),
        (Phase::Popping, Input::Empty) => dispatch(s.pending, s.needs_interrupt),
        (Phase::Popping, Input::Parsed { index, request: Ok(Request::Flush { status_address }) }) => (
            WorkerState { phase: Phase::Flushing { index, status_address }, ..s },
            Action::Flush,
        ),
        (Phase::Popping, Input::Parsed { index, request: Err(_) }) => (
            WorkerState { phase: Phase::Completing, needs_interrupt: true, ..s },
            Action::AddUsed { index, len: 0 },
        ),
        (Phase::Flushing { index, status_address }, Input::Responded { stored }) => (
            WorkerState { phase: Phase::Completing, needs_interrupt: true, ..s },
            Action::AddUsed { index, len: used_length(stored) },
        ),
        (Phase::Completing, Input::Done) => (WorkerState { phase: Phase::Popping, ..s }, Action::Pop),
        (Phase::Resampling, Input::Status(status)) => if status != 0 {
            (WorkerState { phase: Phase::Interrupting, ..s }, Action::Interrupt)
        } else {
            dispatch(s.pending, s.needs_interrupt)
        },
        (Phase::Interrupting, Input::Done) => dispatch(s.pending, s.needs_interrupt),
        (Phase::Signalling, Input::Done) => (
            WorkerState { phase: Phase::Waiting, pending: Seq::empty(), needs_interrupt: false },
            Action::Wait,
        ),
        _ => (exited(), Action::Exit),
    }
}

/// Whether `input` is what `event` becomes once a worker in phase `phase`
/// has done its part on guest memory. A chain is parsed only by a worker
/// that asked for one, and a response is stored only by a worker that asked
/// for the flush; what guest memory gives in either case is not known
/// beforehand.
pub open spec fn answers(phase: Phase, event: Event, input: Input) -> bool {
    match event {
        Event::Ready(tokens) => input == Input::Ready(tokens),
        Event::Failed => input == Input::Failed,
        Event::Done => input == Input::Done,
        Event::Status(status) => input == Input::Status(status),
        Event::Chain(None) => input == Input::Empty,
        Event::Chain(Some(chain)) => if phase is Popping {
            exists|loaded: Result<u32, GuestMemoryError>|
                loads(chain.addr, loaded) && input == (Input::Parsed {
                    index: chain.index,
                    request: #[trigger] parsed(&chain, loaded),
                })
        } else {
            input == Input::Empty
        },
        Event::Flushed(_) => match phase {
            Phase::Flushing { index, status_address } => {
                &&& input is Responded
                &&& status_address >= GUEST_ADDRESS_LIMIT ==> input == (Input::Responded {
                    stored: false,
                })
            },
            _ => input == (Input::Responded { stored: false }),
        },
    }
}

/// `line` starts with `prefix`.
pub open spec fn begins(line: Seq<char>, prefix: Seq<char>) -> bool {
    prefix.len() <= line.len() && line.subrange(0, prefix.len() as int) == prefix
}

/// The words before the request type in the line for a chain that is
/// rejected for its type.
pub open spec fn unknown_type_line() -> Seq<char> {
    "unknown request type: "@
}

/// The words before the error in the line for a chain that is rejected.
pub open spec fn rejected_chain_line() -> Seq<char> {
    "failed processing available descriptor chain: "@
}

/// The words before the error in the line for a response that guest memory
/// refuses.
pub open spec fn refused_response_line() -> Seq<char> {
    "bad guest memory address: "@
}

/// Whether `lines` are what a worker in phase `phase` has to report of the
/// step that `input` stands for. A chain that fails to parse gives one line
/// that names the error, after one that names the request type if the
/// chain was rejected for it. A response that guest memory refuses gives
/// one line. Nothing else gives any.
pub open spec fn reports(phase: Phase, input: Input, lines: Seq<String>) -> bool {
    match (phase, input) {
        (Phase::Popping, Input::Parsed { index, request: Err(e) }) => {
            &&& 1 <= lines.len() <= 2
            &&& !(e is GuestMemory) ==> lines.last()@ == rejected_chain_line() + e.message()
            &&& begins(lines.last()@, rejected_chain_line() + e.message())
            &&& lines.len() == 2 ==> e is InvalidRequest && begins(lines[0]@, unknown_type_line())
        },
        (Phase::Flushing { index, status_address }, Input::Responded { stored }) => if stored {
            lines.len() == 0
        } else {
            lines.len() == 1 && begins(lines[0]@, refused_response_line())
        },
        _ => lines.len() == 0,
    }
}

/// The worker of one pmem device.
#[derive(Debug)]
pub struct Worker {
    phase: Phase,
    pending: Vec<Token>,
    needs_interrupt: bool,
    errors: Vec<String>,
}

impl View for Worker {
    type V = WorkerState;

    closed spec fn view(&self) -> WorkerState {
        WorkerState {
            phase: self.phase,
            pending: self.pending@,
            needs_interrupt: self.needs_interrupt,
        }
    }
}

impl Worker {
    /// The lines that the worker has to report and that its driver has not
    /// taken yet, oldest first.
    pub closed spec fn errors(&self) -> Seq<String> {
        self.errors@
    }

    /// A worker whose driver is to wait first.
    pub fn new() -> (worker: Worker)
        ensures
            worker@ == (WorkerState {
                phase: Phase::Waiting,
                pending: Seq::empty(),
                needs_interrupt: false,
            }),
            worker.errors().len() == 0,
    {
        Worker {
            phase: Phase::Waiting,
            pending: Vec::new(),
            needs_interrupt: false,
            errors: Vec::new(),
        }
    }

    /// Hands out the lines that the worker has to report, oldest first, and
    /// keeps none of them.
    pub fn take_errors(&mut self) -> (lines: Vec<String>)
        ensures
            lines@ == old(self).errors(),
            final(self).errors().len() == 0,
            final(self)@ == old(self)@,
    {
        let mut lines = Vec::new();
        core::mem::swap(&mut self.errors, &mut lines);
        lines
    }

    /// The answer that the worker is waiting for.
    pub fn phase(&self) -> (phase: Phase)
        ensures
            phase == self@.phase,
    {
        self.phase
    }

    /// Whether a chain was published since the last wait, so that the used
    /// queue is to be signalled before the next.
    pub fn needs_interrupt(&self) -> (r: bool)
        ensures
            r == self@.needs_interrupt,
    {
        self.needs_interrupt
    }

    /// Stops the worker.
    fn exit(&mut self) -> (action: Action)
        ensures
            final(self)@ == exited(),
            final(self).errors() == old(self).errors(),
            action == Action::Exit,
    {
        self.phase = Phase::Exited;
        self.pending = Vec::new();
        self.needs_interrupt = false;
        Action::Exit
    }

    /// Takes up the next pending token, or ends the wake-up.
    fn dispatch(&mut self) -> (action: Action)
        ensures
            (final(self)@, action) == dispatch(old(self)@.pending, old(self)@.needs_interrupt),
            final(self).errors() == old(self).errors(),
    {
        if self.pending.len() == 0 {
            if self.needs_interrupt {
                self.phase = Phase::Signalling;
                self.needs_interrupt = false;
                Action::SignalUsedQueue
            } else {
                self.phase = Phase::Waiting;
                Action::Wait
            }
        } else {
            let token = self.pending.remove(0);
            match token {
                Token::QueueAvailable => {
                    self.phase = Phase::Rearming;
                    Action::RearmQueue
                },
                Token::InterruptResample => {
                    self.phase = Phase::Resampling;
                    Action::Resample
                },
                Token::Kill => self.exit(),
            }
        }
    }

    /// Takes the worker one step further on `input` and returns the action
    /// that its driver is to perform next. The lines to report stay as they
    /// are.
    pub fn advance(&mut self, input: Input) -> (action: Action)
        ensures
            (final(self)@, action) == transition(old(self)@, input),
            final(self).errors() == old(self).errors(),
    {
        match (self.phase, input) {
            (Phase::Waiting, Input::Ready(tokens)) => {
                self.pending = tokens;
                self.needs_interrupt = false;
                self.dispatch()
            },
            (Phase::Rearming, Input::Done) => {
                self.phase = Phase::Popping;
                Action::Pop
            },
            (Phase::Popping, Input::Empty) => self.dispatch(),
            (
                Phase::Popping,
                Input::Parsed { index, request: Ok(Request::Flush { status_address }) },
            ) => {
                self.phase = Phase::Flushing { index, status_address };
                Action::Flush
            },
            (Phase::Popping, Input::Parsed { index, request: Err(_) }) => {
                self.phase = Phase::Completing;
                self.needs_interrupt = true;
                Action::AddUsed { index, len: 0 }
            },
            (Phase::Flushing { index, status_address }, Input::Responded { stored }) => {
                self.phase = Phase::Completing;
                self.needs_interrupt = true;
                let len = if stored {
                    RESPONSE_SIZE
                } else {
                    0
                };
                Action::AddUsed { index, len }
            },
            (Phase::Completing, Input::Done) => {
                self.phase = Phase::Popping;
                Action::Pop
            },
            (Phase::Resampling, Input::Status(status)) => {
                if status != 0 {
                    self.phase = Phase::Interrupting;
                    Action::Interrupt
                } else {
                    self.dispatch()
                }
            },
            (Phase::Interrupting, Input::Done) => self.dispatch(),
            (Phase::Signalling, Input::Done) => {
                self.phase = Phase::Waiting;
                self.pending = Vec::new();
                self.needs_interrupt = false;
                Action::Wait
            },
            _ => self.exit(),
        }
    }

    /// Keeps the line for a chain that was rejected for its request type.
    fn note_unknown_type(&mut self, type_: u32)
        ensures
            final(self)@ == old(self)@,
            final(self).errors().len() == old(self).errors().len() + 1,
            final(self).errors().subrange(0, old(self).errors().len() as int) == old(
                self,
            ).errors(),
            begins(final(self).errors().last()@, unknown_type_line()),
    {
        let digits = type_.to_string();
        let line = String::from_str("unknown request type: ").concat(digits.as_str());
        assert(line@.subrange(0, unknown_type_line().len() as int) =~= unknown_type_line());
        self.errors.push(line);
        assert(self.errors@.subrange(0, old(self).errors@.len() as int) =~= old(self).errors@);
    }

    /// Keeps the line for a chain that was rejected with the error `e`.
    fn note_rejected(&mut self, e: &ParseError)
        ensures
            final(self)@ == old(self)@,
            final(self).errors().len() == old(self).errors().len() + 1,
            final(self).errors().subrange(0, old(self).errors().len() as int) == old(
                self,
            ).errors(),
            !(e is GuestMemory) ==> final(self).errors().last()@ == rejected_chain_line()
                + e.message(),
            begins(final(self).errors().last()@, rejected_chain_line() + e.message()),
    {
        let text = e.to_string();
        let line = String::from_str("failed processing available descriptor chain: ").concat(
            text.as_str(),
        );
        let ghost prefix = rejected_chain_line() + e.message();
        proof {
            if e is GuestMemory {
                let detail = choose|detail: Seq<char>| text@ == e.message() + detail;
                assert(line@ =~= prefix + detail);
            } else {
                assert(line@ =~= prefix);
            }
            assert(line@.subrange(0, prefix.len() as int) =~= prefix);
        }
        self.errors.push(line);
        assert(self.errors@.subrange(0, old(self).errors@.len() as int) =~= old(self).errors@);
    }

    /// Keeps the line for a response that guest memory refused with `e`.
    fn note_refused(&mut self, e: &GuestMemoryError)
        ensures
            final(self)@ == old(self)@,
            final(self).errors().len() == old(self).errors().len() + 1,
            final(self).errors().subrange(0, old(self).errors().len() as int) == old(
                self,
            ).errors(),
            begins(final(self).errors().last()@, refused_response_line()),
    {
        let text = error_text(e);
        let line = String::from_str("bad guest memory address: ").concat(text.as_str());
        assert(line@.subrange(0, refused_response_line().len() as int) =~= refused_response_line());
        self.errors.push(line);
        assert(self.errors@.subrange(0, old(self).errors@.len() as int) =~= old(self).errors@);
    }

    /// Takes the worker one step further on `event`, parsing a popped chain
    /// from `memory` and storing the response to a flush in it, and returns
    /// the action that its driver is to perform next. What went wrong with
    /// the chain or the response is added to the lines to report.
    pub fn step(&mut self, event: Event, memory: &GuestMemory) -> (action: Action)
        ensures
            old(self).errors().len() <= final(self).errors().len(),
            final(self).errors().subrange(0, old(self).errors().len() as int) == old(
                self,
            ).errors(),
            exists|input: Input|
                {
                    &&& #[trigger] answers(old(self)@.phase, event, input)
                    &&& (final(self)@, action) == transition(old(self)@, input)
                    &&& reports(
                        old(self)@.phase,
                        input,
                        final(self).errors().skip(old(self).errors().len() as int),
                    )
                },
    {
        let ghost before = self.errors@;
        let ghost start = self@;
        let input = match event {
            Event::Ready(tokens) => Input::Ready(tokens),
            Event::Failed => Input::Failed,
            Event::Done => Input::Done,
            Event::Status(status) => Input::Status(status),
            Event::Chain(None) => Input::Empty,
            Event::Chain(Some(chain)) => match self.phase {
                Phase::Popping => {
                    let (request, noted) = Request::parse_noting(&chain, memory);
                    match noted {
                        Some(type_) => self.note_unknown_type(type_),
                        None => {},
                    }
                    match &request {
                        Err(e) => self.note_rejected(e),
                        Ok(_) => {},
                    }
                    Input::Parsed { index: chain.index, request }
                },
                _ => Input::Empty,
            },
            Event::Flushed(flushed) => match self.phase {
                Phase::Flushing { index, status_address } => {
                    match respond(memory, status_address, flushed) {
                        Ok(_) => Input::Responded { stored: true },
                        Err(e) => {
                            self.note_refused(&e);
                            Input::Responded { stored: false }
                        },
                    }
                },
                _ => Input::Responded { stored: false },
            },
        };
        proof {
            let lines = self.errors@.skip(before.len() as int);
            assert(self@ == start);
            assert(self.errors@.subrange(0, before.len() as int) =~= before);
            assert(answers(start.phase, event, input));
            if lines.len() > 0 {
                assert(lines.last() == self.errors@.last());
                assert(lines[0] == self.errors@[before.len() as int]);
            }
            assert(reports(start.phase, input, lines));
        }
        self.advance(input)
    }
}

/// The state `s` once the worker has asked for the interrupt of a resample.
pub open spec fn interrupting(s: WorkerState) -> WorkerState {
    WorkerState { phase: Phase::Interrupting, ..s }
}

/// A resample asserts the interrupt again exactly if the interrupt status
/// is not zero, and then once: on a zero status the worker goes on to the
/// next token; on any other it asks for the interrupt and goes on to the
/// next token when that is done. Going on to the next token never asks for
/// the interrupt of a resample, and nothing but a resample with a status
/// that is not zero does.
pub proof fn lemma_resample(s: WorkerState, status: usize)
    requires
        s.phase is Resampling,
    ensures
        status == 0 ==> transition(s, Input::Status(status)) == dispatch(
            s.pending,
            s.needs_interrupt,
        ),
        status != 0 ==> transition(s, Input::Status(status)) == (
            interrupting(s),
            Action::Interrupt,
        ),
        transition(interrupting(s), Input::Done) == dispatch(s.pending, s.needs_interrupt),
        dispatch(s.pending, s.needs_interrupt).1 != Action::Interrupt,
        forall|t: WorkerState, input: Input| #[trigger]
            transition(t, input).1 == Action::Interrupt ==> t.phase is Resampling && input
                is Status && input->Status_0 != 0,
{
}

/// The response is stored before its chain is published: the worker asks
/// for a chain to be published either with length zero, as soon as the
/// chain fails to parse, or in answer to the storing of the response for
/// that very chain, with the length that says whether it was stored.
pub proof fn lemma_published_after_response(s: WorkerState, input: Input)
    ensures
        match transition(s, input).1 {
            Action::AddUsed { index, len } => {
                ||| s.phase is Popping && input is Parsed && input->Parsed_index == index
                    && input->Parsed_request is Err && len == 0
                ||| s.phase is Flushing && s.phase->Flushing_index == index && input is Responded
                    && len == used_length(input->Responded_stored)
            },
            _ => true,
        },
{
}

} // verus!
