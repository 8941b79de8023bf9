//! The command/response protocol with the controller, as step machines.
//!
//! The driver never touches a register itself: each step hands back the next
//! register access to perform (an [`Action`]), and the caller answers with
//! what it observed (an [`Event`]).

use vstd::prelude::*;
use crate::flags::{has_bits, StatusFlags, INPUT_FULL, OUTPUT_FULL};

verus! {

/// Errors of the protocol and of bring-up.
#[derive(Clone, Copy, Debug, PartialEq, Eq, Structural)]
pub enum Error {
    /// A device asked for the command again (`0xFE`).
    CommandRetry,
    /// Every attempt of a retried unit failed.
    NoMoreTries,
    /// No byte arrived within the polling budget.
    ReadTimeout,
    /// The controller did not take a byte within the polling budget.
    WriteTimeout,
    /// The controller self test did not answer `0x55`.
    InitFailed,
}

/// A register access for the caller to perform.
#[derive(Clone, Copy, Debug, PartialEq, Eq, Structural)]
pub enum Action {
    /// Read the status register and answer [`Event::Status`].
    ReadStatus,
    /// Spin-wait hint; answer [`Event::Done`].
    Pause,
    /// Read the data register and answer [`Event::Data`].
    ReadData,
    /// Write the data register; answer [`Event::Done`].
    WriteData(u8),
    /// Write the command register; answer [`Event::Done`].
    WriteCommand(u8),
}

/// What the caller observed when performing an [`Action`].
#[derive(Clone, Copy, Debug, PartialEq, Eq, Structural)]
pub enum Event {
    Status(u8),
    Data(u8),
    Done,
}

/// Whether `ev` is the answer that `action` asks for.
pub open spec fn answers(action: Action, ev: Event) -> bool {
    match action {
        Action::ReadStatus => ev is Status,
        Action::ReadData => ev is Data,
        _ => ev is Done,
    }
}

pub fn is_answer(action: Action, ev: Event) -> (r: bool)
    ensures
        r == answers(action, ev),
{
    match action {
        Action::ReadStatus => matches!(ev, Event::Status(_)),
        Action::ReadData => matches!(ev, Event::Data(_)),
        _ => matches!(ev, Event::Done),
    }
}

/// Status reads allowed while waiting for the controller.
pub const WAIT_BUDGET: u32 = 1_000_000;

/// What a wait is for.
#[derive(Clone, Copy, Debug, PartialEq, Eq, Structural)]
pub enum Want {
    /// A byte waits in the output buffer.
    Readable,
    /// The input buffer is free for a byte.
    Writable,
}

/// Whether a status reading ends the wait.
pub open spec fn is_ready(want: Want, status: u8) -> bool {
    match want {
        Want::Readable => has_bits(status, OUTPUT_FULL),
        Want::Writable => !has_bits(status, INPUT_FULL),
    }
}

/// The result of one status reading during a wait.
#[derive(Clone, Copy, Debug, PartialEq, Eq, Structural)]
pub enum Poll {
    Ready,
    Pause,
    TimedOut,
}

/// One poll: the outcome and the budget left after it.
pub open spec fn poll_step(want: Want, remaining: u32, status: u8) -> (Poll, u32) {
    if is_ready(want, status) {
        (Poll::Ready, remaining)
    } else if remaining <= 1 {
        (Poll::TimedOut, 0)
    } else {
        (Poll::Pause, (remaining - 1) as u32)
    }
}

/// Feeds status readings to a wait until it ends: the outcome (none while
/// the readings run out first) and how many readings it took.
pub open spec fn wait_run(want: Want, statuses: Seq<u8>, remaining: u32) -> (Option<Poll>, nat)
    decreases statuses.len(),
{
    if statuses.len() == 0 {
        (None, 0)
    } else {
        let (p, left) = poll_step(want, remaining, statuses[0]);
        if p == Poll::Pause {
            let (o, n) = wait_run(want, statuses.drop_first(), left);
            (o, n + 1)
        } else {
            (Some(p), 1)
        }
    }
}

/// A bounded wait on the status register.
pub struct Waiter {
    pub want: Want,
    /// Status readings left before the wait times out.
    pub remaining: u32,
}

impl Waiter {
    pub fn new(want: Want) -> (r: Self)
        ensures
            r.want == want,
            r.remaining == WAIT_BUDGET,
    {
        Waiter { want, remaining: WAIT_BUDGET }
    }

    /// Takes one status reading.
    pub fn on_status(&mut self, status: u8) -> (r: Poll)
        ensures
            final(self).want == old(self).want,
            (r, final(self).remaining) == poll_step(old(self).want, old(self).remaining, status),
    {
        let flags = StatusFlags::from_bits_truncate(status);
        let ready = match self.want {
            Want::Readable => flags.contains(OUTPUT_FULL),
            Want::Writable => !flags.contains(INPUT_FULL),
        };
        if ready {
            Poll::Ready
        } else if self.remaining <= 1 {
            self.remaining = 0;
            Poll::TimedOut
        } else {
            self.remaining = self.remaining - 1;
            Poll::Pause
        }
    }
}

/// A wait whose status never becomes ready within `remaining` readings
/// times out at exactly the last of them.
pub proof fn lemma_wait_times_out(want: Want, statuses: Seq<u8>, remaining: u32)
    requires
        remaining >= 1,
        statuses.len() >= remaining,
        forall|i: int| 0 <= i < remaining ==> !is_ready(want, #[trigger] statuses[i]),
    ensures
        wait_run(want, statuses, remaining) == (Some(Poll::TimedOut), remaining as nat),
    decreases remaining,
{
    assert(!is_ready(want, statuses[0]));
    if remaining > 1 {
        let rest = statuses.drop_first();
        assert forall|i: int| 0 <= i < remaining - 1 implies !is_ready(want, #[trigger] rest[i]) by {
            assert(rest[i] == statuses[i + 1]);
        }
        lemma_wait_times_out(want, rest, (remaining - 1) as u32);
    }
}

/// A wait whose status is first ready at reading `k`, within the budget,
/// succeeds there, having taken `k + 1` readings and no more.
pub proof fn lemma_wait_ready(want: Want, statuses: Seq<u8>, remaining: u32, k: int)
    requires
        0 <= k < remaining,
        k < statuses.len(),
        is_ready(want, statuses[k]),
        forall|i: int| 0 <= i < k ==> !is_ready(want, #[trigger] statuses[i]),
    ensures
        wait_run(want, statuses, remaining) == (Some(Poll::Ready), (k + 1) as nat),
    decreases k,
{
    if k > 0 {
        assert(!is_ready(want, statuses[0]));
        let rest = statuses.drop_first();
        assert forall|i: int| 0 <= i < k - 1 implies !is_ready(want, #[trigger] rest[i]) by {
            assert(rest[i] == statuses[i + 1]);
        }
        assert(rest[k - 1] == statuses[k]);
        lemma_wait_ready(want, rest, (remaining - 1) as u32, k - 1);
    }
}

/// Attempts allowed to each retried unit of work.
pub const RETRIES: u32 = 4;

/// What follows one attempt of a retried unit.
#[derive(Clone, Copy, Debug, PartialEq, Eq, Structural)]
pub enum RetryStep {
    /// The attempt succeeded with this value.
    Return(u8),
    /// The attempt failed; run another.
    Again,
    /// The attempt failed and it was the last: the unit fails with `NoMoreTries`.
    GiveUp,
}

/// One attempt's outcome: the next step and the attempts made after it.
pub open spec fn retry_step(attempts: u32, limit: u32, outcome: Result<u8, Error>) -> (RetryStep, u32) {
    match outcome {
        Ok(v) => (RetryStep::Return(v), (attempts + 1) as u32),
        Err(_) => if attempts + 1 >= limit {
            (RetryStep::GiveUp, (attempts + 1) as u32)
        } else {
            (RetryStep::Again, (attempts + 1) as u32)
        },
    }
}

/// Runs a retried unit, `attempts` of `limit` made, whose next attempts give
/// `outcomes` in turn: its result and how many more attempts it ran.
pub open spec fn retry_run(outcomes: Seq<Result<u8, Error>>, attempts: u32, limit: u32) -> (
    Result<u8, Error>,
    nat,
)
    decreases outcomes.len(),
{
    if attempts >= limit || outcomes.len() == 0 {
        (Err(Error::NoMoreTries), 0)
    } else {
        let (step, made) = retry_step(attempts, limit, outcomes[0]);
        match step {
            RetryStep::Return(v) => (Ok(v), 1),
            RetryStep::GiveUp => (Err(Error::NoMoreTries), 1),
            RetryStep::Again => {
                let (r, n) = retry_run(outcomes.drop_first(), made, limit);
                (r, n + 1)
            },
        }
    }
}

/// The attempt counter of a retried unit.
#[derive(Clone, Copy, Debug, PartialEq, Eq, Structural)]
pub struct Retry {
    pub attempts: u32,
    pub limit: u32,
}

impl Retry {
    pub fn new(limit: u32) -> (r: Self)
        ensures
            r.attempts == 0,
            r.limit == limit,
    {
        Retry { attempts: 0, limit }
    }

    /// Whether another attempt may run.
    pub fn can_try(&self) -> (r: bool)
        ensures
            r == (self.attempts < self.limit),
    {
        self.attempts < self.limit
    }

    /// Records the outcome of one attempt.
    pub fn on_outcome(&mut self, outcome: Result<u8, Error>) -> (r: RetryStep)
        requires
            old(self).attempts < old(self).limit,
        ensures
            final(self).limit == old(self).limit,
            (r, final(self).attempts) == retry_step(old(self).attempts, old(self).limit, outcome),
    {
        self.attempts = self.attempts + 1;
        match outcome {
            Ok(v) => RetryStep::Return(v),
            Err(_) => if self.attempts >= self.limit {
                RetryStep::GiveUp
            } else {
                RetryStep::Again
            },
        }
    }
}

proof fn lemma_retry_from(outcomes: Seq<Result<u8, Error>>, attempts: u32, limit: u32)
    requires
        attempts <= limit,
        outcomes.len() >= limit - attempts,
    ensures
        retry_run(outcomes, attempts, limit).1 <= limit - attempts,
        (forall|i: int| 0 <= i < limit - attempts ==> #[trigger] outcomes[i] is Err) ==> retry_run(
            outcomes,
            attempts,
            limit,
        ) == (Err::<u8, Error>(Error::NoMoreTries), (limit - attempts) as nat),
        forall|k: int|
            0 <= k < limit - attempts && #[trigger] outcomes[k] is Ok && (forall|i: int|
                0 <= i < k ==> #[trigger] outcomes[i] is Err) ==> retry_run(outcomes, attempts, limit)
                == (outcomes[k], (k + 1) as nat),
    decreases limit - attempts,
{
    if attempts < limit {
        let rest = outcomes.drop_first();
        lemma_retry_from(rest, (attempts + 1) as u32, limit);
        if forall|i: int| 0 <= i < limit - attempts ==> #[trigger] outcomes[i] is Err {
            assert(outcomes[0] is Err);
            assert forall|i: int| 0 <= i < limit - attempts - 1 implies #[trigger] rest[i] is Err by {
                assert(outcomes[i + 1] is Err);
            }
        }
        assert forall|k: int|
            0 <= k < limit - attempts && #[trigger] outcomes[k] is Ok && (forall|i: int|
                0 <= i < k ==> #[trigger] outcomes[i] is Err) implies retry_run(
            outcomes,
            attempts,
            limit,
        ) == (outcomes[k], (k + 1) as nat) by {
            if k > 0 {
                assert(outcomes[0] is Err);
                assert(rest[k - 1] == outcomes[k]);
                assert forall|i: int| 0 <= i < k - 1 implies #[trigger] rest[i] is Err by {
                    assert(outcomes[i + 1] is Err);
                }
            }
        }
    }
}

/// A retried unit runs its work at most `limit` times and returns the first
/// success; when every attempt fails it ends with `NoMoreTries` after
/// exactly `limit` attempts.
pub proof fn lemma_retry(outcomes: Seq<Result<u8, Error>>, limit: u32)
    requires
        outcomes.len() >= limit,
    ensures
        retry_run(outcomes, 0, limit).1 <= limit,
        (forall|i: int| 0 <= i < limit ==> #[trigger] outcomes[i] is Err) ==> retry_run(outcomes, 0, limit)
            == (Err::<u8, Error>(Error::NoMoreTries), limit as nat),
        forall|k: int|
            0 <= k < limit && #[trigger] outcomes[k] is Ok && (forall|i: int|
                0 <= i < k ==> #[trigger] outcomes[i] is Err) ==> retry_run(outcomes, 0, limit) == (
            outcomes[k],
            (k + 1) as nat,
        ),
{
    lemma_retry_from(outcomes, 0, limit);
}

/// Iterations of a flush.
pub const FLUSH_BUDGET: u32 = 100;

/// One register access, or a flush of stray bytes.
#[derive(Clone, Copy, Debug, PartialEq, Eq, Structural)]
pub enum OpKind {
    /// Wait until writable, then write the command register.
    Command(u8),
    /// Wait until writable, then write the data register.
    Write(u8),
    /// Wait until readable, then read the data register.
    Read,
    /// For a fixed number of polls, read and drop any waiting byte.
    Flush,
}

/// Where an [`Op`] stands.
#[derive(Clone, Copy, Debug, PartialEq, Eq, Structural)]
pub enum OpPhase {
    /// Its status read is out.
    Polling,
    /// Its register access is out.
    Accessing,
    /// Its pause is out.
    Pausing,
}

/// What a machine does next: an access for the caller, or its result.
#[derive(Clone, Copy, Debug)]
pub enum OpStep {
    Io(Action),
    Done(Result<u8, Error>),
}

/// A running [`OpKind`].
pub struct Op {
    pub kind: OpKind,
    pub phase: OpPhase,
    pub waiter: Waiter,
    /// Flush iterations left.
    pub flush_left: u32,
}

/// The wait that comes before an access.
pub open spec fn want_of(kind: OpKind) -> Want {
    match kind {
        OpKind::Read | OpKind::Flush => Want::Readable,
        _ => Want::Writable,
    }
}

/// The error of a wait that runs out.
pub open spec fn timeout_of(want: Want) -> Error {
    match want {
        Want::Readable => Error::ReadTimeout,
        Want::Writable => Error::WriteTimeout,
    }
}

/// The register access of an op.
pub open spec fn access_of(kind: OpKind) -> Action {
    match kind {
        OpKind::Command(c) => Action::WriteCommand(c),
        OpKind::Write(b) => Action::WriteData(b),
        _ => Action::ReadData,
    }
}

/// The action an op waits on.
pub open spec fn op_pending(op: Op) -> Action {
    match op.phase {
        OpPhase::Polling => Action::ReadStatus,
        OpPhase::Pausing => Action::Pause,
        OpPhase::Accessing => access_of(op.kind),
    }
}

/// A freshly started op.
pub open spec fn new_op(kind: OpKind) -> Op {
    Op {
        kind,
        phase: OpPhase::Polling,
        waiter: Waiter { want: want_of(kind), remaining: WAIT_BUDGET },
        flush_left: FLUSH_BUDGET,
    }
}

/// The next state of an op and what it does on an event. An event that does
/// not answer the pending action changes nothing and asks for it again.
pub open spec fn op_transition(op: Op, ev: Event) -> (Op, OpStep) {
    if !answers(op_pending(op), ev) {
        (op, OpStep::Io(op_pending(op)))
    } else {
        match op.phase {
            OpPhase::Polling => {
                let s = match ev {
                    Event::Status(s) => s,
                    _ => 0,
                };
                if op.kind == OpKind::Flush {
                    if has_bits(s, OUTPUT_FULL) {
                        (Op { phase: OpPhase::Accessing, ..op }, OpStep::Io(Action::ReadData))
                    } else {
                        (Op { phase: OpPhase::Pausing, ..op }, OpStep::Io(Action::Pause))
                    }
                } else {
                    let (p, left) = poll_step(op.waiter.want, op.waiter.remaining, s);
                    let w = Waiter { remaining: left, ..op.waiter };
                    match p {
                        Poll::Ready => (
                            Op { phase: OpPhase::Accessing, waiter: w, ..op },
                            OpStep::Io(access_of(op.kind)),
                        ),
                        Poll::Pause => (
                            Op { phase: OpPhase::Pausing, waiter: w, ..op },
                            OpStep::Io(Action::Pause),
                        ),
                        Poll::TimedOut => (
                            Op { waiter: w, ..op },
                            OpStep::Done(Err(timeout_of(op.waiter.want))),
                        ),
                    }
                }
            },
            OpPhase::Pausing => if op.kind == OpKind::Flush {
                if op.flush_left <= 1 {
                    (Op { flush_left: 0, ..op }, OpStep::Done(Ok(0)))
                } else {
                    (
                        Op { phase: OpPhase::Polling, flush_left: (op.flush_left - 1) as u32, ..op },
                        OpStep::Io(Action::ReadStatus),
                    )
                }
            } else {
                (Op { phase: OpPhase::Polling, ..op }, OpStep::Io(Action::ReadStatus))
            },
            OpPhase::Accessing => match op.kind {
                OpKind::Flush => (Op { phase: OpPhase::Pausing, ..op }, OpStep::Io(Action::Pause)),
                OpKind::Read => (
                    op,
                    OpStep::Done(
                        Ok(
                            match ev {
                                Event::Data(b) => b,
                                _ => 0,
                            },
                        ),
                    ),
                ),
                _ => (op, OpStep::Done(Ok(0))),
            },
        }
    }
}

impl Op {
    /// Starts an op; its first action is a status read.
    pub fn start(kind: OpKind) -> (r: Self)
        ensures
            r == new_op(kind),
            op_pending(r) == Action::ReadStatus,
    {
        let want = match kind {
            OpKind::Read | OpKind::Flush => Want::Readable,
            _ => Want::Writable,
        };
        Op { kind, phase: OpPhase::Polling, waiter: Waiter::new(want), flush_left: FLUSH_BUDGET }
    }

    pub fn pending(&self) -> (r: Action)
        ensures
            r == op_pending(*self),
    {
        match self.phase {
            OpPhase::Polling => Action::ReadStatus,
            OpPhase::Pausing => Action::Pause,
            OpPhase::Accessing => match self.kind {
                OpKind::Command(c) => Action::WriteCommand(c),
                OpKind::Write(b) => Action::WriteData(b),
                _ => Action::ReadData,
            },
        }
    }

    /// Takes the answer to the pending action.
    pub fn step(&mut self, ev: Event) -> (r: OpStep)
        ensures
            (*final(self), r) == op_transition(*old(self), ev),
    {
        let pending = self.pending();
        if !is_answer(pending, ev) {
            return OpStep::Io(pending);
        }
        match self.phase {
            OpPhase::Polling => {
                let s = match ev {
                    Event::Status(s) => s,
                    _ => 0,
                };
                if self.kind == OpKind::Flush {
                    if StatusFlags::from_bits_truncate(s).contains(OUTPUT_FULL) {
                        self.phase = OpPhase::Accessing;
                        OpStep::Io(Action::ReadData)
                    } else {
                        self.phase = OpPhase::Pausing;
                        OpStep::Io(Action::Pause)
                    }
                } else {
                    match self.waiter.on_status(s) {
                        Poll::Ready => {
                            self.phase = OpPhase::Accessing;
                            OpStep::Io(self.pending())
                        },
                        Poll::Pause => {
                            self.phase = OpPhase::Pausing;
                            OpStep::Io(Action::Pause)
                        },
                        Poll::TimedOut => OpStep::Done(
                            Err(
                                match self.waiter.want {
                                    Want::Readable => Error::ReadTimeout,
                                    Want::Writable => Error::WriteTimeout,
                                },
                            ),
                        ),
                    }
                }
            },
            OpPhase::Pausing => {
                if self.kind == OpKind::Flush {
                    if self.flush_left <= 1 {
                        self.flush_left = 0;
                        OpStep::Done(Ok(0))
                    } else {
                        self.flush_left = self.flush_left - 1;
                        self.phase = OpPhase::Polling;
                        OpStep::Io(Action::ReadStatus)
                    }
                } else {
                    self.phase = OpPhase::Polling;
                    OpStep::Io(Action::ReadStatus)
                }
            },
            OpPhase::Accessing => match self.kind {
                OpKind::Flush => {
                    self.phase = OpPhase::Pausing;
                    OpStep::Io(Action::Pause)
                },
                OpKind::Read => OpStep::Done(
                    Ok(
                        match ev {
                            Event::Data(b) => b,
                            _ => 0,
                        },
                    ),
                ),
                _ => OpStep::Done(Ok(0)),
            },
        }
    }
}

/// The controller command that sends the next data byte to the second port.
pub const WRITE_SECOND: u8 = 0xD4;
/// The controller command that writes the configuration byte.
pub const WRITE_CONFIG: u8 = 0x60;
/// A device's acknowledgement.
pub const ACK: u8 = 0xFA;
/// A device's request to send the command again.
pub const RESEND: u8 = 0xFE;

/// A unit of protocol work made of ops.
#[derive(Clone, Copy, Debug, PartialEq, Eq, Structural)]
pub enum ExKind {
    /// One controller command.
    Controller(u8),
    /// One data byte read.
    ReadByte,
    /// One flush.
    Flush,
    /// A keyboard command and its response byte.
    Keyboard(u8),
    /// A keyboard command; once acknowledged, its data byte and the response.
    KeyboardData(u8, u8),
    /// A mouse command, routed through the second port, and its response.
    Mouse(u8),
    /// A mouse command; once acknowledged, its data byte and the response.
    MouseData(u8, u8),
    /// A keyboard command written alone; no response is read.
    KeyboardSend(u8),
    /// A mouse command, routed through the second port, written alone; no
    /// response is read.
    MouseSend(u8),
    /// Writing the configuration byte.
    SetConfig(u8),
}

/// The op at position `pc` of an attempt.
pub open spec fn ex_op(kind: ExKind, pc: u8) -> OpKind {
    match kind {
        ExKind::Controller(c) => OpKind::Command(c),
        ExKind::ReadByte => OpKind::Read,
        ExKind::Flush => OpKind::Flush,
        ExKind::Keyboard(c) => if pc == 0 { OpKind::Write(c) } else { OpKind::Read },
        ExKind::KeyboardData(c, d) => if pc == 0 {
            OpKind::Write(c)
        } else if pc == 2 {
            OpKind::Write(d)
        } else {
            OpKind::Read
        },
        ExKind::Mouse(c) => if pc == 0 {
            OpKind::Command(WRITE_SECOND)
        } else if pc == 1 {
            OpKind::Write(c)
        } else {
            OpKind::Read
        },
        ExKind::MouseData(c, d) => if pc == 0 || pc == 3 {
            OpKind::Command(WRITE_SECOND)
        } else if pc == 1 {
            OpKind::Write(c)
        } else if pc == 4 {
            OpKind::Write(d)
        } else {
            OpKind::Read
        },
        ExKind::SetConfig(v) => if pc == 0 { OpKind::Command(WRITE_CONFIG) } else { OpKind::Write(v) },
        ExKind::KeyboardSend(c) => OpKind::Write(c),
        ExKind::MouseSend(c) => if pc == 0 { OpKind::Command(WRITE_SECOND) } else { OpKind::Write(c) },
    }
}

/// The position of the last op of an attempt.
pub open spec fn last_pc(kind: ExKind) -> u8 {
    match kind {
        ExKind::Keyboard(_) | ExKind::SetConfig(_) | ExKind::MouseSend(_) => 1,
        ExKind::KeyboardData(_, _) => 3,
        ExKind::Mouse(_) => 2,
        ExKind::MouseData(_, _) => 5,
        _ => 0,
    }
}

/// The position where a data command checks the acknowledgement of its
/// command byte before sending the data byte.
pub open spec fn is_ack_gate(kind: ExKind, pc: u8) -> bool {
    ||| (kind is KeyboardData && pc == 1)
    ||| (kind is MouseData && pc == 2)
}

/// A response byte `0xFE` is a request to retry.
pub open spec fn resend_as_error(r: Result<u8, Error>) -> Result<u8, Error> {
    if r == Ok::<u8, Error>(RESEND) {
        Err(Error::CommandRetry)
    } else {
        r
    }
}

/// What follows an op of an attempt.
#[derive(Clone, Copy, Debug)]
pub enum AfterOp {
    /// Run the op at this position.
    Next(u8),
    /// The attempt ends with this outcome.
    End(Result<u8, Error>),
}

/// What follows the op at `pc` when it gave `r`. A failed op ends the
/// attempt with its error.
pub open spec fn after_op(kind: ExKind, pc: u8, r: Result<u8, Error>) -> AfterOp {
    if r is Err {
        AfterOp::End(r)
    } else if is_ack_gate(kind, pc) {
        if r == Ok::<u8, Error>(RESEND) {
            AfterOp::End(Err(Error::CommandRetry))
        } else if r != Ok::<u8, Error>(ACK) {
            AfterOp::End(r)
        } else {
            AfterOp::Next((pc + 1) as u8)
        }
    } else if pc >= last_pc(kind) {
        if kind is Keyboard || kind is Mouse {
            AfterOp::End(resend_as_error(r))
        } else {
            AfterOp::End(r)
        }
    } else {
        AfterOp::Next((pc + 1) as u8)
    }
}

fn ex_op_of(kind: ExKind, pc: u8) -> (r: OpKind)
    ensures
        r == ex_op(kind, pc),
{
    match kind {
        ExKind::Controller(c) => OpKind::Command(c),
        ExKind::ReadByte => OpKind::Read,
        ExKind::Flush => OpKind::Flush,
        ExKind::Keyboard(c) => if pc == 0 { OpKind::Write(c) } else { OpKind::Read },
        ExKind::KeyboardData(c, d) => if pc == 0 {
            OpKind::Write(c)
        } else if pc == 2 {
            OpKind::Write(d)
        } else {
            OpKind::Read
        },
        ExKind::Mouse(c) => if pc == 0 {
            OpKind::Command(WRITE_SECOND)
        } else if pc == 1 {
            OpKind::Write(c)
        } else {
            OpKind::Read
        },
        ExKind::MouseData(c, d) => if pc == 0 || pc == 3 {
            OpKind::Command(WRITE_SECOND)
        } else if pc == 1 {
            OpKind::Write(c)
        } else if pc == 4 {
            OpKind::Write(d)
        } else {
            OpKind::Read
        },
        ExKind::SetConfig(v) => if pc == 0 { OpKind::Command(WRITE_CONFIG) } else { OpKind::Write(v) },
        ExKind::KeyboardSend(c) => OpKind::Write(c),
        ExKind::MouseSend(c) => if pc == 0 { OpKind::Command(WRITE_SECOND) } else { OpKind::Write(c) },
    }
}

fn after_op_of(kind: ExKind, pc: u8, r: Result<u8, Error>) -> (a: AfterOp)
    requires
        pc <= last_pc(kind),
    ensures
        a == after_op(kind, pc, r),
        a matches AfterOp::Next(n) ==> n <= last_pc(kind),
{
    let last: u8 = match kind {
        ExKind::Keyboard(_) | ExKind::SetConfig(_) | ExKind::MouseSend(_) => 1,
        ExKind::KeyboardData(_, _) => 3,
        ExKind::Mouse(_) => 2,
        ExKind::MouseData(_, _) => 5,
        _ => 0,
    };
    let gate = (matches!(kind, ExKind::KeyboardData(_, _)) && pc == 1) || (matches!(
        kind,
        ExKind::MouseData(_, _)
    ) && pc == 2);
    match r {
        Err(e) => {
            return AfterOp::End(Err(e));
        },
        Ok(_) => {},
    }
    if gate {
        match r {
            Ok(b) => if b == RESEND {
                AfterOp::End(Err(Error::CommandRetry))
            } else if b != ACK {
                AfterOp::End(r)
            } else {
                AfterOp::Next(pc + 1)
            },
            Err(_) => AfterOp::End(r),
        }
    } else if pc >= last {
        if matches!(kind, ExKind::Keyboard(_)) || matches!(kind, ExKind::Mouse(_)) {
            match r {
                Ok(b) => if b == RESEND {
                    AfterOp::End(Err(Error::CommandRetry))
                } else {
                    AfterOp::End(r)
                },
                Err(_) => AfterOp::End(r),
            }
        } else {
            AfterOp::End(r)
        }
    } else {
        AfterOp::Next(pc + 1)
    }
}

/// The ops of an attempt run in order, and every byte meant for the mouse
/// is written right after the controller command that routes it to the
/// second port.
pub proof fn lemma_mouse_bytes_routed(kind: ExKind, pc: u8, r: Result<u8, Error>)
    requires
        pc <= last_pc(kind),
    ensures
        after_op(kind, pc, r) matches AfterOp::Next(n) ==> n == pc + 1 && n <= last_pc(kind),
        (kind is Mouse || kind is MouseData || kind is MouseSend) && ex_op(kind, pc) is Write ==> pc
            >= 1 && ex_op(kind, (pc - 1) as u8) == OpKind::Command(WRITE_SECOND),
{
}

/// A running [`ExKind`]; a retried one runs whole attempts again, up to
/// [`RETRIES`] of them.
pub struct Exchange {
    pub kind: ExKind,
    pub retried: bool,
    pub retry: Retry,
    /// Position of the running op in the attempt.
    pub pc: u8,
    pub op: Op,
}

/// A freshly started exchange.
pub open spec fn new_exchange(kind: ExKind, retried: bool) -> Exchange {
    Exchange { kind, retried, retry: Retry { attempts: 0, limit: RETRIES }, pc: 0, op: new_op(ex_op(kind, 0)) }
}

impl Exchange {
    /// A running exchange that may take further events.
    pub open spec fn wf(&self) -> bool {
        &&& self.pc <= last_pc(self.kind)
        &&& self.op.kind == ex_op(self.kind, self.pc)
        &&& self.op.waiter.want == want_of(self.op.kind)
        &&& self.op.waiter.remaining <= WAIT_BUDGET
        &&& self.op.flush_left <= FLUSH_BUDGET
        &&& self.retry.attempts < self.retry.limit
        &&& self.retry.limit == RETRIES
    }
}

/// The next state of an exchange and what it does on an event.
pub open spec fn ex_transition(ex: Exchange, ev: Event) -> (Exchange, OpStep) {
    let (op, st) = op_transition(ex.op, ev);
    match st {
        OpStep::Io(a) => (Exchange { op, ..ex }, OpStep::Io(a)),
        OpStep::Done(r) => match after_op(ex.kind, ex.pc, r) {
            AfterOp::Next(pc) => (
                Exchange { pc, op: new_op(ex_op(ex.kind, pc)), ..ex },
                OpStep::Io(Action::ReadStatus),
            ),
            AfterOp::End(res) => if !ex.retried {
                (Exchange { op, ..ex }, OpStep::Done(res))
            } else {
                let (rs, made) = retry_step(ex.retry.attempts, ex.retry.limit, res);
                let retry = Retry { attempts: made, ..ex.retry };
                match rs {
                    RetryStep::Return(v) => (Exchange { op, retry, ..ex }, OpStep::Done(Ok(v))),
                    RetryStep::GiveUp => (
                        Exchange { op, retry, ..ex },
                        OpStep::Done(Err(Error::NoMoreTries)),
                    ),
                    RetryStep::Again => (
                        Exchange { op: new_op(ex_op(ex.kind, 0)), retry, pc: 0, ..ex },
                        OpStep::Io(Action::ReadStatus),
                    ),
                }
            },
        },
    }
}

impl Exchange {
    /// Starts an exchange; its first action is a status read.
    pub fn start(kind: ExKind, retried: bool) -> (r: Self)
        ensures
            r == new_exchange(kind, retried),
            r.wf(),
    {
        Exchange { kind, retried, retry: Retry::new(RETRIES), pc: 0, op: Op::start(ex_op_of(kind, 0)) }
    }

    /// Takes the answer to the pending action.
    pub fn step(&mut self, ev: Event) -> (r: OpStep)
        requires
            old(self).wf(),
        ensures
            (*final(self), r) == ex_transition(*old(self), ev),
            r is Io ==> final(self).wf(),
    {
        match self.op.step(ev) {
            OpStep::Io(a) => OpStep::Io(a),
            OpStep::Done(r) => match after_op_of(self.kind, self.pc, r) {
                AfterOp::Next(pc) => {
                    self.pc = pc;
                    self.op = Op::start(ex_op_of(self.kind, pc));
                    OpStep::Io(Action::ReadStatus)
                },
                AfterOp::End(res) => if !self.retried {
                    OpStep::Done(res)
                } else {
                    match self.retry.on_outcome(res) {
                        RetryStep::Return(v) => OpStep::Done(Ok(v)),
                        RetryStep::GiveUp => OpStep::Done(Err(Error::NoMoreTries)),
                        RetryStep::Again => {
                            self.pc = 0;
                            self.op = Op::start(ex_op_of(self.kind, 0));
                            OpStep::Io(Action::ReadStatus)
                        },
                    }
                },
            },
        }
    }
}

/// An upper bound of [`op_measure`].
pub open spec fn op_measure_bound() -> nat {
    3 * (WAIT_BUDGET as nat) + 3
}

/// Weight of one op position of an attempt.
pub open spec fn pc_weight() -> nat {
    op_measure_bound() + 1
}

/// Weight of one attempt of an exchange.
pub open spec fn attempt_weight() -> nat {
    6 * pc_weight()
}

/// An upper bound of [`ex_measure`].
pub open spec fn ex_measure_bound() -> nat {
    (RETRIES as nat) * attempt_weight() + 5 * pc_weight() + op_measure_bound()
}

/// How far an op is from its end.
pub open spec fn op_measure(op: Op) -> nat {
    if op.kind == OpKind::Flush {
        match op.phase {
            OpPhase::Polling => 3 * (op.flush_left as nat) + 2,
            OpPhase::Accessing => 3 * (op.flush_left as nat) + 1,
            OpPhase::Pausing => 3 * (op.flush_left as nat),
        }
    } else {
        match op.phase {
            OpPhase::Polling => 3 * (op.waiter.remaining as nat) + 2,
            OpPhase::Pausing => 3 * (op.waiter.remaining as nat) + 3,
            OpPhase::Accessing => 1,
        }
    }
}

/// How far an exchange is from its end.
pub open spec fn ex_measure(ex: Exchange) -> nat {
    ((RETRIES - ex.retry.attempts) as nat) * attempt_weight() + ((last_pc(ex.kind) - ex.pc) as nat)
        * pc_weight() + op_measure(ex.op)
}

proof fn lemma_op_bounded(op: Op)
    requires
        op.waiter.remaining <= WAIT_BUDGET,
        op.flush_left <= FLUSH_BUDGET,
    ensures
        op_measure(op) <= op_measure_bound(),
{
}

/// An op that takes the answer to its pending action either ends or comes
/// closer to its end.
pub proof fn lemma_op_progress(op: Op, ev: Event)
    requires
        op.waiter.remaining <= WAIT_BUDGET,
        op.flush_left <= FLUSH_BUDGET,
        answers(op_pending(op), ev),
    ensures
        op_measure(op) <= op_measure_bound(),
        op_transition(op, ev).1 is Io ==> op_measure(op_transition(op, ev).0) < op_measure(op),
{
}

/// In a running exchange, an access whose wait sees its last allowed status
/// reading not ready fails with `ReadTimeout` for a read and `WriteTimeout`
/// for a write.
pub proof fn lemma_op_timeout(ex: Exchange, status: u8)
    requires
        ex.wf(),
        ex.op.kind != OpKind::Flush,
        ex.op.phase == OpPhase::Polling,
        ex.op.waiter.remaining <= 1,
        !is_ready(want_of(ex.op.kind), status),
    ensures
        ex.op.kind == OpKind::Read ==> op_transition(ex.op, Event::Status(status)).1
            == OpStep::Done(Err(Error::ReadTimeout)),
        ex.op.kind != OpKind::Read ==> op_transition(ex.op, Event::Status(status)).1
            == OpStep::Done(Err(Error::WriteTimeout)),
{
}

/// When an attempt of a retried exchange ends with `res`, the exchange takes
/// exactly one [`retry_step`], the step that [`retry_run`] folds: it returns a
/// success, starts the next attempt from its first op, or gives up with
/// `NoMoreTries` after the last attempt.
pub proof fn lemma_attempt_end(ex: Exchange, ev: Event, res: Result<u8, Error>)
    requires
        ex.wf(),
        ex.retried,
        op_transition(ex.op, ev).1 matches OpStep::Done(r) && after_op(ex.kind, ex.pc, r)
            == AfterOp::End(res),
    ensures
        ({
            let (rs, made) = retry_step(ex.retry.attempts, RETRIES, res);
            let (ex2, st) = ex_transition(ex, ev);
            &&& ex2.retry.attempts == made
            &&& rs matches RetryStep::Return(v) ==> st == OpStep::Done(Ok(v))
            &&& rs == RetryStep::GiveUp ==> st == OpStep::Done(Err(Error::NoMoreTries))
            &&& rs == RetryStep::Again ==> st == OpStep::Io(Action::ReadStatus) && ex2.pc == 0
                && ex2.op == new_op(ex_op(ex.kind, 0)) && ex2.wf()
        }),
{
}

/// A running exchange that takes an event and keeps running stays well formed.
pub proof fn lemma_ex_wf(ex: Exchange, ev: Event)
    requires
        ex.wf(),
    ensures
        ex_transition(ex, ev).1 is Io ==> ex_transition(ex, ev).0.wf(),
{
}

/// A running exchange's measure stays under its fixed bound.
pub proof fn lemma_ex_bounded(ex: Exchange)
    requires
        ex.wf(),
    ensures
        ex_measure(ex) <= ex_measure_bound(),
{
    lemma_op_bounded(ex.op);
    assert(last_pc(ex.kind) <= 5);
    assert(pc_weight() == 3_000_004);
    assert(attempt_weight() == 18_000_024);
}

/// An exchange that takes the answer to its pending action either ends or
/// comes closer to its end.
pub proof fn lemma_ex_progress(ex: Exchange, ev: Event)
    requires
        ex.wf(),
        answers(op_pending(ex.op), ev),
    ensures
        ex_measure(ex) <= ex_measure_bound(),
        ex_transition(ex, ev).1 is Io ==> ex_measure(ex_transition(ex, ev).0) < ex_measure(ex),
{
    lemma_op_progress(ex.op, ev);
    let (op, st) = op_transition(ex.op, ev);
    assert(last_pc(ex.kind) <= 5);
    assert(pc_weight() == 3_000_004);
    assert(attempt_weight() == 18_000_024);
    if let OpStep::Done(r) = st {
        match after_op(ex.kind, ex.pc, r) {
            AfterOp::Next(pc) => {
                assert(pc <= last_pc(ex.kind) && pc > ex.pc);
                lemma_op_bounded(new_op(ex_op(ex.kind, pc)));
            },
            AfterOp::End(_) => {
                lemma_op_bounded(new_op(ex_op(ex.kind, 0)));
            },
        }
    }
}

} // verus!
