use vstd::prelude::*;

verus! {

/// Failure kinds of the hardware channel.
#[derive(Clone, Copy, Debug, PartialEq, Eq, Structural)]
pub enum ChannelError {
    /// The I/O space could not be opened.
    AccessDenied,
    /// A seek, read, write or close on the I/O space failed.
    IoFailure,
    /// A read returned no byte.
    UnexpectedEnd,
    /// A handshake wait exceeded its bound.
    Timeout,
}

/// What a single-byte read reports, given whether the seek to the address
/// succeeded, the count that the read returned, and the byte it filled in.
pub open spec fn read_outcome_spec(sought: bool, count: isize, byte: u8) -> Result<u8, ChannelError> {
    if !sought || count < 0 {
        Err(ChannelError::IoFailure)
    } else if count == 0 {
        Err(ChannelError::UnexpectedEnd)
    } else {
        Ok(byte)
    }
}

/// Classifies the result of a single-byte read.
pub fn read_outcome(sought: bool, count: isize, byte: u8) -> (r: Result<u8, ChannelError>)
    ensures
        r == read_outcome_spec(sought, count, byte),
{
    if !sought || count < 0 {
        Err(ChannelError::IoFailure)
    } else if count == 0 {
        Err(ChannelError::UnexpectedEnd)
    } else {
        Ok(byte)
    }
}

/// What a single-byte write reports, given whether the seek to the address
/// succeeded and the count that the write returned.
pub open spec fn write_outcome_spec(sought: bool, count: isize) -> Result<(), ChannelError> {
    if !sought || count < 0 {
        Err(ChannelError::IoFailure)
    } else {
        Ok(())
    }
}

/// Classifies the result of a single-byte write.
pub fn write_outcome(sought: bool, count: isize) -> (r: Result<(), ChannelError>)
    ensures
        r == write_outcome_spec(sought, count),
{
    if !sought || count < 0 {
        Err(ChannelError::IoFailure)
    } else {
        Ok(())
    }
}

/// Classifies the value that releasing the I/O space returned.
pub fn close_outcome(ret: i32) -> (r: Result<(), ChannelError>)
    ensures
        r == (if ret == 0 { Ok(()) } else { Err(ChannelError::IoFailure) }),
{
    if ret == 0 {
        Ok(())
    } else {
        Err(ChannelError::IoFailure)
    }
}

/// Address of the embedded controller's status (read) and command (write) register.
pub const EC_COMMAND: u8 = 0x66;

/// Address of the embedded controller's data register.
pub const EC_DATA: u8 = 0x62;

/// Opcode that starts a register write.
pub const EC_WRITE_OPCODE: u8 = 0x81;

/// Opcode that starts a register read.
pub const EC_READ_OPCODE: u8 = 0x80;

/// Status bit: the controller's input buffer still holds a byte.
pub const STATUS_INPUT_FULL: u8 = 0x02;

/// Status bit: the controller's output buffer holds a byte for us.
pub const STATUS_OUTPUT_FULL: u8 = 0x01;

/// Pauses allowed in one wait before it times out (each pause is 10 ms).
pub const MAX_POLLS: u32 = 10000;

/// Length of one pause between status polls, in milliseconds.
pub const POLL_PAUSE_MS: u64 = 10;

/// A register transaction with the embedded controller.
#[derive(Clone, Copy, Debug, PartialEq, Eq, Structural)]
pub enum EcRequest {
    Write { register: u8, value: u8 },
    Read { register: u8 },
}

/// One step of a handshake.
#[derive(Clone, Copy, Debug, PartialEq, Eq, Structural)]
pub enum EcStep {
    /// Poll the status until the input buffer is empty.
    WaitInputEmpty,
    /// Poll the status until the output buffer is full.
    WaitOutputFull,
    /// Write a byte to an address.
    Put { address: u8, value: u8 },
    /// Read the byte at an address.
    Get { address: u8 },
}

/// How a finished transaction ended.
#[derive(Clone, Copy, Debug, PartialEq, Eq, Structural)]
pub enum EcResult {
    Written,
    Value(u8),
    Failed(ChannelError),
}

/// What the driver of a handshake must do next.
#[derive(Clone, Copy, Debug, PartialEq, Eq, Structural)]
pub enum EcAction {
    /// Read one byte at `address` and report it.
    ReadByte { address: u8 },
    /// Write `value` at `address` and report it.
    WriteByte { address: u8, value: u8 },
    /// Pause for `POLL_PAUSE_MS` and report it.
    Pause,
    /// The transaction is over.
    Finished(EcResult),
}

/// What the driver reports after doing an action.
#[derive(Clone, Copy, Debug, PartialEq, Eq, Structural)]
pub enum EcEvent {
    ByteRead(u8),
    ByteWritten,
    Paused,
    Failed(ChannelError),
}

/// Number of steps of every handshake.
pub const EC_STEPS: u8 = 6;

/// The steps of a handshake, in order.
pub open spec fn plan_step(req: EcRequest, stage: int) -> EcStep {
    match req {
        EcRequest::Write { register, value } => {
            if stage == 1 {
                EcStep::Put { address: EC_COMMAND, value: EC_WRITE_OPCODE }
            } else if stage == 3 {
                EcStep::Put { address: EC_DATA, value: register }
            } else if stage == 5 {
                EcStep::Put { address: EC_DATA, value: value }
            } else {
                EcStep::WaitInputEmpty
            }
        },
        EcRequest::Read { register } => {
            if stage == 1 {
                EcStep::Put { address: EC_COMMAND, value: EC_READ_OPCODE }
            } else if stage == 3 {
                EcStep::Put { address: EC_DATA, value: register }
            } else if stage == 4 {
                EcStep::WaitOutputFull
            } else if stage == 5 {
                EcStep::Get { address: EC_DATA }
            } else {
                EcStep::WaitInputEmpty
            }
        },
    }
}

/// Whether a status byte keeps a wait step polling.
pub open spec fn still_waiting(step: EcStep, status: u8) -> bool {
    match step {
        EcStep::WaitInputEmpty => status & STATUS_INPUT_FULL != 0,
        EcStep::WaitOutputFull => status & STATUS_OUTPUT_FULL == 0,
        _ => false,
    }
}

/// The action that starts a step; past the last step the write is done.
pub open spec fn entry_action(req: EcRequest, stage: int) -> EcAction {
    if stage >= EC_STEPS {
        EcAction::Finished(EcResult::Written)
    } else {
        match plan_step(req, stage) {
            EcStep::Put { address, value } => EcAction::WriteByte { address, value },
            EcStep::Get { address } => EcAction::ReadByte { address },
            _ => EcAction::ReadByte { address: EC_COMMAND },
        }
    }
}

/// Progress of one handshake.
#[derive(Clone, Copy, Debug, PartialEq, Eq, Structural)]
pub struct Handshake {
    pub request: EcRequest,
    /// Index of the step in progress.
    pub stage: u8,
    /// Pauses taken so far in the wait in progress.
    pub polls: u32,
    /// The action handed out and not yet answered.
    pub pending: EcAction,
}

impl Handshake {
    pub open spec fn wf(self) -> bool {
        self.stage <= EC_STEPS && self.polls <= MAX_POLLS
    }

    /// A handshake that enters `stage` with a fresh poll count.
    pub open spec fn entered(req: EcRequest, stage: int) -> Handshake {
        Handshake {
            request: req,
            stage: stage as u8,
            polls: 0,
            pending: entry_action(req, stage),
        }
    }

    pub open spec fn finish(self, r: EcResult) -> Handshake {
        Handshake { pending: EcAction::Finished(r), ..self }
    }

    /// The state after the driver reports `e`. A finished handshake ignores
    /// events; an event that does not answer the pending action fails it.
    pub open spec fn next(self, e: EcEvent) -> Handshake {
        let step = plan_step(self.request, self.stage as int);
        match self.pending {
            EcAction::Finished(_) => self,
            _ => match e {
                EcEvent::Failed(err) => self.finish(EcResult::Failed(err)),
                EcEvent::Paused => if self.pending == EcAction::Pause {
                    Handshake { pending: EcAction::ReadByte { address: EC_COMMAND }, ..self }
                } else {
                    self.finish(EcResult::Failed(ChannelError::IoFailure))
                },
                EcEvent::ByteWritten => if self.pending is WriteByte {
                    Handshake::entered(self.request, self.stage + 1)
                } else {
                    self.finish(EcResult::Failed(ChannelError::IoFailure))
                },
                EcEvent::ByteRead(b) => if !(self.pending is ReadByte) {
                    self.finish(EcResult::Failed(ChannelError::IoFailure))
                } else if step is Get {
                    self.finish(EcResult::Value(b))
                } else if still_waiting(step, b) && self.polls < MAX_POLLS {
                    Handshake { polls: (self.polls + 1) as u32, pending: EcAction::Pause, ..self }
                } else if self.polls < MAX_POLLS {
                    Handshake::entered(self.request, self.stage + 1)
                } else {
                    self.finish(EcResult::Failed(ChannelError::Timeout))
                },
            },
        }
    }
}

impl Handshake {
    pub open spec fn inv(self) -> bool {
        &&& self.wf()
        &&& !(self.pending is Finished) ==> self.stage < EC_STEPS
    }

    /// The steps of a handshake, in order.
    fn step_at(req: EcRequest, stage: u8) -> (r: EcStep)
        ensures
            r == plan_step(req, stage as int),
    {
        match req {
            EcRequest::Write { register, value } => {
                if stage == 1 {
                    EcStep::Put { address: EC_COMMAND, value: EC_WRITE_OPCODE }
                } else if stage == 3 {
                    EcStep::Put { address: EC_DATA, value: register }
                } else if stage == 5 {
                    EcStep::Put { address: EC_DATA, value: value }
                } else {
                    EcStep::WaitInputEmpty
                }
            },
            EcRequest::Read { register } => {
                if stage == 1 {
                    EcStep::Put { address: EC_COMMAND, value: EC_READ_OPCODE }
                } else if stage == 3 {
                    EcStep::Put { address: EC_DATA, value: register }
                } else if stage == 4 {
                    EcStep::WaitOutputFull
                } else if stage == 5 {
                    EcStep::Get { address: EC_DATA }
                } else {
                    EcStep::WaitInputEmpty
                }
            },
        }
    }

    /// A handshake that enters `stage` with a fresh poll count.
    fn enter(req: EcRequest, stage: u8) -> (r: Handshake)
        requires
            stage <= EC_STEPS,
        ensures
            r == Handshake::entered(req, stage as int),
            r.inv(),
    {
        let pending = if stage >= EC_STEPS {
            EcAction::Finished(EcResult::Written)
        } else {
            match Self::step_at(req, stage) {
                EcStep::Put { address, value } => EcAction::WriteByte { address, value },
                EcStep::Get { address } => EcAction::ReadByte { address },
                _ => EcAction::ReadByte { address: EC_COMMAND },
            }
        };
        Handshake { request: req, stage, polls: 0, pending }
    }
}

/// The hardware channel: owns the handle of the byte-addressed I/O space and
/// runs register handshakes with the embedded controller. The channel does
/// no I/O itself: each handshake hands out one action at a time and is told
/// what came of it.
#[derive(Debug)]
pub struct PortCommunicator {
    /// Handle of the I/O space.
    pub file: i32,
    /// Whether the handle has not been released yet.
    pub open: bool,
    /// The handshake in progress, or the last one.
    pub handshake: Handshake,
}

/// The state after releasing a channel, and the handle the caller must close
/// (none when it was released before).
pub open spec fn released(c: PortCommunicator) -> (PortCommunicator, Option<i32>) {
    (
        PortCommunicator { open: false, ..c },
        if c.open { Some(c.file) } else { None },
    )
}

impl PortCommunicator {
    pub open spec fn wf(&self) -> bool {
        self.handshake.inv()
    }

    /// Takes ownership of the handle that opening the I/O space returned;
    /// a negative handle means it could not be opened.
    pub fn new(file: i32) -> (r: Result<PortCommunicator, ChannelError>)
        ensures
            file < 0 ==> r == Err::<PortCommunicator, ChannelError>(ChannelError::AccessDenied),
            file >= 0 ==> (r matches Ok(c) && c.file == file && c.open && c.wf()
                && c.handshake.pending == EcAction::Finished(EcResult::Written)),
    {
        if file < 0 {
            return Err(ChannelError::AccessDenied);
        }
        let handshake = Handshake::enter(EcRequest::Write { register: 0, value: 0 }, EC_STEPS);
        Ok(PortCommunicator { file, open: true, handshake })
    }

    /// Whether a status byte keeps a wait for the input buffer polling.
    fn wait_write_ec(status: u8) -> (r: bool)
        ensures
            r == still_waiting(EcStep::WaitInputEmpty, status),
    {
        status & STATUS_INPUT_FULL != 0
    }

    /// Whether a status byte keeps a wait for the output buffer polling.
    fn wait_read_ec(status: u8) -> (r: bool)
        ensures
            r == still_waiting(EcStep::WaitOutputFull, status),
    {
        status & STATUS_OUTPUT_FULL == 0
    }

    /// Starts writing `value` into the controller's register `port`, and
    /// returns the first action of the handshake.
    pub fn write_ec(&mut self, port: u8, value: u8) -> (r: EcAction)
        ensures
            final(self).handshake == Handshake::entered(
                EcRequest::Write { register: port, value: value },
                0,
            ),
            r == final(self).handshake.pending,
            r == (EcAction::ReadByte { address: EC_COMMAND }),
            final(self).file == old(self).file,
            final(self).open == old(self).open,
            final(self).wf(),
    {
        self.handshake = Handshake::enter(EcRequest::Write { register: port, value }, 0);
        self.handshake.pending
    }

    /// Starts reading the controller's register `port`, and returns the
    /// first action of the handshake.
    pub fn read_ec(&mut self, port: u8) -> (r: EcAction)
        ensures
            final(self).handshake == Handshake::entered(EcRequest::Read { register: port }, 0),
            r == final(self).handshake.pending,
            r == (EcAction::ReadByte { address: EC_COMMAND }),
            final(self).file == old(self).file,
            final(self).open == old(self).open,
            final(self).wf(),
    {
        self.handshake = Handshake::enter(EcRequest::Read { register: port }, 0);
        self.handshake.pending
    }

    /// Reports what came of the pending action, and returns the next one.
    pub fn advance(&mut self, event: EcEvent) -> (r: EcAction)
        requires
            old(self).wf(),
        ensures
            final(self).handshake == old(self).handshake.next(event),
            r == final(self).handshake.pending,
            final(self).file == old(self).file,
            final(self).open == old(self).open,
            final(self).wf(),
    {
        let h = self.handshake;
        if let EcAction::Finished(_) = h.pending {
            return h.pending;
        }
        let next = match event {
            EcEvent::Failed(err) => Handshake { pending: EcAction::Finished(EcResult::Failed(err)), ..h },
            EcEvent::Paused => {
                if let EcAction::Pause = h.pending {
                    Handshake { pending: EcAction::ReadByte { address: EC_COMMAND }, ..h }
                } else {
                    Handshake { pending: EcAction::Finished(EcResult::Failed(ChannelError::IoFailure)), ..h }
                }
            },
            EcEvent::ByteWritten => {
                if let EcAction::WriteByte { .. } = h.pending {
                    Handshake::enter(h.request, h.stage + 1)
                } else {
                    Handshake { pending: EcAction::Finished(EcResult::Failed(ChannelError::IoFailure)), ..h }
                }
            },
            EcEvent::ByteRead(b) => {
                let step = Handshake::step_at(h.request, h.stage);
                let waiting = match step {
                    EcStep::WaitInputEmpty => Self::wait_write_ec(b),
                    EcStep::WaitOutputFull => Self::wait_read_ec(b),
                    _ => false,
                };
                if let EcAction::ReadByte { .. } = h.pending {
                    if let EcStep::Get { .. } = step {
                        Handshake { pending: EcAction::Finished(EcResult::Value(b)), ..h }
                    } else if waiting && h.polls < MAX_POLLS {
                        Handshake { polls: h.polls + 1, pending: EcAction::Pause, ..h }
                    } else if h.polls < MAX_POLLS {
                        Handshake::enter(h.request, h.stage + 1)
                    } else {
                        Handshake { pending: EcAction::Finished(EcResult::Failed(ChannelError::Timeout)), ..h }
                    }
                } else {
                    Handshake { pending: EcAction::Finished(EcResult::Failed(ChannelError::IoFailure)), ..h }
                }
            },
        };
        self.handshake = next;
        next.pending
    }

    /// Gives up ownership of the handle: returns it the first time, so that
    /// the caller closes it exactly once, and nothing afterwards.
    pub fn release(&mut self) -> (r: Option<i32>)
        ensures
            (*final(self), r) == released(*old(self)),
    {
        if self.open {
            self.open = false;
            Some(self.file)
        } else {
            None
        }
    }
}

/// How a controller that always shows the status byte `status` answers an
/// action.
pub open spec fn stuck_reply(a: EcAction, status: u8) -> EcEvent {
    match a {
        EcAction::ReadByte { .. } => EcEvent::ByteRead(status),
        EcAction::WriteByte { .. } => EcEvent::ByteWritten,
        _ => EcEvent::Paused,
    }
}

/// The handshake `h` after `n` answers of a controller whose status byte
/// never changes.
pub open spec fn run_stuck(h: Handshake, status: u8, n: nat) -> Handshake
    decreases n,
{
    if n == 0 {
        h
    } else {
        let p = run_stuck(h, status, (n - 1) as nat);
        p.next(stuck_reply(p.pending, status))
    }
}

/// Whether an action writes to the data address.
pub open spec fn writes_data(a: EcAction) -> bool {
    a matches EcAction::WriteByte { address, .. } && address == EC_DATA
}

proof fn lemma_stuck_prefix(h0: Handshake, status: u8, k: nat)
    requires
        h0.request is Write,
        h0.stage == 0,
        h0.polls == 0,
        h0.pending == (EcAction::ReadByte { address: EC_COMMAND }),
        status & STATUS_INPUT_FULL != 0,
        k <= MAX_POLLS,
    ensures
        run_stuck(h0, status, 2 * k) == (Handshake { polls: k as u32, ..h0 }),
        k < MAX_POLLS ==> run_stuck(h0, status, 2 * k + 1) == (Handshake {
            polls: (k + 1) as u32,
            pending: EcAction::Pause,
            ..h0
        }),
    decreases k,
{
    if k > 0 {
        lemma_stuck_prefix(h0, status, (k - 1) as nat);
        assert(run_stuck(h0, status, (2 * k - 1) as nat) == run_stuck(h0, status, (2 * (k - 1) + 1) as nat));
    }
}

/// A write handshake against a controller whose input buffer never empties
/// ends in a timeout after `MAX_POLLS` pauses, and never writes to the data
/// address on the way.
pub proof fn lemma_write_times_out(port: u8, value: u8, status: u8)
    requires
        status & STATUS_INPUT_FULL != 0,
    ensures
        run_stuck(
            Handshake::entered(EcRequest::Write { register: port, value: value }, 0),
            status,
            (2 * MAX_POLLS + 1) as nat,
        ).pending == EcAction::Finished(EcResult::Failed(ChannelError::Timeout)),
        forall|n: nat|
            n <= 2 * MAX_POLLS + 1 ==> !writes_data(
                #[trigger] run_stuck(
                    Handshake::entered(EcRequest::Write { register: port, value: value }, 0),
                    status,
                    n,
                ).pending,
            ),
{
    let h0 = Handshake::entered(EcRequest::Write { register: port, value: value }, 0);
    lemma_stuck_prefix(h0, status, MAX_POLLS as nat);
    assert forall|n: nat| n <= 2 * MAX_POLLS + 1 implies !writes_data(
        #[trigger] run_stuck(h0, status, n).pending,
    ) by {
        if n == 2 * MAX_POLLS + 1 {
        } else if n % 2 == 0 {
            lemma_stuck_prefix(h0, status, n / 2);
            assert(2 * (n / 2) == n);
        } else {
            lemma_stuck_prefix(h0, status, (n / 2) as nat);
            assert(2 * (n / 2) + 1 == n);
        }
    }
}

/// Releasing a channel hands its handle out once: the first release of an
/// open channel returns the handle, a second returns nothing.
pub proof fn lemma_release_once(c: PortCommunicator)
    requires
        c.open,
    ensures
        released(c).1 == Some(c.file),
        released(released(c).0).1 == None::<i32>,
        !released(released(c).0).0.open,
{
}

} // verus!
