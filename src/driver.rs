//! The driver: one owner of the controller, seven entry points over three
//! execution strategies, and the per-transaction state machine
//! `Idle -> Programming -> Transferring -> Idle`.
//!
//! The driver decides; whoever owns the registers acts. An entry point
//! validates the descriptor and, when it is admissible, hands back the
//! register values to program. The caller reports the controller's status
//! flags after programming and learns whether to keep waiting, or how the
//! transaction ended.
use crate::config::{device_bytes, memory_size_valid, Config, OspiWidth, TransferConfig};
use crate::encode::{encode, encoded, CommandRegisters};
use crate::error::{Fault, OspiError};
use crate::validate::{admissible, phases_consistent, validate, Geometry, MAX_TRANSFER_LEN};
use vstd::prelude::*;

verus! {

/// What a transaction does with its data phase.
#[derive(Clone, Copy, Debug, PartialEq, Eq, Structural)]
pub enum Operation {
    /// Instruction and address phases only.
    Command,
    /// Data moves from the device to the caller.
    Read,
    /// Data moves from the caller to the device.
    Write,
}

/// How the data phase is carried out and waited for.
#[derive(Clone, Copy, Debug, PartialEq, Eq, Structural)]
pub enum Strategy {
    /// The CPU moves the data and polls for completion.
    Blocking,
    /// A DMA channel moves the data; the CPU polls for completion.
    BlockingDma,
    /// A DMA channel moves the data; the task sleeps until the completion interrupt.
    Async,
}

/// Where the driver stands in the current transaction.
#[derive(Clone, Copy, Debug, PartialEq, Eq, Structural)]
pub enum Phase {
    /// No transaction in flight.
    Idle,
    /// A transaction was admitted; its registers are being written.
    Programming { op: Operation, strategy: Strategy },
    /// The transaction runs; a blocking wait has `polls_left` polls left.
    Transferring { op: Operation, strategy: Strategy, polls_left: u32 },
}

/// An admitted transaction: what to program and how to carry it out.
#[derive(Clone, Copy, Debug, PartialEq, Eq, Structural)]
pub struct Transfer {
    /// What the data phase does.
    pub op: Operation,
    /// How the data is moved and waited for.
    pub strategy: Strategy,
    /// The register values to write.
    pub regs: CommandRegisters,
}

/// The controller's (and the DMA channel's) status flags, as last read.
#[derive(Clone, Copy, Debug, PartialEq, Eq, Structural)]
pub struct Status {
    /// Transfer complete.
    pub complete: bool,
    /// Transfer error raised by the controller.
    pub transfer_error: bool,
    /// Transfer error raised by the DMA channel.
    pub dma_error: bool,
}

/// What follows a status report.
#[derive(Clone, Copy, Debug, PartialEq, Eq, Structural)]
pub enum Step {
    /// Keep waiting.
    Pending,
    /// The transaction completed.
    Done,
    /// The transaction failed; the caller must abort the controller and the
    /// DMA channel before reusing them.
    Failed(Fault),
}

impl Step {
    /// The transaction's result once it has ended, `None` while it runs.
    pub fn result(self) -> (r: Option<Result<(), OspiError>>)
        ensures
            r == step_result(self),
    {
        match self {
            Step::Pending => None,
            Step::Done => Some(Ok(())),
            Step::Failed(f) => Some(Err(OspiError::Fault(f))),
        }
    }
}

/// The transaction's result once it has ended, `None` while it runs.
pub open spec fn step_result(s: Step) -> Option<Result<(), OspiError>> {
    match s {
        Step::Pending => None,
        Step::Done => Some(Ok(())),
        Step::Failed(f) => Some(Err(OspiError::Fault(f))),
    }
}

/// The data length of an operation is of its kind: none for a command, at
/// least one byte for a read or a write.
pub open spec fn length_fits_op(op: Operation, data_len: nat) -> bool {
    if op is Command {
        data_len == 0
    } else {
        data_len > 0
    }
}

/// The outcome of an entry point: rejection, or the transfer to program.
/// It depends on the geometry, the operation, the descriptor and the length;
/// the strategy only travels along.
pub open spec fn start_result(
    g: Geometry,
    op: Operation,
    strategy: Strategy,
    cfg: TransferConfig,
    data_len: nat,
) -> Result<Transfer, OspiError> {
    if length_fits_op(op, data_len) && admissible(g, cfg, data_len) {
        Ok(Transfer { op, strategy, regs: encoded(cfg, data_len) })
    } else {
        Err(OspiError::InvalidCommand)
    }
}

/// What a status report means: an error flag ends the transaction as a fault,
/// the completion flag ends it well; otherwise a polled wait that has used its
/// last poll times out, and anything else keeps waiting.
pub open spec fn status_step(status: Status, polled: bool, polls_left: nat) -> Step {
    if status.transfer_error {
        Step::Failed(Fault::TransferError)
    } else if status.dma_error {
        Step::Failed(Fault::DmaError)
    } else if status.complete {
        Step::Done
    } else if polled && polls_left == 0 {
        Step::Failed(Fault::Timeout)
    } else {
        Step::Pending
    }
}

/// The strategies that wait by polling.
pub open spec fn is_polled(strategy: Strategy) -> bool {
    strategy !is Async
}

/// Driver for one Octo/Quad-SPI controller with a device of fixed geometry.
pub struct Ospi {
    geometry: Geometry,
    poll_limit: u32,
    phase: Phase,
}

impl Ospi {
    /// The geometry fixed at creation.
    pub closed spec fn spec_geometry(&self) -> Geometry {
        self.geometry
    }

    /// The poll bound of blocking waits, fixed at creation.
    pub closed spec fn spec_poll_limit(&self) -> nat {
        self.poll_limit as nat
    }

    /// The current phase.
    pub closed spec fn spec_phase(&self) -> Phase {
        self.phase
    }

    /// The same driver in another phase.
    pub closed spec fn with_phase(self, p: Phase) -> Ospi {
        Ospi { phase: p, ..self }
    }

    /// Well-formedness: a valid geometry, and a blocking wait never has more
    /// polls left than the bound.
    pub open spec fn wf(&self) -> bool {
        &&& self.spec_geometry().valid()
        &&& self.spec_geometry().bus_width != OspiWidth::NONE
        &&& (self.spec_phase() matches Phase::Transferring { polls_left, .. } ==> polls_left
            <= self.spec_poll_limit())
    }

    /// The driver after an entry point: programming the transfer if it was
    /// admitted, untouched if it was rejected.
    pub open spec fn after_start(
        self,
        op: Operation,
        strategy: Strategy,
        cfg: TransferConfig,
        data_len: nat,
    ) -> Ospi {
        match start_result(self.spec_geometry(), op, strategy, cfg, data_len) {
            Ok(_) => self.with_phase(Phase::Programming { op, strategy }),
            Err(_) => self,
        }
    }

    /// The driver after a status report in the transferring phase.
    pub open spec fn after_status(self, status: Status) -> Ospi {
        match self.spec_phase() {
            Phase::Transferring { op, strategy, polls_left } => {
                match status_step(status, is_polled(strategy), polls_left as nat) {
                    Step::Pending => if is_polled(strategy) {
                        self.with_phase(
                            Phase::Transferring { op, strategy, polls_left: (polls_left - 1) as u32 },
                        )
                    } else {
                        self
                    },
                    _ => self.with_phase(Phase::Idle),
                }
            },
            _ => self,
        }
    }

    /// Changing the phase keeps the geometry and the poll bound.
    pub broadcast proof fn lemma_with_phase(self, p: Phase)
        ensures
            #![trigger self.with_phase(p)]
            self.with_phase(p).spec_geometry() == self.spec_geometry(),
            self.with_phase(p).spec_poll_limit() == self.spec_poll_limit(),
            self.with_phase(p).spec_phase() == p,
    {
    }

    /// Creates an idle driver for a device of `config.device_size` on a bus
    /// of `bus_width` lines. Fails with `InvalidConfiguration` when the
    /// device size cannot be expressed by the controller or the bus has no lines.
    pub fn new(config: Config, bus_width: OspiWidth) -> (r: Result<Ospi, OspiError>)
        ensures
            r is Err <==> !memory_size_valid(config.device_size) || bus_width == OspiWidth::NONE,
            r is Err ==> r == Err::<Ospi, OspiError>(OspiError::InvalidConfiguration),
            r matches Ok(d) ==> {
                &&& d.wf()
                &&& d.spec_geometry() == (Geometry { device_size: config.device_size, bus_width })
                &&& d.spec_poll_limit() == config.poll_limit
                &&& d.spec_phase() == Phase::Idle
            },
    {
        if config.device_size.devsize() > crate::config::MAX_DEVSIZE_FIELD || bus_width
            == OspiWidth::NONE {
            return Err(OspiError::InvalidConfiguration);
        }
        Ok(
            Ospi {
                geometry: Geometry { device_size: config.device_size, bus_width },
                poll_limit: config.poll_limit,
                phase: Phase::Idle,
            },
        )
    }

    /// Creates an idle driver on a four-line bus.
    pub fn new_quadspi(config: Config) -> (r: Result<Ospi, OspiError>)
        ensures
            r is Err <==> !memory_size_valid(config.device_size),
            r is Err ==> r == Err::<Ospi, OspiError>(OspiError::InvalidConfiguration),
            r matches Ok(d) ==> {
                &&& d.wf()
                &&& d.spec_geometry() == (Geometry {
                    device_size: config.device_size,
                    bus_width: OspiWidth::QUAD,
                })
                &&& d.spec_poll_limit() == config.poll_limit
                &&& d.spec_phase() == Phase::Idle
            },
    {
        Ospi::new(config, OspiWidth::QUAD)
    }

    /// The geometry fixed at creation.
    pub fn geometry(&self) -> (r: Geometry)
        ensures
            r == self.spec_geometry(),
    {
        self.geometry
    }

    /// The poll bound of blocking waits.
    pub fn poll_limit(&self) -> (r: u32)
        ensures
            r as nat == self.spec_poll_limit(),
    {
        self.poll_limit
    }

    /// The current phase.
    pub fn phase(&self) -> (r: Phase)
        ensures
            r == self.spec_phase(),
    {
        self.phase
    }

    /// Whether no transaction is in flight.
    pub fn is_idle(&self) -> (r: bool)
        ensures
            r == (self.spec_phase() is Idle),
    {
        matches!(self.phase, Phase::Idle)
    }

    /// Validates before anything else; on admission moves to programming and
    /// returns the registers to write.
    fn start(&mut self, op: Operation, strategy: Strategy, cfg: &TransferConfig, data_len: usize) -> (r:
        Result<Transfer, OspiError>)
        requires
            old(self).wf(),
            old(self).spec_phase() is Idle,
        ensures
            r == start_result(old(self).spec_geometry(), op, strategy, *cfg, data_len as nat),
            *final(self) == old(self).after_start(op, strategy, *cfg, data_len as nat),
            final(self).wf(),
    {
        let fits = match op {
            Operation::Command => data_len == 0,
            _ => data_len > 0,
        };
        if !fits {
            return Err(OspiError::InvalidCommand);
        }
        match validate(&self.geometry, cfg, data_len) {
            Err(e) => Err(e),
            Ok(()) => {
                let regs = encode(cfg, data_len);
                self.phase = Phase::Programming { op, strategy };
                Ok(Transfer { op, strategy, regs })
            },
        }
    }

    /// A command without data, waited for by polling.
    pub fn blocking_command(&mut self, cfg: &TransferConfig) -> (r: Result<Transfer, OspiError>)
        requires
            old(self).wf(),
            old(self).spec_phase() is Idle,
        ensures
            r == start_result(
                old(self).spec_geometry(),
                Operation::Command,
                Strategy::Blocking,
                *cfg,
                0,
            ),
            *final(self) == old(self).after_start(Operation::Command, Strategy::Blocking, *cfg, 0),
            final(self).wf(),
    {
        self.start(Operation::Command, Strategy::Blocking, cfg, 0)
    }

    /// A read of `len` bytes moved by the CPU, waited for by polling.
    pub fn blocking_read(&mut self, len: usize, cfg: &TransferConfig) -> (r: Result<
        Transfer,
        OspiError,
    >)
        requires
            old(self).wf(),
            old(self).spec_phase() is Idle,
        ensures
            r == start_result(
                old(self).spec_geometry(),
                Operation::Read,
                Strategy::Blocking,
                *cfg,
                len as nat,
            ),
            *final(self) == old(self).after_start(
                Operation::Read,
                Strategy::Blocking,
                *cfg,
                len as nat,
            ),
            final(self).wf(),
    {
        self.start(Operation::Read, Strategy::Blocking, cfg, len)
    }

    /// A write of `len` bytes moved by the CPU, waited for by polling.
    pub fn blocking_write(&mut self, len: usize, cfg: &TransferConfig) -> (r: Result<
        Transfer,
        OspiError,
    >)
        requires
            old(self).wf(),
            old(self).spec_phase() is Idle,
        ensures
            r == start_result(
                old(self).spec_geometry(),
                Operation::Write,
                Strategy::Blocking,
                *cfg,
                len as nat,
            ),
            *final(self) == old(self).after_start(
                Operation::Write,
                Strategy::Blocking,
                *cfg,
                len as nat,
            ),
            final(self).wf(),
    {
        self.start(Operation::Write, Strategy::Blocking, cfg, len)
    }

    /// A read of `len` bytes moved by DMA, waited for by polling.
    pub fn blocking_read_dma(&mut self, len: usize, cfg: &TransferConfig) -> (r: Result<
        Transfer,
        OspiError,
    >)
        requires
            old(self).wf(),
            old(self).spec_phase() is Idle,
        ensures
            r == start_result(
                old(self).spec_geometry(),
                Operation::Read,
                Strategy::BlockingDma,
                *cfg,
                len as nat,
            ),
            *final(self) == old(self).after_start(
                Operation::Read,
                Strategy::BlockingDma,
                *cfg,
                len as nat,
            ),
            final(self).wf(),
    {
        self.start(Operation::Read, Strategy::BlockingDma, cfg, len)
    }

    /// A write of `len` bytes moved by DMA, waited for by polling.
    pub fn blocking_write_dma(&mut self, len: usize, cfg: &TransferConfig) -> (r: Result<
        Transfer,
        OspiError,
    >)
        requires
            old(self).wf(),
            old(self).spec_phase() is Idle,
        ensures
            r == start_result(
                old(self).spec_geometry(),
                Operation::Write,
                Strategy::BlockingDma,
                *cfg,
                len as nat,
            ),
            *final(self) == old(self).after_start(
                Operation::Write,
                Strategy::BlockingDma,
                *cfg,
                len as nat,
            ),
            final(self).wf(),
    {
        self.start(Operation::Write, Strategy::BlockingDma, cfg, len)
    }

    /// A read of `len` bytes moved by DMA; the task waits for the interrupt.
    /// A rejection comes back at once, before any suspension.
    pub fn read(&mut self, len: usize, cfg: &TransferConfig) -> (r: Result<Transfer, OspiError>)
        requires
            old(self).wf(),
            old(self).spec_phase() is Idle,
        ensures
            r == start_result(
                old(self).spec_geometry(),
                Operation::Read,
                Strategy::Async,
                *cfg,
                len as nat,
            ),
            *final(self) == old(self).after_start(
                Operation::Read,
                Strategy::Async,
                *cfg,
                len as nat,
            ),
            final(self).wf(),
    {
        self.start(Operation::Read, Strategy::Async, cfg, len)
    }

    /// A write of `len` bytes moved by DMA; the task waits for the interrupt.
    /// A rejection comes back at once, before any suspension.
    pub fn write(&mut self, len: usize, cfg: &TransferConfig) -> (r: Result<Transfer, OspiError>)
        requires
            old(self).wf(),
            old(self).spec_phase() is Idle,
        ensures
            r == start_result(
                old(self).spec_geometry(),
                Operation::Write,
                Strategy::Async,
                *cfg,
                len as nat,
            ),
            *final(self) == old(self).after_start(
                Operation::Write,
                Strategy::Async,
                *cfg,
                len as nat,
            ),
            final(self).wf(),
    {
        self.start(Operation::Write, Strategy::Async, cfg, len)
    }

    /// The registers are written and the transfer is under way: from here on
    /// status reports are taken. A blocking wait gets its full poll bound.
    pub fn programmed(&mut self)
        requires
            old(self).wf(),
            old(self).spec_phase() is Programming,
        ensures
            final(self).wf(),
            *final(self) == old(self).with_phase(
                Phase::Transferring {
                    op: old(self).spec_phase()->Programming_op,
                    strategy: old(self).spec_phase()->Programming_strategy,
                    polls_left: old(self).spec_poll_limit() as u32,
                },
            ),
    {
        if let Phase::Programming { op, strategy } = self.phase {
            self.phase = Phase::Transferring { op, strategy, polls_left: self.poll_limit };
        }
    }

    fn report(&mut self, status: Status) -> (r: Step)
        requires
            old(self).wf(),
            old(self).spec_phase() is Transferring,
        ensures
            r == status_step(
                status,
                is_polled(old(self).spec_phase()->Transferring_strategy),
                old(self).spec_phase()->Transferring_polls_left as nat,
            ),
            *final(self) == old(self).after_status(status),
            final(self).wf(),
    {
        if let Phase::Transferring { op, strategy, polls_left } = self.phase {
            let polled = match strategy {
                Strategy::Async => false,
                _ => true,
            };
            let step = if status.transfer_error {
                Step::Failed(Fault::TransferError)
            } else if status.dma_error {
                Step::Failed(Fault::DmaError)
            } else if status.complete {
                Step::Done
            } else if polled && polls_left == 0 {
                Step::Failed(Fault::Timeout)
            } else {
                Step::Pending
            };
            match step {
                Step::Pending => {
                    if polled {
                        self.phase = Phase::Transferring { op, strategy, polls_left: polls_left - 1 };
                    }
                },
                _ => {
                    self.phase = Phase::Idle;
                },
            }
            step
        } else {
            Step::Pending
        }
    }

    /// One poll of a blocking wait: `status` is the flags as read now.
    pub fn poll(&mut self, status: Status) -> (r: Step)
        requires
            old(self).wf(),
            old(self).spec_phase() matches Phase::Transferring { strategy, .. } && strategy
                !is Async,
        ensures
            r == status_step(status, true, old(self).spec_phase()->Transferring_polls_left as nat),
            *final(self) == old(self).after_status(status),
            final(self).wf(),
    {
        self.report(status)
    }

    /// The completion interrupt of an asynchronous transfer fired (or the task
    /// was woken): `status` is the flags as read now. An asynchronous wait
    /// has no poll bound.
    pub fn on_interrupt(&mut self, status: Status) -> (r: Step)
        requires
            old(self).wf(),
            old(self).spec_phase() matches Phase::Transferring { strategy, .. } && strategy is Async,
        ensures
            r == status_step(status, false, old(self).spec_phase()->Transferring_polls_left as nat),
            *final(self) == old(self).after_status(status),
            final(self).wf(),
    {
        self.report(status)
    }

    /// Abandons the transaction in flight, if any. Returns whether one was in
    /// flight: then the caller must stop the controller and the DMA channel
    /// before reusing them.
    pub fn cancel(&mut self) -> (r: bool)
        requires
            old(self).wf(),
        ensures
            r == !(old(self).spec_phase() is Idle),
            *final(self) == old(self).with_phase(Phase::Idle),
            final(self).wf(),
    {
        let active = !matches!(self.phase, Phase::Idle);
        self.phase = Phase::Idle;
        active
    }
}

/// A transaction whose phases are consistent, whose address lies on the
/// device with its data after it, and whose length is within the transfer
/// maximum and of its operation's kind, is admitted by every entry point of
/// every strategy; a completion flag then ends it well.
pub proof fn lemma_admissible_transfer_succeeds(
    g: Geometry,
    op: Operation,
    strategy: Strategy,
    cfg: TransferConfig,
    data_len: nat,
    polls_left: nat,
)
    requires
        g.valid(),
        phases_consistent(g, cfg),
        cfg.address matches Some(a) ==> (a as nat) < device_bytes(g.device_size) && a + data_len
            <= device_bytes(g.device_size),
        data_len <= MAX_TRANSFER_LEN,
        length_fits_op(op, data_len),
    ensures
        start_result(g, op, strategy, cfg, data_len) == Ok::<Transfer, OspiError>(
            Transfer { op, strategy, regs: encoded(cfg, data_len) },
        ),
        status_step(
            Status { complete: true, transfer_error: false, dma_error: false },
            is_polled(strategy),
            polls_left,
        ) == Step::Done,
{
}

/// A descriptor whose address is at or past the end of the device is
/// rejected by every entry point of every strategy, whatever the length, and
/// leaves the driver as it was.
pub proof fn lemma_address_out_of_range_rejected(
    d: Ospi,
    op: Operation,
    strategy: Strategy,
    cfg: TransferConfig,
    data_len: nat,
)
    requires
        d.wf(),
        cfg.address matches Some(a) && (a as nat) >= device_bytes(d.spec_geometry().device_size),
    ensures
        start_result(d.spec_geometry(), op, strategy, cfg, data_len) == Err::<Transfer, OspiError>(
            OspiError::InvalidCommand,
        ),
        d.after_start(op, strategy, cfg, data_len) == d,
{
}

/// A read or a write whose data runs past the end of the device, or past the
/// transfer maximum, is rejected by every strategy and leaves the driver as
/// it was.
pub proof fn lemma_length_out_of_range_rejected(
    d: Ospi,
    op: Operation,
    strategy: Strategy,
    cfg: TransferConfig,
    data_len: nat,
)
    requires
        d.wf(),
        op !is Command,
        cfg.address matches Some(a) && a + data_len > device_bytes(d.spec_geometry().device_size)
            || data_len > MAX_TRANSFER_LEN,
    ensures
        start_result(d.spec_geometry(), op, strategy, cfg, data_len) == Err::<Transfer, OspiError>(
            OspiError::InvalidCommand,
        ),
        d.after_start(op, strategy, cfg, data_len) == d,
{
}

/// The strategy never changes the outcome: for the same geometry, operation,
/// descriptor and length, two strategies are both admitted with the same
/// registers, or both rejected with the same error.
pub proof fn lemma_strategy_equivalence(
    g: Geometry,
    op: Operation,
    s1: Strategy,
    s2: Strategy,
    cfg: TransferConfig,
    data_len: nat,
)
    ensures
        start_result(g, op, s1, cfg, data_len) is Ok <==> start_result(g, op, s2, cfg, data_len) is Ok,
        start_result(g, op, s1, cfg, data_len) is Err ==> start_result(g, op, s1, cfg, data_len)
            == start_result(g, op, s2, cfg, data_len),
        start_result(g, op, s1, cfg, data_len) matches Ok(t1) ==> start_result(
            g,
            op,
            s2,
            cfg,
            data_len,
        ) matches Ok(t2) && t1.regs == t2.regs && t1.op == t2.op,
{
}

/// A rejected call leaves no trace: any call after it has the outcome and
/// leaves the driver in the state it would have had without the rejected call.
pub proof fn lemma_rejection_leaves_no_trace(
    d: Ospi,
    bad_op: Operation,
    bad_strategy: Strategy,
    bad_cfg: TransferConfig,
    bad_len: nat,
    op: Operation,
    strategy: Strategy,
    cfg: TransferConfig,
    data_len: nat,
)
    requires
        d.wf(),
        d.spec_phase() is Idle,
        start_result(d.spec_geometry(), bad_op, bad_strategy, bad_cfg, bad_len) is Err,
    ensures
        d.after_start(bad_op, bad_strategy, bad_cfg, bad_len) == d,
        d.after_start(bad_op, bad_strategy, bad_cfg, bad_len).wf(),
        d.after_start(bad_op, bad_strategy, bad_cfg, bad_len).spec_phase() is Idle,
        start_result(
            d.after_start(bad_op, bad_strategy, bad_cfg, bad_len).spec_geometry(),
            op,
            strategy,
            cfg,
            data_len,
        ) == start_result(d.spec_geometry(), op, strategy, cfg, data_len),
        d.after_start(bad_op, bad_strategy, bad_cfg, bad_len).after_start(
            op,
            strategy,
            cfg,
            data_len,
        ) == d.after_start(op, strategy, cfg, data_len),
{
}

/// A status with no flag raised.
pub open spec fn quiet_status() -> Status {
    Status { complete: false, transfer_error: false, dma_error: false }
}

/// The driver after `n` status reports that saw no flag raised.
pub open spec fn after_quiet_reports(d: Ospi, n: nat) -> Ospi
    decreases n,
{
    if n == 0 {
        d
    } else {
        after_quiet_reports(d.after_status(quiet_status()), (n - 1) as nat)
    }
}

/// A blocking wait is bounded: a polled transfer with `k` polls left that
/// never sees a flag raised is back to idle after `k + 1` polls, the last of
/// which reports a timeout.
pub proof fn lemma_polled_wait_is_bounded(d: Ospi)
    requires
        d.wf(),
        d.spec_phase() matches Phase::Transferring { strategy, .. } && is_polled(strategy),
    ensures
        after_quiet_reports(d, d.spec_phase()->Transferring_polls_left as nat + 1).spec_phase() is Idle,
        status_step(quiet_status(), true, 0) == Step::Failed(Fault::Timeout),
    decreases d.spec_phase()->Transferring_polls_left,
{
    broadcast use Ospi::lemma_with_phase;

    let k = d.spec_phase()->Transferring_polls_left;
    let next = d.after_status(quiet_status());
    if k == 0 {
        assert(after_quiet_reports(next, 0) == next);
    } else {
        lemma_polled_wait_is_bounded(next);
        assert(after_quiet_reports(d, k as nat + 1) == after_quiet_reports(next, k as nat));
    }
}

} // verus!
