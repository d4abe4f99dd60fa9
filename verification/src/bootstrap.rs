//! The bootstrap sequencer: drives every attached module through
//! reset, dummy clock, release and escape-probe into application mode,
//! with a bounded per-slot retry and slots serviced strictly in
//! ascending order.
//!
//! The sequencer is a pure state machine: the embedding application
//! performs the bus transfers, reset-line writes and settle delays it is
//! commanded to, and feeds the firmware-status byte of every probe back
//! into `step`.

use vstd::prelude::*;
use crate::error::PlatformError;
use crate::frame::{checksum, frame_valid, lemma_checksum_agree};
use crate::mainboard::MainBoard;

verus! {

/// Length of the bootloader-escape message: its checksum sits at index 45.
pub const BOOTMESSAGELENGTH: usize = 46;

/// Size of the transfer buffer used for the bootloader-escape exchange.
pub const BOOTMESSAGELENGTHCHECK: usize = 61;

/// Command byte reserved for the bootloader-escape frame.
pub const ESCAPE_COMMAND: u8 = 19;

/// Bootloader-status byte a module reports while its bootloader is active.
pub const BOOTLOADER_ACTIVE: u8 = 9;

/// Firmware-status byte a module reports once it escaped into application
/// mode.
pub const FIRMWARE_APPLICATION: u8 = 20;

/// Fault ceiling: the probe that would take a slot's fault counter to this
/// value aborts the whole bring-up instead of retrying further.
pub const FAULT_CEILING: u8 = 5;

/// Settle delay, in milliseconds, after asserting or releasing a reset
/// line and after a probe round.
pub const RESET_SETTLE_MS: u64 = 5;

/// Settle delay, in milliseconds, a module needs to boot after its reset
/// line is released.
pub const BOOT_SETTLE_MS: u64 = 10;

/// The two status bytes of a bootloader-escape exchange.
#[derive(Clone, Copy, Debug, PartialEq, Eq, Structural)]
pub struct EscapeBootloaderResponse {
    /// Byte 0 of the response: the bootloader status.
    pub bootloader: u8,
    /// Byte 6 of the response: the firmware status.
    pub firmware: u8,
}

/// Builds the bootloader-escape frame: the reserved command at bytes 0 and
/// 2, the message length minus one at byte 1, an all-zero payload, and the
/// checksum at index 45, carried in a 61-byte transfer buffer.
pub fn escape_frame() -> (r: Vec<u8>)
    ensures
        r@.len() == BOOTMESSAGELENGTHCHECK,
        r@[0] == ESCAPE_COMMAND,
        r@[1] == (BOOTMESSAGELENGTH - 1) as u8,
        r@[2] == ESCAPE_COMMAND,
        forall|i: int| 3 <= i < BOOTMESSAGELENGTH - 1 ==> r@[i] == 0,
        forall|i: int| BOOTMESSAGELENGTH <= i < BOOTMESSAGELENGTHCHECK ==> r@[i] == 0,
        frame_valid(r@, BOOTMESSAGELENGTH as int),
{
    let mut tx: Vec<u8> = Vec::new();
    let mut i: usize = 0;
    while i < BOOTMESSAGELENGTHCHECK
        invariant
            i == tx@.len(),
            i <= BOOTMESSAGELENGTHCHECK,
            forall|j: int| 0 <= j < i ==> tx@[j] == 0,
        decreases BOOTMESSAGELENGTHCHECK - i,
    {
        tx.push(0);
        i += 1;
    }
    tx.set(0, ESCAPE_COMMAND);
    tx.set(1, (BOOTMESSAGELENGTH - 1) as u8);
    tx.set(2, ESCAPE_COMMAND);
    let ghost headed = tx@;
    let check_sum = checksum(tx.as_slice(), BOOTMESSAGELENGTH);
    tx.set(BOOTMESSAGELENGTH - 1, check_sum);
    proof {
        lemma_checksum_agree(tx@, headed, BOOTMESSAGELENGTH - 1);
    }
    tx
}

/// Validates a received escape-exchange frame and reads the two status
/// bytes out of it.  A checksum mismatch is reported as a data-integrity
/// failure; during bring-up it folds into the sequencer's fault-counter
/// retry.
pub fn parse_escape_response(rx: &[u8]) -> (r: Result<EscapeBootloaderResponse, PlatformError>)
    requires
        rx@.len() >= BOOTMESSAGELENGTH,
    ensures
        match r {
            Ok(resp) => frame_valid(rx@, BOOTMESSAGELENGTH as int) && resp.bootloader == rx@[0]
                && resp.firmware == rx@[6],
            Err(e) => e == PlatformError::DataIntegrityError && !frame_valid(
                rx@,
                BOOTMESSAGELENGTH as int,
            ),
        },
{
    match MainBoard::module_checksum(rx, BOOTMESSAGELENGTH) {
        Ok(_) => Ok(EscapeBootloaderResponse { bootloader: rx[0], firmware: rx[6] }),
        Err(e) => Err(e),
    }
}

/// The fixed six-byte dummy clock burst sent to every module's bus before
/// release: it wakes the module's bus peripheral clock domain and carries
/// no semantic payload.
pub fn dummy_clock_frame() -> (r: Vec<u8>)
    ensures
        r@ == seq![1u8, 2u8, 3u8, 4u8, 5u8, 6u8],
{
    let mut tx: Vec<u8> = Vec::new();
    tx.push(1);
    tx.push(2);
    tx.push(3);
    tx.push(4);
    tx.push(5);
    tx.push(6);
    proof {
        assert(tx@ =~= seq![1u8, 2u8, 3u8, 4u8, 5u8, 6u8]);
    }
    tx
}

/// The per-module bring-up states.  The fixed phases take every module
/// through the first three together; the convergence loop then moves each
/// module from `Released` through `Probing` to `Ready` or `Faulted`.
#[derive(Clone, Copy, Debug, PartialEq, Eq, Structural)]
pub enum ModuleBringupState {
    /// Reset line asserted; the module is held in reset.
    Reset,
    /// The dummy clock burst went out while the module sat in reset.
    DummyClocked,
    /// Reset released; the module is booting or sitting in its bootloader.
    Released,
    /// The convergence loop is probing this module.
    Probing,
    /// The module escaped into application mode.
    Ready,
    /// The module's fault counter reached the ceiling.
    Faulted,
}

/// What the sequencer asks the application to do next.
#[derive(Clone, Copy, Debug, PartialEq, Eq, Structural)]
pub enum BootstrapCommand {
    /// Send one escape frame to the module at this list position and feed
    /// the firmware-status byte of the response into `step`.
    Probe(usize),
    /// Every module reached `Ready`; configuration pushes may begin.
    Complete,
    /// The current module cannot escape its bootloader: abort the whole
    /// bring-up with `BootstrapExhausted`.
    Abort,
}

/// The verdict of one probe, telling the application what to do besides
/// asking for the next command.
#[derive(Clone, Copy, Debug, PartialEq, Eq, Structural)]
pub enum ProbeVerdict {
    /// The module escaped; the sequencer advanced to the next position.
    Advanced,
    /// The module regressed after its first probe had shown an escape:
    /// re-cycle its reset line (assert, settle, release, settle) before
    /// the next probe; one fault was counted.
    CycleReset,
    /// The module has never reported an escape: probe again without
    /// counting a fault.
    Stalled,
}

/// The convergence state of the bring-up: which module is being serviced,
/// how often it has faulted, and what the first probe of each module
/// reported.
pub struct BootstrapSequencer {
    /// Slot of each registered module, in service order.
    pub slots: Vec<u8>,
    /// Firmware-status snapshot taken at the first probe, one per module.
    pub snapshots: Vec<u8>,
    /// The list position currently being converged; everything before it
    /// is `Ready`.
    pub position: usize,
    /// Faults counted against the current position since it was reached.
    pub faults: u8,
}

impl BootstrapSequencer {
    /// One snapshot per module, a position within the list (or one past
    /// it, when done), and a fault counter at or below the ceiling.
    pub open spec fn wf(self) -> bool {
        self.snapshots@.len() == self.slots@.len() && self.position <= self.slots@.len()
            && self.faults <= FAULT_CEILING
    }

    /// Every module has reached `Ready`.
    pub open spec fn done_spec(self) -> bool {
        self.position == self.slots@.len()
    }

    /// Pure model of one convergence decision: an escape advances and
    /// clears the fault counter; a regression (the first probe had shown
    /// an escape) counts a fault; anything else leaves the state alone.
    pub open spec fn step_spec(self, firmware: u8) -> BootstrapSequencer {
        if self.position >= self.slots@.len() {
            self
        } else if firmware == FIRMWARE_APPLICATION {
            BootstrapSequencer { position: (self.position + 1) as usize, faults: 0, ..self }
        } else if self.snapshots@[self.position as int] == FIRMWARE_APPLICATION {
            BootstrapSequencer { faults: (self.faults + 1) as u8, ..self }
        } else {
            self
        }
    }

    /// Pure model of the next command: complete once past the last
    /// position, abort once the fault counter hit the ceiling, and a probe
    /// of the current position otherwise.
    pub open spec fn command_spec(self) -> BootstrapCommand {
        if self.position >= self.slots@.len() {
            BootstrapCommand::Complete
        } else if self.faults >= FAULT_CEILING {
            BootstrapCommand::Abort
        } else {
            BootstrapCommand::Probe(self.position)
        }
    }

    /// The bring-up state of the module at list position `pos`, as the
    /// convergence loop sees it.
    pub open spec fn state_of_spec(self, pos: int) -> ModuleBringupState {
        if pos < self.position {
            ModuleBringupState::Ready
        } else if pos > self.position {
            ModuleBringupState::Released
        } else if self.faults >= FAULT_CEILING {
            ModuleBringupState::Faulted
        } else {
            ModuleBringupState::Probing
        }
    }

    /// A fresh sequencer over the registered modules' slots, in service
    /// order, with every snapshot clear.
    pub fn new(slots: Vec<u8>) -> (r: BootstrapSequencer)
        ensures
            r.wf(),
            r.slots@ == slots@,
            r.position == 0,
            r.faults == 0,
            r.snapshots@.len() == slots@.len(),
            forall|i: int| 0 <= i < slots@.len() ==> r.snapshots@[i] == 0,
    {
        let mut snapshots: Vec<u8> = Vec::new();
        let mut i: usize = 0;
        while i < slots.len()
            invariant
                i == snapshots@.len(),
                i <= slots@.len(),
                forall|j: int| 0 <= j < i ==> snapshots@[j] == 0,
            decreases slots@.len() - i,
        {
            snapshots.push(0);
            i += 1;
        }
        BootstrapSequencer { slots, snapshots, position: 0, faults: 0 }
    }

    /// Records the first-probe result for the module at `pos`: whenever
    /// the bootloader-status byte equals `BOOTLOADER_ACTIVE`, the
    /// firmware-status byte is snapshotted.  This primes the regression
    /// check of the convergence loop.
    pub fn record_first_probe(&mut self, pos: usize, bootloader: u8, firmware: u8)
        requires
            old(self).wf(),
            pos < old(self).slots@.len(),
        ensures
            final(self).wf(),
            final(self).slots@ == old(self).slots@,
            final(self).position == old(self).position,
            final(self).faults == old(self).faults,
            bootloader == BOOTLOADER_ACTIVE ==> final(self).snapshots@ == old(
                self,
            ).snapshots@.update(pos as int, firmware),
            bootloader != BOOTLOADER_ACTIVE ==> final(self).snapshots@ == old(self).snapshots@,
    {
        if bootloader == BOOTLOADER_ACTIVE {
            self.snapshots.set(pos, firmware);
        }
    }

    /// What the application should do next.
    pub fn next_command(&self) -> (r: BootstrapCommand)
        requires
            self.wf(),
        ensures
            r == self.command_spec(),
    {
        if self.position >= self.slots.len() {
            BootstrapCommand::Complete
        } else if self.faults >= FAULT_CEILING {
            BootstrapCommand::Abort
        } else {
            BootstrapCommand::Probe(self.position)
        }
    }

    /// Feeds back the firmware-status byte of the probe the last `Probe`
    /// command asked for, and decides: advance, retry with a reset cycle,
    /// or probe again.
    pub fn step(&mut self, firmware: u8) -> (r: ProbeVerdict)
        requires
            old(self).wf(),
            old(self).position < old(self).slots@.len(),
            old(self).faults < FAULT_CEILING,
        ensures
            final(self).wf(),
            *final(self) == old(self).step_spec(firmware),
            (r == ProbeVerdict::Advanced <==> firmware == FIRMWARE_APPLICATION),
            (r == ProbeVerdict::CycleReset <==> firmware != FIRMWARE_APPLICATION && old(
                self,
            ).snapshots@[old(self).position as int] == FIRMWARE_APPLICATION),
            (r == ProbeVerdict::Stalled <==> firmware != FIRMWARE_APPLICATION && old(
                self,
            ).snapshots@[old(self).position as int] != FIRMWARE_APPLICATION),
    {
        proof {
            assert(self.slots.len() == self.slots@.len());
        }
        if firmware == FIRMWARE_APPLICATION {
            self.position = self.position + 1;
            self.faults = 0;
            ProbeVerdict::Advanced
        } else if self.snapshots[self.position] == FIRMWARE_APPLICATION {
            self.faults = self.faults + 1;
            ProbeVerdict::CycleReset
        } else {
            ProbeVerdict::Stalled
        }
    }

    /// The bring-up state of the module at list position `pos`.
    pub fn state_of(&self, pos: usize) -> (r: ModuleBringupState)
        ensures
            r == self.state_of_spec(pos as int),
    {
        if pos < self.position {
            ModuleBringupState::Ready
        } else if pos > self.position {
            ModuleBringupState::Released
        } else if self.faults >= FAULT_CEILING {
            ModuleBringupState::Faulted
        } else {
            ModuleBringupState::Probing
        }
    }
}

/// The sequencer state after feeding a whole sequence of firmware-status
/// bytes, one probe at a time.
pub open spec fn run_spec(s: BootstrapSequencer, events: Seq<u8>) -> BootstrapSequencer
    decreases events.len(),
{
    if events.len() == 0 {
        s
    } else {
        run_spec(s.step_spec(events[0]), events.drop_first())
    }
}

/// One step keeps the module list and the snapshots, and moves the
/// position forward by at most one, and then only on an escape.
proof fn lemma_step_bounds(s: BootstrapSequencer, firmware: u8)
    ensures
        s.step_spec(firmware).position >= s.position,
        s.step_spec(firmware).position <= s.position + 1,
        s.step_spec(firmware).slots@ == s.slots@,
        s.step_spec(firmware).snapshots@ == s.snapshots@,
        s.step_spec(firmware).position > s.position ==> firmware == FIRMWARE_APPLICATION
            && s.position < s.slots@.len(),
{
    assert(s.slots.len() == s.slots@.len());
}

/// A run over `events` is the run over all but the last event, followed by
/// one step on the last.
proof fn lemma_run_snoc(s: BootstrapSequencer, events: Seq<u8>)
    requires
        events.len() >= 1,
    ensures
        run_spec(s, events) == run_spec(s, events.take(events.len() - 1)).step_spec(
            events[events.len() - 1],
        ),
    decreases events.len(),
{
    let s1 = s.step_spec(events[0]);
    if events.len() == 1 {
        assert(events.drop_first() =~= Seq::<u8>::empty());
        assert(run_spec(s, events) == run_spec(s1, Seq::<u8>::empty()));
        assert(run_spec(s1, Seq::<u8>::empty()) == s1);
        assert(events.take(0) =~= Seq::<u8>::empty());
        assert(run_spec(s, events.take(0)) == s);
    } else {
        let prefix = events.take(events.len() - 1);
        lemma_run_snoc(s1, events.drop_first());
        assert(events.drop_first().take(events.len() - 2) =~= prefix.drop_first());
        assert(events.drop_first()[events.len() - 2] == events[events.len() - 1]);
        assert(run_spec(s, events) == run_spec(s1, events.drop_first()));
        assert(prefix[0] == events[0]);
        assert(run_spec(s, prefix) == run_spec(s1, prefix.drop_first()));
    }
}

/// Law (fault accounting): while the module whose first probe had shown an
/// escape keeps failing to escape, the sequencer stays on its position and
/// counts exactly one fault per probe; slots and snapshots never change.
pub proof fn lemma_faults_accumulate(s: BootstrapSequencer, failures: Seq<u8>)
    requires
        s.wf(),
        s.position < s.slots@.len(),
        s.snapshots@[s.position as int] == FIRMWARE_APPLICATION,
        s.faults + failures.len() <= FAULT_CEILING,
        forall|i: int| 0 <= i < failures.len() ==> failures[i] != FIRMWARE_APPLICATION,
    ensures
        run_spec(s, failures).wf(),
        run_spec(s, failures).position == s.position,
        run_spec(s, failures).faults == s.faults + failures.len(),
        run_spec(s, failures).slots@ == s.slots@,
        run_spec(s, failures).snapshots@ == s.snapshots@,
    decreases failures.len(),
{
    if failures.len() > 0 {
        let s1 = s.step_spec(failures[0]);
        lemma_faults_accumulate(s1, failures.drop_first());
    }
}

/// Law (convergence in exactly k rounds): a module whose first probe had
/// shown an escape and which reports application mode on its k-th
/// convergence probe (k at most the fault ceiling) keeps the sequencer on
/// its position for the first k-1 probes, consumes exactly k-1 faults,
/// and advances with the k-th probe; each of those k probes is commanded
/// for the same position.
pub proof fn lemma_convergence_in_k_rounds(s: BootstrapSequencer, events: Seq<u8>)
    requires
        s.wf(),
        s.position < s.slots@.len(),
        s.faults == 0,
        s.snapshots@[s.position as int] == FIRMWARE_APPLICATION,
        1 <= events.len() <= FAULT_CEILING,
        forall|i: int| 0 <= i < events.len() - 1 ==> events[i] != FIRMWARE_APPLICATION,
        events[events.len() - 1] == FIRMWARE_APPLICATION,
    ensures
        run_spec(s, events).position == s.position + 1,
        run_spec(s, events).faults == 0,
        run_spec(s, events.take(events.len() - 1)).faults == events.len() - 1,
        forall|j: int|
            0 <= j < events.len() ==> run_spec(s, events.take(j)).command_spec()
                == BootstrapCommand::Probe(s.position),
{
    let k = events.len() as int;
    lemma_faults_accumulate(s, events.take(k - 1));
    lemma_run_snoc(s, events);
    assert(s.slots.len() == s.slots@.len());
    assert forall|j: int|
        0 <= j < k implies run_spec(s, events.take(j)).command_spec() == BootstrapCommand::Probe(
        s.position,
    ) by {
        lemma_faults_accumulate(s, events.take(j));
    }
}

/// Law (exhaustion): a module whose first probe had shown an escape and
/// which then fails every one of its allowed probes drives the sequencer
/// to demand an abort; the bring-up never completes and no later module
/// is ever probed.
pub proof fn lemma_bootstrap_exhausted(s: BootstrapSequencer, failures: Seq<u8>)
    requires
        s.wf(),
        s.position < s.slots@.len(),
        s.faults == 0,
        s.snapshots@[s.position as int] == FIRMWARE_APPLICATION,
        failures.len() == FAULT_CEILING,
        forall|i: int| 0 <= i < failures.len() ==> failures[i] != FIRMWARE_APPLICATION,
    ensures
        run_spec(s, failures).command_spec() == BootstrapCommand::Abort,
        run_spec(s, failures).position == s.position,
{
    lemma_faults_accumulate(s, failures);
}

/// The sequencer's position never moves backwards.
pub proof fn lemma_position_monotone(s: BootstrapSequencer, events: Seq<u8>)
    ensures
        run_spec(s, events).position >= s.position,
    decreases events.len(),
{
    if events.len() > 0 {
        lemma_step_bounds(s, events[0]);
        lemma_position_monotone(s.step_spec(events[0]), events.drop_first());
    }
}

/// Law (strict ordering): the sequencer passes a position only at the
/// moment that position's own probe reports application mode.  An earlier
/// module's retries delay but never let a later module be probed first:
/// before any probe of a later position, every earlier position has
/// already reported an escape.
pub proof fn lemma_passed_means_escaped(s: BootstrapSequencer, events: Seq<u8>, p: int)
    requires
        s.position <= p < run_spec(s, events).position,
    ensures
        exists|i: int|
            0 <= i < events.len() && events[i] == FIRMWARE_APPLICATION && run_spec(
                s,
                events.take(i),
            ).position == p,
    decreases events.len(),
{
    if events.len() == 0 {
        assert(run_spec(s, events) == s);
        assert(false);
    }
    let s1 = s.step_spec(events[0]);
    lemma_step_bounds(s, events[0]);
    if p < s1.position {
        assert(events.take(0) =~= Seq::<u8>::empty());
        assert(events[0] == FIRMWARE_APPLICATION && run_spec(s, events.take(0)).position == p);
    } else {
        lemma_passed_means_escaped(s1, events.drop_first(), p);
        let i0 = choose|i: int|
            0 <= i < events.drop_first().len() && events.drop_first()[i] == FIRMWARE_APPLICATION
                && run_spec(s1, events.drop_first().take(i)).position == p;
        assert(events.take(i0 + 1).drop_first() =~= events.drop_first().take(i0));
        assert(run_spec(s, events.take(i0 + 1)) == run_spec(s1, events.drop_first().take(i0)));
        assert(events[i0 + 1] == FIRMWARE_APPLICATION && run_spec(
            s,
            events.take(i0 + 1),
        ).position == p);
    }
}

} // verus!
