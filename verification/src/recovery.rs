//! Recovery over the serial line: a wake byte, a block transfer straight
//! into memory, and a boot of what arrived.

use crate::kernel_boot::BootArgs;
use crate::memory::overwrite;
use crate::memory::OutOfBounds;
use crate::memory::PhysicalRegion;
use vstd::prelude::*;

verus! {

/// The byte that starts a transfer.
pub const WAKE_BYTE: u8 = 0x20;

/// The block length of the transfer protocol.
pub const BLOCK_LEN: u32 = 1024;

/// The width of the protocol's checksum in bits.
pub const CHECKSUM_BITS: u32 = 16;

/// Where the recovery loader stands.
#[derive(Debug, Clone, Copy, PartialEq, Eq, Structural)]
pub enum RecoveryState {
    /// Waiting for the wake byte.
    Waiting,
    /// A transfer is running.
    Receiving,
}

/// What happened on the serial side.
#[derive(Debug, Clone, Copy, PartialEq, Eq, Structural)]
pub enum RecoveryEvent {
    /// The line delivered this value: a byte, or a negative error code.
    Received(i32),
    /// The transfer ended well.
    TransferDone,
    /// The transfer failed.
    TransferFailed,
}

/// What a transfer is started with.
#[derive(Debug, Clone, Copy, PartialEq, Eq, Structural)]
pub struct TransferRequest {
    /// The address that the first byte received goes to.
    pub dest: u64,
    /// The length of a block.
    pub block_len: u32,
    /// The width of the checksum in bits.
    pub checksum_bits: u32,
}

/// What the firmware is to do next.
#[derive(Debug, Clone)]
pub enum RecoveryAction {
    /// Wait for the next byte.
    Listen,
    /// Receive a file.
    Receive(TransferRequest),
    /// Enter the kernel that arrived.
    Boot(BootArgs),
    /// Report the failed transfer, then wait for the next byte.
    Report,
    /// Let the running transfer go on.
    Proceed,
}

/// The state after an event.
///
/// The wake byte starts a transfer; anything else on the line is passed
/// over. A transfer ends in the waiting state, whether it went well or
/// not: a failure never ends the loader.
pub open spec fn next_state(state: RecoveryState, event: RecoveryEvent) -> RecoveryState {
    match state {
        RecoveryState::Waiting => match event {
            RecoveryEvent::Received(value) => if value == WAKE_BYTE {
                RecoveryState::Receiving
            } else {
                RecoveryState::Waiting
            },
            _ => RecoveryState::Waiting,
        },
        RecoveryState::Receiving => match event {
            RecoveryEvent::Received(_) => RecoveryState::Receiving,
            _ => RecoveryState::Waiting,
        },
    }
}

/// Whether `args` are those of a recovery boot: the kernel at the DRAM
/// base, and neither device tree nor command line nor ramdisk.
pub open spec fn is_recovery_boot(args: BootArgs, dram_base: u64, machtype: u32) -> bool {
    &&& args.kernel == dram_base
    &&& args.tags == 0
    &&& args.cmdline is None
    &&& args.machtype == machtype
    &&& args.ramdisk == 0
    &&& args.ramdisk_size == 0
}

/// Whether `action` is what the event calls for.
pub open spec fn answers(
    action: RecoveryAction,
    state: RecoveryState,
    event: RecoveryEvent,
    dram_base: u64,
    machtype: u32,
) -> bool {
    match state {
        RecoveryState::Waiting => match event {
            RecoveryEvent::Received(value) => if value == WAKE_BYTE {
                action == RecoveryAction::Receive(
                    TransferRequest {
                        dest: dram_base,
                        block_len: BLOCK_LEN,
                        checksum_bits: CHECKSUM_BITS,
                    },
                )
            } else {
                action is Listen
            },
            _ => action is Listen,
        },
        RecoveryState::Receiving => match event {
            RecoveryEvent::Received(_) => action is Proceed,
            RecoveryEvent::TransferDone => action is Boot && is_recovery_boot(
                action->Boot_0,
                dram_base,
                machtype,
            ),
            RecoveryEvent::TransferFailed => action is Report,
        },
    }
}

/// The arguments of a recovery boot.
pub fn recovery_arguments(dram_base: u64, machtype: u32) -> (args: BootArgs)
    ensures
        is_recovery_boot(args, dram_base, machtype),
{
    BootArgs { kernel: dram_base, tags: 0, cmdline: None, machtype, ramdisk: 0, ramdisk_size: 0 }
}

/// One step of the recovery loader: the state after `event` and what the
/// firmware is to do.
pub fn step(state: RecoveryState, event: RecoveryEvent, dram_base: u64, machtype: u32) -> (next: (
    RecoveryState,
    RecoveryAction,
))
    ensures
        next.0 == next_state(state, event),
        answers(next.1, state, event, dram_base, machtype),
{
    match state {
        RecoveryState::Waiting => match event {
            RecoveryEvent::Received(value) => {
                if value == 0x20 {
                    let request: TransferRequest = TransferRequest {
                        dest: dram_base,
                        block_len: BLOCK_LEN,
                        checksum_bits: CHECKSUM_BITS,
                    };
                    (RecoveryState::Receiving, RecoveryAction::Receive(request))
                } else {
                    (RecoveryState::Waiting, RecoveryAction::Listen)
                }
            },
            _ => (RecoveryState::Waiting, RecoveryAction::Listen),
        },
        RecoveryState::Receiving => match event {
            RecoveryEvent::Received(_) => (RecoveryState::Receiving, RecoveryAction::Proceed),
            RecoveryEvent::TransferDone => (
                RecoveryState::Waiting,
                RecoveryAction::Boot(recovery_arguments(dram_base, machtype)),
            ),
            RecoveryEvent::TransferFailed => (RecoveryState::Waiting, RecoveryAction::Report),
        },
    }
}

/// A writer that puts what it is given into memory, each piece behind the
/// one before.
pub struct KernelDirectLoader {
    next: u64,
}

impl KernelDirectLoader {
    /// The address that the next byte goes to.
    pub closed spec fn position(&self) -> int {
        self.next as int
    }

    /// A writer that starts at `dest`.
    pub fn new(dest: u64) -> (loader: Self)
        ensures
            loader.position() == dest,
    {
        KernelDirectLoader { next: dest }
    }

    /// The address that the next byte goes to.
    pub fn cursor(&self) -> (addr: u64)
        ensures
            addr == self.position(),
    {
        self.next
    }

    /// Writes `buf` at the writer's position and moves the position behind
    /// it; the answer is the number of bytes written, all of `buf`. A piece
    /// that does not lie inside `memory` is refused, and neither `memory`
    /// nor the position changes.
    pub fn write(&mut self, memory: &mut PhysicalRegion, buf: &[u8]) -> (written: Result<
        usize,
        OutOfBounds,
    >)
        ensures
            final(memory).base_addr() == old(memory).base_addr(),
            written is Ok <==> old(memory).covers(old(self).position(), buf@.len() as int),
            written is Ok ==> written->Ok_0 == buf@.len(),
            written is Ok ==> final(self).position() == old(self).position() + buf@.len(),
            written is Ok ==> final(memory).contents() == overwrite(
                old(memory).contents(),
                old(self).position() - old(memory).base_addr(),
                buf@,
            ),
            written is Err ==> final(self).position() == old(self).position(),
            written is Err ==> final(memory).contents() == old(memory).contents(),
    {
        let len: usize = buf.len();
        match memory.write_slice(self.next, buf) {
            Ok(()) => {
                self.next = self.next + len as u64;
                Ok(len)
            },
            Err(error) => Err(error),
        }
    }

    /// Nothing is buffered: there is nothing to flush.
    pub fn flush(&mut self)
        ensures
            final(self).position() == old(self).position(),
    {
    }
}

} // verus!
