//! Shell backend for the bare-metal image: the state the debug shell reads
//! and the fixed reports a board without kernel services gives back.

use vstd::prelude::*;
use vstd::string::StringSliceAdditionalSpecFns;

use crate::uart::{crlf_encode, uart_puts};

verus! {

/// Build time reported when the image was built without a timestamp.
pub const DEFAULT_BUILD_TIME: &'static str = "2024-01-01T00:00:00Z";

/// Uptime reported on top of the boot time, in nanoseconds (60 s).
pub const FAKE_UPTIME_NS: u64 = 60_000_000_000;

/// Kernel identification and clock readings.
#[derive(Debug, Clone, Copy, PartialEq, Eq)]
pub struct KernelInfo {
    pub version: &'static str,
    pub build_time: &'static str,
    pub boot_time_ns: u64,
    pub current_time_ns: u64,
    pub cpu_count: u32,
}

/// Memory accounting.
#[derive(Debug, Clone, Copy, PartialEq, Eq)]
pub struct MemoryStats {
    pub total_bytes: u64,
    pub used_bytes: u64,
    pub free_bytes: u64,
    pub region_count: u32,
    pub slab_count: u32,
    pub peak_bytes: u64,
}

/// Scheduling state of a task.
#[derive(Debug, Clone, Copy, PartialEq, Eq, Structural)]
pub enum TaskState {
    Running,
}

/// One row of the task list.
#[derive(Debug, Clone, Copy, PartialEq, Eq)]
pub struct TaskInfo {
    pub id: u32,
    pub name: [u8; 16],
    pub state: TaskState,
    pub priority: u8,
    pub partition: u32,
    pub cpu_affinity: u64,
    pub cap_count: u32,
}

/// One row of the CPU list.
#[derive(Debug, Clone, Copy, PartialEq, Eq)]
pub struct CpuInfo {
    pub id: u32,
    pub online: bool,
    pub is_primary: bool,
    pub freq_mhz: u32,
    pub load_percent: u8,
}

/// Message queue counters.
#[derive(Debug, Clone, Copy, PartialEq, Eq)]
pub struct QueueStats {
    pub queue_count: u32,
    pub pending_messages: u64,
    pub messages_sent: u64,
    pub messages_received: u64,
    pub zero_copy_count: u64,
}

/// Vector store counters.
#[derive(Debug, Clone, Copy, PartialEq, Eq)]
pub struct VectorStats {
    pub store_count: u32,
    pub vector_count: u64,
    pub total_dimensions: u64,
    pub memory_bytes: u64,
    pub reads: u64,
    pub writes: u64,
}

/// Proof engine counters, with the number of proofs of each tier.
#[derive(Debug, Clone, Copy, PartialEq, Eq)]
pub struct ProofStats {
    pub generated: u64,
    pub verified: u64,
    pub rejected: u64,
    pub cache_entries: u32,
    pub cache_hits: u64,
    pub cache_misses: u64,
    pub tier0_count: u64,
    pub tier1_count: u64,
    pub tier2_count: u64,
}

/// One row of a capability table dump.
#[derive(Debug, Clone, Copy, PartialEq, Eq)]
pub struct CapEntry {
    pub task_id: u32,
    pub object_id: u64,
    pub rights: u32,
    pub badge: u64,
    pub depth: u8,
}

/// One record of the witness log.
#[derive(Debug, Clone, Copy, PartialEq, Eq)]
pub struct WitnessEntry {
    pub epoch: u64,
    pub timestamp_ns: u64,
    pub chain_hash: [u8; 32],
}

/// Performance counters.
#[derive(Debug, Clone, Copy, PartialEq, Eq)]
pub struct PerfCounters {
    pub syscalls: u64,
    pub context_switches: u64,
    pub interrupts: u64,
    pub page_faults: u64,
    pub ipi_sent: u64,
    pub cpu_cycles: u64,
}

/// Bytes in one mebibyte.
pub const MIB: u64 = 1024 * 1024;

/// Message written to the console before the board is reset.
pub const REBOOT_MESSAGE: &'static str = "\nRebooting system...\n";

/// Base address of the PL011 UART.
pub const UART_BASE: usize = 0x0900_0000;

/// Data register.
pub const UART_DR: usize = UART_BASE + 0x00;

/// Flag register.
pub const UART_FR: usize = UART_BASE + 0x18;

/// Flag register bit: the receive FIFO is empty.
pub const UART_FR_RXFE: u32 = 16;

/// The memory report of this board: 128 MiB in all, 4 MiB of it used by
/// the kernel image, 124 MiB free, 4 MiB at peak, no regions or slabs.
pub open spec fn board_memory() -> MemoryStats {
    MemoryStats {
        total_bytes: 134_217_728,
        used_bytes: 4_194_304,
        free_bytes: 130_023_424,
        region_count: 0,
        slab_count: 0,
        peak_bytes: 4_194_304,
    }
}

/// The memory report adds up: used and free memory make up the total, and
/// the peak is at least what is in use and at most the total.
pub proof fn lemma_board_memory_accounts()
    ensures
        board_memory().used_bytes + board_memory().free_bytes == board_memory().total_bytes,
        board_memory().used_bytes <= board_memory().peak_bytes <= board_memory().total_bytes,
        board_memory().total_bytes == 128 * MIB,
{
}

/// Name of the idle task, NUL padded.
pub open spec fn idle_name() -> [u8; 16] {
    [105u8, 100, 108, 101, 0, 0, 0, 0, 0, 0, 0, 0, 0, 0, 0, 0]
}

/// The one task on this board: the idle task, running, with id 0, priority
/// 0, partition 0, pinned to CPU 0 and holding no capabilities.
pub open spec fn idle_task() -> TaskInfo {
    TaskInfo {
        id: 0,
        name: idle_name(),
        state: TaskState::Running,
        priority: 0,
        partition: 0,
        cpu_affinity: 1,
        cap_count: 0,
    }
}

/// The one CPU on this board: id 0, online, primary, 1800 MHz, 5% load.
pub open spec fn boot_cpu() -> CpuInfo {
    CpuInfo { id: 0, online: true, is_primary: true, freq_mhz: 1800, load_percent: 5 }
}

/// Minimal backend for a board without full kernel services.
pub struct BareMetal {
    trace_enabled: bool,
    boot_time_ns: u64,
}

impl BareMetal {
    /// The fake uptime can always be added to the boot time.
    #[verifier::type_invariant]
    spec fn inv(self) -> bool {
        self.boot_time_ns <= u64::MAX - FAKE_UPTIME_NS
    }

    /// Whether syscall tracing is on.
    pub closed spec fn tracing(self) -> bool {
        self.trace_enabled
    }

    /// Time of boot in nanoseconds.
    pub closed spec fn boot_time(self) -> u64 {
        self.boot_time_ns
    }

    /// Creates a backend with tracing off and the clock at zero.
    pub fn new() -> (b: Self)
        ensures
            !b.tracing(),
            b.boot_time() == 0,
    {
        BareMetal { trace_enabled: false, boot_time_ns: 0 }
    }

    /// Kernel identification: the given version, the given build time or
    /// [`DEFAULT_BUILD_TIME`] when there is none, the boot time, a current
    /// time one fake minute after boot, and a single CPU.
    pub fn kernel_info(&self, version: &'static str, build_time: Option<&'static str>) -> (r: KernelInfo)
        ensures
            r.version == version,
            r.build_time == (match build_time {
                Some(t) => t,
                None => DEFAULT_BUILD_TIME,
            }),
            r.boot_time_ns == self.boot_time(),
            r.current_time_ns == self.boot_time() + FAKE_UPTIME_NS,
            r.cpu_count == 1,
    {
        proof {
            use_type_invariant(self);
        }
        let build_time = match build_time {
            Some(t) => t,
            None => DEFAULT_BUILD_TIME,
        };
        KernelInfo {
            version,
            build_time,
            boot_time_ns: self.boot_time_ns,
            current_time_ns: self.boot_time_ns + FAKE_UPTIME_NS,
            cpu_count: 1,
        }
    }

    /// Memory statistics of the board.
    pub fn memory_stats(&self) -> (r: MemoryStats)
        ensures
            r == board_memory(),
    {
        MemoryStats {
            total_bytes: 128 * MIB,
            used_bytes: 4 * MIB,
            free_bytes: 124 * MIB,
            region_count: 0,
            slab_count: 0,
            peak_bytes: 4 * MIB,
        }
    }

    /// The task list: the idle task alone.
    pub fn task_list(&self) -> (r: Vec<TaskInfo>)
        ensures
            r@ == seq![idle_task()],
    {
        vec![
            TaskInfo {
                id: 0,
                name: [105u8, 100, 108, 101, 0, 0, 0, 0, 0, 0, 0, 0, 0, 0, 0, 0],
                state: TaskState::Running,
                priority: 0,
                partition: 0,
                cpu_affinity: 0x01,
                cap_count: 0,
            },
        ]
    }

    /// The CPU list: the boot CPU alone.
    pub fn cpu_info(&self) -> (r: Vec<CpuInfo>)
        ensures
            r@ == seq![boot_cpu()],
    {
        vec![CpuInfo { id: 0, online: true, is_primary: true, freq_mhz: 1800, load_percent: 5 }]
    }

    /// Queue statistics: no queues and no traffic.
    pub fn queue_stats(&self) -> (r: QueueStats)
        ensures
            r == (QueueStats {
                queue_count: 0,
                pending_messages: 0,
                messages_sent: 0,
                messages_received: 0,
                zero_copy_count: 0,
            }),
    {
        QueueStats {
            queue_count: 0,
            pending_messages: 0,
            messages_sent: 0,
            messages_received: 0,
            zero_copy_count: 0,
        }
    }

    /// Vector store statistics: no stores and no traffic.
    pub fn vector_stats(&self) -> (r: VectorStats)
        ensures
            r == (VectorStats {
                store_count: 0,
                vector_count: 0,
                total_dimensions: 0,
                memory_bytes: 0,
                reads: 0,
                writes: 0,
            }),
    {
        VectorStats {
            store_count: 0,
            vector_count: 0,
            total_dimensions: 0,
            memory_bytes: 0,
            reads: 0,
            writes: 0,
        }
    }

    /// Proof engine statistics: nothing generated, checked or cached.
    pub fn proof_stats(&self) -> (r: ProofStats)
        ensures
            r == (ProofStats {
                generated: 0,
                verified: 0,
                rejected: 0,
                cache_entries: 0,
                cache_hits: 0,
                cache_misses: 0,
                tier0_count: 0,
                tier1_count: 0,
                tier2_count: 0,
            }),
    {
        ProofStats {
            generated: 0,
            verified: 0,
            rejected: 0,
            cache_entries: 0,
            cache_hits: 0,
            cache_misses: 0,
            tier0_count: 0,
            tier1_count: 0,
            tier2_count: 0,
        }
    }

    /// Capability table dump, for one task or for all: there are no
    /// capabilities on this board.
    pub fn capability_entries(&self, task_id: Option<u32>) -> (r: Vec<CapEntry>)
        ensures
            r@.len() == 0,
    {
        Vec::new()
    }

    /// The last `count` witness log records: the log is empty on this board.
    pub fn witness_entries(&self, count: usize) -> (r: Vec<WitnessEntry>)
        ensures
            r@.len() == 0,
    {
        Vec::new()
    }

    /// Performance counters: all zero.
    pub fn perf_counters(&self) -> (r: PerfCounters)
        ensures
            r == (PerfCounters {
                syscalls: 0,
                context_switches: 0,
                interrupts: 0,
                page_faults: 0,
                ipi_sent: 0,
                cpu_cycles: 0,
            }),
    {
        PerfCounters {
            syscalls: 0,
            context_switches: 0,
            interrupts: 0,
            page_faults: 0,
            ipi_sent: 0,
            cpu_cycles: 0,
        }
    }

    /// Writes the reboot notice to the transmit stream; the backend itself
    /// is left as it was. The caller then resets or halts the board.
    pub fn reboot(&mut self, out: &mut Vec<u8>)
        ensures
            final(out)@ == old(out)@ + crlf_encode(REBOOT_MESSAGE.spec_bytes()),
            *final(self) == *old(self),
    {
        uart_puts(out, REBOOT_MESSAGE);
    }

    /// Whether a byte is waiting in the receive FIFO, given the value of the
    /// flag register: it is when the FIFO-empty bit (bit 4) is clear.
    pub fn rx_ready(flags: u32) -> (ready: bool)
        ensures
            ready == (flags & UART_FR_RXFE == 0),
            ready == ((flags / 16) % 2 == 0),
    {
        assert((flags & 16u32 == 0) == ((flags / 16) % 2 == 0)) by (bit_vector);
        flags & UART_FR_RXFE == 0
    }

    /// Whether syscall tracing is on.
    pub fn trace_enabled(&self) -> (on: bool)
        ensures
            on == self.tracing(),
    {
        self.trace_enabled
    }

    /// Turns syscall tracing on or off; nothing else changes.
    pub fn set_trace(&mut self, enabled: bool)
        ensures
            final(self).tracing() == enabled,
            final(self).boot_time() == old(self).boot_time(),
    {
        proof {
            use_type_invariant(&*self);
        }
        self.trace_enabled = enabled;
    }
}

impl Default for BareMetal {
    /// Same as [`BareMetal::new`].
    fn default() -> (b: Self)
        ensures
            !b.tracing(),
            b.boot_time() == 0,
    {
        Self::new()
    }
}

} // verus!
