use ruvix_kernel::backend::{
    BareMetal, CpuInfo, MemoryStats, PerfCounters, ProofStats, QueueStats, TaskState, VectorStats,
    DEFAULT_BUILD_TIME, FAKE_UPTIME_NS, MIB, REBOOT_MESSAGE, UART_BASE, UART_DR, UART_FR,
    UART_FR_RXFE,
};

#[test]
fn new_backend_has_tracing_off() {
    let b = BareMetal::new();
    assert!(!b.trace_enabled());
}

#[test]
fn default_matches_new() {
    let b = BareMetal::default();
    assert!(!b.trace_enabled());
    assert_eq!(b.kernel_info("v", None).boot_time_ns, 0);
}

#[test]
fn set_trace_reads_back() {
    let mut b = BareMetal::new();
    b.set_trace(true);
    assert!(b.trace_enabled());
    b.set_trace(true);
    assert!(b.trace_enabled());
    b.set_trace(false);
    assert!(!b.trace_enabled());
}

#[test]
fn set_trace_keeps_clock() {
    let mut b = BareMetal::new();
    let before = b.kernel_info("0.1.0", None);
    b.set_trace(true);
    let after = b.kernel_info("0.1.0", None);
    assert_eq!(before, after);
}

#[test]
fn kernel_info_with_build_time() {
    let b = BareMetal::new();
    let info = b.kernel_info("0.1.0", Some("2025-06-01T12:00:00Z"));
    assert_eq!(info.version, "0.1.0");
    assert_eq!(info.build_time, "2025-06-01T12:00:00Z");
    assert_eq!(info.boot_time_ns, 0);
    assert_eq!(info.current_time_ns, 60_000_000_000);
    assert_eq!(info.cpu_count, 1);
}

#[test]
fn kernel_info_without_build_time_uses_default() {
    let b = BareMetal::new();
    let info = b.kernel_info("0.1.0", None);
    assert_eq!(info.build_time, "2024-01-01T00:00:00Z");
    assert_eq!(info.build_time, DEFAULT_BUILD_TIME);
    assert_eq!(info.current_time_ns - info.boot_time_ns, FAKE_UPTIME_NS);
}

#[test]
fn memory_stats_exact() {
    let m = BareMetal::new().memory_stats();
    assert_eq!(
        m,
        MemoryStats {
            total_bytes: 134_217_728,
            used_bytes: 4_194_304,
            free_bytes: 130_023_424,
            region_count: 0,
            slab_count: 0,
            peak_bytes: 4_194_304,
        }
    );
    assert_eq!(m.used_bytes + m.free_bytes, m.total_bytes);
    assert!(m.used_bytes <= m.peak_bytes && m.peak_bytes <= m.total_bytes);
    assert_eq!(m.total_bytes, 128 * MIB);
}

#[test]
fn task_list_is_idle_task() {
    let tasks = BareMetal::new().task_list();
    assert_eq!(tasks.len(), 1);
    let t = tasks[0];
    assert_eq!(t.id, 0);
    assert_eq!(&t.name, b"idle\0\0\0\0\0\0\0\0\0\0\0\0");
    assert_eq!(t.state, TaskState::Running);
    assert_eq!(t.priority, 0);
    assert_eq!(t.partition, 0);
    assert_eq!(t.cpu_affinity, 0x01);
    assert_eq!(t.cap_count, 0);
}

#[test]
fn cpu_info_is_boot_cpu() {
    let cpus = BareMetal::new().cpu_info();
    assert_eq!(
        cpus,
        vec![CpuInfo { id: 0, online: true, is_primary: true, freq_mhz: 1800, load_percent: 5 }]
    );
}

#[test]
fn counters_are_zero() {
    let b = BareMetal::new();
    assert_eq!(
        b.queue_stats(),
        QueueStats {
            queue_count: 0,
            pending_messages: 0,
            messages_sent: 0,
            messages_received: 0,
            zero_copy_count: 0
        }
    );
    assert_eq!(
        b.vector_stats(),
        VectorStats {
            store_count: 0,
            vector_count: 0,
            total_dimensions: 0,
            memory_bytes: 0,
            reads: 0,
            writes: 0
        }
    );
    assert_eq!(
        b.proof_stats(),
        ProofStats {
            generated: 0,
            verified: 0,
            rejected: 0,
            cache_entries: 0,
            cache_hits: 0,
            cache_misses: 0,
            tier0_count: 0,
            tier1_count: 0,
            tier2_count: 0
        }
    );
    assert_eq!(
        b.perf_counters(),
        PerfCounters {
            syscalls: 0,
            context_switches: 0,
            interrupts: 0,
            page_faults: 0,
            ipi_sent: 0,
            cpu_cycles: 0
        }
    );
}

#[test]
fn capability_and_witness_tables_are_empty() {
    let b = BareMetal::new();
    assert!(b.capability_entries(None).is_empty());
    assert!(b.capability_entries(Some(0)).is_empty());
    assert!(b.witness_entries(0).is_empty());
    assert!(b.witness_entries(16).is_empty());
}

#[test]
fn reboot_writes_notice_and_keeps_state() {
    let mut b = BareMetal::new();
    b.set_trace(true);
    let mut out = vec![b'>'];
    b.reboot(&mut out);
    assert_eq!(out, b">\r\nRebooting system...\r\n".to_vec());
    assert_eq!(REBOOT_MESSAGE, "\nRebooting system...\n");
    assert!(b.trace_enabled());
}

#[test]
fn rx_ready_follows_fifo_empty_bit() {
    assert!(BareMetal::rx_ready(0));
    assert!(!BareMetal::rx_ready(0x10));
    assert!(BareMetal::rx_ready(0xFFFF_FFEF));
    assert!(!BareMetal::rx_ready(0xFFFF_FFFF));
    assert!(BareMetal::rx_ready(0x80));
}

#[test]
fn uart_register_addresses() {
    assert_eq!(UART_BASE, 0x0900_0000);
    assert_eq!(UART_DR, 0x0900_0000);
    assert_eq!(UART_FR, 0x0900_0018);
    assert_eq!(UART_FR_RXFE, 1 << 4);
}
