//! Console output of the boot path: the banner printed once the kernel is
//! entered, and the message printed when the kernel panics.

use vstd::prelude::*;
use vstd::string::StringSliceAdditionalSpecFns;

use crate::backend::{board_memory, MIB};
use crate::uart::{crlf_encode, lemma_crlf_encode_concat, uart_puts};

verus! {

/// Message written to the console when the kernel panics.
pub const PANIC_MESSAGE: &'static str = "\n!!! KERNEL PANIC !!!\n";

/// The banner, line by line, in the order it is printed.
pub open spec fn banner_lines() -> Seq<&'static str> {
    seq![
        "\n",
        "================================================================\n",
        "  RuVix Cognition Kernel v0.1.0\n",
        "  An Operating System for the Agentic Age\n",
        "  Built by SuperClaw · github.com/dlhiwig/ruvector\n",
        "================================================================\n",
        "\n",
        "  [BOOT] _start (EL2 -> EL1) ..... OK\n",
        "  [BOOT] BSS cleared .............. OK\n",
        "  [BOOT] Stack (64KB) ............. OK\n",
        "  [BOOT] UART (PL011@0x09000000) .. OK\n",
        "  [BOOT] Heap allocator ........... OK\n",
        "\n",
        "  [INFO] Architecture: AArch64\n",
        "  [INFO] Machine: QEMU virt\n",
        "  [INFO] CPU: Cortex-A72\n",
        "  [INFO] RAM: 128 MiB @ 0x40000000\n",
        "  [INFO] Kernel base: 0x40000000\n",
        "\n",
        "  [INIT] 6 Kernel Primitives:\n",
        "         Task .................... ready\n",
        "         Capability .............. ready\n",
        "         Region .................. ready\n",
        "         Queue ................... ready\n",
        "         Timer ................... ready\n",
        "         Proof ................... ready\n",
        "\n",
        "  [INIT] 12 Syscalls registered\n",
        "  [INIT] Proof engine: 3-tier (Reflex/Standard/Deep)\n",
        "  [INIT] Witness log: append-only, crypto-linked\n",
        "  [INIT] Debug Shell initialized\n",
        "\n",
        "  +==========================================+\n",
        "  |  RuVix Cognition Kernel ONLINE           |\n",
        "  |  Every mutation is proof-gated.           |\n",
        "  |  No proof, no mutation. Period.           |\n",
        "  +==========================================+\n",
        "\n",
        "ruvix> _\n",
    ]
}

/// What the device receives for a sequence of lines written one after the
/// other.
pub open spec fn crlf_lines(lines: Seq<&'static str>) -> Seq<u8>
    decreases lines.len(),
{
    if lines.len() == 0 {
        Seq::empty()
    } else {
        crlf_lines(lines.drop_last()) + crlf_encode(lines.last().spec_bytes())
    }
}

/// The bytes of all `lines`, one after the other.
pub open spec fn lines_bytes(lines: Seq<&'static str>) -> Seq<u8>
    decreases lines.len(),
{
    if lines.len() == 0 {
        Seq::empty()
    } else {
        lines_bytes(lines.drop_last()) + lines.last().spec_bytes()
    }
}

/// Writing lines one by one puts the same bytes on the wire as writing
/// their concatenation at once.
pub proof fn lemma_crlf_lines_concat(lines: Seq<&'static str>)
    ensures
        crlf_lines(lines) == crlf_encode(lines_bytes(lines)),
    decreases lines.len(),
{
    if lines.len() > 0 {
        lemma_crlf_lines_concat(lines.drop_last());
        lemma_crlf_encode_concat(lines_bytes(lines.drop_last()), lines.last().spec_bytes());
    }
}

/// The banner reads, line by line, exactly as follows.
pub proof fn lemma_banner_text()
    ensures
        banner_lines() == seq![
            "\n",
            "================================================================\n",
            "  RuVix Cognition Kernel v0.1.0\n",
            "  An Operating System for the Agentic Age\n",
            "  Built by SuperClaw · github.com/dlhiwig/ruvector\n",
            "================================================================\n",
            "\n",
            "  [BOOT] _start (EL2 -> EL1) ..... OK\n",
            "  [BOOT] BSS cleared .............. OK\n",
            "  [BOOT] Stack (64KB) ............. OK\n",
            "  [BOOT] UART (PL011@0x09000000) .. OK\n",
            "  [BOOT] Heap allocator ........... OK\n",
            "\n",
            "  [INFO] Architecture: AArch64\n",
            "  [INFO] Machine: QEMU virt\n",
            "  [INFO] CPU: Cortex-A72\n",
            "  [INFO] RAM: 128 MiB @ 0x40000000\n",
            "  [INFO] Kernel base: 0x40000000\n",
            "\n",
            "  [INIT] 6 Kernel Primitives:\n",
            "         Task .................... ready\n",
            "         Capability .............. ready\n",
            "         Region .................. ready\n",
            "         Queue ................... ready\n",
            "         Timer ................... ready\n",
            "         Proof ................... ready\n",
            "\n",
            "  [INIT] 12 Syscalls registered\n",
            "  [INIT] Proof engine: 3-tier (Reflex/Standard/Deep)\n",
            "  [INIT] Witness log: append-only, crypto-linked\n",
            "  [INIT] Debug Shell initialized\n",
            "\n",
            "  +==========================================+\n",
            "  |  RuVix Cognition Kernel ONLINE           |\n",
            "  |  Every mutation is proof-gated.           |\n",
            "  |  No proof, no mutation. Period.           |\n",
            "  +==========================================+\n",
            "\n",
            "ruvix> _\n",
        ],
{
}

/// The RAM size that the banner announces, in MiB, is the total memory that
/// the backend reports: the digits at columns 14 to 16 of the RAM line are
/// the decimal digits of `board_memory().total_bytes / MIB`.
pub proof fn lemma_banner_ram_matches_memory()
    ensures
        ({
            let l = banner_lines()[16].spec_bytes();
            let mib = board_memory().total_bytes / MIB;
            &&& mib < 1000
            &&& l.subrange(14, 17) == seq![
                (48 + mib / 100) as u8,
                (48 + (mib / 10) % 10) as u8,
                (48 + mib % 10) as u8,
            ]
            &&& l.subrange(0, 14) =~= "  [INFO] RAM: ".spec_bytes()
            &&& l.subrange(17, 22) =~= " MiB ".spec_bytes()
        }),
{
    let ram = "  [INFO] RAM: 128 MiB @ 0x40000000\n";
    reveal_strlit("  [INFO] RAM: 128 MiB @ 0x40000000\n");
    reveal_strlit("  [INFO] RAM: ");
    reveal_strlit(" MiB ");
    vstd::string::is_ascii_spec_bytes(ram);
    vstd::string::is_ascii_spec_bytes("  [INFO] RAM: ");
    vstd::string::is_ascii_spec_bytes(" MiB ");
    assert(banner_lines()[16] == ram);
}

/// The banner lines.
pub fn boot_banner_lines() -> (v: Vec<&'static str>)
    ensures
        v@ == banner_lines(),
{
    vec![
        "\n",
        "================================================================\n",
        "  RuVix Cognition Kernel v0.1.0\n",
        "  An Operating System for the Agentic Age\n",
        "  Built by SuperClaw · github.com/dlhiwig/ruvector\n",
        "================================================================\n",
        "\n",
        "  [BOOT] _start (EL2 -> EL1) ..... OK\n",
        "  [BOOT] BSS cleared .............. OK\n",
        "  [BOOT] Stack (64KB) ............. OK\n",
        "  [BOOT] UART (PL011@0x09000000) .. OK\n",
        "  [BOOT] Heap allocator ........... OK\n",
        "\n",
        "  [INFO] Architecture: AArch64\n",
        "  [INFO] Machine: QEMU virt\n",
        "  [INFO] CPU: Cortex-A72\n",
        "  [INFO] RAM: 128 MiB @ 0x40000000\n",
        "  [INFO] Kernel base: 0x40000000\n",
        "\n",
        "  [INIT] 6 Kernel Primitives:\n",
        "         Task .................... ready\n",
        "         Capability .............. ready\n",
        "         Region .................. ready\n",
        "         Queue ................... ready\n",
        "         Timer ................... ready\n",
        "         Proof ................... ready\n",
        "\n",
        "  [INIT] 12 Syscalls registered\n",
        "  [INIT] Proof engine: 3-tier (Reflex/Standard/Deep)\n",
        "  [INIT] Witness log: append-only, crypto-linked\n",
        "  [INIT] Debug Shell initialized\n",
        "\n",
        "  +==========================================+\n",
        "  |  RuVix Cognition Kernel ONLINE           |\n",
        "  |  Every mutation is proof-gated.           |\n",
        "  |  No proof, no mutation. Period.           |\n",
        "  +==========================================+\n",
        "\n",
        "ruvix> _\n",
    ]
}

/// Writes every line of `lines`, in order, to the transmit stream.
pub fn uart_put_lines(out: &mut Vec<u8>, lines: &Vec<&'static str>)
    ensures
        final(out)@ == old(out)@ + crlf_lines(lines@),
{
    let n = lines.len();
    let mut i: usize = 0;
    while i < n
        invariant
            n == lines@.len(),
            i <= n,
            out@ == old(out)@ + crlf_lines(lines@.take(i as int)),
        decreases n - i,
    {
        assert(lines@.take(i + 1).drop_last() =~= lines@.take(i as int));
        uart_puts(out, lines[i]);
        i = i + 1;
        assert(out@ =~= old(out)@ + crlf_lines(lines@.take(i as int)));
    }
    assert(lines@.take(n as int) =~= lines@);
}

/// Writes the boot banner to the transmit stream.
pub fn boot_banner(out: &mut Vec<u8>)
    ensures
        final(out)@ == old(out)@ + crlf_lines(banner_lines()),
{
    let lines = boot_banner_lines();
    uart_put_lines(out, &lines);
}

/// Writes the panic message to the transmit stream.
pub fn panic_banner(out: &mut Vec<u8>)
    ensures
        final(out)@ == old(out)@ + crlf_encode(PANIC_MESSAGE.spec_bytes()),
{
    uart_puts(out, PANIC_MESSAGE);
}

} // verus!
