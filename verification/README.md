# ruvix_kernel

Verified console and shell-backend logic of the RuVix AArch64 boot image.

- `src/uart.rs`: the PL011 transmit encoding (CR before every LF) and its laws.
- `src/boot.rs`: the boot banner and the panic message.
- `src/shell.rs`: console line editing (echo, backspace, Ctrl+C, Enter).
- `src/backend.rs`: the bare-metal shell backend: trace switch, clock,
  fixed board reports, and the UART receive-ready test.
- `app/main.rs`: the unverified edge: register access, the kernel entry
  point, the panic hook and halting the CPU.
