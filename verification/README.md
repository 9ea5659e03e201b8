# embedded-wasm-uart

A UART echo for the RP2350 (Pico 2): a WebAssembly component reads bytes
over a typed `embedded:platform/uart` interface and echoes them back, and
the bare-metal firmware runs that component on wasmtime's Pulley
interpreter.

- `src/` — the verified library:
  - `echo.rs`: what the terminal is sent for each received byte
    (BS/DEL erase with BS, space, BS; CR/LF become CR+LF; everything else
    is sent back), and the laws of the echo over whole streams;
  - `report.rs`: the report written over UART when the firmware panics,
    handed out piece by piece so that the panic path need not allocate;
  - `engine.rs`: the Pulley engine settings and the engine built from them.
- `app/` — the firmware and the guest component around the library:
  hardware set-up, the UART driver, the wasmtime runtime plumbing and the
  guest's read/echo loop.
- `tests/` — tests of the library on concrete inputs.
