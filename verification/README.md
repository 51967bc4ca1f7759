# evegfx

A driver library for the EVE family of graphics controllers (FT8xx, BT81x),
written in Verus: the library in `src/` is verified, its behaviour stated in
`requires`/`ensures` contracts and proved.

## Layout

- `src/memory` — pointers into the regions of an EVE memory map, with the
  region arithmetic (offsets taken modulo the region length).
- `src/models` — the memory maps of the supported models (`BT815`, and a
  fake model for tests), each proving that its layout is valid.
- `src/interface` — the `Interface` trait that hardware adapters implement.
  Its contracts speak of an abstract log of the operations performed on the
  interface; a fake interface over a RAM buffer is included.
- `src/low_level` — `LowLevel`: sized little-endian memory accesses, host
  commands and the display list cursor.
- `src/display_list` — display list command encodings and the `Builder`
  trait, whose contracts speak of the log of commands appended.
- `src/config` — the initialization sequences (system clock, boot polling,
  video timings, video pins) as exact traces of interface operations.
- `src/commands` — coprocessor command options, the packing of bytes into
  command words, and the decision of a buffer-space poll.
- `src/format_string` — the tokenizer of EVE format strings and the planning
  of the message that a format string with arguments becomes.
- `app/` — an unverified command-line test bed: SPI adapters (SPIDriver and
  `embedded-hal`), logging wrappers, the busy-wait loop, the token
  generation of the `eve_format!` macro and the floating-point helpers.
