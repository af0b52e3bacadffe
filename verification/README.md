# emu_studio

A verified library for a small collection of tools: a 6502/NES CPU core with
its trace format, the NES APU's sound channels, the emulator's save-state
format and debug panel text, a GGUF model-file parser, a local model
registry, Hugging Face URL and file selection logic, chat prompt templates,
the messages of an OpenAI-style chat server, a media explorer's tree view and
catalog counts, and a markdown-to-text renderer.

Every function in `src/` is checked by Verus against its `requires`/`ensures`
contract. Properties that relate several functions (the CPU's stack and
arithmetic laws, runs of several instructions, PRG-RAM read-back, save/load
round trips of channel and emulator state, RAM
mirroring, the tree view's navigation) are stated as public proof functions
next to the code they are about.

Layout:

- `src/nes_cpu/` — bus, cartridge parsing, opcode table, CPU semantics and
  trace lines, binary state helpers.
- `src/nes_apu/` — envelope, sweep, length counter, pulse, triangle, noise,
  DMC and frame counter, and the channels together.
- `src/nes_emu/` — the save-state file, the debug panel's text, joypad input.
- `src/llm/` — GGUF parsing, model registry, Hugging Face helpers, chat
  templates, chat server messages and generation decisions.
- `src/media/` — media report values, the tree view (building, flattening,
  navigation, colours) and catalog tallies.
- `src/markdown.rs`, `src/text.rs`, `src/sort.rs`, `src/paths.rs` —
  rendering, shared text and sorting helpers, file names of paths.
- `app/` — the command-line front end: files, network, terminal, the
  OpenAI-style HTTP server (axum; it links no inference engine, so it
  answers as a server with no model loaded), and the floating-point parts
  (audio mixing, size and rate formatting).
- `tests/` — tests run against the compiled library.
