# rvhwfuzzer

Verified building blocks of a RISC-V hardware fuzzing tool chain, written in Verus.

- `segment_tree`, `interval_tree`: sparse program memory as sorted, merged intervals of bytes
  that remember the first value written to each address.
- `encoding`: the RV32IF instruction words: operand fields, decoding, encoding and assembly text.
- `kiwi`: the instruction set description format: bit patterns, the check of a description read
  from TOML (its types and formats too), and the Rust source generated for operand structs.
- `risico`: the emulator's machine model: typed values, memory stores and their byte orders,
  caches, trap settings, control and status registers (and the register file by number), the
  execution of one instruction, device descriptions and the memory plan
  of their sections, the protocol of process-backed memory, the command line values, the
  decisions of environment calls, and the loading and listing of RISC-V ELF programs (read by
  the `object` crate).
- `rsoftfloat`: single precision floats as bit patterns.
- `generation`: the choices of the program generator, made from drawn random bits: registers by
  recency, never-taken and always-taken branches, memory base registers and offsets.
- `digits`, `program_memory`: numbers as text, and the memory of a generated program.

`app/` reads TOML and ELF files and the command line and prints what the library computes.
