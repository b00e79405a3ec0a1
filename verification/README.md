# emu8080

An Intel 8080 toolchain written in Verus: an assembler for a small assembly syntax, the
binary encoding and decoding of instructions, and a CPU that executes them. Every function
of the library is verified against a contract stated over mathematical models.

## Layout

- `src/bits.rs`: two's-complement bytes and words, and their bits.
- `src/assembler/parser.rs`: commands, registers, register pairs and instructions, and the
  binary form of an instruction (`Instruction::encode`).
- `src/assembler/source.rs`: `parse`, which turns a source text into instructions and
  labels, or says why it does not assemble.
- `src/assembler/mod.rs`: decoding a binary program back into instructions keyed by address.
- `src/assembler/roundtrip.rs`: the proof that decoding an encoded program gives back its
  instructions under their addresses.
- `src/cpu/state.rs`: the abstract processor state and what each instruction, a step and a
  run do to it.
- `src/cpu/mod.rs`: the executable `Cpu`, each operation proved to match `state.rs`.
- `src/cpu/laws.rs`: properties of the instruction set (one instruction undoing another,
  what a step and a run leave behind).
- `app/main.rs`: the program: it assembles `test.asm` into `output`, reads it back, and runs
  it until HLT (`--print` shows every step).

## Assembly syntax

- One instruction per line. A `;` starts a comment that runs to the end of the line.
- Tokens are separated by spaces, tabs, carriage returns or commas.
- A line may start with a label, `name:`. A label records the index of the instruction on
  its line; it may not repeat an earlier label, nor be named like a mnemonic or a register.
- Mnemonics and register names are upper case: `A B C D E H L M`. Register pairs are written
  `B` (BC), `D` (DE), `H` (HL), `SP` and `PSW`.
- Immediates are written in binary, most significant bit first, every character other than
  `0` counting as a one (`MVI A, 00011100`). 16-bit operands (LXI, STA, LDA, SHLD, LHLD and
  the jumps) take sixteen or more digits, of which the first sixteen count; jump targets are
  addresses, not labels.

## Running

A step executes the instruction at the program counter and moves the counter past it (a jump
sets it instead). A run stops at HLT, at an address without an instruction, at an
instruction that cannot be executed in the current state, or where the counter would pass
65535.
