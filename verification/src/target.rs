//! The instruction sets and assemblers a catalog can be built for.

use vstd::prelude::*;

verus! {

/// `asm_lsp`'s own tag for an instruction set. It keys the instruction and
/// register tables, and has one variant more than [`Architecture`]: `None`, a
/// placeholder that has no tables.
#[verifier::external_type_specification]
pub struct ExArch(asm_lsp::Arch);

/// `asm_lsp`'s own tag for an assembler. It keys the directive table, and has
/// one variant more than [`Dialect`]: `None`, a placeholder that has no table.
#[verifier::external_type_specification]
pub struct ExAssembler(asm_lsp::Assembler);

/// An instruction-set family with its own instruction and register tables.
#[allow(non_camel_case_types)]
#[derive(Clone, Copy, Debug, PartialEq, Eq, Hash, Structural)]
pub enum Architecture {
    X86,
    X86_64,
    /// Both `X86` and `X86_64`.
    X86_AND_X86_64,
    ARM,
    ARM64,
    RISCV,
    Z80,
    MOS6502,
    PowerISA,
    Avr,
    Mips,
}

/// An assembler toolchain or dialect with its own directive table.
#[derive(Clone, Copy, Debug, PartialEq, Eq, Hash, Structural)]
pub enum Dialect {
    Avr,
    Ca65,
    Fasm,
    Gas,
    Go,
    /// The MARS simulator, a dialect of MIPS assembly with pseudo-instructions
    /// of its own.
    Mars,
    Masm,
    Nasm,
}

impl Architecture {
    /// The tag under which `asm_lsp` knows this instruction set.
    pub open spec fn tag(self) -> asm_lsp::Arch {
        match self {
            Architecture::X86 => asm_lsp::Arch::X86,
            Architecture::X86_64 => asm_lsp::Arch::X86_64,
            Architecture::X86_AND_X86_64 => asm_lsp::Arch::X86_AND_X86_64,
            Architecture::ARM => asm_lsp::Arch::ARM,
            Architecture::ARM64 => asm_lsp::Arch::ARM64,
            Architecture::RISCV => asm_lsp::Arch::RISCV,
            Architecture::Z80 => asm_lsp::Arch::Z80,
            Architecture::MOS6502 => asm_lsp::Arch::MOS6502,
            Architecture::PowerISA => asm_lsp::Arch::PowerISA,
            Architecture::Avr => asm_lsp::Arch::Avr,
            Architecture::Mips => asm_lsp::Arch::Mips,
        }
    }

    /// Converts to `asm_lsp`'s tag; the placeholder is never the result.
    pub fn to_tag(self) -> (tag: asm_lsp::Arch)
        ensures
            tag == self.tag(),
            tag != asm_lsp::Arch::None,
    {
        match self {
            Architecture::X86 => asm_lsp::Arch::X86,
            Architecture::X86_64 => asm_lsp::Arch::X86_64,
            Architecture::X86_AND_X86_64 => asm_lsp::Arch::X86_AND_X86_64,
            Architecture::ARM => asm_lsp::Arch::ARM,
            Architecture::ARM64 => asm_lsp::Arch::ARM64,
            Architecture::RISCV => asm_lsp::Arch::RISCV,
            Architecture::Z80 => asm_lsp::Arch::Z80,
            Architecture::MOS6502 => asm_lsp::Arch::MOS6502,
            Architecture::PowerISA => asm_lsp::Arch::PowerISA,
            Architecture::Avr => asm_lsp::Arch::Avr,
            Architecture::Mips => asm_lsp::Arch::Mips,
        }
    }
}

impl Dialect {
    /// The tag under which `asm_lsp` knows this assembler.
    pub open spec fn tag(self) -> asm_lsp::Assembler {
        match self {
            Dialect::Avr => asm_lsp::Assembler::Avr,
            Dialect::Ca65 => asm_lsp::Assembler::Ca65,
            Dialect::Fasm => asm_lsp::Assembler::Fasm,
            Dialect::Gas => asm_lsp::Assembler::Gas,
            Dialect::Go => asm_lsp::Assembler::Go,
            Dialect::Mars => asm_lsp::Assembler::Mars,
            Dialect::Masm => asm_lsp::Assembler::Masm,
            Dialect::Nasm => asm_lsp::Assembler::Nasm,
        }
    }

    /// Converts to `asm_lsp`'s tag; the placeholder is never the result.
    pub fn to_tag(self) -> (tag: asm_lsp::Assembler)
        ensures
            tag == self.tag(),
            tag != asm_lsp::Assembler::None,
    {
        match self {
            Dialect::Avr => asm_lsp::Assembler::Avr,
            Dialect::Ca65 => asm_lsp::Assembler::Ca65,
            Dialect::Fasm => asm_lsp::Assembler::Fasm,
            Dialect::Gas => asm_lsp::Assembler::Gas,
            Dialect::Go => asm_lsp::Assembler::Go,
            Dialect::Mars => asm_lsp::Assembler::Mars,
            Dialect::Masm => asm_lsp::Assembler::Masm,
            Dialect::Nasm => asm_lsp::Assembler::Nasm,
        }
    }

    /// Whether this is the MARS dialect.
    pub fn is_mars(self) -> (mars: bool)
        ensures
            mars == (self == Dialect::Mars),
    {
        match self {
            Dialect::Mars => true,
            _ => false,
        }
    }
}

} // verus!
