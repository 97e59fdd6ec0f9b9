use asm_lsp::{Arch, Assembler, NameToInfoMaps};
use asm_query::{clean_text, describe, Architecture, Catalog, Config, Dialect};

fn loaded(arch: Arch, dialect: Assembler) -> NameToInfoMaps {
    let mut maps = NameToInfoMaps::default();
    arch.setup_instructions(None, &mut maps.instructions);
    arch.setup_registers(&mut maps.registers);
    dialect.setup_directives(&mut maps.directives);
    if dialect == Assembler::Mars {
        Arch::Mips.setup_instructions(Some(Assembler::Mars), &mut maps.instructions);
    }
    maps
}

/// The markup of what a table of instructions or of registers holds for a
/// lower-cased word: one key for most instruction sets, the keys of both x86
/// sets where both are active.
fn found_in<T: std::fmt::Display>(
    table: &std::collections::HashMap<(Arch, String), T>,
    isa: Arch,
    name: &str,
) -> Option<String> {
    if isa != Arch::X86_AND_X86_64 {
        return table.get(&(isa, name.to_string())).map(|found| found.to_string());
    }
    let narrow = table.get(&(Arch::X86, name.to_string()));
    let wide = table.get(&(Arch::X86_64, name.to_string()));
    match (narrow, wide) {
        (Some(narrow), Some(wide)) => Some(format!("{}\n\n{}", narrow, wide)),
        (Some(found), None) | (None, Some(found)) => Some(found.to_string()),
        (None, None) => None,
    }
}

/// The markup that a word is owed: that of an instruction first, then that of
/// a directive, then that of a register that no directive hides. Under NASM
/// a directive that bears the word with a `%` before it hides the register
/// too.
fn owed(maps: &NameToInfoMaps, isa: Arch, dialect: Assembler, word: &str) -> Option<String> {
    let name = word.to_ascii_lowercase();
    if let Some(markup) = found_in(&maps.instructions, isa, &name) {
        return Some(markup);
    }
    if let Some(directive) = maps.directives.get(&(dialect, name.clone())) {
        if dialect != Assembler::Go {
            return Some(directive.to_string());
        }
    }
    let hidden = maps.directives.contains_key(&(dialect, name.clone()))
        || (dialect == Assembler::Nasm && maps.directives.contains_key(&(dialect, format!("%{}", name))));
    if hidden || (isa == Arch::ARM64 && word.contains('.')) {
        return None;
    }
    found_in(&maps.registers, isa, &name)
}

fn check_every_name(arch: Architecture, dialect: Dialect, step: usize) {
    let maps = loaded(arch.to_tag(), dialect.to_tag());
    let catalog = Catalog::build(&vec![arch], &vec![dialect]);
    let config = Config { assembler: dialect, instruction_set: arch };
    let mut words: Vec<String> = Vec::new();
    words.extend(maps.instructions.keys().map(|key| key.1.clone()));
    words.extend(maps.registers.keys().map(|key| key.1.clone()));
    words.extend(maps.directives.keys().map(|key| key.1.clone()));
    words.extend(maps.directives.keys().map(|key| key.1.trim_start_matches('%').to_string()));
    words.sort();
    words.dedup();
    let mut checked = 0;
    for word in words.iter().step_by(step) {
        for word in [word.clone(), word.to_ascii_uppercase()] {
            if let Some(markup) = owed(&maps, arch.to_tag(), dialect.to_tag(), &word) {
                let answer = describe(&catalog, &config, "/tmp", &word);
                assert_eq!(answer.ok(), Some(clean_text(&markup)), "{:?} {:?} {:?}", arch, dialect, word);
                checked += 1;
            }
        }
    }
    assert!(checked > 0, "{:?} {:?}", arch, dialect);
}

#[test]
fn riscv_names_are_described_from_their_tables() {
    check_every_name(Architecture::RISCV, Dialect::Gas, 1);
}

#[test]
fn mips_names_are_described_from_their_tables() {
    check_every_name(Architecture::Mips, Dialect::Mars, 1);
}

#[test]
fn z80_names_are_described_from_their_tables() {
    check_every_name(Architecture::Z80, Dialect::Fasm, 1);
}

#[test]
fn mos6502_names_are_described_from_their_tables() {
    check_every_name(Architecture::MOS6502, Dialect::Ca65, 1);
}

#[test]
fn avr_names_are_described_from_their_tables() {
    check_every_name(Architecture::Avr, Dialect::Avr, 1);
}

#[test]
fn power_isa_names_are_described_from_their_tables() {
    check_every_name(Architecture::PowerISA, Dialect::Go, 40);
}

#[test]
fn arm_names_are_described_from_their_tables() {
    check_every_name(Architecture::ARM, Dialect::Gas, 40);
}

#[test]
fn arm64_names_are_described_from_their_tables() {
    check_every_name(Architecture::ARM64, Dialect::Gas, 40);
}

#[test]
fn x86_names_are_described_from_their_tables() {
    check_every_name(Architecture::X86, Dialect::Masm, 80);
}

#[test]
fn x86_64_names_are_described_from_their_tables() {
    check_every_name(Architecture::X86_64, Dialect::Nasm, 80);
}

#[test]
fn names_of_both_x86_sets_are_described_from_their_tables() {
    check_every_name(Architecture::X86_AND_X86_64, Dialect::Nasm, 160);
}
