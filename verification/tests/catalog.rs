use asm_query::{query_list, Architecture, Catalog, Dialect, NameLists};

const ALL_ARCHS: [Architecture; 11] = [
    Architecture::X86,
    Architecture::X86_64,
    Architecture::X86_AND_X86_64,
    Architecture::ARM,
    Architecture::ARM64,
    Architecture::RISCV,
    Architecture::Z80,
    Architecture::MOS6502,
    Architecture::PowerISA,
    Architecture::Avr,
    Architecture::Mips,
];

const ALL_DIALECTS: [Dialect; 8] = [
    Dialect::Avr,
    Dialect::Ca65,
    Dialect::Fasm,
    Dialect::Gas,
    Dialect::Go,
    Dialect::Mars,
    Dialect::Masm,
    Dialect::Nasm,
];

fn sorted(names: &Vec<String>) -> Vec<String> {
    let mut names = names.clone();
    names.sort();
    names
}

fn has_duplicates(names: &Vec<String>) -> bool {
    let names = sorted(names);
    names.windows(2).any(|pair| pair[0] == pair[1])
}

fn same_names(left: &NameLists, right: &NameLists) -> bool {
    sorted(&left.registers) == sorted(&right.registers)
        && sorted(&left.directives) == sorted(&right.directives)
        && sorted(&left.instructions) == sorted(&right.instructions)
}

/// The names that `asm_lsp` holds when its loading routines are called by
/// hand, in the order of the lists.
fn loaded_by_hand(archs: &[asm_lsp::Arch], dialects: &[asm_lsp::Assembler]) -> NameLists {
    let mut maps = asm_lsp::NameToInfoMaps::default();
    for arch in archs {
        arch.setup_instructions(None, &mut maps.instructions);
        arch.setup_registers(&mut maps.registers);
    }
    for dialect in dialects {
        dialect.setup_directives(&mut maps.directives);
        if *dialect == asm_lsp::Assembler::Mars {
            asm_lsp::Arch::Mips.setup_instructions(Some(asm_lsp::Assembler::Mars), &mut maps.instructions);
        }
    }
    NameLists {
        registers: maps.registers.values().map(|info| info.name.clone()).collect(),
        directives: maps.directives.values().map(|info| info.name.clone()).collect(),
        instructions: maps.instructions.values().map(|info| info.name.clone()).collect(),
    }
}

#[test]
fn empty_catalog_lists_nothing() {
    let names = Catalog::new().list_all();
    assert!(names.registers.is_empty());
    assert!(names.directives.is_empty());
    assert!(names.instructions.is_empty());
    assert_eq!(names.render(), "\n\n");
}

#[test]
fn empty_lists_build_an_empty_catalog() {
    let names = Catalog::build(&vec![], &vec![]).list_all();
    assert!(names.registers.is_empty());
    assert!(names.directives.is_empty());
    assert!(names.instructions.is_empty());
    assert_eq!(query_list(&vec![], &vec![]), "\n\n");
}

#[test]
fn no_instruction_set_leaves_two_tables_empty() {
    let names = Catalog::build(&vec![], &vec![Dialect::Gas]).list_all();
    assert!(names.registers.is_empty());
    assert!(names.instructions.is_empty());
    assert!(!names.directives.is_empty());
}

#[test]
fn no_assembler_leaves_the_directives_empty() {
    let names = Catalog::build(&vec![Architecture::RISCV], &vec![]).list_all();
    assert!(!names.registers.is_empty());
    assert!(!names.instructions.is_empty());
    assert!(names.directives.is_empty());
}

#[test]
fn riscv_with_gas_lists_every_group_without_duplicates() {
    let names = Catalog::build(&vec![Architecture::RISCV], &vec![Dialect::Gas]).list_all();
    assert!(!names.registers.is_empty());
    assert!(!names.directives.is_empty());
    assert!(!names.instructions.is_empty());
    assert!(!has_duplicates(&names.registers));
    assert!(!has_duplicates(&names.directives));
    assert!(!has_duplicates(&names.instructions));
    assert!(names.instructions.contains(&"add".to_string()));
    assert!(names.registers.contains(&"x0".to_string()));
    assert!(names.directives.contains(&".align".to_string()));
}

#[test]
fn riscv_with_gas_prints_registers_then_directives_then_instructions() {
    let names = Catalog::build(&vec![Architecture::RISCV], &vec![Dialect::Gas]).list_all();
    let text = query_list(&vec![Architecture::RISCV], &vec![Dialect::Gas]);
    let lines: Vec<String> = text.split('\n').map(String::from).collect();
    let registers = names.registers.len();
    let directives = names.directives.len();
    assert_eq!(lines.len(), registers + directives + names.instructions.len());
    assert_eq!(sorted(&lines[..registers].to_vec()), sorted(&names.registers));
    assert_eq!(sorted(&lines[registers..registers + directives].to_vec()), sorted(&names.directives));
    assert_eq!(sorted(&lines[registers + directives..].to_vec()), sorted(&names.instructions));
}

#[test]
fn rendering_keeps_the_order_of_each_group() {
    let names = NameLists {
        registers: vec!["r1".to_string(), "r0".to_string()],
        directives: vec![],
        instructions: vec!["nop".to_string()],
    };
    assert_eq!(names.render(), "r1\nr0\n\nnop");
    let names = NameLists {
        registers: vec!["a".to_string()],
        directives: vec![".b".to_string(), ".c".to_string()],
        instructions: vec!["d".to_string(), "e".to_string(), "f".to_string()],
    };
    assert_eq!(names.render(), "a\n.b\n.c\nd\ne\nf");
}

#[test]
fn building_twice_gives_the_same_catalog() {
    let archs = vec![Architecture::Mips, Architecture::RISCV];
    let dialects = vec![Dialect::Gas, Dialect::Mars];
    let first = Catalog::build(&archs, &dialects).list_all();
    let second = Catalog::build(&archs, &dialects).list_all();
    assert!(same_names(&first, &second));
}

#[test]
fn every_instruction_set_loads_what_asm_lsp_holds() {
    for arch in ALL_ARCHS {
        let names = Catalog::build(&vec![arch], &vec![]).list_all();
        let by_hand = loaded_by_hand(&[arch.to_tag()], &[]);
        assert!(!names.registers.is_empty(), "{:?}", arch);
        assert!(!names.instructions.is_empty(), "{:?}", arch);
        assert!(same_names(&names, &by_hand), "{:?}", arch);
    }
}

#[test]
fn every_assembler_loads_what_asm_lsp_holds() {
    for dialect in ALL_DIALECTS {
        let names = Catalog::build(&vec![], &vec![dialect]).list_all();
        let by_hand = loaded_by_hand(&[], &[dialect.to_tag()]);
        assert!(same_names(&names, &by_hand), "{:?}", dialect);
        assert_eq!(names.directives.is_empty(), dialect == Dialect::Go, "{:?}", dialect);
    }
}

#[test]
fn several_sets_merge_as_asm_lsp_merges_them() {
    let archs = vec![Architecture::X86, Architecture::Mips, Architecture::X86_AND_X86_64, Architecture::ARM64];
    let dialects = vec![Dialect::Nasm, Dialect::Mars, Dialect::Gas];
    let names = Catalog::build(&archs, &dialects).list_all();
    let tags: Vec<asm_lsp::Arch> = archs.iter().map(|arch| arch.to_tag()).collect();
    let dialect_tags: Vec<asm_lsp::Assembler> = dialects.iter().map(|dialect| dialect.to_tag()).collect();
    assert!(same_names(&names, &loaded_by_hand(&tags, &dialect_tags)));
}

#[test]
fn an_entry_listed_twice_counts_once() {
    let once = Catalog::build(&vec![Architecture::RISCV], &vec![Dialect::Gas]).list_all();
    let twice = Catalog::build(
        &vec![Architecture::RISCV, Architecture::RISCV],
        &vec![Dialect::Gas, Dialect::Gas],
    )
    .list_all();
    assert!(same_names(&once, &twice));
}

#[test]
fn a_later_set_overwrites_the_keys_it_shares() {
    let both = Catalog::build(&vec![Architecture::X86_AND_X86_64], &vec![]).list_all();
    let after = Catalog::build(&vec![Architecture::X86, Architecture::X86_AND_X86_64], &vec![]).list_all();
    let before = Catalog::build(&vec![Architecture::X86_AND_X86_64, Architecture::X86_64], &vec![]).list_all();
    assert!(same_names(&both, &after));
    assert!(same_names(&both, &before));
}

#[test]
fn sets_with_keys_of_their_own_add_up() {
    let arm = Catalog::build(&vec![Architecture::ARM], &vec![]).list_all();
    let riscv = Catalog::build(&vec![Architecture::RISCV], &vec![]).list_all();
    let both = Catalog::build(&vec![Architecture::ARM, Architecture::RISCV], &vec![]).list_all();
    assert_eq!(both.instructions.len(), arm.instructions.len() + riscv.instructions.len());
    assert_eq!(both.registers.len(), arm.registers.len() + riscv.registers.len());
}

#[test]
fn mars_brings_its_instructions_on_top_of_mips() {
    let plain = Catalog::build(&vec![Architecture::Mips], &vec![Dialect::Gas]).list_all();
    let overlaid = Catalog::build(&vec![Architecture::Mips], &vec![Dialect::Mars]).list_all();
    assert!(overlaid.instructions.len() > plain.instructions.len());
    assert!(!plain.instructions.contains(&"li".to_string()));
    assert!(overlaid.instructions.contains(&"li".to_string()));
    assert_eq!(overlaid.registers.len(), plain.registers.len());
}

#[test]
fn mars_brings_the_mips_instructions_even_without_mips() {
    let overlay_only = Catalog::build(&vec![], &vec![Dialect::Mars]).list_all();
    let with_mips = Catalog::build(&vec![Architecture::Mips], &vec![Dialect::Mars]).list_all();
    assert!(overlay_only.registers.is_empty());
    assert_eq!(sorted(&overlay_only.instructions), sorted(&with_mips.instructions));
}

#[test]
fn tags_are_those_of_asm_lsp() {
    assert_eq!(Architecture::X86.to_tag(), asm_lsp::Arch::X86);
    assert_eq!(Architecture::X86_64.to_tag(), asm_lsp::Arch::X86_64);
    assert_eq!(Architecture::X86_AND_X86_64.to_tag(), asm_lsp::Arch::X86_AND_X86_64);
    assert_eq!(Architecture::ARM.to_tag(), asm_lsp::Arch::ARM);
    assert_eq!(Architecture::ARM64.to_tag(), asm_lsp::Arch::ARM64);
    assert_eq!(Architecture::RISCV.to_tag(), asm_lsp::Arch::RISCV);
    assert_eq!(Architecture::Z80.to_tag(), asm_lsp::Arch::Z80);
    assert_eq!(Architecture::MOS6502.to_tag(), asm_lsp::Arch::MOS6502);
    assert_eq!(Architecture::PowerISA.to_tag(), asm_lsp::Arch::PowerISA);
    assert_eq!(Architecture::Avr.to_tag(), asm_lsp::Arch::Avr);
    assert_eq!(Architecture::Mips.to_tag(), asm_lsp::Arch::Mips);
    assert_eq!(Dialect::Avr.to_tag(), asm_lsp::Assembler::Avr);
    assert_eq!(Dialect::Ca65.to_tag(), asm_lsp::Assembler::Ca65);
    assert_eq!(Dialect::Fasm.to_tag(), asm_lsp::Assembler::Fasm);
    assert_eq!(Dialect::Gas.to_tag(), asm_lsp::Assembler::Gas);
    assert_eq!(Dialect::Go.to_tag(), asm_lsp::Assembler::Go);
    assert_eq!(Dialect::Mars.to_tag(), asm_lsp::Assembler::Mars);
    assert_eq!(Dialect::Masm.to_tag(), asm_lsp::Assembler::Masm);
    assert_eq!(Dialect::Nasm.to_tag(), asm_lsp::Assembler::Nasm);
}

#[test]
fn only_mars_is_mars() {
    for dialect in ALL_DIALECTS {
        assert_eq!(dialect.is_mars(), dialect == Dialect::Mars);
    }
}
