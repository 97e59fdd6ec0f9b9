//! What `asm_lsp` holds: the three name-indexed tables, and the entries that
//! its loading routines put into them. Nothing in this module is proved; each
//! item says what it takes on trust from `asm_lsp`.

use vstd::prelude::*;

verus! {

/// `asm_lsp`'s three name-indexed tables: instructions, registers and
/// directives, each a hash map from a tag and a name to a descriptor.
#[verifier::external_type_specification]
#[verifier::external_body]
pub struct ExNameToInfoMaps(asm_lsp::NameToInfoMaps);

/// What the queries read of a descriptor: the name it displays, and the
/// markup that its `Display` impl renders.
pub struct Descriptor {
    pub name: Seq<char>,
    pub markup: Seq<char>,
}

/// A table of instructions or of registers, keyed by instruction set and name.
pub type ArchTable = Map<(asm_lsp::Arch, Seq<char>), Descriptor>;

/// A table of directives, keyed by assembler and name.
pub type DirectiveTable = Map<(asm_lsp::Assembler, Seq<char>), Descriptor>;

/// The entries that one run of an instruction-loading routine brings.
pub struct InstructionLoad {
    /// The entries under each instruction's own name. They replace what the
    /// table held under these keys.
    pub written: ArchTable,
    /// The entries under the other names of an instruction's forms. They only
    /// fill keys that the table did not hold.
    pub offered: ArchTable,
}

/// The entries of `maps.instructions`.
pub uninterp spec fn instruction_entries(maps: asm_lsp::NameToInfoMaps) -> ArchTable;

/// The entries of `maps.registers`.
pub uninterp spec fn register_entries(maps: asm_lsp::NameToInfoMaps) -> ArchTable;

/// The entries of `maps.directives`.
pub uninterp spec fn directive_entries(maps: asm_lsp::NameToInfoMaps) -> DirectiveTable;

/// The entries that `Arch::setup_instructions` brings for `arch` under the
/// dialect scope `dialect`. They come from data compiled into `asm_lsp`.
pub uninterp spec fn instruction_load(
    arch: asm_lsp::Arch,
    dialect: Option<asm_lsp::Assembler>,
) -> InstructionLoad;

/// The entries that `Arch::setup_registers` brings for `arch`. They come from
/// data compiled into `asm_lsp`.
pub uninterp spec fn register_load(arch: asm_lsp::Arch) -> ArchTable;

/// The entries that `Assembler::setup_directives` brings for `assembler`.
/// They come from data compiled into `asm_lsp`.
pub uninterp spec fn directive_load(assembler: asm_lsp::Assembler) -> DirectiveTable;

/// Whether `names` are the display names of the descriptors in `table`, one
/// for each key, as they come when the keys are walked in the order `keys`.
pub open spec fn walks<K>(keys: Seq<K>, names: Seq<Seq<char>>, table: Map<K, Descriptor>) -> bool {
    &&& keys.no_duplicates()
    &&& keys.to_set() == table.dom()
    &&& keys.len() == names.len()
    &&& forall|i: int| 0 <= i < keys.len() ==> names[i] == table[#[trigger] keys[i]].name
}

/// Whether `names` are the display names of the descriptors in `table`, one
/// for each key, in some order of the keys.
pub open spec fn lists_names<K>(names: Seq<Seq<char>>, table: Map<K, Descriptor>) -> bool {
    exists|keys: Seq<K>| walks(keys, names, table)
}

/// `NameToInfoMaps::default()`: the derived `Default` makes three empty hash
/// maps.
#[verifier::external_body]
pub(crate) fn empty_maps() -> (maps: asm_lsp::NameToInfoMaps)
    ensures
        instruction_entries(maps) == ArchTable::empty(),
        register_entries(maps) == ArchTable::empty(),
        directive_entries(maps) == DirectiveTable::empty(),
{
    asm_lsp::NameToInfoMaps::default()
}

/// `Arch::setup_instructions`, on the instruction table of `maps`. For each
/// instruction that it loads it inserts the instruction under its own name,
/// replacing what was there, and then under each other name of its forms
/// unless the key is taken. The other two tables are not touched. It panics
/// on the placeholder `Arch::None`.
#[verifier::external_body]
pub(crate) fn setup_instructions(
    maps: &mut asm_lsp::NameToInfoMaps,
    arch: asm_lsp::Arch,
    dialect: Option<asm_lsp::Assembler>,
)
    requires
        arch != asm_lsp::Arch::None,
    ensures
        instruction_entries(*final(maps)) == instruction_load(
            arch,
            dialect,
        ).offered.union_prefer_right(instruction_entries(*old(maps))).union_prefer_right(
            instruction_load(arch, dialect).written,
        ),
        register_entries(*final(maps)) == register_entries(*old(maps)),
        directive_entries(*final(maps)) == directive_entries(*old(maps)),
{
    arch.setup_instructions(dialect, &mut maps.instructions)
}

/// `Arch::setup_registers`, on the register table of `maps`. It inserts each
/// register that it loads under its name, replacing what was there. The other
/// two tables are not touched. It panics on the placeholder `Arch::None`.
#[verifier::external_body]
pub(crate) fn setup_registers(maps: &mut asm_lsp::NameToInfoMaps, arch: asm_lsp::Arch)
    requires
        arch != asm_lsp::Arch::None,
    ensures
        register_entries(*final(maps)) == register_entries(*old(maps)).union_prefer_right(
            register_load(arch),
        ),
        instruction_entries(*final(maps)) == instruction_entries(*old(maps)),
        directive_entries(*final(maps)) == directive_entries(*old(maps)),
{
    arch.setup_registers(&mut maps.registers)
}

/// `Assembler::setup_directives`, on the directive table of `maps`. It
/// inserts each directive that it loads under its name, replacing what was
/// there. The other two tables are not touched. It panics on the placeholder
/// `Assembler::None`.
#[verifier::external_body]
pub(crate) fn setup_directives(maps: &mut asm_lsp::NameToInfoMaps, assembler: asm_lsp::Assembler)
    requires
        assembler != asm_lsp::Assembler::None,
    ensures
        directive_entries(*final(maps)) == directive_entries(*old(maps)).union_prefer_right(
            directive_load(assembler),
        ),
        instruction_entries(*final(maps)) == instruction_entries(*old(maps)),
        register_entries(*final(maps)) == register_entries(*old(maps)),
{
    assembler.setup_directives(&mut maps.directives)
}

/// The `name` field of each descriptor in `maps.instructions`, in the order in
/// which the hash map hands its values out. That order is not known.
#[verifier::external_body]
pub(crate) fn instruction_names(maps: &asm_lsp::NameToInfoMaps) -> (names: Vec<String>)
    ensures
        lists_names(names.deep_view(), instruction_entries(*maps)),
{
    maps.instructions.values().map(|info| info.name.clone()).collect()
}

/// The `name` field of each descriptor in `maps.registers`, in the order in
/// which the hash map hands its values out. That order is not known.
#[verifier::external_body]
pub(crate) fn register_names(maps: &asm_lsp::NameToInfoMaps) -> (names: Vec<String>)
    ensures
        lists_names(names.deep_view(), register_entries(*maps)),
{
    maps.registers.values().map(|info| info.name.clone()).collect()
}

/// The `name` field of each descriptor in `maps.directives`, in the order in
/// which the hash map hands its values out. That order is not known.
#[verifier::external_body]
pub(crate) fn directive_names(maps: &asm_lsp::NameToInfoMaps) -> (names: Vec<String>)
    ensures
        lists_names(names.deep_view(), directive_entries(*maps)),
{
    maps.directives.values().map(|info| info.name.clone()).collect()
}

} // verus!
