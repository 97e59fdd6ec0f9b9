//! The catalog: one lookup structure for the instructions, registers and
//! directives of every active instruction set and assembler.

use crate::merge::{
    built, lemma_overlaid_push, merged_directives, merged_instructions, merged_registers,
    overlaid, CatalogView,
};
use crate::tables::{
    directive_entries, directive_names, empty_maps, instruction_entries, instruction_names,
    lists_names, register_entries, register_names, setup_directives, setup_instructions,
    setup_registers, walks, ArchTable, Descriptor, DirectiveTable,
};
use crate::target::{Architecture, Dialect};
use crate::text::{join_lines, joined};
use vstd::prelude::*;
use vstd::seq_lib::seq_to_set_is_finite;

verus! {

/// The name-indexed store of instruction, register and directive
/// descriptors.
pub struct Catalog {
    maps: asm_lsp::NameToInfoMaps,
}

impl View for Catalog {
    type V = CatalogView;

    closed spec fn view(&self) -> CatalogView {
        CatalogView {
            instructions: instruction_entries(self.maps),
            registers: register_entries(self.maps),
            directives: directive_entries(self.maps),
        }
    }
}

/// Every name in a catalog, grouped by kind. Each group holds one name for
/// each key of its table.
pub struct NameLists {
    pub registers: Vec<String>,
    pub directives: Vec<String>,
    pub instructions: Vec<String>,
}

/// The text that lists the three groups: the registers, then the directives,
/// then the instructions, one name on each line. An empty group leaves one
/// empty line.
pub open spec fn rendered(
    registers: Seq<Seq<char>>,
    directives: Seq<Seq<char>>,
    instructions: Seq<Seq<char>>,
) -> Seq<char> {
    joined(registers) + seq!['\n'] + joined(directives) + seq!['\n'] + joined(instructions)
}

impl NameLists {
    /// Whether these are the names of `catalog`: each group lists the display
    /// names of one table, in some order of its keys.
    pub open spec fn lists(&self, catalog: CatalogView) -> bool {
        &&& lists_names(self.registers.deep_view(), catalog.registers)
        &&& lists_names(self.directives.deep_view(), catalog.directives)
        &&& lists_names(self.instructions.deep_view(), catalog.instructions)
    }

    /// The text of `render`.
    pub open spec fn text(&self) -> Seq<char> {
        rendered(
            self.registers.deep_view(),
            self.directives.deep_view(),
            self.instructions.deep_view(),
        )
    }

    /// Renders the names as text: the registers, then the directives, then
    /// the instructions, one name on each line.
    pub fn render(&self) -> (text: String)
        ensures
            text@ == self.text(),
    {
        let mut text = join_lines(&self.registers);
        proof {
            reveal_strlit("\n");
            assert("\n"@ =~= seq!['\n']);
        }
        text.append("\n");
        text.append(join_lines(&self.directives).as_str());
        text.append("\n");
        text.append(join_lines(&self.instructions).as_str());
        text
    }
}

impl Catalog {
    /// A catalog without entries.
    pub fn new() -> (catalog: Catalog)
        ensures
            catalog@.instructions == ArchTable::empty(),
            catalog@.registers == ArchTable::empty(),
            catalog@.directives == DirectiveTable::empty(),
    {
        Catalog { maps: empty_maps() }
    }

    /// Builds the catalog for the instruction sets `archs` and the assemblers
    /// `dialects`.
    ///
    /// Each instruction set, in the order of the list, loads its instructions
    /// and its registers; then each assembler, in the order of the list,
    /// loads its directives. Under a key that two of them write, the later
    /// one wins. MARS among the assemblers loads the MIPS instructions once
    /// more, scoped to that dialect, after all instruction sets: what it
    /// writes wins over them whatever their order.
    pub fn build(archs: &Vec<Architecture>, dialects: &Vec<Dialect>) -> (catalog: Catalog)
        ensures
            catalog@ == built(archs@, dialects@),
    {
        let mut maps = empty_maps();
        let mut seen: usize = 0;
        while seen < archs.len()
            invariant
                seen <= archs.len(),
                instruction_entries(maps) == merged_instructions(archs@.take(seen as int)),
                register_entries(maps) == merged_registers(archs@.take(seen as int)),
                directive_entries(maps) == DirectiveTable::empty(),
            decreases archs.len() - seen,
        {
            proof {
                let next = archs@.take(seen + 1);
                assert(next.drop_last() =~= archs@.take(seen as int));
                assert(next.last() == archs@[seen as int]);
            }
            let tag = archs[seen].to_tag();
            setup_instructions(&mut maps, tag, None);
            setup_registers(&mut maps, tag);
            seen = seen + 1;
        }
        proof {
            assert(archs@.take(archs.len() as int) =~= archs@);
            assert(dialects@.take(0) =~= Seq::<Dialect>::empty());
            assert(!dialects@.take(0).contains(Dialect::Mars));
        }
        let mut done: usize = 0;
        while done < dialects.len()
            invariant
                done <= dialects.len(),
                instruction_entries(maps) == overlaid(
                    merged_instructions(archs@),
                    dialects@.take(done as int),
                ),
                register_entries(maps) == merged_registers(archs@),
                directive_entries(maps) == merged_directives(dialects@.take(done as int)),
            decreases dialects.len() - done,
        {
            proof {
                let next = dialects@.take(done + 1);
                assert(next.drop_last() =~= dialects@.take(done as int));
                assert(next.last() == dialects@[done as int]);
                assert(next =~= dialects@.take(done as int).push(dialects@[done as int]));
                lemma_overlaid_push(
                    merged_instructions(archs@),
                    dialects@.take(done as int),
                    dialects@[done as int],
                );
            }
            setup_directives(&mut maps, dialects[done].to_tag());
            if dialects[done].is_mars() {
                setup_instructions(
                    &mut maps,
                    asm_lsp::Arch::Mips,
                    Some(asm_lsp::Assembler::Mars),
                );
            }
            done = done + 1;
        }
        proof {
            assert(dialects@.take(dialects.len() as int) =~= dialects@);
        }
        Catalog { maps }
    }

    /// Lists every name in the catalog: for each table the display name of
    /// each descriptor, one for each key, in the order in which the table
    /// hands its entries out.
    pub fn list_all(&self) -> (names: NameLists)
        ensures
            names.lists(self@),
    {
        NameLists {
            registers: register_names(&self.maps),
            directives: directive_names(&self.maps),
            instructions: instruction_names(&self.maps),
        }
    }

    /// The tables as `asm_lsp` holds them.
    pub(crate) fn maps(&self) -> (maps: &asm_lsp::NameToInfoMaps)
        ensures
            instruction_entries(*maps) == self@.instructions,
            register_entries(*maps) == self@.registers,
            directive_entries(*maps) == self@.directives,
    {
        &self.maps
    }
}

/// Whether some descriptor in `table` has the display name `name`.
pub open spec fn holds_name<K>(table: Map<K, Descriptor>, name: Seq<char>) -> bool {
    exists|key: K| #[trigger] table.contains_key(key) && table[key].name == name
}

/// A listing holds one name for each key of its table, no more and no
/// fewer: every name in it is the display name of a descriptor in the table,
/// and every descriptor's display name is in it.
pub proof fn listing_has_one_name_for_each_key<K>(names: Seq<Seq<char>>, table: Map<K, Descriptor>)
    requires
        lists_names(names, table),
    ensures
        table.dom().finite(),
        names.len() == table.dom().len(),
        forall|i: int| 0 <= i < names.len() ==> holds_name(table, #[trigger] names[i]),
        forall|key: K| #[trigger] table.contains_key(key) ==> names.contains(table[key].name),
{
    let keys = choose|keys: Seq<K>| walks(keys, names, table);
    keys.unique_seq_to_set();
    seq_to_set_is_finite(keys);
    assert forall|i: int| 0 <= i < names.len() implies holds_name(table, #[trigger] names[i]) by {
        assert(keys.to_set().contains(keys[i]));
        assert(table.contains_key(keys[i]) && table[keys[i]].name == names[i]);
    }
    assert forall|key: K| #[trigger] table.contains_key(key) implies names.contains(
        table[key].name,
    ) by {
        assert(keys.to_set().contains(key));
        let i = choose|i: int| 0 <= i < keys.len() && keys[i] == key;
        assert(names[i] == table[keys[i]].name);
    }
}

/// A table that holds a key lists at least one name: a group of the listing
/// is empty only where its table is.
pub proof fn table_with_a_key_lists_a_name<K>(
    names: Seq<Seq<char>>,
    table: Map<K, Descriptor>,
    key: K,
)
    requires
        lists_names(names, table),
        table.contains_key(key),
    ensures
        names.len() > 0,
        names.contains(table[key].name),
{
    listing_has_one_name_for_each_key(names, table);
}

/// A table without keys lists no names.
pub proof fn empty_table_lists_nothing<K>(names: Seq<Seq<char>>)
    requires
        lists_names(names, Map::<K, Descriptor>::empty()),
    ensures
        names.len() == 0,
{
    listing_has_one_name_for_each_key(names, Map::<K, Descriptor>::empty());
}

/// An empty catalog lists three empty groups, and its text is the two
/// newlines that part them.
pub proof fn empty_catalog_lists_nothing(catalog: CatalogView, names: NameLists)
    requires
        catalog.instructions == ArchTable::empty(),
        catalog.registers == ArchTable::empty(),
        catalog.directives == DirectiveTable::empty(),
        names.lists(catalog),
    ensures
        names.registers@.len() == 0,
        names.directives@.len() == 0,
        names.instructions@.len() == 0,
        names.text() == seq!['\n', '\n'],
{
    empty_table_lists_nothing::<(asm_lsp::Arch, Seq<char>)>(names.registers.deep_view());
    empty_table_lists_nothing::<(asm_lsp::Assembler, Seq<char>)>(names.directives.deep_view());
    empty_table_lists_nothing::<(asm_lsp::Arch, Seq<char>)>(names.instructions.deep_view());
    assert(names.text() =~= seq!['\n', '\n']);
}

} // verus!
