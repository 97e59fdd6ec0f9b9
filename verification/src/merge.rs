//! How the tables of several instruction sets and assemblers merge into one
//! catalog, and what follows from the order in which they do.

use crate::tables::{
    directive_load, instruction_load, register_load, ArchTable, DirectiveTable, InstructionLoad,
};
use crate::target::{Architecture, Dialect};
use vstd::prelude::*;

verus! {

/// The three tables of a catalog.
pub struct CatalogView {
    pub instructions: ArchTable,
    pub registers: ArchTable,
    pub directives: DirectiveTable,
}

/// The instruction table `base` after one load: what the load writes wins
/// over `base`, and `base` wins over what the load only offers.
pub open spec fn loaded(base: ArchTable, load: InstructionLoad) -> ArchTable {
    load.offered.union_prefer_right(base).union_prefer_right(load.written)
}

/// The instructions of `archs`, each loaded without a dialect scope, in the
/// order of the list.
pub open spec fn merged_instructions(archs: Seq<Architecture>) -> ArchTable
    decreases archs.len(),
{
    if archs.len() == 0 {
        Map::empty()
    } else {
        loaded(
            merged_instructions(archs.drop_last()),
            instruction_load(archs.last().tag(), None),
        )
    }
}

/// The registers of `archs`, merged in the order of the list: a later
/// instruction set replaces what an earlier one put under the same key.
pub open spec fn merged_registers(archs: Seq<Architecture>) -> ArchTable
    decreases archs.len(),
{
    if archs.len() == 0 {
        Map::empty()
    } else {
        merged_registers(archs.drop_last()).union_prefer_right(register_load(archs.last().tag()))
    }
}

/// The directives of `dialects`, merged in the order of the list: a later
/// assembler replaces what an earlier one put under the same key.
pub open spec fn merged_directives(dialects: Seq<Dialect>) -> DirectiveTable
    decreases dialects.len(),
{
    if dialects.len() == 0 {
        Map::empty()
    } else {
        merged_directives(dialects.drop_last()).union_prefer_right(
            directive_load(dialects.last().tag()),
        )
    }
}

/// The load that overlays the MARS dialect: the MIPS instructions once more,
/// this time scoped to MARS.
pub open spec fn mars_overlay() -> InstructionLoad {
    instruction_load(asm_lsp::Arch::Mips, Some(asm_lsp::Assembler::Mars))
}

/// The instruction table `generic` with the overlay of each dialect in
/// `dialects` that has one. Only MARS has one, and it counts once however
/// often it is listed.
pub open spec fn overlaid(generic: ArchTable, dialects: Seq<Dialect>) -> ArchTable {
    if dialects.contains(Dialect::Mars) {
        loaded(generic, mars_overlay())
    } else {
        generic
    }
}

/// The catalog for the instruction sets `archs` and the assemblers
/// `dialects`: every instruction set in order, then every assembler in order,
/// the dialect overlay after all instruction sets.
pub open spec fn built(archs: Seq<Architecture>, dialects: Seq<Dialect>) -> CatalogView {
    CatalogView {
        instructions: overlaid(merged_instructions(archs), dialects),
        registers: merged_registers(archs),
        directives: merged_directives(dialects),
    }
}

/// Loading the same entries a second time changes nothing.
pub proof fn lemma_loaded_twice(base: ArchTable, load: InstructionLoad)
    ensures
        loaded(loaded(base, load), load) == loaded(base, load),
{
    assert(loaded(loaded(base, load), load) =~= loaded(base, load));
}

/// One more dialect at the end of the list: its overlay, if it has one, is
/// loaded onto what the dialects before it gave.
pub proof fn lemma_overlaid_push(generic: ArchTable, dialects: Seq<Dialect>, next: Dialect)
    ensures
        overlaid(generic, dialects.push(next)) == if next == Dialect::Mars {
            loaded(overlaid(generic, dialects), mars_overlay())
        } else {
            overlaid(generic, dialects)
        },
{
    let longer = dialects.push(next);
    assert(longer.last() == next);
    assert(longer.drop_last() =~= dialects);
    if dialects.contains(Dialect::Mars) {
        let at = choose|at: int| 0 <= at < dialects.len() && dialects[at] == Dialect::Mars;
        assert(longer[at] == Dialect::Mars);
        lemma_loaded_twice(generic, mars_overlay());
    } else if next == Dialect::Mars {
        assert(longer[dialects.len() as int] == Dialect::Mars);
    } else {
        if longer.contains(Dialect::Mars) {
            let at = choose|at: int| 0 <= at < longer.len() && longer[at] == Dialect::Mars;
            assert(dialects[at] == Dialect::Mars);
        }
    }
}

/// Building twice from the same lists gives the same catalog: the same keys
/// in each table, and the same descriptor under each key.
pub proof fn build_is_deterministic(
    first: CatalogView,
    second: CatalogView,
    archs: Seq<Architecture>,
    dialects: Seq<Dialect>,
)
    requires
        first == built(archs, dialects),
        second == built(archs, dialects),
    ensures
        first.instructions.dom() == second.instructions.dom(),
        first.registers.dom() == second.registers.dom(),
        first.directives.dom() == second.directives.dom(),
        first == second,
{
}

/// Last writer wins among registers: a key that the instruction set at
/// `writer` loads, and that none after it in the list loads, holds that
/// instruction set's descriptor.
pub proof fn last_register_writer_wins(
    archs: Seq<Architecture>,
    writer: int,
    key: (asm_lsp::Arch, Seq<char>),
)
    requires
        0 <= writer < archs.len(),
        register_load(archs[writer].tag()).contains_key(key),
        forall|later: int|
            writer < later < archs.len() ==> !register_load(archs[later].tag()).contains_key(key),
    ensures
        merged_registers(archs).contains_key(key),
        merged_registers(archs)[key] == register_load(archs[writer].tag())[key],
    decreases archs.len(),
{
    if writer < archs.len() - 1 {
        let before = archs.drop_last();
        assert(!register_load(archs[archs.len() - 1].tag()).contains_key(key));
        assert forall|later: int| writer < later < before.len() implies !register_load(
            before[later].tag(),
        ).contains_key(key) by {
            assert(before[later] == archs[later]);
        }
        last_register_writer_wins(before, writer, key);
    }
}

/// Last writer wins among directives: a key that the assembler at `writer`
/// loads, and that none after it in the list loads, holds that assembler's
/// descriptor.
pub proof fn last_directive_writer_wins(
    dialects: Seq<Dialect>,
    writer: int,
    key: (asm_lsp::Assembler, Seq<char>),
)
    requires
        0 <= writer < dialects.len(),
        directive_load(dialects[writer].tag()).contains_key(key),
        forall|later: int|
            writer < later < dialects.len() ==> !directive_load(
                dialects[later].tag(),
            ).contains_key(key),
    ensures
        merged_directives(dialects).contains_key(key),
        merged_directives(dialects)[key] == directive_load(dialects[writer].tag())[key],
    decreases dialects.len(),
{
    if writer < dialects.len() - 1 {
        let before = dialects.drop_last();
        assert(!directive_load(dialects[dialects.len() - 1].tag()).contains_key(key));
        assert forall|later: int| writer < later < before.len() implies !directive_load(
            before[later].tag(),
        ).contains_key(key) by {
            assert(before[later] == dialects[later]);
        }
        last_directive_writer_wins(before, writer, key);
    }
}

/// Last writer wins among the instruction sets: a key that the instruction
/// set at `writer` writes, and that none after it in the list writes, holds
/// that instruction set's descriptor once all of them are loaded.
pub proof fn last_instruction_writer_wins(
    archs: Seq<Architecture>,
    writer: int,
    key: (asm_lsp::Arch, Seq<char>),
)
    requires
        0 <= writer < archs.len(),
        instruction_load(archs[writer].tag(), None).written.contains_key(key),
        forall|later: int|
            writer < later < archs.len() ==> !instruction_load(
                archs[later].tag(),
                None,
            ).written.contains_key(key),
    ensures
        merged_instructions(archs).contains_key(key),
        merged_instructions(archs)[key] == instruction_load(archs[writer].tag(), None).written[key],
    decreases archs.len(),
{
    if writer < archs.len() - 1 {
        let before = archs.drop_last();
        assert(!instruction_load(archs[archs.len() - 1].tag(), None).written.contains_key(key));
        assert forall|later: int| writer < later < before.len() implies !instruction_load(
            before[later].tag(),
            None,
        ).written.contains_key(key) by {
            assert(before[later] == archs[later]);
        }
        last_instruction_writer_wins(before, writer, key);
    }
}

/// An entry that is only offered never replaces one that is there: a key
/// that the catalog holds before a load, and that the load does not write,
/// keeps its descriptor.
pub proof fn offered_entry_does_not_replace(
    base: ArchTable,
    load: InstructionLoad,
    key: (asm_lsp::Arch, Seq<char>),
)
    requires
        base.contains_key(key),
        !load.written.contains_key(key),
    ensures
        loaded(base, load)[key] == base[key],
{
}

/// What the instruction sets wrote stays in the built catalog wherever the
/// dialect overlay does not write: with the overlay absent, or the key not
/// among those it writes, the last writer among the instruction sets wins.
pub proof fn last_writer_wins_in_catalog(
    archs: Seq<Architecture>,
    dialects: Seq<Dialect>,
    writer: int,
    key: (asm_lsp::Arch, Seq<char>),
)
    requires
        0 <= writer < archs.len(),
        instruction_load(archs[writer].tag(), None).written.contains_key(key),
        forall|later: int|
            writer < later < archs.len() ==> !instruction_load(
                archs[later].tag(),
                None,
            ).written.contains_key(key),
        dialects.contains(Dialect::Mars) ==> !mars_overlay().written.contains_key(key),
    ensures
        built(archs, dialects).instructions.contains_key(key),
        built(archs, dialects).instructions[key] == instruction_load(
            archs[writer].tag(),
            None,
        ).written[key],
{
    last_instruction_writer_wins(archs, writer, key);
}

/// The dialect overlay wins: with MARS among the assemblers, every key that
/// its overlay writes holds the overlay's descriptor, whatever the
/// instruction sets put under that key and in whatever order they are listed.
pub proof fn dialect_overlay_wins(
    archs: Seq<Architecture>,
    dialects: Seq<Dialect>,
    key: (asm_lsp::Arch, Seq<char>),
)
    requires
        dialects.contains(Dialect::Mars),
        mars_overlay().written.contains_key(key),
    ensures
        built(archs, dialects).instructions.contains_key(key),
        built(archs, dialects).instructions[key] == mars_overlay().written[key],
{
}

/// Listing an instruction set or an assembler twice in a row gives the same
/// tables as listing it once: the second load writes what the first wrote.
pub proof fn repeated_entry_changes_nothing(
    archs: Seq<Architecture>,
    arch: Architecture,
    dialects: Seq<Dialect>,
    dialect: Dialect,
)
    ensures
        built(archs.push(arch).push(arch), dialects.push(dialect).push(dialect)) == built(
            archs.push(arch),
            dialects.push(dialect),
        ),
{
    let once = archs.push(arch);
    let twice = once.push(arch);
    assert(twice.drop_last() =~= once);
    assert(once.drop_last() =~= archs);
    lemma_loaded_twice(merged_instructions(archs), instruction_load(arch.tag(), None));
    assert(merged_registers(twice) =~= merged_registers(once));
    let one = dialects.push(dialect);
    let two = one.push(dialect);
    assert(two.drop_last() =~= one);
    assert(one.drop_last() =~= dialects);
    assert(merged_directives(two) =~= merged_directives(one));
    lemma_overlaid_push(merged_instructions(once), one, dialect);
    lemma_loaded_twice(overlaid(merged_instructions(once), dialects), mars_overlay());
    lemma_overlaid_push(merged_instructions(once), dialects, dialect);
}

/// Without MARS among the assemblers no overlay is loaded: the instructions
/// are those of the instruction sets alone.
pub proof fn no_overlay_without_dialect(archs: Seq<Architecture>, dialects: Seq<Dialect>)
    requires
        !dialects.contains(Dialect::Mars),
    ensures
        built(archs, dialects).instructions == merged_instructions(archs),
{
}

/// Empty lists give empty tables.
pub proof fn empty_lists_build_empty_tables(archs: Seq<Architecture>, dialects: Seq<Dialect>)
    ensures
        archs.len() == 0 ==> built(archs, dialects).registers == ArchTable::empty(),
        archs.len() == 0 && !dialects.contains(Dialect::Mars) ==> built(
            archs,
            dialects,
        ).instructions == ArchTable::empty(),
        dialects.len() == 0 ==> built(archs, dialects).directives == DirectiveTable::empty(),
{
}

} // verus!
