//! The two queries as a command line asks them: from the active instruction
//! sets and assemblers to the text that answers.

use crate::catalog::{rendered, Catalog};
use crate::describe::{answer_view, answers, describe, Config, QueryError};
use crate::merge::{built, CatalogView};
use crate::tables::lists_names;
use crate::target::{Architecture, Dialect};
use vstd::prelude::*;

verus! {

/// The arguments of the description query.
#[derive(Clone, Debug)]
pub struct QueryGetArgs {
    /// Name of directive, register or opcode.
    pub name: Option<String>,
}

/// Whether `text` lists the names of `catalog`: the registers, then the
/// directives, then the instructions, one name on each line, each group in
/// some order of its table's keys.
pub open spec fn lists_catalog(text: Seq<char>, catalog: CatalogView) -> bool {
    exists|registers: Seq<Seq<char>>, directives: Seq<Seq<char>>, instructions: Seq<Seq<char>>|
        {
            &&& lists_names(registers, catalog.registers)
            &&& lists_names(directives, catalog.directives)
            &&& lists_names(instructions, catalog.instructions)
            &&& text == #[trigger] rendered(registers, directives, instructions)
        }
}

/// Describes the token `name` for the instruction sets `archs` and the
/// assemblers `dialects`: builds their catalog and asks it, under the
/// configuration `config`, from `workspace`. The text that is returned is the
/// description, cleaned of surplus blank lines.
pub fn query_get(
    archs: &Vec<Architecture>,
    dialects: &Vec<Dialect>,
    config: &Config,
    workspace: &str,
    name: &str,
) -> (answer: Result<String, QueryError>)
    ensures
        answers(answer_view(answer), built(archs@, dialects@), *config, workspace@, name@),
{
    let catalog = Catalog::build(archs, dialects);
    describe(&catalog, config, workspace, name)
}

/// Lists every name known for the instruction sets `archs` and the
/// assemblers `dialects`: builds their catalog and renders its names, the
/// registers, then the directives, then the instructions, one on each line.
pub fn query_list(archs: &Vec<Architecture>, dialects: &Vec<Dialect>) -> (text: String)
    ensures
        lists_catalog(text@, built(archs@, dialects@)),
{
    let names = Catalog::build(archs, dialects).list_all();
    let text = names.render();
    proof {
        assert(text@ == rendered(
            names.registers.deep_view(),
            names.directives.deep_view(),
            names.instructions.deep_view(),
        ));
    }
    text
}

} // verus!
