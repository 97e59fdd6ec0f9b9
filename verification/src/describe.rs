//! The description query: what is known about one token.

use crate::catalog::Catalog;
use crate::merge::CatalogView;
use crate::resolver::{
    ascii_lowercase, found_in, hits_directive, hits_register_only, hover_outcome, location_fits,
    location_parses, resolve_hover, HoverOutcome, HoverOutcomeView,
};
use crate::target::{Architecture, Dialect};
use crate::text::{clean_text, cleaned};
use vstd::prelude::*;

verus! {

/// The configuration that is active where the query is asked: one
/// instruction set and one assembler. The resolver looks a token up under
/// these two.
#[derive(Clone, Copy, Debug)]
pub struct Config {
    pub assembler: Dialect,
    pub instruction_set: Architecture,
}

/// Why a query gave no description.
#[derive(Debug)]
pub enum QueryError {
    /// The workspace location could not be resolved. Holds the location.
    Configuration(String),
    /// Nothing is known about the token. Holds the queried name.
    NotFound(String),
    /// The resolver answered with something else than markdown text. Holds
    /// the debug rendering of what it answered.
    InvalidResponseShape(String),
}

/// A [`QueryError`] with its text as a sequence of characters.
pub enum QueryErrorView {
    Configuration(Seq<char>),
    NotFound(Seq<char>),
    InvalidResponseShape(Seq<char>),
}

impl View for QueryError {
    type V = QueryErrorView;

    open spec fn view(&self) -> QueryErrorView {
        match self {
            QueryError::Configuration(location) => QueryErrorView::Configuration(location@),
            QueryError::NotFound(name) => QueryErrorView::NotFound(name@),
            QueryError::InvalidResponseShape(debug) => QueryErrorView::InvalidResponseShape(debug@),
        }
    }
}

impl QueryErrorView {
    /// The message that reports the error.
    pub open spec fn message(self) -> Seq<char> {
        match self {
            QueryErrorView::Configuration(location) => "Invalid workspace location: '"@ + location
                + "'"@,
            QueryErrorView::NotFound(name) => "Received empty hover response for name: '"@ + name
                + "'"@,
            QueryErrorView::InvalidResponseShape(debug) => "Invalid hover response contents: "@
                + debug,
        }
    }
}

impl QueryError {
    /// The message that reports the error. It quotes what the error holds
    /// letter for letter.
    pub fn message(&self) -> (text: String)
        ensures
            text@ == self@.message(),
    {
        match self {
            QueryError::Configuration(location) => {
                let mut text = String::from_str("Invalid workspace location: '");
                text.append(location.as_str());
                text.append("'");
                text
            },
            QueryError::NotFound(name) => {
                let mut text = String::from_str("Received empty hover response for name: '");
                text.append(name.as_str());
                text.append("'");
                text
            },
            QueryError::InvalidResponseShape(debug) => {
                let mut text = String::from_str("Invalid hover response contents: ");
                text.append(debug.as_str());
                text
            },
        }
    }
}

/// The answer to a query, with its texts as sequences of characters.
pub open spec fn answer_view(answer: Result<String, QueryError>) -> Result<
    Seq<char>,
    QueryErrorView,
> {
    match answer {
        Ok(text) => Ok(text@),
        Err(error) => Err(error@),
    }
}

/// The answer that the resolver's outcome stands for: markdown text is the
/// description, once cleaned of surplus blank lines; every other outcome is
/// an error.
pub open spec fn answered(outcome: HoverOutcomeView, workspace: Seq<char>, name: Seq<char>) -> Result<
    Seq<char>,
    QueryErrorView,
> {
    match outcome {
        HoverOutcomeView::BadLocation => Err(QueryErrorView::Configuration(workspace)),
        HoverOutcomeView::Empty => Err(QueryErrorView::NotFound(name)),
        HoverOutcomeView::Markdown(text) => Ok(cleaned(text)),
        HoverOutcomeView::Unexpected(debug) => Err(QueryErrorView::InvalidResponseShape(debug)),
    }
}

/// Whether `workspace` can stand for the document that the query is asked
/// from: it is short enough for the URI parser, and the parser takes it for
/// a URI.
pub open spec fn is_location(workspace: Seq<char>) -> bool {
    location_fits(workspace) && location_parses(workspace)
}

/// The answer to the query for `name` in `catalog`, under the configuration
/// `config`, asked from `workspace`: a workspace too long for the URI parser
/// is a configuration error; for every other the resolver is asked, with the
/// cursor at the start of the name.
pub open spec fn described(
    catalog: CatalogView,
    config: Config,
    workspace: Seq<char>,
    name: Seq<char>,
) -> Result<Seq<char>, QueryErrorView> {
    if !location_fits(workspace) {
        Err(QueryErrorView::Configuration(workspace))
    } else {
        answered(
            hover_outcome(
                catalog.instructions,
                catalog.registers,
                catalog.directives,
                config.instruction_set.tag(),
                config.assembler.tag(),
                workspace,
                name,
                0,
            ),
            workspace,
            name,
        )
    }
}

/// Whether `answer` answers the query for `name` in `catalog`, under the
/// configuration `config`, asked from `workspace`.
///
/// The answer is what the resolver's outcome stands for. A `workspace` that
/// is too long for the URI parser, or that the parser does not take for a
/// URI, gives `Configuration`, and nothing else does. Otherwise the name
/// of an instruction gives that instruction's markup; the name of a directive
/// that is no instruction gives that directive's markup; and a name that only
/// a register bears gives that register's markup, never that of an entry in
/// another table. Each is cleaned of surplus blank lines.
pub open spec fn answers(
    answer: Result<Seq<char>, QueryErrorView>,
    catalog: CatalogView,
    config: Config,
    workspace: Seq<char>,
    name: Seq<char>,
) -> bool {
    let isa = config.instruction_set.tag();
    let assembler = config.assembler.tag();
    &&& answer == described(catalog, config, workspace, name)
    &&& answer == Err::<Seq<char>, QueryErrorView>(QueryErrorView::Configuration(workspace))
        <==> !is_location(workspace)
    &&& is_location(workspace) && found_in(catalog.instructions, isa, name) is Some
        ==> answer == Ok::<Seq<char>, QueryErrorView>(
        cleaned(found_in(catalog.instructions, isa, name).unwrap()),
    )
    &&& is_location(workspace) && hits_directive(
        catalog.instructions,
        catalog.directives,
        isa,
        assembler,
        name,
    ) ==> answer == Ok::<Seq<char>, QueryErrorView>(
        cleaned(catalog.directives[(assembler, ascii_lowercase(name))].markup),
    )
    &&& is_location(workspace) && hits_register_only(
        catalog.instructions,
        catalog.registers,
        catalog.directives,
        isa,
        assembler,
        name,
    ) ==> answer == Ok::<Seq<char>, QueryErrorView>(
        cleaned(found_in(catalog.registers, isa, name).unwrap()),
    )
}

/// Turns the resolver's outcome for the token `name`, asked from `workspace`,
/// into the answer to the query.
///
/// Markdown text is cleaned of surplus blank lines and returned. No content
/// is `NotFound` with the queried name, content of another shape is
/// `InvalidResponseShape` with what was received, and a location that is no
/// URI is `Configuration` with the location.
pub fn interpret(outcome: HoverOutcome, workspace: &str, name: &str) -> (answer: Result<
    String,
    QueryError,
>)
    ensures
        answer_view(answer) == answered(outcome@, workspace@, name@),
{
    match outcome {
        HoverOutcome::BadLocation => Err(QueryError::Configuration(String::from_str(workspace))),
        HoverOutcome::Empty => Err(QueryError::NotFound(String::from_str(name))),
        HoverOutcome::Markdown(text) => Ok(clean_text(text.as_str())),
        HoverOutcome::Unexpected(debug) => Err(QueryError::InvalidResponseShape(debug)),
    }
}

/// Describes the token `name`.
///
/// The resolver is asked with a placeholder context: a cursor at position
/// zero in a document at `workspace` that is not open. It matches the name
/// without regard to ASCII case, under the instruction set and the assembler
/// of `config`. For a name that is in none of the three tables the resolver
/// decides. A `workspace` of more than `i32::MAX` bytes is not handed to the
/// resolver: it is a configuration error like one that is no URI.
pub fn describe(catalog: &Catalog, config: &Config, workspace: &str, name: &str) -> (answer: Result<
    String,
    QueryError,
>)
    ensures
        answers(answer_view(answer), catalog@, *config, workspace@, name@),
{
    if workspace.as_bytes().len() > i32::MAX as usize {
        return Err(QueryError::Configuration(String::from_str(workspace)));
    }
    let outcome = resolve_hover(
        catalog.maps(),
        config.instruction_set.to_tag(),
        config.assembler.to_tag(),
        workspace,
        name,
        0,
    );
    interpret(outcome, workspace, name)
}

} // verus!
