//! The description resolver of `asm_lsp`, which renders the markup that
//! describes one token. Nothing in this module is proved; each item says what
//! it takes on trust from `asm_lsp` and `lsp_types`.

use crate::tables::{
    directive_entries, instruction_entries, register_entries, ArchTable, DirectiveTable,
};
use asm_lsp::types::Config;
use asm_lsp::{get_hover_resp, DocumentStore, ServerStore};
use lsp_types::{
    HoverContents, HoverParams, MarkupContent, MarkupKind, Position, TextDocumentIdentifier,
    TextDocumentPositionParams, Uri, WorkDoneProgressParams,
};
use std::str::FromStr;
use vstd::prelude::*;
use vstd::utf8::encode_utf8;

verus! {

/// What the resolver made of one token.
pub enum HoverOutcome {
    /// The workspace location is no URI, so no query could be put together.
    BadLocation,
    /// The resolver found nothing to say.
    Empty,
    /// The resolver's answer: markdown text.
    Markdown(String),
    /// An answer of another shape than markdown text, in its debug rendering.
    Unexpected(String),
}

/// A [`HoverOutcome`] with its texts as sequences of characters.
pub enum HoverOutcomeView {
    BadLocation,
    Empty,
    Markdown(Seq<char>),
    Unexpected(Seq<char>),
}

impl View for HoverOutcome {
    type V = HoverOutcomeView;

    open spec fn view(&self) -> HoverOutcomeView {
        match self {
            HoverOutcome::BadLocation => HoverOutcomeView::BadLocation,
            HoverOutcome::Empty => HoverOutcomeView::Empty,
            HoverOutcome::Markdown(text) => HoverOutcomeView::Markdown(text@),
            HoverOutcome::Unexpected(debug) => HoverOutcomeView::Unexpected(debug@),
        }
    }
}

/// A character in ASCII lower case: the letters `A` to `Z` become `a` to `z`,
/// every other character stays.
pub open spec fn lower(ch: char) -> char {
    if 'A' <= ch && ch <= 'Z' {
        ((ch as u8) + 32) as char
    } else {
        ch
    }
}

/// A word in ASCII lower case, the form in which the resolver looks it up.
pub open spec fn ascii_lowercase(word: Seq<char>) -> Seq<char> {
    Seq::new(word.len(), |i: int| lower(word[i]))
}

/// What the resolver renders for `word` from a table of instructions or of
/// registers, under the instruction set `isa`: the markup of the descriptor
/// that the table holds under the set's tag and the lower-cased word. With
/// both x86 sets active it looks under the tag of each, and where both hold
/// the word it joins the two markups with a blank line.
pub open spec fn found_in(table: ArchTable, isa: asm_lsp::Arch, word: Seq<char>) -> Option<
    Seq<char>,
> {
    let name = ascii_lowercase(word);
    let narrow = (asm_lsp::Arch::X86, name);
    let wide = (asm_lsp::Arch::X86_64, name);
    if isa != asm_lsp::Arch::X86_AND_X86_64 {
        if table.contains_key((isa, name)) {
            Some(table[(isa, name)].markup)
        } else {
            None
        }
    } else if table.contains_key(narrow) && table.contains_key(wide) {
        Some(table[narrow].markup + seq!['\n', '\n'] + table[wide].markup)
    } else if table.contains_key(narrow) {
        Some(table[narrow].markup)
    } else if table.contains_key(wide) {
        Some(table[wide].markup)
    } else {
        None
    }
}

/// Whether `word` names a directive of `assembler` and no instruction of the
/// instruction set `isa`, so that the resolver comes to look among the
/// directives and finds it there. For Go it does not look among them.
pub open spec fn hits_directive(
    instructions: ArchTable,
    directives: DirectiveTable,
    isa: asm_lsp::Arch,
    assembler: asm_lsp::Assembler,
    word: Seq<char>,
) -> bool {
    &&& assembler != asm_lsp::Assembler::Go
    &&& assembler != asm_lsp::Assembler::None
    &&& found_in(instructions, isa, word) is None
    &&& directives.contains_key((assembler, ascii_lowercase(word)))
}

/// Whether `word` names a register of the instruction set `isa` and nothing
/// that the resolver looks for before: no instruction of `isa`, and no
/// directive of `assembler`. Under NASM, and under no other assembler, the
/// resolver also tries the word with a `%` before it, so there that form must
/// be no directive either. For ARM64 the resolver cuts a word at its first
/// dot before it looks among the registers, so there the word must hold no
/// dot.
pub open spec fn hits_register_only(
    instructions: ArchTable,
    registers: ArchTable,
    directives: DirectiveTable,
    isa: asm_lsp::Arch,
    assembler: asm_lsp::Assembler,
    word: Seq<char>,
) -> bool {
    &&& found_in(instructions, isa, word) is None
    &&& !directives.contains_key((assembler, ascii_lowercase(word)))
    &&& assembler == asm_lsp::Assembler::Nasm ==> !directives.contains_key(
        (assembler, seq!['%'] + ascii_lowercase(word)),
    )
    &&& isa == asm_lsp::Arch::ARM64 ==> !word.contains('.')
    &&& found_in(registers, isa, word) is Some
}

/// Whether `workspace` is short enough to be handed to the URI parser: its
/// UTF-8 encoding has no more than `i32::MAX` bytes. The parser panics on a
/// longer input.
pub open spec fn location_fits(workspace: Seq<char>) -> bool {
    encode_utf8(workspace).len() <= i32::MAX
}

/// Whether `Uri::from_str` takes `workspace` for a URI.
pub uninterp spec fn location_parses(workspace: Seq<char>) -> bool;

/// What `get_hover_resp` makes of `word` for a fresh document store, a cursor
/// `cursor_offset` bytes into the word, a document at `workspace`, a store
/// that holds the three tables and nothing else, and a configuration for
/// `isa` and `assembler`.
pub uninterp spec fn hover_outcome(
    instructions: ArchTable,
    registers: ArchTable,
    directives: DirectiveTable,
    isa: asm_lsp::Arch,
    assembler: asm_lsp::Assembler,
    workspace: Seq<char>,
    word: Seq<char>,
    cursor_offset: usize,
) -> HoverOutcomeView;

/// `get_hover_resp`, asked about `word` as a one-shot query: the cursor at
/// line zero, column zero, `cursor_offset` bytes into the word, no document
/// open, and nothing in the store but `maps`.
///
/// Two inputs are left out. `Uri::from_str` panics on a `workspace` of more
/// than `i32::MAX` bytes. And with a cursor behind a dot in the word the
/// resolver, for ARM64, slices the word by arithmetic on the dot's place,
/// which can fall outside the word; at offset zero it never does.
///
/// `Uri::from_str` decides whether `workspace` can stand for the document. If
/// it can, the resolver looks the lower-cased word up under the
/// configuration's instruction set and assembler: first among the
/// instructions, then among the directives, then among the registers, and
/// renders what it finds first with the descriptor's `Display` impl. Only
/// when all three fail does it try other sources. Markdown text is handed on
/// as it is, any other content in its debug rendering.
#[verifier::external_body]
pub(crate) fn resolve_hover(
    maps: &asm_lsp::NameToInfoMaps,
    isa: asm_lsp::Arch,
    assembler: asm_lsp::Assembler,
    workspace: &str,
    word: &str,
    cursor_offset: usize,
) -> (outcome: HoverOutcome)
    requires
        location_fits(workspace@),
        cursor_offset == 0,
    ensures
        outcome@ == hover_outcome(
            instruction_entries(*maps),
            register_entries(*maps),
            directive_entries(*maps),
            isa,
            assembler,
            workspace@,
            word@,
            cursor_offset,
        ),
        outcome is BadLocation <==> !location_parses(workspace@),
        found_in(instruction_entries(*maps), isa, word@) is Some ==> outcome is BadLocation
            || outcome@ == HoverOutcomeView::Markdown(
            found_in(instruction_entries(*maps), isa, word@).unwrap(),
        ),
        hits_directive(
            instruction_entries(*maps),
            directive_entries(*maps),
            isa,
            assembler,
            word@,
        ) ==> outcome is BadLocation || outcome@ == HoverOutcomeView::Markdown(
            directive_entries(*maps)[(assembler, ascii_lowercase(word@))].markup,
        ),
        hits_register_only(
            instruction_entries(*maps),
            register_entries(*maps),
            directive_entries(*maps),
            isa,
            assembler,
            word@,
        ) ==> outcome is BadLocation || outcome@ == HoverOutcomeView::Markdown(
            found_in(register_entries(*maps), isa, word@).unwrap(),
        ),
{
    let Ok(uri) = Uri::from_str(workspace) else { return HoverOutcome::BadLocation };
    let store = ServerStore { names_to_info: maps.clone(), ..ServerStore::default() };
    let config = Config { version: None, assembler, instruction_set: isa, opts: None };
    let text_document = TextDocumentIdentifier { uri };
    let place = TextDocumentPositionParams { text_document, position: Position::default() };
    let work_done_progress_params = WorkDoneProgressParams::default();
    let params = HoverParams { text_document_position_params: place, work_done_progress_params };
    let hover = get_hover_resp(&params, &config, word, cursor_offset, &mut DocumentStore::new(), &store);
    match hover.map(|found| found.contents) {
        None => HoverOutcome::Empty,
        Some(HoverContents::Markup(MarkupContent { kind: MarkupKind::Markdown, value })) => HoverOutcome::Markdown(value),
        Some(other) => HoverOutcome::Unexpected(format!("{:?}", other)),
    }
}

} // verus!
