//! Text that the queries hand back: blank-line cleanup of a description, and
//! the joining of names into lines.

use vstd::prelude::*;

verus! {

/// `String::push` appends the character to the end of the string.
pub assume_specification[ String::push ](text: &mut String, ch: char)
    ensures
        final(text)@ == old(text)@.push(ch),
;

/// What is left of `text` once every occurrence of `pattern` has given way
/// to `substitute`. Occurrences are found from the left, and one that
/// overlaps an occurrence already replaced does not count. An empty pattern
/// occurs nowhere.
pub open spec fn replaced(text: Seq<char>, pattern: Seq<char>, substitute: Seq<char>) -> Seq<char>
    decreases text.len(),
{
    if pattern.len() == 0 || text.len() < pattern.len() {
        text
    } else if text.take(pattern.len() as int) == pattern {
        substitute + replaced(text.skip(pattern.len() as int), pattern, substitute)
    } else {
        seq![text[0]] + replaced(text.skip(1), pattern, substitute)
    }
}

/// A run of `count` newline characters.
pub open spec fn newlines(count: nat) -> Seq<char> {
    Seq::new(count, |i: int| '\n')
}

/// A description after cleanup: first every four newlines in a row become
/// two, then every three in a row become two.
pub open spec fn cleaned(text: Seq<char>) -> Seq<char> {
    replaced(replaced(text, newlines(4), newlines(2)), newlines(3), newlines(2))
}

/// Whether `pattern` stands in `text` at index `at`.
pub open spec fn occurs_at(text: Seq<char>, pattern: Seq<char>, at: int) -> bool {
    &&& 0 <= at
    &&& at + pattern.len() <= text.len()
    &&& text.subrange(at, at + pattern.len()) == pattern
}

/// Whether `text` holds no three newlines in a row, that is, no more than one
/// blank line at a time.
pub open spec fn settled(text: Seq<char>) -> bool {
    forall|at: int| !occurs_at(text, newlines(3), at)
}

/// The lines joined into one text, a newline between each two neighbours.
pub open spec fn joined(lines: Seq<Seq<char>>) -> Seq<char>
    decreases lines.len(),
{
    if lines.len() == 0 {
        Seq::empty()
    } else if lines.len() == 1 {
        lines[0]
    } else {
        joined(lines.drop_last()) + seq!['\n'] + lines.last()
    }
}

/// A text that holds no occurrence of the pattern is left as it is.
pub proof fn lemma_absent_pattern_stays(text: Seq<char>, pattern: Seq<char>, substitute: Seq<char>)
    requires
        forall|at: int| !occurs_at(text, pattern, at),
    ensures
        replaced(text, pattern, substitute) == text,
    decreases text.len(),
{
    if pattern.len() > 0 && text.len() >= pattern.len() {
        assert(text.take(pattern.len() as int) =~= text.subrange(0, 0int + pattern.len()));
        assert(!occurs_at(text, pattern, 0));
        let rest = text.skip(1);
        assert forall|at: int| !occurs_at(rest, pattern, at) by {
            if occurs_at(rest, pattern, at) {
                assert(rest.subrange(at, at + pattern.len()) =~= text.subrange(
                    at + 1,
                    at + 1 + pattern.len(),
                ));
                assert(occurs_at(text, pattern, at + 1));
            }
        }
        lemma_absent_pattern_stays(rest, pattern, substitute);
        assert(seq![text[0]] + rest =~= text);
    }
}

/// Replacing by something no longer than the pattern never lengthens a text.
pub proof fn lemma_replaced_is_no_longer(
    text: Seq<char>,
    pattern: Seq<char>,
    substitute: Seq<char>,
)
    requires
        substitute.len() <= pattern.len(),
    ensures
        replaced(text, pattern, substitute).len() <= text.len(),
    decreases text.len(),
{
    if pattern.len() > 0 && text.len() >= pattern.len() {
        if text.take(pattern.len() as int) == pattern {
            lemma_replaced_is_no_longer(text.skip(pattern.len() as int), pattern, substitute);
        } else {
            lemma_replaced_is_no_longer(text.skip(1), pattern, substitute);
        }
    }
}

/// Replacing by something shorter than the pattern shortens every text that
/// holds the pattern.
pub proof fn lemma_replaced_is_shorter(
    text: Seq<char>,
    pattern: Seq<char>,
    substitute: Seq<char>,
    at: int,
)
    requires
        substitute.len() < pattern.len(),
        occurs_at(text, pattern, at),
    ensures
        replaced(text, pattern, substitute).len() < text.len(),
    decreases text.len(),
{
    if text.take(pattern.len() as int) == pattern {
        lemma_replaced_is_no_longer(text.skip(pattern.len() as int), pattern, substitute);
    } else {
        let rest = text.skip(1);
        assert(text.take(pattern.len() as int) =~= text.subrange(0, 0int + pattern.len()));
        assert(at >= 1);
        assert(rest.subrange(at - 1, at - 1 + pattern.len()) =~= text.subrange(
            at,
            at + pattern.len(),
        ));
        lemma_replaced_is_shorter(rest, pattern, substitute, at - 1);
    }
}

/// Cleanup leaves a text as it is exactly when the text holds no three
/// newlines in a row. So a text that is settled stays the same however often
/// it is cleaned.
pub proof fn cleanup_is_stable_on_settled_text(text: Seq<char>)
    ensures
        settled(text) <==> cleaned(text) == text,
        settled(text) ==> cleaned(cleaned(text)) == text,
{
    let two = newlines(2);
    let first = replaced(text, newlines(4), two);
    if settled(text) {
        assert forall|at: int| !occurs_at(text, newlines(4), at) by {
            if occurs_at(text, newlines(4), at) {
                assert(text.subrange(at, at + 3) =~= text.subrange(at, at + 4).take(3));
                assert(newlines(4).take(3) =~= newlines(3));
                assert(occurs_at(text, newlines(3), at));
            }
        }
        lemma_absent_pattern_stays(text, newlines(4), two);
        lemma_absent_pattern_stays(text, newlines(3), two);
    } else {
        let at = choose|at: int| occurs_at(text, newlines(3), at);
        lemma_replaced_is_no_longer(first, newlines(3), two);
        if exists|four: int| occurs_at(text, newlines(4), four) {
            let four = choose|four: int| occurs_at(text, newlines(4), four);
            lemma_replaced_is_shorter(text, newlines(4), two, four);
        } else {
            lemma_absent_pattern_stays(text, newlines(4), two);
            lemma_replaced_is_shorter(text, newlines(3), two, at);
        }
        assert(cleaned(text).len() < text.len());
    }
}

/// The characters of `text`, in order.
pub fn chars_of(text: &str) -> (chars: Vec<char>)
    ensures
        chars@ == text@,
{
    let mut chars: Vec<char> = Vec::new();
    for ch in it: text.chars()
        invariant
            it.seq() == text@,
            chars@ == text@.take(it.index() as int),
    {
        chars.push(ch);
    }
    chars
}

/// The string made of `chars`, in order.
pub fn string_of(chars: &Vec<char>) -> (text: String)
    ensures
        text@ == chars@,
{
    let mut text = String::new();
    let mut done: usize = 0;
    while done < chars.len()
        invariant
            done <= chars.len(),
            text@ == chars@.take(done as int),
        decreases chars.len() - done,
    {
        text.push(chars[done]);
        done = done + 1;
    }
    text
}

/// Whether `pattern` stands in `text` at index `at`.
fn stands_at(text: &Vec<char>, pattern: &Vec<char>, at: usize) -> (found: bool)
    requires
        at <= text.len(),
    ensures
        found == occurs_at(text@, pattern@, at as int),
{
    if pattern.len() > text.len() - at {
        return false;
    }
    let mut same: usize = 0;
    while same < pattern.len()
        invariant
            at + pattern.len() <= text.len(),
            same <= pattern.len(),
            forall|k: int| 0 <= k < same ==> text@[at + k] == pattern@[k],
        decreases pattern.len() - same,
    {
        if text[at + same] != pattern[same] {
            assert(text@.subrange(at as int, at + pattern.len())[same as int] != pattern@[same as int]);
            return false;
        }
        same = same + 1;
    }
    assert(text@.subrange(at as int, at + pattern.len()) =~= pattern@);
    true
}

/// Replaces every occurrence of `pattern` in `text` by `substitute`, from the
/// left. An empty pattern occurs nowhere.
pub fn replace_all(text: &Vec<char>, pattern: &Vec<char>, substitute: &Vec<char>) -> (out: Vec<char>)
    ensures
        out@ == replaced(text@, pattern@, substitute@),
{
    if pattern.len() == 0 {
        return text.clone();
    }
    let mut out: Vec<char> = Vec::new();
    let mut at: usize = 0;
    proof {
        assert(text@.skip(0) =~= text@);
        assert(out@ + text@ =~= text@);
    }
    while at < text.len()
        invariant
            at <= text.len(),
            pattern.len() > 0,
            replaced(text@, pattern@, substitute@) == out@ + replaced(
                text@.skip(at as int),
                pattern@,
                substitute@,
            ),
        decreases text.len() - at,
    {
        let ghost rest = text@.skip(at as int);
        let ghost before = out@;
        if stands_at(text, pattern, at) {
            let mut copied: usize = 0;
            while copied < substitute.len()
                invariant
                    copied <= substitute.len(),
                    out@ == before + substitute@.take(copied as int),
                decreases substitute.len() - copied,
            {
                out.push(substitute[copied]);
                copied = copied + 1;
            }
            proof {
                assert(substitute@.take(substitute.len() as int) =~= substitute@);
                assert(rest.take(pattern.len() as int) =~= text@.subrange(
                    at as int,
                    at + pattern.len(),
                ));
                assert(rest.skip(pattern.len() as int) =~= text@.skip(at + pattern.len()));
                assert(before + (substitute@ + replaced(
                    rest.skip(pattern.len() as int),
                    pattern@,
                    substitute@,
                )) =~= (before + substitute@) + replaced(
                    rest.skip(pattern.len() as int),
                    pattern@,
                    substitute@,
                ));
            }
            at = at + pattern.len();
        } else {
            out.push(text[at]);
            proof {
                if rest.len() >= pattern.len() {
                    assert(rest.take(pattern.len() as int) =~= text@.subrange(
                        at as int,
                        at + pattern.len(),
                    ));
                    assert(rest.skip(1) =~= text@.skip(at + 1));
                    assert(before + (seq![rest[0]] + replaced(rest.skip(1), pattern@, substitute@))
                        =~= before.push(text@[at as int]) + replaced(
                        rest.skip(1),
                        pattern@,
                        substitute@,
                    ));
                } else {
                    lemma_short_text_stays(text@.skip(at + 1), pattern@, substitute@);
                    assert(before + rest =~= before.push(text@[at as int]) + text@.skip(at + 1));
                }
            }
            at = at + 1;
        }
    }
    proof {
        assert(text@.skip(at as int) =~= Seq::<char>::empty());
        assert(out@ + Seq::<char>::empty() =~= out@);
    }
    out
}

/// A text shorter than the pattern holds no occurrence of it.
proof fn lemma_short_text_stays(text: Seq<char>, pattern: Seq<char>, substitute: Seq<char>)
    requires
        text.len() < pattern.len(),
    ensures
        replaced(text, pattern, substitute) == text,
{
}

/// A vector of `count` newline characters.
fn newline_run(count: usize) -> (run: Vec<char>)
    ensures
        run@ == newlines(count as nat),
{
    let mut run: Vec<char> = Vec::new();
    let mut made: usize = 0;
    while made < count
        invariant
            made <= count,
            run@ == newlines(made as nat),
        decreases count - made,
    {
        run.push('\n');
        made = made + 1;
        assert(run@ =~= newlines(made as nat));
    }
    run
}

/// Cleans a description of surplus blank lines: every four newlines in a row
/// become two, and then every three in a row become two.
pub fn clean_text(text: &str) -> (out: String)
    ensures
        out@ == cleaned(text@),
{
    let chars = chars_of(text);
    let two = newline_run(2);
    let four_gone = replace_all(&chars, &newline_run(4), &two);
    let three_gone = replace_all(&four_gone, &newline_run(3), &two);
    string_of(&three_gone)
}

/// Joins the lines into one text, a newline between each two neighbours.
pub fn join_lines(lines: &Vec<String>) -> (text: String)
    ensures
        text@ == joined(lines.deep_view()),
{
    let mut text = String::new();
    let mut done: usize = 0;
    while done < lines.len()
        invariant
            done <= lines.len(),
            text@ == joined(lines.deep_view().take(done as int)),
        decreases lines.len() - done,
    {
        let ghost so_far = lines.deep_view().take(done as int);
        let ghost next = lines.deep_view().take(done + 1);
        proof {
            assert(next.drop_last() =~= so_far);
            assert(next.last() == lines@[done as int]@);
            reveal_strlit("\n");
            assert("\n"@ =~= seq!['\n']);
        }
        if done > 0 {
            text.append("\n");
        }
        text.append(lines[done].as_str());
        proof {
            if done == 0 {
                assert(Seq::<char>::empty() + lines@[0]@ =~= lines@[0]@);
            }
        }
        done = done + 1;
    }
    proof {
        assert(lines.deep_view().take(lines.len() as int) =~= lines.deep_view());
    }
    text
}

} // verus!
