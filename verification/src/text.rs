//! Joining pieces of text with a separator.

use vstd::prelude::*;
use vstd::string::*;

verus! {

/// The texts that a sequence of strings holds, in order.
pub open spec fn views(parts: Seq<String>) -> Seq<Seq<char>> {
    Seq::new(parts.len(), |i: int| parts[i]@)
}

/// The pieces written one after another, with `sep` between neighbours.
pub open spec fn join(parts: Seq<Seq<char>>, sep: Seq<char>) -> Seq<char>
    decreases parts.len(),
{
    if parts.len() == 0 {
        Seq::empty()
    } else if parts.len() == 1 {
        parts[0]
    } else {
        join(parts.drop_last(), sep) + sep + parts.last()
    }
}

/// Joining one piece more appends the separator and that piece, unless the
/// piece is the first.
pub proof fn lemma_join_push(parts: Seq<Seq<char>>, piece: Seq<char>, sep: Seq<char>)
    ensures
        join(parts.push(piece), sep) == if parts.len() == 0 {
            piece
        } else {
            join(parts, sep) + sep + piece
        },
{
    assert(parts.push(piece).drop_last() =~= parts);
}

/// Joins the strings of `parts`, writing `sep` between neighbours.
pub fn join_strings(parts: &Vec<String>, sep: &str) -> (out: String)
    ensures
        out@ == join(views(parts@), sep@),
{
    let mut out = String::new();
    let mut i: usize = 0;
    while i < parts.len()
        invariant
            i <= parts.len(),
            out@ == join(views(parts@).take(i as int), sep@),
        decreases parts.len() - i,
    {
        if i > 0 {
            out.append(sep);
        }
        out.append(parts[i].as_str());
        proof {
            let all = views(parts@);
            lemma_join_push(all.take(i as int), all[i as int], sep@);
            assert(all.take(i as int).push(all[i as int]) =~= all.take(i + 1));
        }
        i += 1;
    }
    assert(views(parts@).take(parts.len() as int) =~= views(parts@));
    out
}

/// A copy of a list of strings.
pub fn copy_strings(strings: &Vec<String>) -> (copy: Vec<String>)
    ensures
        views(copy@) == views(strings@),
{
    let mut copy: Vec<String> = Vec::new();
    let mut i: usize = 0;
    while i < strings.len()
        invariant
            i <= strings.len(),
            views(copy@) == views(strings@).take(i as int),
        decreases strings.len() - i,
    {
        let ghost before = views(copy@);
        copy.push(strings[i].clone());
        assert(views(copy@) =~= before.push(strings[i as int]@));
        assert(views(copy@) =~= views(strings@).take(i + 1));
        i += 1;
    }
    assert(views(strings@).take(strings.len() as int) =~= views(strings@));
    copy
}

/// Whether two lists of strings hold the same texts in the same order.
pub fn same_strings(a: &Vec<String>, b: &Vec<String>) -> (same: bool)
    ensures
        same == (views(a@) == views(b@)),
{
    if a.len() != b.len() {
        assert(views(a@).len() != views(b@).len());
        return false;
    }
    let mut i: usize = 0;
    while i < a.len()
        invariant
            a.len() == b.len(),
            i <= a.len(),
            forall|j: int| 0 <= j < i ==> a@[j]@ == b@[j]@,
        decreases a.len() - i,
    {
        if a[i] != b[i] {
            assert(views(a@)[i as int] != views(b@)[i as int]);
            return false;
        }
        i += 1;
    }
    assert(views(a@) =~= views(b@));
    true
}

/// Whether `pattern` occurs in `text` as a run of neighbouring characters.
pub open spec fn occurs_in(pattern: Seq<char>, text: Seq<char>) -> bool {
    exists|at: int| occurs_at(pattern, text, at)
}

/// Whether `pattern` occurs in `text` from position `at` on.
pub open spec fn occurs_at(pattern: Seq<char>, text: Seq<char>, at: int) -> bool {
    &&& 0 <= at
    &&& at + pattern.len() <= text.len()
    &&& text.subrange(at, at + pattern.len()) == pattern
}

/// What occurs in a text occurs in every text that it is a part of.
pub proof fn lemma_occurs_in_part(
    pattern: Seq<char>,
    before: Seq<char>,
    text: Seq<char>,
    after: Seq<char>,
)
    requires
        occurs_in(pattern, text),
    ensures
        occurs_in(pattern, before + text + after),
{
    let at = choose|at: int| occurs_at(pattern, text, at);
    let whole = before + text + after;
    assert(whole.subrange(before.len() + at, before.len() + at + pattern.len()) =~= text.subrange(
        at,
        at + pattern.len(),
    ));
    assert(occurs_at(pattern, whole, before.len() + at));
}

/// Two texts put together around a character that the pattern does not hold:
/// the pattern occurs in the whole exactly if it occurs in one of the two.
pub proof fn lemma_occurs_around(
    pattern: Seq<char>,
    before: Seq<char>,
    mark: char,
    after: Seq<char>,
)
    requires
        !pattern.contains(mark),
    ensures
        occurs_in(pattern, before + seq![mark] + after) <==> occurs_in(pattern, before)
            || occurs_in(pattern, after),
{
    let whole = before + seq![mark] + after;
    if occurs_in(pattern, before) {
        lemma_occurs_in_part(pattern, Seq::empty(), before, seq![mark] + after);
        assert(Seq::<char>::empty() + before + (seq![mark] + after) =~= whole);
    }
    if occurs_in(pattern, after) {
        lemma_occurs_in_part(pattern, before + seq![mark], after, Seq::empty());
        assert(before + seq![mark] + after + Seq::<char>::empty() =~= whole);
    }
    if occurs_in(pattern, whole) {
        let at = choose|at: int| occurs_at(pattern, whole, at);
        let window = whole.subrange(at, at + pattern.len());
        if at + pattern.len() <= before.len() {
            assert(before.subrange(at, at + pattern.len()) =~= window);
            assert(occurs_at(pattern, before, at));
        } else if at > before.len() {
            let shifted = at - before.len() - 1;
            assert(after.subrange(shifted, shifted + pattern.len()) =~= window);
            assert(occurs_at(pattern, after, shifted));
        } else {
            assert(window[before.len() - at] == mark);
            assert(pattern[before.len() - at] == mark);
            assert(false);
        }
    }
}

/// A pattern does not occur in a text that is shorter than it.
pub proof fn lemma_occurs_not_in_shorter(pattern: Seq<char>, text: Seq<char>)
    requires
        text.len() < pattern.len(),
    ensures
        !occurs_in(pattern, text),
{
}

/// Pieces joined by a character that the pattern does not hold: the pattern
/// occurs in the whole exactly if it occurs in one of the pieces.
pub proof fn lemma_occurs_in_joined(pattern: Seq<char>, parts: Seq<Seq<char>>, mark: char)
    requires
        !pattern.contains(mark),
        pattern.len() > 0,
    ensures
        occurs_in(pattern, join(parts, seq![mark])) <==> exists|i: int|
            0 <= i < parts.len() && occurs_in(pattern, #[trigger] parts[i]),
    decreases parts.len(),
{
    if parts.len() == 0 {
        lemma_occurs_not_in_shorter(pattern, join(parts, seq![mark]));
    } else if parts.len() == 1 {
        if occurs_in(pattern, join(parts, seq![mark])) {
            assert(occurs_in(pattern, parts[0]));
        }
    } else {
        let front = parts.drop_last();
        lemma_occurs_in_joined(pattern, front, mark);
        lemma_occurs_around(pattern, join(front, seq![mark]), mark, parts.last());
        if occurs_in(pattern, join(parts, seq![mark])) {
            if occurs_in(pattern, parts.last()) {
                assert(occurs_in(pattern, parts[parts.len() - 1]));
            } else {
                let i = choose|i: int| 0 <= i < front.len() && occurs_in(pattern, #[trigger] front[i]);
                assert(occurs_in(pattern, parts[i]));
            }
        }
        if exists|i: int| 0 <= i < parts.len() && occurs_in(pattern, #[trigger] parts[i]) {
            let i = choose|i: int| 0 <= i < parts.len() && occurs_in(pattern, #[trigger] parts[i]);
            if i < front.len() {
                assert(occurs_in(pattern, front[i]));
            }
        }
    }
}

} // verus!
