use vstd::prelude::*;

verus! {

/// The parts one after the other, with `mark` between each two.
pub open spec fn joined(parts: Seq<Seq<char>>, mark: char) -> Seq<char>
    decreases parts.len(),
{
    if parts.len() == 0 {
        Seq::empty()
    } else if parts.len() == 1 {
        parts[0]
    } else {
        parts[0] + seq![mark] + joined(parts.drop_first(), mark)
    }
}

/// The longest prefix of `text` that does not hold `mark`.
pub open spec fn until(text: Seq<char>, mark: char) -> Seq<char>
    decreases text.len(),
{
    if text.len() == 0 || text[0] == mark {
        Seq::empty()
    } else {
        seq![text[0]] + until(text.drop_first(), mark)
    }
}

/// The pieces of `text` between the occurrences of `mark`: always one more piece
/// than there are marks.
pub open spec fn split(text: Seq<char>, mark: char) -> Seq<Seq<char>>
    decreases text.len(),
{
    let head = until(text, mark);
    if head.len() >= text.len() {
        seq![head]
    } else {
        seq![head] + split(text.skip(head.len() as int + 1), mark)
    }
}

/// `mark` does not occur in `text`.
pub open spec fn free_of(text: Seq<char>, mark: char) -> bool {
    forall|i: int| 0 <= i < text.len() ==> text[i] != mark
}

/// Every part is free of `mark`.
pub open spec fn all_free_of(parts: Seq<Seq<char>>, mark: char) -> bool {
    forall|i: int| 0 <= i < parts.len() ==> free_of(#[trigger] parts[i], mark)
}

/// The views of a list of string slices.
pub open spec fn texts(items: Seq<&str>) -> Seq<Seq<char>> {
    items.map_values(|item: &str| item@)
}

/// The views of a list of pairs of string slices.
pub open spec fn pair_texts(items: Seq<(&str, &str)>) -> Seq<(Seq<char>, Seq<char>)> {
    items.map_values(|item: (&str, &str)| (item.0@, item.1@))
}

/// Joining one more part adds the mark and the part, or the part alone where it is
/// the first.
pub proof fn lemma_joined_push(parts: Seq<Seq<char>>, part: Seq<char>, mark: char)
    ensures
        joined(parts.push(part), mark) == (if parts.len() == 0 {
            part
        } else {
            joined(parts, mark) + seq![mark] + part
        }),
    decreases parts.len(),
{
    if parts.len() > 0 {
        let rest = parts.drop_first();
        lemma_joined_push(rest, part, mark);
        assert(parts.push(part).drop_first() =~= rest.push(part));
    }
}

/// A text without `mark`, followed by nothing or by `mark`, is found again by `until`.
pub proof fn lemma_until_prefix(head: Seq<char>, rest: Seq<char>, mark: char)
    requires
        free_of(head, mark),
        rest.len() == 0 || rest[0] == mark,
    ensures
        until(head + rest, mark) == head,
    decreases head.len(),
{
    if head.len() > 0 {
        let shorter = head.drop_first();
        assert((head + rest).drop_first() =~= shorter + rest);
        assert forall|i: int| 0 <= i < shorter.len() implies shorter[i] != mark by {
            assert(shorter[i] == head[i + 1]);
        }
        lemma_until_prefix(shorter, rest, mark);
    }
}

/// Splitting undoes joining, where no part holds the mark.
pub proof fn lemma_split_joined(parts: Seq<Seq<char>>, mark: char)
    requires
        parts.len() > 0,
        all_free_of(parts, mark),
    ensures
        split(joined(parts, mark), mark) == parts,
    decreases parts.len(),
{
    let text = joined(parts, mark);
    if parts.len() == 1 {
        lemma_until_prefix(parts[0], Seq::empty(), mark);
    } else {
        let rest = parts.drop_first();
        let tail = seq![mark] + joined(rest, mark);
        assert(text =~= parts[0] + tail);
        lemma_until_prefix(parts[0], tail, mark);
        assert(text.skip(parts[0].len() as int + 1) =~= joined(rest, mark));
        assert forall|i: int| 0 <= i < rest.len() implies free_of(#[trigger] rest[i], mark) by {
            assert(rest[i] == parts[i + 1]);
        }
        lemma_split_joined(rest, mark);
    }
}

/// A joined text is free of a character that neither a part nor the mark is.
pub proof fn lemma_joined_free_of(parts: Seq<Seq<char>>, mark: char, other: char)
    requires
        all_free_of(parts, other),
        mark != other,
    ensures
        free_of(joined(parts, mark), other),
    decreases parts.len(),
{
    if parts.len() > 1 {
        let rest = parts.drop_first();
        assert forall|i: int| 0 <= i < rest.len() implies free_of(#[trigger] rest[i], other) by {
            assert(rest[i] == parts[i + 1]);
        }
        lemma_joined_free_of(rest, mark, other);
    } else if parts.len() == 1 {
        assert(free_of(parts[0], other));
    }
}

} // verus!
