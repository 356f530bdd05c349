//! UTF-16 text as the host hands it over: terminated strings, environment
//! blocks and argument lists.

use vstd::prelude::*;
use vstd::slice::slice_subrange;
use vstd::slice::slice_to_vec;

verus! {

/// The code unit that ends a string, and an entry of an environment block.
pub const TERMINATOR: u16 = 0;

/// The code unit of `=`, which parts the key of an environment entry from its
/// value.
pub const SEPARATOR: u16 = 0x3d;

/// The text that `String::from_utf16_lossy` decodes from UTF-16 code units.
pub uninterp spec fn utf16_lossy(units: Seq<u16>) -> Seq<char>;

/// Calls `String::from_utf16_lossy`: the units are decoded as UTF-16, with
/// U+FFFD in place of what is not valid. The result depends on the units
/// alone and is known to contracts as `utf16_lossy`.
#[verifier::external_body]
fn decode_utf16(units: &[u16]) -> (text: String)
    ensures
        text@ == utf16_lossy(units@),
{
    String::from_utf16_lossy(units)
}

/// How many units stand before the first terminator, or the length where
/// there is none.
pub open spec fn terminator_index(units: Seq<u16>) -> nat
    decreases units.len(),
{
    if units.len() == 0 || units[0] == TERMINATOR {
        0
    } else {
        1 + terminator_index(units.drop_first())
    }
}

/// The units up to the first terminator, which is left out.
pub open spec fn until_terminator(units: Seq<u16>) -> Seq<u16> {
    units.take(terminator_index(units) as int)
}

/// `terminator_index` points at the first terminator: nothing before it is
/// one, and it is one unless it is the length.
pub proof fn lemma_terminator_index(units: Seq<u16>)
    ensures
        terminator_index(units) <= units.len(),
        forall|i: int| 0 <= i < terminator_index(units) ==> units[i] != TERMINATOR,
        terminator_index(units) < units.len() ==> units[terminator_index(units) as int]
            == TERMINATOR,
    decreases units.len(),
{
    if units.len() != 0 && units[0] != TERMINATOR {
        let rest = units.drop_first();
        lemma_terminator_index(rest);
        assert forall|i: int| 0 <= i < terminator_index(units) implies units[i] != TERMINATOR by {
            if i > 0 {
                assert(units[i] == rest[i - 1]);
            }
        }
        if terminator_index(units) < units.len() {
            assert(units[terminator_index(units) as int] == rest[terminator_index(rest) as int]);
        }
    }
}

/// An index with nothing but other units before it, which is the length or
/// holds a terminator, is `terminator_index`.
pub proof fn lemma_terminator_index_is(units: Seq<u16>, n: int)
    requires
        0 <= n <= units.len(),
        forall|i: int| 0 <= i < n ==> units[i] != TERMINATOR,
        n < units.len() ==> units[n] == TERMINATOR,
    ensures
        terminator_index(units) == n,
{
    lemma_terminator_index(units);
    let found = terminator_index(units) as int;
    if found < n {
        assert(units[found] != TERMINATOR);
    } else if n < found {
        assert(units[n] == TERMINATOR);
    }
}

/// The index of the first terminator at or after `from`, or the length.
fn find_terminator(units: &[u16], from: usize) -> (end: usize)
    requires
        from <= units@.len(),
    ensures
        end == from + terminator_index(units@.skip(from as int)),
        from <= end <= units@.len(),
{
    let mut end: usize = from;
    while end < units.len() && units[end] != TERMINATOR
        invariant
            from <= end <= units@.len(),
            forall|i: int| from <= i < end ==> units@[i] != TERMINATOR,
        decreases units@.len() - end,
    {
        end += 1;
    }
    proof {
        lemma_terminator_index_is(units@.skip(from as int), end - from);
    }
    end
}

/// Tells whether the units hold a terminator, so that they can be handed
/// to a host call that reads up to one.
pub fn has_terminator(units: &[u16]) -> (found: bool)
    ensures
        found == units@.contains(TERMINATOR),
{
    let end: usize = find_terminator(units, 0);
    proof {
        assert(units@.skip(0) =~= units@);
        lemma_terminator_index(units@);
        if end < units@.len() {
            assert(units@[end as int] == TERMINATOR);
        }
    }
    end < units.len()
}

/// Decodes the text that stands before the first terminator. Without a
/// terminator the whole slice is text.
pub fn null_terminated_wchar_to_string(units: &[u16]) -> (text: String)
    ensures
        text@ == utf16_lossy(until_terminator(units@)),
{
    let end: usize = find_terminator(units, 0);
    proof {
        assert(units@.skip(0) =~= units@);
        assert(units@.subrange(0, end as int) =~= until_terminator(units@));
    }
    decode_utf16(slice_subrange(units, 0, end))
}

/// The entries of an environment block. Each entry ends at a terminator and
/// holds a separator. The list ends before the first entry without a
/// separator (an empty entry is one) and where no terminator is left.
pub open spec fn environment_entries(raw: Seq<u16>) -> Seq<Seq<u16>>
    decreases raw.len(),
{
    let end = terminator_index(raw) as int;
    if end >= raw.len() || !raw.take(end).contains(SEPARATOR) {
        Seq::empty()
    } else {
        seq![raw.take(end)] + environment_entries(raw.skip(end + 1))
    }
}

/// Whether the units can stand as one entry of an environment block: they
/// hold a separator and no terminator.
pub open spec fn is_entry(units: Seq<u16>) -> bool {
    units.contains(SEPARATOR) && !units.contains(TERMINATOR)
}

/// The block that holds the given entries in order, a terminator after each.
pub open spec fn joined(entries: Seq<Seq<u16>>) -> Seq<u16>
    decreases entries.len(),
{
    if entries.len() == 0 {
        Seq::empty()
    } else {
        entries[0] + seq![TERMINATOR] + joined(entries.drop_first())
    }
}

/// Where units without a terminator are followed by one, the terminator
/// stands right behind them.
proof fn lemma_terminator_after(head: Seq<u16>, rest: Seq<u16>)
    requires
        !head.contains(TERMINATOR),
    ensures
        terminator_index(head + seq![TERMINATOR] + rest) == head.len(),
        (head + seq![TERMINATOR] + rest).take(head.len() as int) == head,
        (head + seq![TERMINATOR] + rest).skip(head.len() as int + 1) == rest,
{
    let raw = head + seq![TERMINATOR] + rest;
    assert forall|i: int| 0 <= i < head.len() implies raw[i] != TERMINATOR by {
        assert(raw[i] == head[i]);
        assert(head.contains(head[i]));
    }
    assert(raw[head.len() as int] == TERMINATOR);
    lemma_terminator_index_is(raw, head.len() as int);
    assert(raw.take(head.len() as int) =~= head);
    assert(raw.skip(head.len() as int + 1) =~= rest);
}

/// Parsing gives back the entries that a block was joined from, followed by
/// what the units behind them parse to.
pub proof fn lemma_environment_of_joined(entries: Seq<Seq<u16>>, rest: Seq<u16>)
    requires
        forall|i: int| 0 <= i < entries.len() ==> is_entry(#[trigger] entries[i]),
    ensures
        environment_entries(joined(entries) + rest) == entries + environment_entries(rest),
    decreases entries.len(),
{
    if entries.len() == 0 {
        assert(joined(entries) + rest =~= rest);
        assert(entries + environment_entries(rest) =~= environment_entries(rest));
    } else {
        let first = entries[0];
        let others = entries.drop_first();
        let behind = joined(others) + rest;
        let raw = joined(entries) + rest;
        assert(is_entry(first));
        assert(raw =~= first + seq![TERMINATOR] + behind);
        lemma_terminator_after(first, behind);
        assert forall|i: int| 0 <= i < others.len() implies is_entry(#[trigger] others[i]) by {
            assert(others[i] == entries[i + 1]);
        }
        lemma_environment_of_joined(others, rest);
        assert(environment_entries(raw) == seq![first] + environment_entries(behind));
        assert(seq![first] + (others + environment_entries(rest)) =~= entries
            + environment_entries(rest));
    }
}

/// An entry without a separator ends the list: the entries before it are
/// the result, whatever stands behind it. An empty entry, the regular end of
/// a block, is such an entry.
pub proof fn lemma_entry_without_separator_ends_list(
    entries: Seq<Seq<u16>>,
    last: Seq<u16>,
    rest: Seq<u16>,
)
    requires
        forall|i: int| 0 <= i < entries.len() ==> is_entry(#[trigger] entries[i]),
        !last.contains(SEPARATOR),
        !last.contains(TERMINATOR),
    ensures
        environment_entries(joined(entries) + (last + seq![TERMINATOR] + rest)) == entries,
{
    let behind = last + seq![TERMINATOR] + rest;
    lemma_terminator_after(last, rest);
    assert(environment_entries(behind) =~= Seq::<Seq<u16>>::empty());
    lemma_environment_of_joined(entries, behind);
    assert(entries + Seq::<Seq<u16>>::empty() =~= entries);
}

/// A block that stops without a terminator gives the entries that were
/// complete: the units behind the last terminator are dropped.
pub proof fn lemma_unterminated_entry_is_dropped(entries: Seq<Seq<u16>>, last: Seq<u16>)
    requires
        forall|i: int| 0 <= i < entries.len() ==> is_entry(#[trigger] entries[i]),
        !last.contains(TERMINATOR),
    ensures
        environment_entries(joined(entries) + last) == entries,
{
    assert forall|i: int| 0 <= i < last.len() implies last[i] != TERMINATOR by {
        assert(last.contains(last[i]));
    }
    lemma_terminator_index_is(last, last.len() as int);
    assert(environment_entries(last) =~= Seq::<Seq<u16>>::empty());
    lemma_environment_of_joined(entries, last);
    assert(entries + Seq::<Seq<u16>>::empty() =~= entries);
}

/// The view of each vector of a sequence.
pub open spec fn unit_views(items: Seq<Vec<u16>>) -> Seq<Seq<u16>> {
    Seq::new(items.len(), |i: int| items[i]@)
}

/// The view of each string of a sequence.
pub open spec fn text_views(items: Seq<String>) -> Seq<Seq<char>> {
    Seq::new(items.len(), |i: int| items[i]@)
}

/// Each sequence of units decoded by `utf16_lossy`.
pub open spec fn decoded(items: Seq<Seq<u16>>) -> Seq<Seq<char>> {
    Seq::new(items.len(), |i: int| utf16_lossy(items[i]))
}

/// Whether `units[from..to]` holds a separator.
fn has_separator(units: &[u16], from: usize, to: usize) -> (found: bool)
    requires
        from <= to <= units@.len(),
    ensures
        found == units@.subrange(from as int, to as int).contains(SEPARATOR),
{
    let ghost entry = units@.subrange(from as int, to as int);
    let mut at: usize = from;
    while at < to
        invariant
            from <= at <= to <= units@.len(),
            entry == units@.subrange(from as int, to as int),
            forall|i: int| 0 <= i < at - from ==> entry[i] != SEPARATOR,
        decreases to - at,
    {
        if units[at] == SEPARATOR {
            assert(entry[at - from] == SEPARATOR);
            return true;
        }
        at += 1;
    }
    false
}

/// Splits an environment block into its entries, as raw units.
pub fn split_environment(raw: &[u16]) -> (entries: Vec<Vec<u16>>)
    ensures
        unit_views(entries@) == environment_entries(raw@),
{
    let mut entries: Vec<Vec<u16>> = Vec::new();
    let mut begin: usize = 0;
    proof {
        assert(raw@.skip(0) =~= raw@);
    }
    loop
        invariant
            begin <= raw@.len(),
            environment_entries(raw@) == unit_views(entries@) + environment_entries(
                raw@.skip(begin as int),
            ),
        ensures
            unit_views(entries@) == environment_entries(raw@),
        decreases raw@.len() - begin,
    {
        let ghost rest = raw@.skip(begin as int);
        let end: usize = find_terminator(raw, begin);
        proof {
            assert(rest.take(end - begin) =~= raw@.subrange(begin as int, end as int));
        }
        if end >= raw.len() || !has_separator(raw, begin, end) {
            break ;
        }
        let entry: Vec<u16> = slice_to_vec(slice_subrange(raw, begin, end));
        let ghost before = entries@;
        entries.push(entry);
        proof {
            assert(rest.skip(end - begin + 1) =~= raw@.skip(end + 1));
            assert(unit_views(entries@) =~= unit_views(before) + seq![rest.take(end - begin)]);
        }
        begin = end + 1;
    }
    entries
}

/// Decodes each item of a list of UTF-16 strings.
pub fn decode_all(items: &Vec<Vec<u16>>) -> (texts: Vec<String>)
    ensures
        text_views(texts@) == decoded(unit_views(items@)),
{
    let mut texts: Vec<String> = Vec::new();
    let mut at: usize = 0;
    while at < items.len()
        invariant
            at <= items@.len(),
            texts@.len() == at,
            forall|i: int| 0 <= i < at ==> texts@[i]@ == utf16_lossy(#[trigger] items@[i]@),
        decreases items@.len() - at,
    {
        let text: String = decode_utf16(items[at].as_slice());
        texts.push(text);
        at += 1;
    }
    proof {
        assert(text_views(texts@) =~= decoded(unit_views(items@)));
    }
    texts
}

} // verus!
