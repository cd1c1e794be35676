//! Comma-separated token lists, as the `Connection` header carries them.

use vstd::prelude::*;
use vstd::slice::{slice_subrange, slice_to_vec};

verus! {

/// White space as far as one byte can be: space, tab, line feed, vertical
/// tab, form feed, carriage return.
pub open spec fn is_blank(b: u8) -> bool {
    b == ' ' as u8 || (9 <= b && b <= 13)
}

/// `s` without the blanks it begins with.
pub open spec fn trim_start(s: Seq<u8>) -> Seq<u8>
    decreases s.len(),
{
    if s.len() > 0 && is_blank(s[0]) {
        trim_start(s.skip(1))
    } else {
        s
    }
}

/// `s` without the blanks it ends with.
pub open spec fn trim_end(s: Seq<u8>) -> Seq<u8>
    decreases s.len(),
{
    if s.len() > 0 && is_blank(s.last()) {
        trim_end(s.drop_last())
    } else {
        s
    }
}

/// `s` without the blanks at either end.
pub open spec fn trimmed(s: Seq<u8>) -> Seq<u8> {
    trim_end(trim_start(s))
}

/// The position of the first comma in `s`, or the length of `s` if it holds
/// none.
pub open spec fn first_comma(s: Seq<u8>) -> int
    decreases s.len(),
{
    if s.len() == 0 || s[0] == ',' as u8 {
        0
    } else {
        1 + first_comma(s.skip(1))
    }
}

/// The pieces of `s` between its commas, in order. A sequence with `n` commas
/// has `n + 1` pieces, some of which may be empty.
pub open spec fn split_commas(s: Seq<u8>) -> Seq<Seq<u8>>
    decreases s.len(),
{
    let i = first_comma(s);
    if 0 <= i < s.len() {
        seq![s.take(i)] + split_commas(s.skip(i + 1))
    } else {
        seq![s]
    }
}

/// The tokens of a comma-separated list: its pieces, each without the blanks
/// around it.
pub open spec fn tokens(value: Seq<u8>) -> Seq<Seq<u8>> {
    split_commas(value).map_values(|piece: Seq<u8>| trimmed(piece))
}

/// The byte sequences that a vector of byte vectors holds.
pub open spec fn views(v: Seq<Vec<u8>>) -> Seq<Seq<u8>> {
    v.map_values(|t: Vec<u8>| t@)
}

/// `first_comma` is the least position that holds a comma.
pub proof fn lemma_first_comma(s: Seq<u8>, j: int)
    requires
        0 <= j <= s.len(),
        forall|k: int| 0 <= k < j ==> s[k] != ',' as u8,
        j < s.len() ==> s[j] == ',' as u8,
    ensures
        first_comma(s) == j,
    decreases j,
{
    if j > 0 {
        let rest = s.skip(1);
        assert forall|k: int| 0 <= k < j - 1 implies rest[k] != ',' as u8 by {
            assert(rest[k] == s[k + 1]);
        }
        lemma_first_comma(rest, j - 1);
    }
}

/// Whether `b` is a blank.
pub fn blank(b: u8) -> (yes: bool)
    ensures
        yes == is_blank(b),
{
    b == ' ' as u8 || (9 <= b && b <= 13)
}

/// Whether two byte strings are equal.
pub fn bytes_eq(a: &[u8], b: &[u8]) -> (same: bool)
    ensures
        same == (a@ == b@),
{
    if a.len() != b.len() {
        return false;
    }
    let mut i: usize = 0;
    while i < a.len()
        invariant
            a@.len() == b@.len(),
            i <= a@.len(),
            forall|k: int| 0 <= k < i ==> a@[k] == b@[k],
        decreases a@.len() - i,
    {
        if a[i] != b[i] {
            return false;
        }
        i += 1;
    }
    assert(a@ =~= b@);
    true
}

/// Copies `piece` without the blanks at either end.
pub fn trim(piece: &[u8]) -> (token: Vec<u8>)
    ensures
        token@ == trimmed(piece@),
{
    let mut from: usize = 0;
    assert(piece@.skip(0) =~= piece@);
    while from < piece.len() && blank(piece[from])
        invariant
            from <= piece@.len(),
            trim_start(piece@) == trim_start(piece@.skip(from as int)),
        decreases piece@.len() - from,
    {
        assert(piece@.skip(from as int).skip(1) =~= piece@.skip(from + 1));
        from += 1;
    }
    let mut to: usize = piece.len();
    while to > from && blank(piece[to - 1])
        invariant
            from <= to <= piece@.len(),
            trimmed(piece@) == trim_end(piece@.subrange(from as int, to as int)),
        decreases to,
    {
        assert(piece@.subrange(from as int, to as int).drop_last() =~= piece@.subrange(
            from as int,
            to - 1,
        ));
        to -= 1;
    }
    slice_to_vec(slice_subrange(piece, from, to))
}

/// Splits a comma-separated list into its tokens.
pub fn split_tokens(value: &[u8]) -> (list: Vec<Vec<u8>>)
    ensures
        views(list@) == tokens(value@),
{
    let mut list: Vec<Vec<u8>> = Vec::new();
    let mut start: usize = 0;
    let mut i: usize = 0;
    assert(value@.skip(0) =~= value@);
    while i < value.len()
        invariant
            start <= i <= value@.len(),
            forall|k: int| start <= k < i ==> value@[k] != ',' as u8,
            tokens(value@) == views(list@) + tokens(value@.skip(start as int)),
        decreases value@.len() - i,
    {
        if value[i] == ',' as u8 {
            let token = trim(slice_subrange(value, start, i));
            proof {
                let rest = value@.skip(start as int);
                lemma_first_comma(rest, i - start);
                assert(rest.take(i - start) =~= value@.subrange(start as int, i as int));
                assert(rest.skip(i - start + 1) =~= value@.skip(i + 1));
                assert(tokens(rest) =~= seq![token@] + tokens(value@.skip(i + 1)));
                assert(views(list@.push(token)) =~= views(list@) + seq![token@]);
            }
            list.push(token);
            start = i + 1;
        }
        i += 1;
    }
    let token = trim(slice_subrange(value, start, i));
    proof {
        let rest = value@.skip(start as int);
        lemma_first_comma(rest, i - start);
        assert(rest =~= value@.subrange(start as int, i as int));
        assert(tokens(rest) =~= seq![token@]);
        assert(views(list@.push(token)) =~= views(list@) + seq![token@]);
    }
    list.push(token);
    list
}

} // verus!
