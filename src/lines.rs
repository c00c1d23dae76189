//! Splitting a candidate list into lines.

use vstd::prelude::*;

verus! {

/// The first index at or after `i` that holds a line feed, or `b.len()`.
pub open spec fn next_newline(b: Seq<u8>, i: int) -> int
    decreases b.len() - i,
{
    if i < 0 || i >= b.len() {
        b.len() as int
    } else if b[i] == 10u8 {
        i
    } else {
        next_newline(b, i + 1)
    }
}

/// A line that ended in a line feed loses one carriage return before it.
pub open spec fn strip_line(line: Seq<u8>, terminated: bool) -> Seq<u8> {
    if terminated && line.len() > 0 && line.last() == 13u8 {
        line.drop_last()
    } else {
        line
    }
}

/// The lines of `b` from index `s` on: each runs up to the next line feed,
/// which is dropped; a final line feed does not start an empty line.
pub open spec fn lines_from(b: Seq<u8>, s: int) -> Seq<Seq<u8>>
    decreases b.len() + 1 - s via lines_from_decreases
{
    if s < 0 || s >= b.len() {
        Seq::empty()
    } else {
        let e = next_newline(b, s);
        seq![strip_line(b.subrange(s, e), e < b.len())] + lines_from(b, e + 1)
    }
}

proof fn lemma_next_newline_bounds(b: Seq<u8>, i: int)
    requires
        0 <= i <= b.len(),
    ensures
        i <= next_newline(b, i) <= b.len(),
    decreases b.len() - i,
{
    if i < b.len() && b[i] != 10u8 {
        lemma_next_newline_bounds(b, i + 1);
    }
}

#[via_fn]
proof fn lines_from_decreases(b: Seq<u8>, s: int) {
    if 0 <= s < b.len() {
        lemma_next_newline_bounds(b, s);
    }
}

/// The lines of a whole text.
pub open spec fn lines_of(b: Seq<u8>) -> Seq<Seq<u8>> {
    lines_from(b, 0)
}

proof fn lemma_next_newline_skip(b: Seq<u8>, s: int, i: int)
    requires
        0 <= s <= i <= b.len(),
        forall|k: int| s <= k < i ==> b[k] != 10u8,
    ensures
        next_newline(b, s) == next_newline(b, i),
    decreases i - s,
{
    if s < i {
        lemma_next_newline_skip(b, s + 1, i);
    }
}

/// Copies `b[s..e]`, without the carriage return that ends it when `terminated`.
fn take_line(b: &[u8], s: usize, e: usize, terminated: bool) -> (r: Vec<u8>)
    requires
        s <= e <= b@.len(),
    ensures
        r@ == strip_line(b@.subrange(s as int, e as int), terminated),
{
    let mut end = e;
    if terminated && e > s && b[e - 1] == 13u8 {
        end = e - 1;
    }
    let mut r: Vec<u8> = Vec::new();
    let mut k: usize = s;
    while k < end
        invariant
            s <= k <= end <= e <= b@.len(),
            r@ == b@.subrange(s as int, k as int),
        decreases end - k,
    {
        r.push(b[k]);
        k = k + 1;
        assert(r@ =~= b@.subrange(s as int, k as int));
    }
    assert(strip_line(b@.subrange(s as int, e as int), terminated) =~= b@.subrange(
        s as int,
        end as int,
    ));
    r
}

/// Splits a text into lines at each line feed, dropping the line feed and a
/// carriage return just before it. Blank lines are kept as empty lines; a
/// text that ends in a line feed has no empty line after it.
pub fn split_lines(b: &[u8]) -> (r: Vec<Vec<u8>>)
    ensures
        r.deep_view() == lines_of(b@),
{
    let mut r: Vec<Vec<u8>> = Vec::new();
    let mut s: usize = 0;
    let mut i: usize = 0;
    while i < b.len()
        invariant
            s <= i <= b@.len(),
            forall|k: int| s <= k < i ==> b@[k] != 10u8,
            r.deep_view() + lines_from(b@, s as int) == lines_of(b@),
        decreases b@.len() - i,
    {
        if b[i] == 10u8 {
            proof {
                lemma_next_newline_skip(b@, s as int, i as int);
            }
            let line = take_line(b, s, i, true);
            let ghost before = r.deep_view();
            assert(line.deep_view() =~= line@);
            r.push(line);
            assert(r.deep_view() =~= before.push(line@));
            assert(lines_from(b@, s as int) =~= seq![line@] + lines_from(b@, i + 1));
            assert(r.deep_view() + lines_from(b@, i + 1) =~= before + lines_from(b@, s as int));
            s = i + 1;
        }
        i = i + 1;
    }
    if s < b.len() {
        proof {
            lemma_next_newline_skip(b@, s as int, i as int);
        }
        let line = take_line(b, s, b.len(), false);
        let ghost before = r.deep_view();
        assert(line.deep_view() =~= line@);
        r.push(line);
        assert(r.deep_view() =~= before.push(line@));
        assert(lines_from(b@, (b.len() + 1) as int) =~= Seq::<Seq<u8>>::empty());
        assert(lines_from(b@, s as int) =~= seq![line@]);
        assert(r.deep_view() =~= before + lines_from(b@, s as int));
    } else {
        assert(r.deep_view() =~= r.deep_view() + lines_from(b@, s as int));
    }
    r
}

} // verus!
