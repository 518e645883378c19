//! The line model of a text: lines are separated by `'\n'`, and a text with
//! `n` separators has `n + 1` lines.

use vstd::prelude::*;

verus! {

/// The number of line separators in `s`.
pub open spec fn nl_count(s: Seq<char>) -> nat
    decreases s.len(),
{
    if s.len() == 0 {
        0
    } else {
        nl_count(s.drop_last()) + if s.last() == '\n' {
            1nat
        } else {
            0nat
        }
    }
}

/// The number of lines of `s`.
pub open spec fn line_count(s: Seq<char>) -> nat {
    nl_count(s) + 1
}

/// The line on which offset `o` lies: the separators before it.
pub open spec fn line_of(s: Seq<char>, o: int) -> nat {
    nl_count(s.take(o))
}

/// The offset at which line `k` starts: just after its `k`-th separator
/// (0 for the first line). Meaningful for `k < line_count(s)`.
pub open spec fn line_start(s: Seq<char>, k: nat) -> nat
    decreases s.len(),
{
    if s.len() == 0 {
        0
    } else if k == nl_count(s) && s.last() == '\n' {
        s.len()
    } else {
        line_start(s.drop_last(), k)
    }
}

/// The offset at which line `k` ends: its separator, or the end of the text
/// for the last line.
pub open spec fn line_end(s: Seq<char>, k: nat) -> int {
    if k + 1 < line_count(s) {
        line_start(s, k + 1) - 1
    } else {
        s.len() as int
    }
}

/// The number of characters of line `k`, its separator left out.
pub open spec fn line_len(s: Seq<char>, k: nat) -> int {
    line_end(s, k) - line_start(s, k)
}

/// The offset of column `col` on line `row`.
pub open spec fn offset_of(s: Seq<char>, row: nat, col: nat) -> int {
    (line_start(s, row) + col) as int
}

/// `(row, col)` addresses a position of `s`: an existing line, and a column
/// no further than the end of that line.
pub open spec fn valid_position(s: Seq<char>, row: nat, col: nat) -> bool {
    row < line_count(s) && col <= line_len(s, row)
}

/// The line and column of offset `o`.
pub open spec fn position_of(s: Seq<char>, o: int) -> (nat, nat) {
    (line_of(s, o), (o - line_start(s, line_of(s, o))) as nat)
}

pub proof fn lemma_nl_count_step(s: Seq<char>, i: int)
    requires
        0 <= i < s.len(),
    ensures
        nl_count(s.take(i + 1)) == nl_count(s.take(i)) + if s[i] == '\n' {
            1nat
        } else {
            0nat
        },
{
    assert(s.take(i + 1).drop_last() =~= s.take(i));
}

pub proof fn lemma_nl_count_mono(s: Seq<char>, i: int, j: int)
    requires
        0 <= i <= j <= s.len(),
    ensures
        nl_count(s.take(i)) <= nl_count(s.take(j)),
    decreases j - i,
{
    if i < j {
        lemma_nl_count_step(s, j - 1);
        lemma_nl_count_mono(s, i, j - 1);
    }
}

pub proof fn lemma_nl_count_le_len(s: Seq<char>)
    ensures
        nl_count(s) <= s.len(),
    decreases s.len(),
{
    if s.len() > 0 {
        lemma_nl_count_le_len(s.drop_last());
    }
}

/// What marks `p` as the start of line `k`.
pub open spec fn is_line_start(s: Seq<char>, k: nat, p: int) -> bool {
    &&& 0 <= p <= s.len()
    &&& line_of(s, p) == k
    &&& (p == 0 || s[p - 1] == '\n')
}

pub proof fn lemma_line_start(s: Seq<char>, k: nat)
    requires
        k < line_count(s),
    ensures
        is_line_start(s, k, line_start(s, k) as int),
    decreases s.len(),
{
    assert(s.take(s.len() as int) =~= s);
    if s.len() > 0 {
        let t = s.drop_last();
        let n = s.len() as int;
        if k == nl_count(s) && s.last() == '\n' {
        } else {
            lemma_line_start(t, k);
            let p = line_start(t, k) as int;
            assert(s.take(p) =~= t.take(p));
        }
    }
}

/// The start and end of a line stand in order, and within the text; the end
/// of a line that is not the last is its separator.
pub proof fn lemma_line_bounds(s: Seq<char>, k: nat)
    requires
        k < line_count(s),
    ensures
        0 <= line_start(s, k) <= line_end(s, k) <= s.len(),
        line_end(s, k) < s.len() ==> s[line_end(s, k)] == '\n',
        line_of(s, line_start(s, k) as int) == k,
        line_of(s, line_end(s, k)) == k,
{
    lemma_line_start(s, k);
    assert(s.take(s.len() as int) =~= s);
    if k + 1 < line_count(s) {
        lemma_line_start(s, k + 1);
        let q = line_start(s, k + 1) as int;
        let p = line_start(s, k) as int;
        if q == 0 {
            assert(s.take(0) =~= Seq::<char>::empty());
        }
        lemma_nl_count_step(s, q - 1);
        if q - 1 < p {
            lemma_nl_count_mono(s, q, p);
        }
    } else {
        lemma_nl_count_mono(s, line_start(s, k) as int, s.len() as int);
    }
}

/// Every offset of the text lies on the line that `line_of` gives, between
/// that line's start and its end.
pub proof fn lemma_offset_on_line(s: Seq<char>, o: int)
    requires
        0 <= o <= s.len(),
    ensures
        line_of(s, o) < line_count(s) <= s.len() + 1,
        line_start(s, line_of(s, o)) <= o <= line_end(s, line_of(s, o)),
{
    let k = line_of(s, o);
    lemma_nl_count_le_len(s);
    assert(s.take(s.len() as int) =~= s);
    lemma_nl_count_mono(s, o, s.len() as int);
    lemma_line_bounds(s, k);
    lemma_line_start(s, k);
    let p = line_start(s, k) as int;
    if p > o {
        lemma_nl_count_step(s, p - 1);
        lemma_nl_count_mono(s, o, p - 1);
    }
    if k + 1 < line_count(s) {
        lemma_line_start(s, k + 1);
        let q = line_start(s, k + 1) as int;
        if o >= q {
            lemma_nl_count_mono(s, q, o);
        }
    }
}

/// Round trip between offsets and positions: the line that an offset lies on
/// starts at or before it, the distance from that start is a column of the
/// line, and that line and column give the offset back.
pub proof fn lemma_position_round_trip(s: Seq<char>, o: int)
    requires
        0 <= o <= s.len(),
    ensures
        line_start(s, line_of(s, o)) <= o,
        o - line_start(s, line_of(s, o)) <= line_len(s, line_of(s, o)),
        valid_position(s, position_of(s, o).0, position_of(s, o).1),
        offset_of(s, position_of(s, o).0, position_of(s, o).1) == o,
{
    lemma_offset_on_line(s, o);
}

} // verus!
