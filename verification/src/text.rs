//! The mathematical model of buffer contents: a sequence of elements in
//! which a designated separator value ends each line.  Both the byte-based
//! document and the rope-backed editor state their contracts over these
//! functions, so the two line-index strategies are provably interchangeable.

use vstd::prelude::*;

verus! {

/// How many times `x` occurs in `s`.
pub open spec fn count_occ<T>(s: Seq<T>, x: T) -> nat
    decreases s.len(),
{
    if s.len() == 0 {
        0
    } else {
        count_occ(s.drop_last(), x) + (if s.last() == x {
            1nat
        } else {
            0nat
        })
    }
}

/// Position of the occurrence of `x` in `s` that has exactly `k`
/// occurrences of `x` before it; meaningful only for `k < count_occ(s, x)`.
pub open spec fn occ_pos<T>(s: Seq<T>, x: T, k: nat) -> int
    recommends
        k < count_occ(s, x),
    decreases s.len(),
{
    if s.len() == 0 {
        0
    } else if s.last() == x && k + 1 == count_occ(s, x) {
        s.len() - 1
    } else {
        occ_pos(s.drop_last(), x, k)
    }
}

/// Number of lines of `s` with separator `nl`: one more than the number of
/// separators, so an empty sequence still has one (empty) line.
pub open spec fn line_count<T>(s: Seq<T>, nl: T) -> nat {
    count_occ(s, nl) + 1
}

/// Offset of the first element of line `l`: 0 for the first line, one past
/// the preceding separator otherwise.
pub open spec fn line_start<T>(s: Seq<T>, nl: T, l: int) -> int {
    if l <= 0 {
        0
    } else {
        occ_pos(s, nl, (l - 1) as nat) + 1
    }
}

/// Offset one past the last element of line `l`, excluding the terminating
/// separator: the separator's own position, or the end of `s` for the last
/// line.
pub open spec fn line_end<T>(s: Seq<T>, nl: T, l: int) -> int {
    if l < count_occ(s, nl) {
        occ_pos(s, nl, l as nat)
    } else {
        s.len() as int
    }
}

/// Offset one past the last element of line `l`, including the terminating
/// separator where the line has one.
pub open spec fn line_end_incl<T>(s: Seq<T>, nl: T, l: int) -> int {
    if l < count_occ(s, nl) {
        occ_pos(s, nl, l as nat) + 1
    } else {
        s.len() as int
    }
}

/// Length of line `l`, excluding its terminating separator.
pub open spec fn line_len<T>(s: Seq<T>, nl: T, l: int) -> int {
    line_end(s, nl, l) - line_start(s, nl, l)
}

/// Index of the line that offset `i` falls on: the number of separators
/// strictly before `i`.  A separator lies on the line it terminates.
pub open spec fn line_of<T>(s: Seq<T>, nl: T, i: int) -> nat {
    count_occ(s.take(i), nl)
}

/// Extending a prefix by one element adds that element's occurrences.
pub proof fn lemma_count_take_step<T>(s: Seq<T>, x: T, i: int)
    requires
        0 <= i < s.len(),
    ensures
        count_occ(s.take(i + 1), x) == count_occ(s.take(i), x) + (if s[i] == x {
            1int
        } else {
            0int
        }),
{
    assert(s.take(i + 1).drop_last() =~= s.take(i));
    assert(s.take(i + 1).last() == s[i]);
}

/// The full-length prefix has the occurrences of the whole sequence.
pub proof fn lemma_count_take_all<T>(s: Seq<T>, x: T)
    ensures
        count_occ(s.take(s.len() as int), x) == count_occ(s, x),
{
    assert(s.take(s.len() as int) =~= s);
}

/// Occurrence counts grow with the prefix.
pub proof fn lemma_count_take_mono<T>(s: Seq<T>, x: T, i: int, j: int)
    requires
        0 <= i <= j <= s.len(),
    ensures
        count_occ(s.take(i), x) <= count_occ(s.take(j), x),
    decreases j,
{
    if i < j {
        lemma_count_take_mono(s, x, i, j - 1);
        lemma_count_take_step(s, x, j - 1);
    }
}

/// No prefix holds more occurrences than the whole sequence.
pub proof fn lemma_count_take_bound<T>(s: Seq<T>, x: T, i: int)
    requires
        0 <= i <= s.len(),
    ensures
        count_occ(s.take(i), x) <= count_occ(s, x),
{
    lemma_count_take_mono(s, x, i, s.len() as int);
    lemma_count_take_all(s, x);
}

/// What `occ_pos` points at: an occurrence of `x`, with exactly `k`
/// occurrences of `x` in the prefix before it.
pub proof fn lemma_occ_pos<T>(s: Seq<T>, x: T, k: nat)
    requires
        k < count_occ(s, x),
    ensures
        0 <= occ_pos(s, x, k) < s.len(),
        s[occ_pos(s, x, k)] == x,
        count_occ(s.take(occ_pos(s, x, k)), x) == k,
        count_occ(s.take(occ_pos(s, x, k) + 1), x) == k + 1,
    decreases s.len(),
{
    let t = s.drop_last();
    if s.last() == x && k + 1 == count_occ(s, x) {
        assert(s.take(s.len() - 1) =~= t);
        assert(s.take(s.len() as int) =~= s);
    } else {
        lemma_occ_pos(t, x, k);
        let p = occ_pos(t, x, k);
        assert(s.take(p) =~= t.take(p));
        assert(s.take(p + 1) =~= t.take(p + 1));
        assert(s[p] == t[p]);
    }
}

/// An element equal to `x` at position `i` is the occurrence whose rank is
/// the count of `x` in the prefix before `i`.
pub proof fn lemma_occ_pos_unique<T>(s: Seq<T>, x: T, i: int)
    requires
        0 <= i < s.len(),
        s[i] == x,
    ensures
        count_occ(s.take(i), x) < count_occ(s, x),
        occ_pos(s, x, count_occ(s.take(i), x)) == i,
{
    let k = count_occ(s.take(i), x);
    lemma_count_take_step(s, x, i);
    lemma_count_take_bound(s, x, i + 1);
    lemma_occ_pos(s, x, k);
    let p = occ_pos(s, x, k);
    if p < i {
        lemma_count_take_mono(s, x, p + 1, i);
    } else if i < p {
        lemma_count_take_mono(s, x, i + 1, p);
    }
}

/// Occurrence positions are strictly increasing in their rank.
pub proof fn lemma_occ_pos_mono<T>(s: Seq<T>, x: T, k1: nat, k2: nat)
    requires
        k1 < k2 < count_occ(s, x),
    ensures
        occ_pos(s, x, k1) < occ_pos(s, x, k2),
{
    lemma_occ_pos(s, x, k1);
    lemma_occ_pos(s, x, k2);
    let p1 = occ_pos(s, x, k1);
    let p2 = occ_pos(s, x, k2);
    if p2 <= p1 {
        lemma_count_take_mono(s, x, p2, p1);
    }
}

/// Every line sits inside the sequence; a line before the last ends on its
/// separator, and the next line starts right after it.
pub proof fn lemma_line_bounds<T>(s: Seq<T>, nl: T, l: int)
    requires
        0 <= l < line_count(s, nl),
    ensures
        0 <= line_start(s, nl, l) <= line_end(s, nl, l) <= s.len(),
        l < count_occ(s, nl) ==> s[line_end(s, nl, l)] == nl && line_start(s, nl, l + 1)
            == line_end(s, nl, l) + 1 && line_end_incl(s, nl, l) == line_end(s, nl, l) + 1,
        l == count_occ(s, nl) ==> line_end(s, nl, l) == s.len() && line_end_incl(s, nl, l)
            == s.len(),
{
    if l > 0 {
        lemma_occ_pos(s, nl, (l - 1) as nat);
    }
    if l < count_occ(s, nl) {
        lemma_occ_pos(s, nl, l as nat);
        if l > 0 {
            lemma_occ_pos_mono(s, nl, (l - 1) as nat, l as nat);
        }
    }
}

/// Every valid offset lies on a valid line.
pub proof fn lemma_line_of_bound<T>(s: Seq<T>, nl: T, i: int)
    requires
        0 <= i <= s.len(),
    ensures
        line_of(s, nl, i) < line_count(s, nl),
{
    lemma_count_take_bound(s, nl, i);
}

/// An offset is never before the start nor past the end of its own line.
pub proof fn lemma_own_line<T>(s: Seq<T>, nl: T, i: int)
    requires
        0 <= i <= s.len(),
    ensures
        line_of(s, nl, i) < line_count(s, nl),
        line_start(s, nl, line_of(s, nl, i) as int) <= i,
        i <= line_end(s, nl, line_of(s, nl, i) as int),
{
    let l = line_of(s, nl, i) as int;
    lemma_line_of_bound(s, nl, i);
    if l > 0 {
        lemma_occ_pos(s, nl, (l - 1) as nat);
        let p = occ_pos(s, nl, (l - 1) as nat);
        if i <= p {
            lemma_count_take_mono(s, nl, i, p);
        }
    }
    if l < count_occ(s, nl) {
        lemma_occ_pos(s, nl, l as nat);
        let q = occ_pos(s, nl, l as nat);
        if q < i {
            lemma_count_take_mono(s, nl, q + 1, i);
        }
    }
}

/// Inserting an element and then removing it from the same position
/// restores the sequence exactly: undoing a recorded insertion is exact.
pub proof fn lemma_insert_then_remove<T>(s: Seq<T>, i: int, x: T)
    requires
        0 <= i <= s.len(),
    ensures
        s.insert(i, x).remove(i) == s,
{
    assert(s.insert(i, x).remove(i) =~= s);
}

/// Removing an element and then re-inserting it at the same position
/// restores the sequence exactly: undoing a recorded deletion is exact.
pub proof fn lemma_remove_then_insert<T>(s: Seq<T>, i: int)
    requires
        0 <= i < s.len(),
    ensures
        s.remove(i).insert(i, s[i]) == s,
{
    assert(s.remove(i).insert(i, s[i]) =~= s);
}

} // verus!
