//! The bid book of one listing: bids sorted ascending by amount, at most one
//! per bidder, the best offer last.

use crate::amount::{lt, Amount};
use crate::party::Party;
use vstd::prelude::*;

verus! {

/// One outstanding bid, whose amount is held in escrow.
#[derive(Clone, Copy, Debug)]
pub struct Bid {
    pub bidder: Party,
    pub amount: Amount,
}

/// Amounts never decrease from the head of the book to its tail.
pub open spec fn book_sorted(s: Seq<Bid>) -> bool {
    forall|i: int, j: int| 0 <= i < j < s.len() ==> s[i].amount@ <= s[j].amount@
}

/// No bidder holds two entries.
pub open spec fn book_unique(s: Seq<Bid>) -> bool {
    forall|i: int, j: int|
        0 <= i < s.len() && 0 <= j < s.len() && i != j ==> s[i].bidder != s[j].bidder
}

pub open spec fn book_wf(s: Seq<Bid>) -> bool {
    book_sorted(s) && book_unique(s)
}

pub open spec fn has_bidder(s: Seq<Bid>, p: Party) -> bool {
    exists|i: int| 0 <= i < s.len() && s[i].bidder == p
}

/// The position of `p`'s entry in a book that holds one.
pub open spec fn bid_index(s: Seq<Bid>, p: Party) -> int {
    choose|i: int| 0 <= i < s.len() && s[i].bidder == p
}

/// `k` splits the book into the entries below `a` and those not below it.
pub open spec fn is_insertion_point(s: Seq<Bid>, a: nat, k: int) -> bool {
    &&& 0 <= k <= s.len()
    &&& forall|i: int| 0 <= i < k ==> s[i].amount@ < a
    &&& forall|i: int| k <= i < s.len() ==> s[i].amount@ >= a
}

/// Where a new bid of amount `a` goes: before every entry that is not below it.
pub open spec fn insertion_point(s: Seq<Bid>, a: nat) -> int {
    choose|k: int| is_insertion_point(s, a, k)
}

/// The book after `b` is placed at its insertion point.
pub open spec fn insert_bid(s: Seq<Bid>, b: Bid) -> Seq<Bid> {
    s.insert(insertion_point(s, b.amount@), b)
}

/// The sum of the amounts in the book: what escrow holds for it.
pub open spec fn book_total(s: Seq<Bid>) -> int
    decreases s.len(),
{
    if s.len() == 0 {
        0
    } else {
        book_total(s.drop_last()) + s.last().amount@
    }
}

pub proof fn lemma_book_total_concat(a: Seq<Bid>, b: Seq<Bid>)
    ensures
        book_total(a + b) == book_total(a) + book_total(b),
    decreases b.len(),
{
    if b.len() == 0 {
        assert(a + b =~= a);
    } else {
        lemma_book_total_concat(a, b.drop_last());
        assert((a + b).drop_last() =~= a + b.drop_last());
    }
}

proof fn lemma_book_total_single(b: Bid)
    ensures
        book_total(seq![b]) == b.amount@,
{
    assert(seq![b].drop_last() =~= Seq::<Bid>::empty());
    reveal_with_fuel(book_total, 2);
}

/// Removing an entry takes its amount off the total.
pub proof fn lemma_book_total_remove(s: Seq<Bid>, i: int)
    requires
        0 <= i < s.len(),
    ensures
        book_total(s.remove(i)) == book_total(s) - s[i].amount@,
{
    let pre = s.take(i);
    let post = s.skip(i + 1);
    assert(s =~= pre + seq![s[i]] + post);
    assert(s.remove(i) =~= pre + post);
    lemma_book_total_concat(pre + seq![s[i]], post);
    lemma_book_total_concat(pre, seq![s[i]]);
    lemma_book_total_concat(pre, post);
    lemma_book_total_single(s[i]);
}

/// Inserting an entry adds its amount to the total.
pub proof fn lemma_book_total_insert(s: Seq<Bid>, k: int, b: Bid)
    requires
        0 <= k <= s.len(),
    ensures
        book_total(s.insert(k, b)) == book_total(s) + b.amount@,
{
    let pre = s.take(k);
    let post = s.skip(k);
    assert(s =~= pre + post);
    assert(s.insert(k, b) =~= pre + seq![b] + post);
    lemma_book_total_concat(pre + seq![b], post);
    lemma_book_total_concat(pre, seq![b]);
    lemma_book_total_concat(pre, post);
    lemma_book_total_single(b);
}

/// A sorted book has an insertion point for every amount, and only one.
pub proof fn lemma_insertion_point(s: Seq<Bid>, a: nat, k: int)
    requires
        is_insertion_point(s, a, k),
    ensures
        insertion_point(s, a) == k,
{
    let c = insertion_point(s, a);
    assert(is_insertion_point(s, a, c));
    if c < k {
        assert(s[c].amount@ < a);
    } else if k < c {
        assert(s[k].amount@ < a);
    }
}

/// In a book without duplicates the entry of a bidder is unique.
pub proof fn lemma_bid_index(s: Seq<Bid>, p: Party, i: int)
    requires
        book_unique(s),
        0 <= i < s.len(),
        s[i].bidder == p,
    ensures
        has_bidder(s, p),
        bid_index(s, p) == i,
{
    assert(has_bidder(s, p));
    let j = bid_index(s, p);
    assert(0 <= j < s.len() && s[j].bidder == p);
}

/// Removing an entry keeps the book well formed.
pub proof fn lemma_remove_wf(s: Seq<Bid>, i: int)
    requires
        book_wf(s),
        0 <= i < s.len(),
    ensures
        book_wf(s.remove(i)),
        forall|p: Party| has_bidder(s.remove(i), p) ==> has_bidder(s, p),
        !has_bidder(s.remove(i), s[i].bidder),
{
    let r = s.remove(i);
    assert forall|a: int, b: int| 0 <= a < b < r.len() implies r[a].amount@ <= r[b].amount@ by {
        let a2 = if a < i { a } else { a + 1 };
        let b2 = if b < i { b } else { b + 1 };
        assert(r[a] == s[a2] && r[b] == s[b2]);
    }
    assert forall|a: int, b: int|
        0 <= a < r.len() && 0 <= b < r.len() && a != b implies r[a].bidder != r[b].bidder by {
        let a2 = if a < i { a } else { a + 1 };
        let b2 = if b < i { b } else { b + 1 };
        assert(r[a] == s[a2] && r[b] == s[b2]);
    }
    assert forall|p: Party| has_bidder(r, p) implies has_bidder(s, p) by {
        let a = bid_index(r, p);
        let a2 = if a < i { a } else { a + 1 };
        assert(r[a] == s[a2]);
    }
    if has_bidder(r, s[i].bidder) {
        let a = bid_index(r, s[i].bidder);
        let a2 = if a < i { a } else { a + 1 };
        assert(r[a] == s[a2]);
    }
}

/// Every amount of the book stays below `m` when an entry is removed.
pub proof fn lemma_remove_below(s: Seq<Bid>, i: int, m: nat)
    requires
        0 <= i < s.len(),
        forall|j: int| 0 <= j < s.len() ==> s[j].amount@ < m,
    ensures
        forall|j: int| 0 <= j < s.remove(i).len() ==> s.remove(i)[j].amount@ < m,
{
    assert forall|j: int| 0 <= j < s.remove(i).len() implies s.remove(i)[j].amount@ < m by {
        let j2 = if j < i { j } else { j + 1 };
        assert(s.remove(i)[j] == s[j2]);
    }
}

/// Every amount of the book stays below `m` when a bid below `m` is placed.
pub proof fn lemma_insert_below(s: Seq<Bid>, b: Bid, m: nat)
    requires
        book_sorted(s),
        b.amount@ < m,
        forall|j: int| 0 <= j < s.len() ==> s[j].amount@ < m,
    ensures
        forall|j: int| 0 <= j < insert_bid(s, b).len() ==> insert_bid(s, b)[j].amount@ < m,
{
    lemma_insertion_point_exists(s, b.amount@);
    let k = insertion_point(s, b.amount@);
    let r = insert_bid(s, b);
    assert forall|j: int| 0 <= j < r.len() implies r[j].amount@ < m by {
        assert(r[j] == (if j < k { s[j] } else if j == k { b } else { s[j - 1] }));
    }
}

/// Placing a bid of a new bidder keeps the book well formed.
pub proof fn lemma_insert_wf(s: Seq<Bid>, b: Bid)
    requires
        book_wf(s),
        !has_bidder(s, b.bidder),
    ensures
        book_wf(insert_bid(s, b)),
        0 <= insertion_point(s, b.amount@) <= s.len(),
        forall|p: Party| has_bidder(insert_bid(s, b), p) <==> (has_bidder(s, p) || p == b.bidder),
{
    lemma_insertion_point_exists(s, b.amount@);
    let k = insertion_point(s, b.amount@);
    let r = insert_bid(s, b);
    assert(r.len() == s.len() + 1);
    assert forall|i: int| 0 <= i < r.len() implies #[trigger] r[i] == (if i < k {
        s[i]
    } else if i == k {
        b
    } else {
        s[i - 1]
    }) by {}
    assert forall|x: int, y: int| 0 <= x < y < r.len() implies r[x].amount@ <= r[y].amount@ by {
        assert(r[x] == (if x < k { s[x] } else if x == k { b } else { s[x - 1] }));
        assert(r[y] == (if y < k { s[y] } else if y == k { b } else { s[y - 1] }));
    }
    assert forall|x: int, y: int|
        0 <= x < r.len() && 0 <= y < r.len() && x != y implies r[x].bidder != r[y].bidder by {
        assert(r[x] == (if x < k { s[x] } else if x == k { b } else { s[x - 1] }));
        assert(r[y] == (if y < k { s[y] } else if y == k { b } else { s[y - 1] }));
        if x != k && y != k {
        } else if x == k {
            let y2 = if y < k { y } else { y - 1 };
            assert(s[y2].bidder != b.bidder);
        } else {
            let x2 = if x < k { x } else { x - 1 };
            assert(s[x2].bidder != b.bidder);
        }
    }
    assert forall|p: Party| has_bidder(r, p) <==> (has_bidder(s, p) || p == b.bidder) by {
        if has_bidder(r, p) {
            let x = bid_index(r, p);
            assert(r[x] == (if x < k { s[x] } else if x == k { b } else { s[x - 1] }));
            if x < k {
                assert(has_bidder(s, p));
            } else if x > k {
                assert(s[x - 1].bidder == p);
                assert(has_bidder(s, p));
            }
        }
        if has_bidder(s, p) {
            let x = bid_index(s, p);
            let x2 = if x < k { x } else { x + 1 };
            assert(r[x2] == s[x]);
        }
        if p == b.bidder {
            assert(r[k] == b);
        }
    }
}

pub proof fn lemma_insertion_point_exists(s: Seq<Bid>, a: nat)
    requires
        book_sorted(s),
    ensures
        is_insertion_point(s, a, insertion_point(s, a)),
    decreases s.len(),
{
    if s.len() == 0 {
        assert(is_insertion_point(s, a, 0));
    } else if s.last().amount@ < a {
        assert(is_insertion_point(s, a, s.len() as int));
    } else {
        let d = s.drop_last();
        assert(book_sorted(d));
        lemma_insertion_point_exists(d, a);
        let k = insertion_point(d, a);
        assert forall|i: int| 0 <= i < k implies s[i].amount@ < a by {
            assert(d[i] == s[i]);
        }
        assert forall|i: int| k <= i < s.len() implies s[i].amount@ >= a by {
            if i < d.len() {
                assert(d[i] == s[i]);
            }
        }
        assert(is_insertion_point(s, a, k));
    }
}

/// A bid placed and then withdrawn leaves the book as it was, and the
/// withdrawal hands back exactly the amount that was placed.
pub proof fn lemma_place_then_withdraw(s: Seq<Bid>, b: Bid)
    requires
        book_wf(s),
        !has_bidder(s, b.bidder),
    ensures
        has_bidder(insert_bid(s, b), b.bidder),
        insert_bid(s, b)[bid_index(insert_bid(s, b), b.bidder)] == b,
        insert_bid(s, b).remove(bid_index(insert_bid(s, b), b.bidder)) == s,
        insert_bid(s, b).remove(bid_index(insert_bid(s, b), b.bidder)).len() == s.len(),
{
    lemma_insert_wf(s, b);
    let k = insertion_point(s, b.amount@);
    let r = insert_bid(s, b);
    assert(r[k] == b);
    lemma_bid_index(r, b.bidder, k);
    assert(r.remove(k) =~= s);
}

/// The position of `p`'s entry, if the book holds one.
pub fn find_bidder(bids: &Vec<Bid>, p: &Party) -> (r: Option<usize>)
    requires
        book_unique(bids@),
    ensures
        r is None <==> !has_bidder(bids@, *p),
        r matches Some(i) ==> i < bids@.len() && i == bid_index(bids@, *p) && bids@[i as int].bidder
            == *p,
{
    let mut i: usize = 0;
    while i < bids.len()
        invariant
            0 <= i <= bids@.len(),
            book_unique(bids@),
            forall|j: int| 0 <= j < i ==> bids@[j].bidder != *p,
        decreases bids@.len() - i,
    {
        if bids[i].bidder == *p {
            proof {
                lemma_bid_index(bids@, *p, i as int);
            }
            return Some(i);
        }
        i = i + 1;
    }
    None
}

/// Places `b` at its insertion point.
pub fn insert_sorted(bids: &mut Vec<Bid>, b: Bid)
    requires
        book_sorted(old(bids)@),
    ensures
        final(bids)@ == insert_bid(old(bids)@, b),
{
    let mut k: usize = 0;
    while k < bids.len() && lt(bids[k].amount, b.amount)
        invariant
            0 <= k <= bids@.len(),
            book_sorted(bids@),
            forall|i: int| 0 <= i < k ==> bids@[i].amount@ < b.amount@,
        decreases bids@.len() - k,
    {
        k = k + 1;
    }
    proof {
        assert forall|i: int| k <= i < bids@.len() implies bids@[i].amount@ >= b.amount@ by {
            assert(bids@[k as int].amount@ <= bids@[i].amount@);
        }
        lemma_insertion_point(bids@, b.amount@, k as int);
    }
    bids.insert(k, b);
}

} // verus!
