//! Exact multiset comparison of fund lists.
//!
//! Funds are compared as multisets of (denomination, amount) pairs: a match
//! requires identical denominations and identical amounts, in any comparison
//! order. There is no partial or approximate equality.

use crate::state::{Coin, CoinView};
use vstd::prelude::*;

verus! {

broadcast use {vstd::seq_lib::group_to_multiset_ensures, vstd::multiset::group_multiset_axioms};

/// Exact multiset equality of two fund lists: the same coins, each the same
/// number of times, in any order.
pub open spec fn same_funds(a: Seq<CoinView>, b: Seq<CoinView>) -> bool {
    a.to_multiset() == b.to_multiset()
}

/// Whether two coins are identical in denomination and amount.
pub fn coin_eq(a: &Coin, b: &Coin) -> (r: bool)
    ensures
        r == (a@ == b@),
{
    a.denom == b.denom && a.amount == b.amount
}

/// How many coins in `v` are identical to `c`.
fn count_coin(v: &Vec<Coin>, c: &Coin) -> (n: usize)
    ensures
        n == v.deep_view().to_multiset().count(c@),
{
    let ghost dv = v.deep_view();
    let mut n: usize = 0;
    let mut i: usize = 0;
    proof {
        assert(dv.take(0) =~= Seq::<CoinView>::empty());
        assert(Seq::<CoinView>::empty().to_multiset().len() == 0);
    }
    while i < v.len()
        invariant
            i <= v.len(),
            n <= i,
            dv == v.deep_view(),
            n == dv.take(i as int).to_multiset().count(c@),
        decreases v.len() - i,
    {
        proof {
            assert(dv.take(i + 1) =~= dv.take(i as int).push(dv[i as int]));
            assert(dv.take(i as int).push(dv[i as int]).to_multiset() =~= dv.take(
                i as int,
            ).to_multiset().insert(dv[i as int]));
        }
        if coin_eq(&v[i], c) {
            n = n + 1;
        }
        i = i + 1;
    }
    proof {
        assert(dv.take(v.len() as int) =~= dv);
    }
    n
}

/// Decides exact multiset equality of two fund lists.
pub fn funds_eq(a: &Vec<Coin>, b: &Vec<Coin>) -> (r: bool)
    ensures
        r == same_funds(a.deep_view(), b.deep_view()),
{
    let ghost adv = a.deep_view();
    let ghost bdv = b.deep_view();
    let mut i: usize = 0;
    while i < a.len()
        invariant
            i <= a.len(),
            adv == a.deep_view(),
            bdv == b.deep_view(),
            forall|k: int|
                0 <= k < i ==> #[trigger] adv.to_multiset().count(adv[k]) == bdv.to_multiset().count(
                    adv[k],
                ),
        decreases a.len() - i,
    {
        let ca = count_coin(a, &a[i]);
        let cb = count_coin(b, &a[i]);
        if ca != cb {
            return false;
        }
        i = i + 1;
    }
    let mut j: usize = 0;
    while j < b.len()
        invariant
            j <= b.len(),
            adv == a.deep_view(),
            bdv == b.deep_view(),
            forall|k: int|
                0 <= k < adv.len() ==> #[trigger] adv.to_multiset().count(adv[k])
                    == bdv.to_multiset().count(adv[k]),
            forall|k: int|
                0 <= k < j ==> #[trigger] adv.to_multiset().count(bdv[k]) == bdv.to_multiset().count(
                    bdv[k],
                ),
        decreases b.len() - j,
    {
        let ca = count_coin(a, &b[j]);
        let cb = count_coin(b, &b[j]);
        if ca != cb {
            return false;
        }
        j = j + 1;
    }
    proof {
        assert forall|x: CoinView| adv.to_multiset().count(x) == bdv.to_multiset().count(x) by {
            if adv.to_multiset().count(x) > 0 {
                assert(adv.contains(x));
                let k = choose|k: int| 0 <= k < adv.len() && adv[k] == x;
                assert(adv.to_multiset().count(adv[k]) == bdv.to_multiset().count(adv[k]));
            } else if bdv.to_multiset().count(x) > 0 {
                assert(bdv.contains(x));
                let k = choose|k: int| 0 <= k < bdv.len() && bdv[k] == x;
                assert(adv.to_multiset().count(bdv[k]) == bdv.to_multiset().count(bdv[k]));
            }
        }
        assert(adv.to_multiset() =~= bdv.to_multiset());
    }
    true
}

} // verus!
