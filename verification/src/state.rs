//! The persisted option record and its mathematical model.

use vstd::prelude::*;

verus! {

/// An amount of a single denomination, as attached to a call or locked in the
/// record. Amounts are exact integers; two coins match only when both the
/// denomination and the amount are identical.
#[derive(Clone, Debug, PartialEq, Eq)]
pub struct Coin {
    pub denom: String,
    pub amount: u128,
}

/// The mathematical value of a [`Coin`]: its denomination as a sequence of
/// characters and its amount as an unbounded integer.
#[verifier::ext_equal]
pub ghost struct CoinView {
    pub denom: Seq<char>,
    pub amount: int,
}

impl View for Coin {
    type V = CoinView;

    open spec fn view(&self) -> CoinView {
        CoinView { denom: self.denom@, amount: self.amount as int }
    }
}

impl DeepView for Coin {
    type V = CoinView;

    open spec fn deep_view(&self) -> CoinView {
        self.view()
    }
}

/// The option record. At most one instance exists in the store slot at any
/// time.
///
/// `creator` and `counter_offer` are immutable after creation; `owner` is
/// changed only by a transfer; the whole record is destroyed by a successful
/// exercise or burn.
#[derive(Clone, Debug, PartialEq, Eq)]
pub struct State {
    pub creator: String,
    pub owner: String,
    pub collateral: Vec<Coin>,
    pub counter_offer: Vec<Coin>,
    pub expires: u64,
}

/// The mathematical value of a [`State`]: identities as character sequences,
/// fund lists as sequences of coin values, the expiration height as an
/// unbounded integer.
#[verifier::ext_equal]
pub ghost struct StateView {
    pub creator: Seq<char>,
    pub owner: Seq<char>,
    pub collateral: Seq<CoinView>,
    pub counter_offer: Seq<CoinView>,
    pub expires: int,
}

impl View for State {
    type V = StateView;

    open spec fn view(&self) -> StateView {
        StateView {
            creator: self.creator@,
            owner: self.owner@,
            collateral: self.collateral.deep_view(),
            counter_offer: self.counter_offer.deep_view(),
            expires: self.expires as int,
        }
    }
}

impl DeepView for State {
    type V = StateView;

    open spec fn deep_view(&self) -> StateView {
        self.view()
    }
}

/// An identical copy of a coin.
pub fn clone_coin(c: &Coin) -> (r: Coin)
    ensures
        r == *c,
{
    Coin { denom: c.denom.clone(), amount: c.amount }
}

/// An identical copy of a fund list.
pub fn clone_coins(v: &Vec<Coin>) -> (r: Vec<Coin>)
    ensures
        r@ == v@,
{
    let mut r: Vec<Coin> = Vec::new();
    let mut i: usize = 0;
    while i < v.len()
        invariant
            i <= v.len(),
            r@ =~= v@.take(i as int),
        decreases v.len() - i,
    {
        r.push(clone_coin(&v[i]));
        i = i + 1;
    }
    proof {
        assert(v@.take(v.len() as int) =~= v@);
    }
    r
}

/// A copy of the record whose mathematical value is the same.
pub fn clone_state(st: &State) -> (r: State)
    ensures
        r@ == st@,
{
    State {
        creator: st.creator.clone(),
        owner: st.owner.clone(),
        collateral: clone_coins(&st.collateral),
        counter_offer: clone_coins(&st.counter_offer),
        expires: st.expires,
    }
}

} // verus!
