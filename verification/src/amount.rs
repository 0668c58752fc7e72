//! Values in transit: an amount of a native denomination or of a contract
//! token.
use crate::text::{has_prefix, starts_with};
use vstd::prelude::*;
use vstd::string::*;

verus! {

broadcast use vstd::string::group_string_axioms;

/// An amount of a denomination that the host ledger keeps.
#[derive(Debug, PartialEq, Eq)]
pub struct Coin {
    pub denom: String,
    pub amount: u128,
}

/// An amount of a token that a contract keeps.
#[derive(Debug, PartialEq, Eq)]
pub struct Cw20Coin {
    pub address: String,
    pub amount: u128,
}

/// A value that can be moved: native or contract token.
#[derive(Debug, PartialEq, Eq)]
pub enum Amount {
    Native(Coin),
    Cw20(Cw20Coin),
}

/// The mathematical value of a `Coin`.
pub struct CoinView {
    pub denom: Seq<char>,
    pub amount: u128,
}

/// The mathematical value of a `Cw20Coin`.
pub struct Cw20CoinView {
    pub address: Seq<char>,
    pub amount: u128,
}

/// The mathematical value of an `Amount`.
pub enum AmountView {
    Native(CoinView),
    Cw20(Cw20CoinView),
}

impl View for Coin {
    type V = CoinView;

    open spec fn view(&self) -> CoinView {
        CoinView { denom: self.denom@, amount: self.amount }
    }
}

impl View for Cw20Coin {
    type V = Cw20CoinView;

    open spec fn view(&self) -> Cw20CoinView {
        Cw20CoinView { address: self.address@, amount: self.amount }
    }
}

impl View for Amount {
    type V = AmountView;

    open spec fn view(&self) -> AmountView {
        match *self {
            Amount::Native(c) => AmountView::Native(c@),
            Amount::Cw20(c) => AmountView::Cw20(c@),
        }
    }
}

impl Clone for Coin {
    fn clone(&self) -> (copy: Self)
        ensures
            copy == *self,
    {
        Coin { denom: self.denom.clone(), amount: self.amount }
    }
}

impl Clone for Cw20Coin {
    fn clone(&self) -> (copy: Self)
        ensures
            copy == *self,
    {
        Cw20Coin { address: self.address.clone(), amount: self.amount }
    }
}

impl Clone for Amount {
    fn clone(&self) -> (copy: Self)
        ensures
            copy == *self,
    {
        match self {
            Amount::Native(c) => Amount::Native(c.clone()),
            Amount::Cw20(c) => Amount::Cw20(c.clone()),
        }
    }
}

/// The prefix that marks a denomination as a contract token.
pub open spec fn cw20_prefix() -> Seq<char> {
    seq!['c', 'w', '2', '0', ':']
}

/// The amount that a denomination string and a number stand for: a contract
/// token when the denomination begins with the marker, the address being what
/// follows it, and a native amount otherwise.
pub open spec fn amount_from_parts(denom: Seq<char>, amount: u128) -> AmountView {
    if has_prefix(denom, cw20_prefix()) {
        AmountView::Cw20(Cw20CoinView { address: denom.subrange(5, denom.len() as int), amount })
    } else {
        AmountView::Native(CoinView { denom, amount })
    }
}

/// The denomination string under which an amount is accounted.
pub open spec fn denom_of(a: AmountView) -> Seq<char> {
    match a {
        AmountView::Native(c) => c.denom,
        AmountView::Cw20(c) => cw20_prefix() + c.address,
    }
}

impl Amount {
    /// Builds the amount that `denom` and `amount` stand for.
    pub fn from_parts(denom: String, amount: u128) -> (a: Self)
        ensures
            a@ == amount_from_parts(denom@, amount),
    {
        proof {
            reveal_strlit("cw20:");
            assert("cw20:"@ =~= cw20_prefix());
        }
        if starts_with(denom.as_str(), "cw20:") {
            let n = denom.as_str().unicode_len();
            let address = denom.as_str().substring_char(5, n).to_owned();
            Amount::Cw20(Cw20Coin { address, amount })
        } else {
            Amount::Native(Coin { denom, amount })
        }
    }

    /// An amount of the token kept by the contract at `addr`.
    pub fn cw20(amount: u128, addr: &str) -> (a: Self)
        ensures
            a@ == AmountView::Cw20(Cw20CoinView { address: addr@, amount }),
    {
        Amount::Cw20(Cw20Coin { address: addr.to_owned(), amount })
    }

    /// An amount of the native denomination `denom`.
    pub fn native(amount: u128, denom: &str) -> (a: Self)
        ensures
            a@ == AmountView::Native(CoinView { denom: denom@, amount }),
    {
        Amount::Native(Coin { denom: denom.to_owned(), amount })
    }

    /// The denomination string under which the amount is accounted.
    pub fn denom(&self) -> (d: String)
        ensures
            d@ == denom_of(self@),
    {
        match self {
            Amount::Native(c) => c.denom.clone(),
            Amount::Cw20(c) => {
                proof {
                    reveal_strlit("cw20:");
                    assert("cw20:"@ =~= cw20_prefix());
                }
                let mut d = String::from_str("cw20:");
                d.append(c.address.as_str());
                d
            },
        }
    }

    /// The number of units.
    pub fn amount(&self) -> (n: u128)
        ensures
            n == match self@ {
                AmountView::Native(c) => c.amount,
                AmountView::Cw20(c) => c.amount,
            },
    {
        match self {
            Amount::Native(c) => c.amount,
            Amount::Cw20(c) => c.amount,
        }
    }
}

/// Taking an amount apart and putting it together again gives the same
/// amount, unless it is a native amount whose denomination itself begins with
/// the contract-token marker.
pub proof fn lemma_from_parts_of_denom(a: AmountView)
    requires
        a matches AmountView::Native(c) ==> !has_prefix(c.denom, cw20_prefix()),
    ensures
        amount_from_parts(
            denom_of(a),
            match a {
                AmountView::Native(c) => c.amount,
                AmountView::Cw20(c) => c.amount,
            },
        ) == a,
{
    match a {
        AmountView::Native(c) => {},
        AmountView::Cw20(c) => {
            let d = cw20_prefix() + c.address;
            assert(d.subrange(0, 5) =~= cw20_prefix());
            assert(d.subrange(5, d.len() as int) =~= c.address);
        },
    }
}

/// Different denomination strings stand for different amounts, and so do
/// different numbers.
pub proof fn lemma_amount_from_parts_injective(
    first: Seq<char>,
    first_amount: u128,
    second: Seq<char>,
    second_amount: u128,
)
    requires
        amount_from_parts(first, first_amount) == amount_from_parts(second, second_amount),
    ensures
        first == second,
        first_amount == second_amount,
{
    if has_prefix(first, cw20_prefix()) {
        assert(has_prefix(second, cw20_prefix()));
        assert(first =~= first.subrange(0, 5) + first.subrange(5, first.len() as int));
        assert(second =~= second.subrange(0, 5) + second.subrange(5, second.len() as int));
    }
}

} // verus!
