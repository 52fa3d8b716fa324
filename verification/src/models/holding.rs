//! Investment holdings: a position in one asset inside an investment wallet.
use vstd::prelude::*;

use crate::decimal::{
    exact_product, exactly, lemma_pow10_positive, mul_spec, pow10, sub_mul, sub_mul_spec, sub_spec, Dec,
};
use crate::error::{AppError, AppErrorView};
use crate::text::str_eq;

verus! {

/// The kind of asset held.
#[derive(Clone, Copy, Debug, PartialEq, Eq, Structural)]
pub enum AssetType {
    Stock,
    Crypto,
}

impl AssetType {
    pub open spec fn text(self) -> Seq<char> {
        match self {
            AssetType::Stock => "stock"@,
            AssetType::Crypto => "crypto"@,
        }
    }

    pub open spec fn parse_spec(s: Seq<char>) -> Option<AssetType> {
        if s == "stock"@ {
            Some(AssetType::Stock)
        } else if s == "crypto"@ {
            Some(AssetType::Crypto)
        } else {
            None
        }
    }

    /// The name it is stored and shown under.
    pub fn to_string(&self) -> (r: String)
        ensures
            r@ == self.text(),
    {
        match self {
            AssetType::Stock => "stock".to_owned(),
            AssetType::Crypto => "crypto".to_owned(),
        }
    }

    /// The value with the given name; any other text is a parse error.
    pub fn from_str(s: &str) -> (r: Result<AssetType, AppError>)
        ensures
            match r {
                Ok(t) => AssetType::parse_spec(s@) == Some(t),
                Err(e) => AssetType::parse_spec(s@) is None && e@ == AppErrorView::Parse(
                    "Unknown asset type: "@ + s@,
                ),
            },
    {
        if str_eq(s, "stock") {
            Ok(AssetType::Stock)
        } else if str_eq(s, "crypto") {
            Ok(AssetType::Crypto)
        } else {
            Err(AppError::Parse("Unknown asset type: ".to_owned().concat(s)))
        }
    }

    /// Parsing the name of an asset type gives that type back.
    pub proof fn lemma_text_roundtrip(t: AssetType)
        ensures
            AssetType::parse_spec(t.text()) == Some(t),
    {
        reveal_strlit("stock");
        reveal_strlit("crypto");
        assert("stock"@[0] == 's' && "crypto"@[0] == 'c');
    }
}

/// A position: how many units are held and at what average purchase price.
#[derive(Clone, Debug, PartialEq)]
pub struct Holding {
    pub id: String,
    pub wallet_id: String,
    pub symbol: String,
    pub name: Option<String>,
    pub asset_type: AssetType,
    pub quantity: Dec,
    pub avg_buy_price: Dec,
    pub last_price: Option<Dec>,
    pub last_price_at: Option<i64>,
    pub created_at: i64,
}

impl Holding {
    /// All amounts are representable decimals.
    pub open spec fn wf(self) -> bool {
        &&& self.quantity.wf()
        &&& self.avg_buy_price.wf()
        &&& self.last_price matches Some(p) ==> p.wf()
    }

    /// `(last_price - avg_buy_price) * quantity`, where a last price is known;
    /// the outer `None` marks an overflow.
    pub open spec fn unrealized_pnl_spec(self) -> Option<Option<Dec>> {
        match self.last_price {
            Some(lp) => match sub_mul_spec(lp, self.avg_buy_price, self.quantity) {
                Some(p) => Some(Some(p)),
                None => None,
            },
            None => Some(None),
        }
    }

    /// `last_price * quantity`, where a last price is known; the outer `None`
    /// marks an overflow.
    pub open spec fn market_value_spec(self) -> Option<Option<Dec>> {
        match self.last_price {
            Some(lp) => match mul_spec(lp, self.quantity) {
                Some(v) => Some(Some(v)),
                None => None,
            },
            None => Some(None),
        }
    }

    /// `avg_buy_price * quantity`, `None` on overflow.
    pub open spec fn cost_basis_spec(self) -> Option<Dec> {
        mul_spec(self.avg_buy_price, self.quantity)
    }

    /// Unrealized profit or loss at the last known price.
    pub fn unrealized_pnl(&self) -> (r: Option<Dec>)
        requires
            self.wf(),
            self.unrealized_pnl_spec() is Some,
        ensures
            r == self.unrealized_pnl_spec()->0,
            r matches Some(p) ==> p.wf(),
    {
        match self.last_price {
            Some(lp) => Some(sub_mul(lp, self.avg_buy_price, self.quantity)),
            None => None,
        }
    }

    /// `unrealized_pnl`, or `None` where the arithmetic overflows.
    pub fn checked_unrealized_pnl(&self) -> (r: Option<Option<Dec>>)
        requires
            self.wf(),
        ensures
            r == self.unrealized_pnl_spec(),
            r matches Some(Some(p)) ==> p.wf(),
    {
        match self.last_price {
            Some(lp) => match lp.checked_sub(self.avg_buy_price) {
                Some(d) => match d.checked_mul(self.quantity) {
                    Some(p) => Some(Some(p)),
                    None => None,
                },
                None => None,
            },
            None => Some(None),
        }
    }

    /// Market value at the last known price.
    pub fn market_value(&self) -> (r: Option<Dec>)
        requires
            self.wf(),
            self.market_value_spec() is Some,
        ensures
            r == self.market_value_spec()->0,
            r matches Some(v) ==> v.wf(),
    {
        match self.last_price {
            Some(lp) => Some(lp.mul(self.quantity)),
            None => None,
        }
    }

    /// `market_value`, or `None` where the arithmetic overflows.
    pub fn checked_market_value(&self) -> (r: Option<Option<Dec>>)
        requires
            self.wf(),
        ensures
            r == self.market_value_spec(),
            r matches Some(Some(v)) ==> v.wf(),
    {
        match self.last_price {
            Some(lp) => match lp.checked_mul(self.quantity) {
                Some(v) => Some(Some(v)),
                None => None,
            },
            None => Some(None),
        }
    }

    /// What the position cost at the average purchase price.
    pub fn cost_basis(&self) -> (r: Dec)
        requires
            self.wf(),
            self.cost_basis_spec() is Some,
        ensures
            r == self.cost_basis_spec()->0,
            r.wf(),
    {
        self.avg_buy_price.mul(self.quantity)
    }

    /// `cost_basis`, or `None` where the arithmetic overflows.
    pub fn checked_cost_basis(&self) -> (r: Option<Dec>)
        requires
            self.wf(),
        ensures
            r == self.cost_basis_spec(),
            r matches Some(v) ==> v.wf(),
    {
        self.avg_buy_price.checked_mul(self.quantity)
    }
}

/// The decimal steps of a holding's figures round nothing: the difference of
/// the last price and the average price, its product with the quantity, and
/// the products of either price with the quantity.
pub open spec fn figures_exact(h: Holding) -> bool {
    h.last_price matches Some(lp) ==> {
        let d = sub_spec(lp, h.avg_buy_price)->0;
        &&& exactly(sub_spec(lp, h.avg_buy_price), lp.value() - h.avg_buy_price.value())
        &&& exact_product(mul_spec(d, h.quantity), d, h.quantity)
        &&& exact_product(mul_spec(lp, h.quantity), lp, h.quantity)
        &&& exact_product(mul_spec(h.avg_buy_price, h.quantity), h.avg_buy_price, h.quantity)
    }
}

/// Unrealized profit or loss is market value minus cost basis: where a last
/// price is known and no step rounds, all three exist and the P&L is the
/// difference of the other two; without a last price there is neither a P&L
/// nor a market value.
pub proof fn lemma_pnl_is_value_minus_cost(h: Holding)
    requires
        h.wf(),
        figures_exact(h),
    ensures
        match h.last_price {
            Some(_) => {
                &&& h.unrealized_pnl_spec() matches Some(Some(p))
                &&& h.market_value_spec() matches Some(Some(v))
                &&& h.cost_basis_spec() matches Some(c)
                &&& h.unrealized_pnl_spec()->0->0.value() == h.market_value_spec()->0->0.value()
                    - h.cost_basis_spec()->0.value()
            },
            None => h.unrealized_pnl_spec() == Some(None::<Dec>) && h.market_value_spec() == Some(
                None::<Dec>,
            ),
        },
{
    if let Some(lp) = h.last_price {
        let big = pow10(28);
        lemma_pow10_positive(28);
        let d = sub_spec(lp, h.avg_buy_price)->0;
        let p = mul_spec(d, h.quantity)->0;
        let v = mul_spec(lp, h.quantity)->0;
        let c = mul_spec(h.avg_buy_price, h.quantity)->0;
        assert(d.value() * h.quantity.value() == lp.value() * h.quantity.value()
            - h.avg_buy_price.value() * h.quantity.value()) by (nonlinear_arith)
            requires
                d.value() == lp.value() - h.avg_buy_price.value(),
        ;
        assert(p.value() == v.value() - c.value()) by (nonlinear_arith)
            requires
                p.value() * big == v.value() * big - c.value() * big,
                big > 0,
        ;
    }
}

/// The fields of a holding about to be created.
#[derive(Clone, Debug, PartialEq)]
pub struct NewHolding {
    pub wallet_id: String,
    pub symbol: String,
    pub name: Option<String>,
    pub asset_type: AssetType,
}

} // verus!
