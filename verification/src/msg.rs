//! Messages and values shared by the shitstrap contracts.

use vstd::prelude::*;
use crate::denom::{CheckedDenom, DenomModel, Transfer, TransferModel, UncheckedDenom};

verus! {

pub struct PossibleShitModel {
    pub token: DenomModel,
    pub shit_rate: u128,
}

/// A token the shitstrap accepts, with its conversion rate: the strapped
/// token's atomic units, at 18 decimal places, paid per unit of the token
/// (10^18 is a 1:1 rate, 5 * 10^17 is 0.5).
#[derive(Debug, PartialEq)]
pub struct PossibleShit {
    /// The accepted token.
    pub token: UncheckedDenom,
    /// Conversion rate with 18 decimal places.
    pub shit_rate: u128,
}

impl View for PossibleShit {
    type V = PossibleShitModel;

    open spec fn view(&self) -> PossibleShitModel {
        PossibleShitModel { token: self.token@, shit_rate: self.shit_rate }
    }
}

impl Clone for PossibleShit {
    fn clone(&self) -> (r: Self)
        ensures
            r@ == self@,
    {
        PossibleShit { token: self.token.clone(), shit_rate: self.shit_rate }
    }
}

/// Copies a list of accepted tokens.
pub fn clone_accepted(v: &Vec<PossibleShit>) -> (r: Vec<PossibleShit>)
    ensures
        r@.map_values(|p: PossibleShit| p@) == v@.map_values(|p: PossibleShit| p@),
{
    let mut r: Vec<PossibleShit> = Vec::new();
    let mut i: usize = 0;
    while i < v.len()
        invariant
            i <= v@.len(),
            r@.len() == i,
            forall|j: int| 0 <= j < i ==> #[trigger] r@[j]@ == v@[j]@,
        decreases v@.len() - i,
    {
        r.push(v[i].clone());
        i = i + 1;
    }
    assert(r@.map_values(|p: PossibleShit| p@) =~= v@.map_values(|p: PossibleShit| p@));
    r
}

impl PossibleShit {
    /// An accepted native token.
    pub fn native_denom(native_denom: &str, shit_rate: u128) -> (r: Self)
        ensures
            r@ == (PossibleShitModel { token: DenomModel::Native(native_denom@), shit_rate }),
    {
        PossibleShit { token: UncheckedDenom::Native(native_denom.to_owned()), shit_rate }
    }

    /// An accepted cw20 token, by contract address.
    pub fn native_cw20(native_coin: &str, shit_rate: u128) -> (r: Self)
        ensures
            r@ == (PossibleShitModel { token: DenomModel::Cw20(native_coin@), shit_rate }),
    {
        PossibleShit { token: UncheckedDenom::Cw20(native_coin.to_owned()), shit_rate }
    }
}

pub struct AssetModel {
    pub denom: DenomModel,
    pub amount: u128,
}

/// An amount of a named, unchecked denomination.
#[derive(Debug, PartialEq)]
pub struct AssetUnchecked {
    pub denom: UncheckedDenom,
    pub amount: u128,
}

impl View for AssetUnchecked {
    type V = AssetModel;

    open spec fn view(&self) -> AssetModel {
        AssetModel { denom: self.denom@, amount: self.amount }
    }
}

impl AssetUnchecked {
    /// An amount of a native denomination.
    pub fn from_native(denom: &str, amount: u128) -> (r: Self)
        ensures
            r@ == (AssetModel { denom: DenomModel::Native(denom@), amount }),
    {
        AssetUnchecked { denom: UncheckedDenom::Native(denom.to_owned()), amount }
    }
}

/// What a cw20 contract asks for when it sends tokens to a shitstrap.
#[derive(Debug, PartialEq)]
pub enum ReceiveMsg {
    /// Register `shit_strapper` (which may differ from the cw20 sender) as the
    /// participant for the tokens sent.
    ShitStrap { shit_strapper: String },
}

/// A cw20 contract's notice that `amount` of its tokens were sent here on
/// behalf of `sender`, with the request it carried, already decoded.
#[derive(Debug, PartialEq)]
pub struct Cw20ReceiveMsg {
    pub sender: String,
    pub amount: u128,
    pub msg: ReceiveMsg,
}

pub enum AttributeModel {
    DaoShitstrapAmount(u128),
    DaoShitstrapRecieved(DenomModel),
    Flusher(Seq<char>),
}

/// An attribute attached to a response for indexing.
#[derive(Debug, PartialEq)]
pub enum Attribute {
    /// `dao_shitstrap_amount`: the value strapped by the filling deposit.
    DaoShitstrapAmount(u128),
    /// `dao_shitstrap_recieved`: the denomination that filled the shitstrap.
    DaoShitstrapRecieved(CheckedDenom),
    /// `flusher`: who closed the shitstrap.
    Flusher(String),
}

impl View for Attribute {
    type V = AttributeModel;

    open spec fn view(&self) -> AttributeModel {
        match self {
            Attribute::DaoShitstrapAmount(v) => AttributeModel::DaoShitstrapAmount(*v),
            Attribute::DaoShitstrapRecieved(d) => AttributeModel::DaoShitstrapRecieved(d@),
            Attribute::Flusher(s) => AttributeModel::Flusher(s@),
        }
    }
}

pub struct ResponseModel {
    pub messages: Seq<TransferModel>,
    pub attributes: Seq<AttributeModel>,
}

/// What an accepted request sends out: transfers, in order, and attributes.
#[derive(Debug, PartialEq)]
pub struct Response {
    pub messages: Vec<Transfer>,
    pub attributes: Vec<Attribute>,
}

impl View for Response {
    type V = ResponseModel;

    open spec fn view(&self) -> ResponseModel {
        ResponseModel {
            messages: self.messages@.map_values(|t: Transfer| t@),
            attributes: self.attributes@.map_values(|a: Attribute| a@),
        }
    }
}

impl Response {
    pub fn new() -> (r: Self)
        ensures
            r@.messages.len() == 0,
            r@.attributes.len() == 0,
    {
        Response { messages: Vec::new(), attributes: Vec::new() }
    }
}

} // verus!
