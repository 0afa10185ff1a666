//! Denominations, coins and token transfers.

use vstd::prelude::*;
use vstd::utf8::encode_utf8;
use cosmwasm_std::StdError;

verus! {

/// What a denomination names: a native bank asset or a cw20 contract, with
/// the text that identifies it.
pub enum DenomModel {
    Native(Seq<char>),
    Cw20(Seq<char>),
}

impl DenomModel {
    /// The identifying text, whichever kind of denomination this is.
    pub open spec fn text(self) -> Seq<char> {
        match self {
            DenomModel::Native(t) => t,
            DenomModel::Cw20(t) => t,
        }
    }

    pub open spec fn is_native(self) -> bool {
        self is Native
    }
}

/// A denomination as a user names it, not yet checked.
#[derive(Debug, PartialEq)]
pub enum UncheckedDenom {
    /// A native (bank module) asset.
    Native(String),
    /// A cw20 asset, by contract address.
    Cw20(String),
}

impl View for UncheckedDenom {
    type V = DenomModel;

    open spec fn view(&self) -> DenomModel {
        match self {
            UncheckedDenom::Native(t) => DenomModel::Native(t@),
            UncheckedDenom::Cw20(t) => DenomModel::Cw20(t@),
        }
    }
}

/// A denomination that has been checked to point to a valid asset.
#[derive(Debug, PartialEq)]
pub enum CheckedDenom {
    /// A native (bank module) asset.
    Native(String),
    /// A cw20 asset, by contract address.
    Cw20(String),
}

impl View for CheckedDenom {
    type V = DenomModel;

    open spec fn view(&self) -> DenomModel {
        match self {
            CheckedDenom::Native(t) => DenomModel::Native(t@),
            CheckedDenom::Cw20(t) => DenomModel::Cw20(t@),
        }
    }
}

impl Clone for UncheckedDenom {
    fn clone(&self) -> (r: Self)
        ensures
            r@ == self@,
    {
        match self {
            UncheckedDenom::Native(t) => UncheckedDenom::Native(t.clone()),
            UncheckedDenom::Cw20(t) => UncheckedDenom::Cw20(t.clone()),
        }
    }
}

impl Clone for CheckedDenom {
    fn clone(&self) -> (r: Self)
        ensures
            r@ == self@,
    {
        match self {
            CheckedDenom::Native(t) => CheckedDenom::Native(t.clone()),
            CheckedDenom::Cw20(t) => CheckedDenom::Cw20(t.clone()),
        }
    }
}

impl UncheckedDenom {
    /// The identifying text of the denomination.
    pub fn text(&self) -> (r: &String)
        ensures
            r@ == self@.text(),
    {
        match self {
            UncheckedDenom::Native(t) => t,
            UncheckedDenom::Cw20(t) => t,
        }
    }

    /// Whether two denominations are the same (same kind, same text).
    pub fn same_as(&self, other: &UncheckedDenom) -> (r: bool)
        ensures
            r == (self@ == other@),
    {
        match (self, other) {
            (UncheckedDenom::Native(a), UncheckedDenom::Native(b)) => *a == *b,
            (UncheckedDenom::Cw20(a), UncheckedDenom::Cw20(b)) => *a == *b,
            _ => false,
        }
    }
}

impl CheckedDenom {
    /// The identifying text of the denomination; this is also how the
    /// denomination is written out (its display form).
    pub fn text(&self) -> (r: &String)
        ensures
            r@ == self@.text(),
    {
        match self {
            CheckedDenom::Native(t) => t,
            CheckedDenom::Cw20(t) => t,
        }
    }
}

/// Why a denomination was refused.
#[derive(Debug, PartialEq)]
pub enum DenomFault {
    Std(StdError),
    InvalidCw20 { err: StdError },
    NativeDenomLength { len: usize },
    NonAlphabeticAscii,
    InvalidCharacter { c: char },
}

/// Length in bytes of a text once encoded as UTF-8.
pub open spec fn utf8_len(s: Seq<char>) -> nat {
    encode_utf8(s).len()
}

pub open spec fn is_ascii_alphabetic(c: char) -> bool {
    (65 <= c as u32 <= 90) || (97 <= c as u32 <= 122)
}

pub open spec fn is_ascii_digit(c: char) -> bool {
    48 <= c as u32 <= 57
}

/// Characters allowed after the first in a native denomination.
pub open spec fn is_denom_char(c: char) -> bool {
    is_ascii_alphabetic(c) || is_ascii_digit(c) || c == '/' || c == ':' || c == '.' || c == '_'
        || c == '-'
}

/// The first character of `s`, from position `i` on, that a native
/// denomination may not hold.
pub open spec fn first_invalid_char(s: Seq<char>, i: int) -> Option<char>
    decreases s.len() - i,
{
    if i < 0 || i >= s.len() {
        None
    } else if !is_denom_char(s[i]) {
        Some(s[i])
    } else {
        first_invalid_char(s, i + 1)
    }
}

/// The verdict on a native denomination: `[a-zA-Z][a-zA-Z0-9/:._-]{2,127}`,
/// with the length counted in UTF-8 bytes and the first failing rule named.
pub enum NativeDenomVerdict {
    Valid,
    BadLength(nat),
    NonAlphabetic,
    BadChar(char),
}

pub open spec fn native_denom_verdict(s: Seq<char>) -> NativeDenomVerdict {
    if utf8_len(s) < 3 || utf8_len(s) > 128 {
        NativeDenomVerdict::BadLength(utf8_len(s))
    } else if !is_ascii_alphabetic(s[0]) {
        NativeDenomVerdict::NonAlphabetic
    } else {
        match first_invalid_char(s, 1) {
            Some(c) => NativeDenomVerdict::BadChar(c),
            None => NativeDenomVerdict::Valid,
        }
    }
}

/// What checking a native denomination gives: the denomination itself when
/// it is valid, else the fault that the verdict names.
pub open spec fn native_outcome(s: Seq<char>) -> Result<Seq<char>, DenomFault> {
    match native_denom_verdict(s) {
        NativeDenomVerdict::Valid => Ok(s),
        NativeDenomVerdict::BadLength(n) => Err(DenomFault::NativeDenomLength { len: n as usize }),
        NativeDenomVerdict::NonAlphabetic => Err(DenomFault::NonAlphabeticAscii),
        NativeDenomVerdict::BadChar(c) => Err(DenomFault::InvalidCharacter { c }),
    }
}

/// A result carrying a text, read through the text's view.
pub open spec fn text_result(r: Result<String, DenomFault>) -> Result<Seq<char>, DenomFault> {
    match r {
        Ok(d) => Ok(d@),
        Err(e) => Err(e),
    }
}

/// Calls `cw_denom::validate_native_denom`. Claimed, as its source shows: a
/// length outside [3, 128] bytes is refused with that length; then a first
/// character that is not an ASCII letter; then the first later character that
/// is not an ASCII letter, digit or one of `/:._-`. Otherwise the denomination
/// comes back unchanged.
#[verifier::external_body]
pub(crate) fn validate_native_denom(denom: String) -> (r: Result<String, DenomFault>)
    ensures
        text_result(r) == native_outcome(denom@),
{
    match cw_denom::validate_native_denom(denom) {
        Ok(cw_denom::CheckedDenom::Native(d)) => Ok(d),
        Ok(cw_denom::CheckedDenom::Cw20(a)) => Ok(a.into_string()),
        Err(cw_denom::DenomError::Std(e)) => Err(DenomFault::Std(e)),
        Err(cw_denom::DenomError::InvalidCw20 { err }) => Err(DenomFault::InvalidCw20 { err }),
        Err(cw_denom::DenomError::NativeDenomLength { len }) => Err(DenomFault::NativeDenomLength { len }),
        Err(cw_denom::DenomError::NonAlphabeticAscii) => Err(DenomFault::NonAlphabeticAscii),
        Err(cw_denom::DenomError::InvalidCharacter { c }) => Err(DenomFault::InvalidCharacter { c }),
    }
}

/// What checking a denomination gives, `cw20_verdict` being the chain's
/// answer for a cw20 address.
pub open spec fn check_outcome(
    denom: DenomModel,
    cw20_verdict: Option<Result<String, DenomFault>>,
) -> Result<DenomModel, DenomFault> {
    match denom {
        DenomModel::Native(t) => match native_outcome(t) {
            Ok(d) => Ok(DenomModel::Native(d)),
            Err(e) => Err(e),
        },
        DenomModel::Cw20(_) => match cw20_verdict {
            Some(Ok(a)) => Ok(DenomModel::Cw20(a@)),
            Some(Err(e)) => Err(e),
            None => Err(DenomFault::NonAlphabeticAscii),
        },
    }
}

/// A checked denomination read through its view.
pub open spec fn checked_result(r: Result<CheckedDenom, DenomFault>) -> Result<DenomModel, DenomFault> {
    match r {
        Ok(d) => Ok(d@),
        Err(e) => Err(e),
    }
}

/// Checks a denomination. A native one is checked here against the SDK's
/// rules; a cw20 one can only be checked by the chain (address validation and
/// a `TokenInfo` query), whose outcome the caller passes as `cw20_verdict`.
pub fn into_checked(denom: &UncheckedDenom, cw20_verdict: Option<Result<String, DenomFault>>) -> (r: Result<CheckedDenom, DenomFault>)
    requires
        denom is Cw20 ==> cw20_verdict is Some,
    ensures
        checked_result(r) == check_outcome(denom@, cw20_verdict),
{
    match denom {
        UncheckedDenom::Native(t) => match validate_native_denom(t.clone()) {
            Ok(d) => Ok(CheckedDenom::Native(d)),
            Err(e) => Err(e),
        },
        UncheckedDenom::Cw20(_) => match cw20_verdict {
            Some(Ok(addr)) => Ok(CheckedDenom::Cw20(addr)),
            Some(Err(e)) => Err(e),
            None => {
                assert(false);
                Err(DenomFault::NonAlphabeticAscii)
            },
        },
    }
}

/// An amount of a native asset, as attached to a message.
#[derive(Debug, PartialEq)]
pub struct Coin {
    pub denom: String,
    pub amount: u128,
}

pub struct CoinModel {
    pub denom: Seq<char>,
    pub amount: u128,
}

impl View for Coin {
    type V = CoinModel;

    open spec fn view(&self) -> CoinModel {
        CoinModel { denom: self.denom@, amount: self.amount }
    }
}

/// What a transfer does: move `amount` of `denom` to `recipient`.
pub struct TransferModel {
    pub denom: DenomModel,
    pub recipient: Seq<char>,
    pub amount: u128,
}

/// A message that moves tokens out of the contract: a bank send for a native
/// denomination, a cw20 `Transfer` for a cw20 one.
#[derive(Debug, PartialEq)]
pub struct Transfer {
    pub denom: CheckedDenom,
    pub recipient: String,
    pub amount: u128,
}

impl View for Transfer {
    type V = TransferModel;

    open spec fn view(&self) -> TransferModel {
        TransferModel { denom: self.denom@, recipient: self.recipient@, amount: self.amount }
    }
}

impl Clone for Transfer {
    fn clone(&self) -> (r: Self)
        ensures
            r@ == self@,
    {
        Transfer {
            denom: self.denom.clone(),
            recipient: self.recipient.clone(),
            amount: self.amount,
        }
    }
}

} // verus!
