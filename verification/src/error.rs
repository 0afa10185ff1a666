//! Why a shitstrap refuses a request.

use vstd::prelude::*;
use cosmwasm_std::{DecimalRangeExceeded, StdError};
use crate::denom::DenomFault;

verus! {

#[derive(Debug, PartialEq)]
pub enum ContractError {
    /// A failure reported by the chain's standard library.
    ShitStd(StdError),
    /// A denomination failed its check.
    ShitDenomError(DenomFault),
    /// A rate does not fit a decimal.
    DecimalRangeExceeded(DecimalRangeExceeded),
    /// The asset is not one of the accepted ones.
    WrongShit {},
    /// The shitstrap is closed, or there is no refund for the caller.
    FullOfShit {},
    /// The native funds sent do not match the amount named.
    DidntSendShit {},
    /// A refund could not be claimed.
    DigginForShitTreasure {},
    /// The caller is not the owner.
    ShittyAuthorization {},
    /// The same accepted entry is listed twice.
    SameShit {},
    /// No accepted entries, or as many as four.
    UnnaceptableShitAmount {},
    /// The cutoff is zero.
    ShittyCutoffRatio {},
    /// A conversion rate is zero.
    ShittyConversionRatio {},
    /// The title is longer than 100 bytes.
    ShittyTitle {},
    /// The description is longer than 1000 bytes.
    ShittyDescription {},
    /// A cw20 asset was named by someone other than its contract.
    ShittyCw20 {},
}

} // verus!
