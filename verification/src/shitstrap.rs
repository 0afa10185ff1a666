//! The shitstrap contract whose rates are plain integers at 18 decimal places:
//! participants pay an accepted token and receive the strapped token at that
//! rate until the strapped value reaches the cutoff; the payment that reaches
//! it is split between the owner and a refund its sender may claim.

use vstd::prelude::*;
use cosmwasm_std::StdError;
use crate::cosmos::{
    add_overflow_error, decimal_fractional, decimal_from_atomics, decimal_inv,
    uint128_checked_add, uint128_checked_multiply_ratio, uint128_mul_decimal,
};
use crate::denom::{
    check_outcome, into_checked, utf8_len, CheckedDenom, Coin, CoinModel, DenomFault, DenomModel,
    Transfer, TransferModel, UncheckedDenom,
};
use crate::error::ContractError;
use crate::msg::{
    clone_accepted, AssetUnchecked, Attribute, AttributeModel, Cw20ReceiveMsg, PossibleShit,
    PossibleShitModel, ReceiveMsg, Response, ResponseModel,
};
use crate::sorted_map::{lemma_lookup_at, lookup, upsert_model, SortedMap};

verus! {

/// Longest title accepted, in bytes.
pub const MAX_TITLE_LEN: usize = 100;

/// Longest description accepted, in bytes.
pub const MAX_DESCRIPTION_LEN: usize = 1000;

/// Most accepted tokens a shitstrap takes.
pub const MAX_ACCEPTED: usize = 3;

/// Decimal places of a conversion rate.
pub const MAX_DEC_PRECISION: u32 = 18;

/// What creating a shitstrap takes.
#[derive(Debug, PartialEq)]
pub struct InstantiateMsg {
    /// Who receives the tokens paid in; the creator when absent.
    pub owner: Option<String>,
    /// The accepted tokens and their rates.
    pub accepted: Vec<PossibleShit>,
    /// Strapped value at which the shitstrap closes (1000000 == 1 token).
    pub cutoff: u128,
    /// The strapped token.
    pub shitmos: UncheckedDenom,
    /// Label for the contract and front ends.
    pub title: String,
    /// Description kept for the record.
    pub description: String,
}

#[derive(Debug, PartialEq)]
pub enum ExecuteMsg {
    /// Participate; a cw20 asset is taken only from its own contract.
    ShitStrap { shit: AssetUnchecked },
    /// The owner closes the shitstrap.
    Flush {},
    /// A cw20 contract sent tokens.
    Receive(Cw20ReceiveMsg),
    /// The participant that filled the shitstrap claims its excess.
    RefundShitter {},
}

#[derive(Debug, PartialEq)]
pub enum QueryMsg {
    /// The configuration.
    Config {},
    /// The value strapped so far.
    ShitPile {},
    /// Whether the shitstrap is closed.
    FullOfShit {},
    /// The rate of the first accepted token named `asset`.
    ShitRate { asset: String },
    /// All accepted tokens with their rates.
    ShitRates {},
}

/// A shitstrap's configuration.
#[derive(Debug, PartialEq)]
pub struct Config {
    pub owner: String,
    pub accepted: Vec<PossibleShit>,
    pub cutoff: u128,
    pub shitmos_addr: CheckedDenom,
    /// Set once the cutoff is reached or the owner closes the shitstrap.
    pub full_of_shit: bool,
    pub title: String,
    pub description: String,
}

/// What has been paid in so far of one denomination.
#[derive(Debug, PartialEq)]
pub struct Deposit {
    pub denom: CheckedDenom,
    pub amount: u128,
}

pub struct DepositModel {
    pub denom: DenomModel,
    pub amount: u128,
}

impl View for Deposit {
    type V = DepositModel;

    open spec fn view(&self) -> DepositModel {
        DepositModel { denom: self.denom@, amount: self.amount }
    }
}

/// Everything a shitstrap stores.
#[derive(Debug)]
pub struct Shitstrap {
    pub config: Config,
    /// Strapped value of all payments accepted so far.
    pub shit_pile: u128,
    /// What has been paid in so far, per denomination text, in key order.
    pub deposits: SortedMap<Deposit>,
    /// The refund waiting for the participant that filled the shitstrap.
    pub refunds: SortedMap<Transfer>,
}

pub open spec fn accepted_model(v: Seq<PossibleShit>) -> Seq<PossibleShitModel> {
    v.map_values(|p: PossibleShit| p@)
}

/// First position, from `i` on, of an accepted entry whose token is `d`.
pub open spec fn first_accepted_from(s: Seq<PossibleShitModel>, d: DenomModel, i: int) -> Option<int>
    decreases s.len() - i,
{
    if i < 0 || i >= s.len() {
        None
    } else if s[i].token == d {
        Some(i)
    } else {
        first_accepted_from(s, d, i + 1)
    }
}

pub open spec fn first_accepted(s: Seq<PossibleShitModel>, d: DenomModel) -> Option<int> {
    first_accepted_from(s, d, 0)
}

/// First position, from `i` on, of an accepted entry whose token text is `t`,
/// whatever its kind.
pub open spec fn first_named_from(s: Seq<PossibleShitModel>, t: Seq<char>, i: int) -> Option<int>
    decreases s.len() - i,
{
    if i < 0 || i >= s.len() {
        None
    } else if s[i].token.text() == t {
        Some(i)
    } else {
        first_named_from(s, t, i + 1)
    }
}

/// The rate a query for `t` answers with.
pub open spec fn rate_named(s: Seq<PossibleShitModel>, t: Seq<char>) -> Option<u128> {
    match first_named_from(s, t, 0) {
        Some(i) => Some(s[i].shit_rate),
        None => None,
    }
}

/// Whether one of the first `j` entries names the same token as entry `i`.
pub open spec fn token_among_first(s: Seq<PossibleShitModel>, j: int, i: int) -> bool {
    exists|k: int| 0 <= k < j && #[trigger] s[k].token == s[i].token
}

/// The first fault, from position `i` on, of a list of accepted entries: a
/// token listed before (whatever its rate), or a zero rate.
pub open spec fn accepted_fault_from(s: Seq<PossibleShitModel>, i: int) -> Option<ContractError>
    decreases s.len() - i,
{
    if i < 0 || i >= s.len() {
        None
    } else if token_among_first(s, i, i) {
        Some(ContractError::SameShit {})
    } else if s[i].shit_rate == 0 {
        Some(ContractError::ShittyConversionRatio {})
    } else {
        accepted_fault_from(s, i + 1)
    }
}

/// Length of a text in bytes, as `str::len` reports it.
pub open spec fn text_len(s: Seq<char>) -> usize {
    utf8_len(s) as usize
}

/// Why creating a shitstrap from `msg` is refused, if it is. `owner_verdict`
/// is the chain's validation of the owner named, `shitmos_verdict` its check
/// of a cw20 strapped token.
pub open spec fn instantiate_refusal(
    msg: InstantiateMsg,
    owner_verdict: Option<Result<String, StdError>>,
    shitmos_verdict: Option<Result<String, DenomFault>>,
) -> Option<ContractError> {
    let owner_fault = match (msg.owner, owner_verdict) {
        (Some(_), Some(Err(e))) => Some(ContractError::ShitStd(e)),
        _ => None,
    };
    let accepted = accepted_model(msg.accepted@);
    if owner_fault is Some {
        owner_fault
    } else if msg.cutoff == 0 {
        Some(ContractError::ShittyCutoffRatio {})
    } else if text_len(msg.title@) > 100 {
        Some(ContractError::ShittyTitle {})
    } else if text_len(msg.description@) > 1000 {
        Some(ContractError::ShittyDescription {})
    } else if accepted.len() == 0 || accepted.len() > MAX_ACCEPTED {
        Some(ContractError::UnnaceptableShitAmount {})
    } else if accepted_fault_from(accepted, 0) is Some {
        accepted_fault_from(accepted, 0)
    } else {
        match check_outcome(msg.shitmos@, shitmos_verdict) {
            Err(f) => Some(ContractError::ShitDenomError(f)),
            Ok(_) => None,
        }
    }
}

/// The owner a new shitstrap gets.
pub open spec fn chosen_owner(
    sender: Seq<char>,
    msg: InstantiateMsg,
    owner_verdict: Option<Result<String, StdError>>,
) -> Seq<char> {
    match (msg.owner, owner_verdict) {
        (Some(_), Some(Ok(a))) => a@,
        _ => sender,
    }
}

/// What creating a shitstrap from `msg` gives: `st`, configured as asked,
/// open, with nothing strapped, paid in or owed.
pub open spec fn instantiated(
    sender: Seq<char>,
    msg: InstantiateMsg,
    owner_verdict: Option<Result<String, StdError>>,
    shitmos_verdict: Option<Result<String, DenomFault>>,
    st: Shitstrap,
) -> bool {
    &&& instantiate_refusal(msg, owner_verdict, shitmos_verdict) is None
    &&& st.wf()
    &&& st.config.owner@ == chosen_owner(sender, msg, owner_verdict)
    &&& accepted_model(st.config.accepted@) == accepted_model(msg.accepted@)
    &&& st.config.cutoff == msg.cutoff
    &&& check_outcome(msg.shitmos@, shitmos_verdict) == Ok::<DenomModel, DenomFault>(
        st.config.shitmos_addr@,
    )
    &&& !st.config.full_of_shit
    &&& st.config.title@ == msg.title@
    &&& st.config.description@ == msg.description@
    &&& st.shit_pile == 0
    &&& st.deposits@.len() == 0
    &&& st.refunds@.len() == 0
}

/// Finds the first accepted entry whose token is `d`.
pub fn find_accepted(accepted: &Vec<PossibleShit>, d: &UncheckedDenom) -> (r: Option<usize>)
    ensures
        r is None <==> first_accepted(accepted_model(accepted@), d@) is None,
        r matches Some(i) ==> first_accepted(accepted_model(accepted@), d@) == Some(i as int),
        r matches Some(i) ==> i < accepted@.len() && accepted@[i as int]@.token == d@,
{
    let ghost s = accepted_model(accepted@);
    let mut i: usize = 0;
    while i < accepted.len()
        invariant
            i <= accepted@.len(),
            s == accepted_model(accepted@),
            first_accepted(s, d@) == first_accepted_from(s, d@, i as int),
        decreases accepted@.len() - i,
    {
        if accepted[i].token.same_as(d) {
            return Some(i);
        }
        i = i + 1;
    }
    None
}

/// Finds the first accepted entry whose token text is `t`, whatever its kind.
pub fn find_named(accepted: &Vec<PossibleShit>, t: &String) -> (r: Option<usize>)
    ensures
        r is None <==> first_named_from(accepted_model(accepted@), t@, 0) is None,
        r matches Some(i) ==> first_named_from(accepted_model(accepted@), t@, 0) == Some(i as int),
        r matches Some(i) ==> i < accepted@.len(),
{
    let ghost s = accepted_model(accepted@);
    let mut i: usize = 0;
    while i < accepted.len()
        invariant
            i <= accepted@.len(),
            s == accepted_model(accepted@),
            first_named_from(s, t@, 0) == first_named_from(s, t@, i as int),
        decreases accepted@.len() - i,
    {
        if *accepted[i].token.text() == *t {
            return Some(i);
        }
        i = i + 1;
    }
    None
}

/// Checks a list of accepted entries, in order, for a token listed before
/// (whatever its rate) or a zero rate.
pub fn check_accepted(accepted: &Vec<PossibleShit>) -> (r: Result<(), ContractError>)
    ensures
        match accepted_fault_from(accepted_model(accepted@), 0) {
            Some(e) => r == Err::<(), ContractError>(e),
            None => r is Ok,
        },
{
    let ghost s = accepted_model(accepted@);
    let mut i: usize = 0;
    while i < accepted.len()
        invariant
            i <= accepted@.len(),
            s == accepted_model(accepted@),
            accepted_fault_from(s, 0) == accepted_fault_from(s, i as int),
        decreases accepted@.len() - i,
    {
        let mut j: usize = 0;
        let mut seen = false;
        while j < i
            invariant
                j <= i < accepted@.len(),
                s == accepted_model(accepted@),
                seen == token_among_first(s, j as int, i as int),
            decreases i - j,
        {
            assert(s[j as int] == accepted@[j as int]@);
            assert(s[i as int] == accepted@[i as int]@);
            if accepted[j].token.same_as(&accepted[i].token) {
                seen = true;
            }
            proof {
                if s[j as int].token == s[i as int].token {
                    assert(0 <= j < j + 1 && s[j as int].token == s[i as int].token);
                }
                if token_among_first(s, j + 1, i as int) {
                    let k = choose|k: int| 0 <= k < j + 1 && #[trigger] s[k].token == s[i as int].token;
                    if k < j {
                        assert(token_among_first(s, j as int, i as int));
                    }
                }
            }
            j = j + 1;
        }
        if seen {
            return Err(ContractError::SameShit {});
        }
        assert(s[i as int] == accepted@[i as int]@);
        if accepted[i].shit_rate == 0 {
            return Err(ContractError::ShittyConversionRatio {});
        }
        i = i + 1;
    }
    Ok(())
}

pub open spec fn coins_model(v: Seq<Coin>) -> Seq<CoinModel> {
    v.map_values(|c: Coin| c@)
}

/// First position, from `i` on, of a coin of denomination `t`.
pub open spec fn first_coin_from(funds: Seq<CoinModel>, t: Seq<char>, i: int) -> Option<int>
    decreases funds.len() - i,
{
    if i < 0 || i >= funds.len() {
        None
    } else if funds[i].denom == t {
        Some(i)
    } else {
        first_coin_from(funds, t, i + 1)
    }
}

/// Whether the first coin of denomination `t` among the funds carries exactly
/// `amount`.
pub open spec fn native_paid(funds: Seq<CoinModel>, t: Seq<char>, amount: u128) -> bool {
    match first_coin_from(funds, t, 0) {
        Some(k) => funds[k].amount == amount,
        None => false,
    }
}

/// Strapped value of `amount` tokens at `rate`, rounded down.
pub open spec fn shit_value(amount: u128, rate: u128) -> int {
    amount * rate / decimal_fractional()
}

/// Tokens given back for `overflow` strapped value at `rate`: the value times
/// the inverse rate, each rounded down as decimals are.
pub open spec fn shit_return(overflow: int, rate: u128) -> int {
    overflow * (decimal_fractional() * decimal_fractional() / rate as int) / decimal_fractional()
}

/// Amount of `key` paid in so far.
pub open spec fn deposit_total(m: Seq<(Seq<char>, DepositModel)>, key: Seq<char>) -> u128 {
    match lookup(m, key) {
        Some(v) => v.amount,
        None => 0,
    }
}

/// Transfers to the owner of everything paid in, in key order, each in its
/// own denomination, less `kept` of the denomination whose text is `key`.
pub open spec fn dao_transfers(
    deposits: Seq<(Seq<char>, DepositModel)>,
    key: Seq<char>,
    kept: u128,
    owner: Seq<char>,
) -> Seq<TransferModel> {
    deposits.map_values(
        |e: (Seq<char>, DepositModel)|
            TransferModel {
                denom: e.1.denom,
                recipient: owner,
                amount: if e.0 == key {
                    (e.1.amount - kept) as u128
                } else {
                    e.1.amount
                },
            },
    )
}

/// What remains of the cutoff once `pile` has been handed out.
pub open spec fn left_to_hand_out(pile: u128, cutoff: u128) -> u128 {
    if pile < cutoff {
        (cutoff - pile) as u128
    } else {
        0
    }
}

/// What the owner is sent on closing an open shitstrap: everything paid in,
/// each in its own denomination, then the strapped tokens not handed out.
pub open spec fn flush_transfers(st: Shitstrap) -> Seq<TransferModel> {
    let paid = dao_transfers(st.deposits@, Seq::empty(), 0, st.config.owner@);
    if st.shit_pile < st.config.cutoff {
        paid.push(
            TransferModel {
                denom: st.config.shitmos_addr@,
                recipient: st.config.owner@,
                amount: left_to_hand_out(st.shit_pile, st.config.cutoff),
            },
        )
    } else {
        paid
    }
}

/// The attributes sent with them: the strapped value and the denomination,
/// once per transfer.
pub open spec fn dao_attributes(n: nat, value: u128, received: DenomModel) -> Seq<AttributeModel> {
    Seq::new(
        2 * n,
        |i: int|
            if i % 2 == 0 {
                AttributeModel::DaoShitstrapAmount(value)
            } else {
                AttributeModel::DaoShitstrapRecieved(received)
            },
    )
}

/// The accepted entry an asset names.
pub open spec fn strap_matched(st: Shitstrap, denom: DenomModel) -> Option<PossibleShitModel> {
    let accepted = accepted_model(st.config.accepted@);
    match first_accepted(accepted, denom) {
        Some(i) => Some(accepted[i]),
        None => None,
    }
}

/// Why the payment is refused: native funds that do not match the amount
/// named, or a cw20 named by someone other than its contract.
pub open spec fn payment_refusal(
    m: PossibleShitModel,
    sender: Seq<char>,
    funds: Seq<CoinModel>,
    amount: u128,
) -> Option<ContractError> {
    match m.token {
        DenomModel::Native(t) => if native_paid(funds, t, amount) {
            None
        } else {
            Some(ContractError::DidntSendShit {})
        },
        DenomModel::Cw20(c) => if sender == c {
            None
        } else {
            Some(ContractError::ShittyCw20 {})
        },
    }
}

/// Why a participation is refused, if it is.
pub open spec fn strap_refusal(
    st: Shitstrap,
    sender: Seq<char>,
    funds: Seq<CoinModel>,
    denom: DenomModel,
    amount: u128,
    cw20_verdict: Option<Result<String, DenomFault>>,
) -> Option<ContractError> {
    if st.config.full_of_shit {
        Some(ContractError::FullOfShit {})
    } else {
        match strap_matched(st, denom) {
            None => Some(ContractError::WrongShit {}),
            Some(m) => if payment_refusal(m, sender, funds, amount) is Some {
                payment_refusal(m, sender, funds, amount)
            } else {
                match check_outcome(m.token, cw20_verdict) {
                    Err(f) => Some(ContractError::ShitDenomError(f)),
                    Ok(d) => {
                        let prior = deposit_total(st.deposits@, d.text());
                        if prior + amount > u128::MAX {
                            Some(ContractError::ShitStd(add_overflow_error(prior, amount)))
                        } else {
                            None
                        }
                    },
                }
            },
        }
    }
}

/// How participating can abort the whole transaction (a panic, not an error).
#[derive(Debug, PartialEq)]
pub enum Abort {
    /// A product does not fit in 128 bits ("Multiplication overflow").
    MultiplicationOverflow,
    /// The strapped value does not fit in 128 bits ("attempt to add with overflow").
    AdditionOverflow,
    /// A zero rate has no inverse ("ahh").
    NoInverse,
    /// The refund exceeds what was paid in of its denomination ("attempt to
    /// subtract with overflow"); a shitstrap that was open below its cutoff
    /// never gets here.
    SubtractionOverflow,
}

/// Whether, and how, a participation aborts.
pub open spec fn strap_abort(
    st: Shitstrap,
    sender: Seq<char>,
    funds: Seq<CoinModel>,
    denom: DenomModel,
    amount: u128,
    cw20_verdict: Option<Result<String, DenomFault>>,
) -> Option<Abort> {
    if st.config.full_of_shit {
        None
    } else {
        match strap_matched(st, denom) {
            None => None,
            Some(m) => {
                let v = shit_value(amount, m.shit_rate);
                let new_val = st.shit_pile + v;
                if payment_refusal(m, sender, funds, amount) is Some {
                    None
                } else if v > u128::MAX {
                    Some(Abort::MultiplicationOverflow)
                } else if strap_refusal(st, sender, funds, denom, amount, cw20_verdict) is Some {
                    None
                } else if new_val > u128::MAX {
                    Some(Abort::AdditionOverflow)
                } else if new_val < st.config.cutoff {
                    None
                } else if m.shit_rate == 0 {
                    Some(Abort::NoInverse)
                } else if shit_return(new_val - st.config.cutoff, m.shit_rate) > u128::MAX {
                    Some(Abort::MultiplicationOverflow)
                } else if shit_return(new_val - st.config.cutoff, m.shit_rate) > deposit_total(
                    st.deposits@,
                    check_outcome(m.token, cw20_verdict)->Ok_0.text(),
                ) + amount {
                    Some(Abort::SubtractionOverflow)
                } else {
                    None
                }
            },
        }
    }
}

/// Whether the first coin of denomination `t` carries exactly `amount`.
pub fn paid_natively(funds: &Vec<Coin>, t: &String, amount: u128) -> (r: bool)
    ensures
        r == native_paid(coins_model(funds@), t@, amount),
{
    let ghost f = coins_model(funds@);
    let mut i: usize = 0;
    while i < funds.len()
        invariant
            i <= funds@.len(),
            f == coins_model(funds@),
            first_coin_from(f, t@, 0) == first_coin_from(f, t@, i as int),
        decreases funds@.len() - i,
    {
        if funds[i].denom == *t {
            return funds[i].amount == amount;
        }
        i = i + 1;
    }
    false
}

/// Strapped value of a payment of `amount` of the matched token, with the
/// matched token checked. The cw20 check is the chain's (see `into_checked`).
pub fn calculate_shit_value(
    matched: &PossibleShit,
    amount: u128,
    cw20_verdict: Option<Result<String, DenomFault>>,
) -> (r: Result<(u128, CheckedDenom), ContractError>)
    requires
        shit_value(amount, matched.shit_rate) <= u128::MAX,
        matched.token is Cw20 ==> cw20_verdict is Some,
    ensures
        match check_outcome(matched.token@, cw20_verdict) {
            Ok(d) => r matches Ok((v, c)) && v == shit_value(amount, matched.shit_rate) && c@ == d,
            Err(f) => r == Err::<(u128, CheckedDenom), ContractError>(ContractError::ShitDenomError(f)),
        },
{
    let rate = match decimal_from_atomics(matched.shit_rate, MAX_DEC_PRECISION) {
        Ok(d) => d,
        Err(e) => {
            return Err(ContractError::DecimalRangeExceeded(e));
        },
    };
    let value = uint128_mul_decimal(amount, rate);
    match into_checked(&matched.token, cw20_verdict) {
        Ok(d) => Ok((value, d)),
        Err(f) => Err(ContractError::ShitDenomError(f)),
    }
}

/// The overshoot of `new_val` past the cutoff, and the tokens that give it
/// back at `shit_rate`.
pub fn calculate_shit_return(new_val: u128, cutoff: u128, shit_rate: u128) -> (r: Result<(u128, u128), ContractError>)
    requires
        new_val >= cutoff,
        shit_rate != 0,
        shit_return(new_val - cutoff, shit_rate) <= u128::MAX,
    ensures
        r matches Ok((o, t)) && o == new_val - cutoff && t == shit_return(new_val - cutoff, shit_rate),
{
    let overflow = new_val - cutoff;
    let rate = match decimal_from_atomics(shit_rate, MAX_DEC_PRECISION) {
        Ok(d) => d,
        Err(e) => {
            return Err(ContractError::DecimalRangeExceeded(e));
        },
    };
    let inverse = match decimal_inv(rate) {
        Some(i) => i,
        None => {
            assert(false);
            0
        },
    };
    Ok((overflow, uint128_mul_decimal(overflow, inverse)))
}

/// A transfer to `dao` of `amount` of the denomination `denom`.
pub fn shitstrap_dao(denom: &CheckedDenom, amount: u128, dao: String) -> (r: Transfer)
    ensures
        r@ == (TransferModel { denom: denom@, recipient: dao@, amount }),
{
    Transfer { denom: denom.clone(), recipient: dao, amount }
}

/// Transfers to `dao` of everything paid in, in key order, each in its own
/// denomination, less `kept` of the denomination whose text is `key`.
pub fn dao_payouts(deposits: &SortedMap<Deposit>, key: &String, kept: u128, dao: &String) -> (r: Vec<
    Transfer,
>)
    requires
        forall|i: int|
            0 <= i < deposits@.len() && #[trigger] deposits@[i].0 == key@ ==> deposits@[i].1.amount
                >= kept,
    ensures
        r@.map_values(|t: Transfer| t@) == dao_transfers(deposits@, key@, kept, dao@),
{
    let mut msgs: Vec<Transfer> = Vec::new();
    let n = deposits.entries.len();
    let mut i: usize = 0;
    while i < n
        invariant
            n == deposits@.len(),
            i <= n,
            forall|k: int|
                0 <= k < deposits@.len() && #[trigger] deposits@[k].0 == key@ ==> deposits@[k].1.amount
                    >= kept,
            msgs@.map_values(|t: Transfer| t@) == dao_transfers(
                deposits@.take(i as int),
                key@,
                kept,
                dao@,
            ),
        decreases n - i,
    {
        let entry_key = &deposits.entries[i].0;
        let deposit = &deposits.entries[i].1;
        assert(deposits@[i as int] == (entry_key@, deposit@));
        let amnt = if *entry_key == *key {
            assert(deposits@[i as int].0 == key@);
            deposit.amount - kept
        } else {
            deposit.amount
        };
        let ghost before = msgs@.map_values(|t: Transfer| t@);
        msgs.push(shitstrap_dao(&deposit.denom, amnt, dao.clone()));
        proof {
            assert(before.len() == i);
            assert(deposits@.take(i + 1) =~= deposits@.take(i as int).push(deposits@[i as int]));
            assert(msgs@.map_values(|t: Transfer| t@) =~= before.push(msgs@[i as int]@));
            assert(msgs@.map_values(|t: Transfer| t@) =~= dao_transfers(
                deposits@.take(i + 1),
                key@,
                kept,
                dao@,
            ));
        }
        i = i + 1;
    }
    assert(deposits@.take(n as int) =~= deposits@);
    msgs
}

/// The attributes the filling payment sends with the owner's transfers: the
/// strapped value and the denomination paid, once per transfer.
pub fn dao_attribute_list(n: usize, value: u128, received: &CheckedDenom) -> (r: Vec<Attribute>)
    ensures
        r@.map_values(|a: Attribute| a@) == dao_attributes(n as nat, value, received@),
{
    let mut attrs: Vec<Attribute> = Vec::new();
    let mut i: usize = 0;
    while i < n
        invariant
            i <= n,
            attrs@.map_values(|a: Attribute| a@) == dao_attributes(i as nat, value, received@),
        decreases n - i,
    {
        let ghost before = attrs@.map_values(|a: Attribute| a@);
        attrs.push(Attribute::DaoShitstrapAmount(value));
        attrs.push(Attribute::DaoShitstrapRecieved(received.clone()));
        proof {
            assert(before.len() == 2 * i);
            assert(attrs@.map_values(|a: Attribute| a@) =~= before.push(
                AttributeModel::DaoShitstrapAmount(value),
            ).push(AttributeModel::DaoShitstrapRecieved(received@)));
            assert((2 * i) % 2 == 0);
            assert((2 * i + 1) % 2 == 1);
            assert(attrs@.map_values(|a: Attribute| a@) =~= dao_attributes(
                (i + 1) as nat,
                value,
                received@,
            ));
        }
        i = i + 1;
    }
    attrs
}

/// Two configurations that read the same.
pub open spec fn same_config(a: Config, b: Config) -> bool {
    &&& a.owner@ == b.owner@
    &&& accepted_model(a.accepted@) == accepted_model(b.accepted@)
    &&& a.cutoff == b.cutoff
    &&& a.shitmos_addr@ == b.shitmos_addr@
    &&& a.full_of_shit == b.full_of_shit
    &&& a.title@ == b.title@
    &&& a.description@ == b.description@
}

/// The answer to a query.
#[derive(Debug, PartialEq)]
pub enum QueryResponse {
    Config(Config),
    ShitPile(u128),
    FullOfShit(bool),
    ShitRate(Option<u128>),
    ShitRates(Vec<PossibleShit>),
}

/// Whether the request aborts the transaction, and how.
pub open spec fn execute_abort(
    st: Shitstrap,
    sender: Seq<char>,
    funds: Seq<CoinModel>,
    msg: ExecuteMsg,
    cw20_verdict: Option<Result<String, DenomFault>>,
) -> Option<Abort> {
    match msg {
        ExecuteMsg::ShitStrap { shit } => strap_abort(
            st,
            sender,
            funds,
            shit.denom@,
            shit.amount,
            cw20_verdict,
        ),
        ExecuteMsg::Receive(m) => strap_abort(
            st,
            sender,
            funds,
            DenomModel::Cw20(sender),
            m.amount,
            cw20_verdict,
        ),
        _ => None,
    }
}

/// The settings of a configuration: everything but whether it is closed.
pub open spec fn same_settings(a: Config, b: Config) -> bool {
    &&& a.owner == b.owner
    &&& a.accepted == b.accepted
    &&& a.cutoff == b.cutoff
    &&& a.shitmos_addr == b.shitmos_addr
    &&& a.title == b.title
    &&& a.description == b.description
}

/// What an accepted participation does: `post` and `resp` are the state and
/// the response after `strapper` pays `amount` of `denom` into `pre`.
///
/// The strapped value of the payment is added to the pile and the amount to
/// the deposits of its denomination; the strapper is sent that value in the
/// strapped token. When the pile reaches the cutoff, the shitstrap closes: the
/// strapper is sent only what remains up to the cutoff and is owed a refund
/// of the tokens worth the overshoot, and the owner is sent every deposit,
/// each in its own denomination, less that refund.
pub open spec fn strap_effect(
    pre: Shitstrap,
    post: Shitstrap,
    resp: ResponseModel,
    denom: DenomModel,
    amount: u128,
    strapper: Seq<char>,
    cw20_verdict: Option<Result<String, DenomFault>>,
) -> bool {
    match strap_matched(pre, denom) {
        None => false,
        Some(m) => match check_outcome(m.token, cw20_verdict) {
            Err(_) => false,
            Ok(d) => {
                let v = shit_value(amount, m.shit_rate);
                let new_val = pre.shit_pile + v;
                let key = d.text();
                let deposits = upsert_model(
                    pre.deposits@,
                    key,
                    DepositModel { denom: d, amount: (deposit_total(pre.deposits@, key) + amount) as u128 },
                );
                let filled = new_val >= pre.config.cutoff;
                let overflow = new_val - pre.config.cutoff;
                let returned = shit_return(overflow, m.shit_rate) as u128;
                let shitmos = TransferModel {
                    denom: pre.config.shitmos_addr@,
                    recipient: strapper,
                    amount: if filled {
                        left_to_hand_out(pre.shit_pile, pre.config.cutoff)
                    } else {
                        v as u128
                    },
                };
                let refund = TransferModel { denom: d, recipient: strapper, amount: returned };
                &&& post.wf()
                &&& post.shit_pile == new_val
                &&& post.deposits@ == deposits
                &&& post.config.full_of_shit == filled
                &&& same_settings(pre.config, post.config)
                &&& post.refunds@ == if filled {
                    upsert_model(pre.refunds@, strapper, refund)
                } else {
                    pre.refunds@
                }
                &&& resp.messages == if filled {
                    dao_transfers(deposits, key, returned, pre.config.owner@).push(shitmos)
                } else {
                    seq![shitmos]
                }
                &&& resp.attributes == if filled {
                    dao_attributes(deposits.len(), v as u128, d)
                } else {
                    Seq::<AttributeModel>::empty()
                }
            },
        },
    }
}

/// A participation's result: `sender`, attaching `funds`, pays `amount` of
/// `denom` for `strapper`; refused with the error `strap_refusal` gives, or
/// accepted with the effect `strap_effect` states.
pub open spec fn participation_outcome(
    pre: Shitstrap,
    post: Shitstrap,
    sender: Seq<char>,
    funds: Seq<CoinModel>,
    denom: DenomModel,
    amount: u128,
    strapper: Seq<char>,
    cw20_verdict: Option<Result<String, DenomFault>>,
    r: Result<Response, ContractError>,
) -> bool {
    match r {
        Err(e) => strap_refusal(pre, sender, funds, denom, amount, cw20_verdict) == Some(e),
        Ok(resp) => {
            &&& strap_refusal(pre, sender, funds, denom, amount, cw20_verdict) is None
            &&& strap_effect(pre, post, resp@, denom, amount, strapper, cw20_verdict)
        },
    }
}

/// What a request that neither aborts nor is refused does, and which error a
/// refused one gets: `post` and `r` are the state and the result after
/// `sender`, attaching `funds`, sends `msg` to `pre`.
pub open spec fn request_outcome(
    pre: Shitstrap,
    post: Shitstrap,
    sender: Seq<char>,
    funds: Seq<CoinModel>,
    msg: ExecuteMsg,
    cw20_verdict: Option<Result<String, DenomFault>>,
    r: Result<Response, ContractError>,
) -> bool {
    match msg {
        ExecuteMsg::ShitStrap { shit } => participation_outcome(
            pre,
            post,
            sender,
            funds,
            shit.denom@,
            shit.amount,
            sender,
            cw20_verdict,
            r,
        ),
        ExecuteMsg::Receive(m) => match m.msg {
            ReceiveMsg::ShitStrap { shit_strapper } => participation_outcome(
                pre,
                post,
                sender,
                funds,
                DenomModel::Cw20(sender),
                m.amount,
                shit_strapper@,
                cw20_verdict,
                r,
            ),
        },
        ExecuteMsg::Flush {} => match r {
            Err(e) => sender != pre.config.owner@ && e == ContractError::ShittyAuthorization {},
            Ok(resp) => {
                &&& sender == pre.config.owner@
                &&& post.config.full_of_shit
                &&& same_settings(pre.config, post.config)
                &&& post.shit_pile == pre.shit_pile
                &&& post.deposits == pre.deposits
                &&& post.refunds == pre.refunds
                &&& resp@.messages == if pre.config.full_of_shit {
                    Seq::<TransferModel>::empty()
                } else {
                    flush_transfers(pre)
                }
                &&& resp@.attributes == seq![AttributeModel::Flusher(sender)]
            },
        },
        ExecuteMsg::RefundShitter {} => match lookup(pre.refunds@, sender) {
            None => r == Err::<Response, ContractError>(ContractError::FullOfShit {}),
            Some(t) => r matches Ok(resp) && {
                &&& resp@.messages == seq![t]
                &&& resp@.attributes.len() == 0
                &&& post.refunds@.len() == 0
                &&& post.config == pre.config
                &&& post.shit_pile == pre.shit_pile
                &&& post.deposits == pre.deposits
            },
        },
    }
}

impl Shitstrap {
    pub open spec fn wf(&self) -> bool {
        self.deposits.wf() && self.refunds.wf()
    }

    /// Creates a shitstrap. `owner_verdict` is the chain's validation of the
    /// owner named in `msg` (needed only when one is named), `shitmos_verdict`
    /// its check of a cw20 strapped token (needed only for a cw20 one). The
    /// cutoff is kept as given, in the strapped token's atomic units.
    pub fn instantiate(
        sender: String,
        msg: InstantiateMsg,
        owner_verdict: Option<Result<String, StdError>>,
        shitmos_verdict: Option<Result<String, DenomFault>>,
    ) -> (r: Result<Shitstrap, ContractError>)
        requires
            msg.owner is Some ==> owner_verdict is Some,
            msg.shitmos is Cw20 ==> shitmos_verdict is Some,
        ensures
            match r {
                Err(e) => instantiate_refusal(msg, owner_verdict, shitmos_verdict) == Some(e),
                Ok(st) => instantiated(sender@, msg, owner_verdict, shitmos_verdict, st),
            },
            r is Ok && msg.owner is None ==> r->Ok_0.config.owner@ == sender@,
            r is Ok && msg.owner is Some ==> (owner_verdict matches Some(Ok(a)) && r->Ok_0.config.owner@ == a@),
    {
        let ghost m = msg;
        let InstantiateMsg { owner, accepted, cutoff, shitmos, title, description } = msg;
        let owner = match owner {
            Some(_) => match owner_verdict {
                Some(Ok(a)) => a,
                Some(Err(e)) => {
                    return Err(ContractError::ShitStd(e));
                },
                None => sender,
            },
            None => sender,
        };
        if cutoff == 0 {
            return Err(ContractError::ShittyCutoffRatio {});
        }
        if title.as_str().len() > MAX_TITLE_LEN {
            return Err(ContractError::ShittyTitle {});
        }
        if description.as_str().len() > MAX_DESCRIPTION_LEN {
            return Err(ContractError::ShittyDescription {});
        }
        if accepted.len() == 0 || accepted.len() > MAX_ACCEPTED {
            return Err(ContractError::UnnaceptableShitAmount {});
        }
        match check_accepted(&accepted) {
            Err(e) => {
                return Err(e);
            },
            Ok(()) => {},
        }
        let shitmos_addr = match into_checked(&shitmos, shitmos_verdict) {
            Ok(d) => d,
            Err(f) => {
                return Err(ContractError::ShitDenomError(f));
            },
        };
        let st = Shitstrap {
            config: Config {
                owner,
                accepted,
                cutoff,
                shitmos_addr,
                full_of_shit: false,
                title,
                description,
            },
            shit_pile: 0,
            deposits: SortedMap::new(),
            refunds: SortedMap::new(),
        };
        Ok(st)
    }

    /// Copies the configuration.
    pub fn config_copy(&self) -> (r: Config)
        ensures
            same_config(r, self.config),
            r.owner@ == self.config.owner@,
            accepted_model(r.accepted@) == accepted_model(self.config.accepted@),
            r.cutoff == self.config.cutoff,
            r.shitmos_addr@ == self.config.shitmos_addr@,
            r.full_of_shit == self.config.full_of_shit,
            r.title@ == self.config.title@,
            r.description@ == self.config.description@,
    {
        Config {
            owner: self.config.owner.clone(),
            accepted: clone_accepted(&self.config.accepted),
            cutoff: self.config.cutoff,
            shitmos_addr: self.config.shitmos_addr.clone(),
            full_of_shit: self.config.full_of_shit,
            title: self.config.title.clone(),
            description: self.config.description.clone(),
        }
    }

    /// The rate of the first accepted token whose text is `asset`, whether it
    /// is native or cw20.
    pub fn query_shit_rate(&self, asset: &String) -> (r: Option<u128>)
        ensures
            r == rate_named(accepted_model(self.config.accepted@), asset@),
    {
        match find_named(&self.config.accepted, asset) {
            Some(i) => {
                assert(accepted_model(self.config.accepted@)[i as int] == self.config.accepted@[i as int]@);
                Some(self.config.accepted[i].shit_rate)
            },
            None => None,
        }
    }

    /// Answers a query.
    pub fn query(&self, msg: &QueryMsg) -> (r: QueryResponse)
        ensures
            match msg {
                QueryMsg::Config {} => r matches QueryResponse::Config(c) && same_config(c, self.config)
                    && c.full_of_shit == self.config.full_of_shit && c.cutoff == self.config.cutoff
                    && c.owner@ == self.config.owner@,
                QueryMsg::ShitPile {} => r == QueryResponse::ShitPile(self.shit_pile),
                QueryMsg::FullOfShit {} => r == QueryResponse::FullOfShit(self.config.full_of_shit),
                QueryMsg::ShitRate { asset } => r == QueryResponse::ShitRate(
                    rate_named(accepted_model(self.config.accepted@), asset@),
                ),
                QueryMsg::ShitRates {} => r matches QueryResponse::ShitRates(v) && accepted_model(v@)
                    == accepted_model(self.config.accepted@),
            },
    {
        match msg {
            QueryMsg::Config {} => QueryResponse::Config(self.config_copy()),
            QueryMsg::ShitPile {} => QueryResponse::ShitPile(self.shit_pile),
            QueryMsg::FullOfShit {} => QueryResponse::FullOfShit(self.config.full_of_shit),
            QueryMsg::ShitRate { asset } => QueryResponse::ShitRate(self.query_shit_rate(asset)),
            QueryMsg::ShitRates {} => QueryResponse::ShitRates(clone_accepted(&self.config.accepted)),
        }
    }

    /// Whether participating as described would abort the transaction, and
    /// how; the participation must not be attempted when it would.
    pub fn strap_abort_check(
        &self,
        sender: &String,
        funds: &Vec<Coin>,
        denom: &UncheckedDenom,
        amount: u128,
        cw20_verdict: &Option<Result<String, DenomFault>>,
    ) -> (r: Option<Abort>)
        requires
            self.wf(),
        ensures
            r == strap_abort(*self, sender@, coins_model(funds@), denom@, amount, *cw20_verdict),
    {
        if self.config.full_of_shit {
            return None;
        }
        let idx = match find_accepted(&self.config.accepted, denom) {
            Some(i) => i,
            None => {
                return None;
            },
        };
        let matched = &self.config.accepted[idx];
        assert(accepted_model(self.config.accepted@)[idx as int] == matched@);
        assert(strap_matched(*self, denom@) == Some(matched@));
        match &matched.token {
            UncheckedDenom::Native(t) => {
                if !paid_natively(funds, t, amount) {
                    return None;
                }
            },
            UncheckedDenom::Cw20(c) => {
                if *sender != *c {
                    return None;
                }
            },
        }
        let value = match uint128_checked_multiply_ratio(amount, matched.shit_rate, 1_000_000_000_000_000_000) {
            Some(v) => v,
            None => {
                return Some(Abort::MultiplicationOverflow);
            },
        };
        let key = match &matched.token {
            UncheckedDenom::Native(t) => match crate::denom::validate_native_denom(t.clone()) {
                Ok(d) => d,
                Err(_) => {
                    return None;
                },
            },
            UncheckedDenom::Cw20(_) => match cw20_verdict {
                Some(Ok(a)) => a.clone(),
                _ => {
                    return None;
                },
            },
        };
        assert(check_outcome(matched.token@, *cw20_verdict) matches Ok(d) && d.text() == key@);
        let prior = match self.deposits.find(&key) {
            Some(i) => {
                proof {
                    lemma_lookup_at(self.deposits@, i as int);
                }
                self.deposits.entries[i].1.amount
            },
            None => 0,
        };
        if prior.checked_add(amount).is_none() {
            return None;
        }
        let new_val = match value.checked_add(self.shit_pile) {
            Some(v) => v,
            None => {
                return Some(Abort::AdditionOverflow);
            },
        };
        if new_val < self.config.cutoff {
            return None;
        }
        if matched.shit_rate == 0 {
            return Some(Abort::NoInverse);
        }
        let overflow = new_val - self.config.cutoff;
        let inverse = match decimal_inv(matched.shit_rate) {
            Some(i) => i,
            None => {
                return Some(Abort::NoInverse);
            },
        };
        let returned = match uint128_checked_multiply_ratio(overflow, inverse, 1_000_000_000_000_000_000) {
            Some(t) => t,
            None => {
                return Some(Abort::MultiplicationOverflow);
            },
        };
        if returned > prior + amount {
            return Some(Abort::SubtractionOverflow);
        }
        None
    }

    /// The owner closes the shitstrap; anyone else is refused. Closing an
    /// open shitstrap sends the owner everything paid in, each in its own
    /// denomination, and the strapped tokens not handed out.
    pub fn execute_flush(&mut self, sender: &String) -> (r: Result<Response, ContractError>)
        ensures
            match r {
                Err(e) => {
                    &&& sender@ != old(self).config.owner@
                    &&& e == ContractError::ShittyAuthorization {}
                    &&& *final(self) == *old(self)
                },
                Ok(resp) => {
                    &&& sender@ == old(self).config.owner@
                    &&& final(self).config.full_of_shit
                    &&& same_settings(old(self).config, final(self).config)
                    &&& final(self).shit_pile == old(self).shit_pile
                    &&& final(self).deposits == old(self).deposits
                    &&& final(self).refunds == old(self).refunds
                    &&& resp@.messages == if old(self).config.full_of_shit {
                        Seq::<TransferModel>::empty()
                    } else {
                        flush_transfers(*old(self))
                    }
                    &&& !old(self).config.full_of_shit ==> forall|i: int|
                        0 <= i < old(self).deposits@.len() ==> #[trigger] resp@.messages[i] == (TransferModel {
                            denom: old(self).deposits@[i].1.denom,
                            recipient: old(self).config.owner@,
                            amount: old(self).deposits@[i].1.amount,
                        })
                    &&& resp@.attributes == seq![AttributeModel::Flusher(sender@)]
                },
            },
    {
        if *sender != self.config.owner {
            return Err(ContractError::ShittyAuthorization {});
        }
        let mut resp = Response::new();
        if !self.config.full_of_shit {
            let no_key = String::new();
            let mut msgs = dao_payouts(&self.deposits, &no_key, 0, &self.config.owner);
            proof {
                assert(dao_transfers(self.deposits@, no_key@, 0, self.config.owner@) =~= dao_transfers(
                    self.deposits@,
                    Seq::empty(),
                    0,
                    self.config.owner@,
                ));
            }
            if self.shit_pile < self.config.cutoff {
                let ghost before = msgs@.map_values(|t: Transfer| t@);
                msgs.push(
                    Transfer {
                        denom: self.config.shitmos_addr.clone(),
                        recipient: self.config.owner.clone(),
                        amount: self.config.cutoff - self.shit_pile,
                    },
                );
                assert(msgs@.map_values(|t: Transfer| t@) =~= before.push(msgs@.last()@));
            }
            resp.messages = msgs;
        }
        self.config.full_of_shit = true;
        resp.attributes.push(Attribute::Flusher(sender.clone()));
        assert(resp@.attributes =~= seq![AttributeModel::Flusher(sender@)]);
        Ok(resp)
    }

    /// The participant that filled the shitstrap claims the refund recorded
    /// for it; every recorded refund is then cleared.
    pub fn refund_shitter(&mut self, sender: &String) -> (r: Result<Response, ContractError>)
        requires
            old(self).wf(),
        ensures
            match lookup(old(self).refunds@, sender@) {
                None => {
                    &&& r == Err::<Response, ContractError>(ContractError::FullOfShit {})
                    &&& *final(self) == *old(self)
                },
                Some(t) => r matches Ok(resp) && {
                    &&& resp@.messages == seq![t]
                    &&& resp@.attributes.len() == 0
                    &&& final(self).refunds@.len() == 0
                    &&& final(self).wf()
                    &&& final(self).config == old(self).config
                    &&& final(self).shit_pile == old(self).shit_pile
                    &&& final(self).deposits == old(self).deposits
                },
            },
    {
        match self.refunds.find(sender) {
            Some(i) => {
                proof {
                    lemma_lookup_at(self.refunds@, i as int);
                }
                let refund = self.refunds.entries[i].1.clone();
                self.refunds.clear();
                let mut resp = Response::new();
                resp.messages.push(refund);
                assert(resp@.messages =~= seq![resp.messages@[0]@]);
                Ok(resp)
            },
            None => Err(ContractError::FullOfShit {}),
        }
    }

    /// A cw20 contract (`sender`) sent `msg.amount` of its tokens with a
    /// request to strap them for the participant it names (already validated
    /// by the chain). The asset strapped is the cw20 of the sending contract.
    pub fn receive_cw20_message(
        &mut self,
        sender: &String,
        funds: &Vec<Coin>,
        msg: Cw20ReceiveMsg,
        cw20_verdict: Option<Result<String, DenomFault>>,
    ) -> (r: Result<Response, ContractError>)
        requires
            old(self).wf(),
            cw20_verdict is Some,
            strap_abort(
                *old(self),
                sender@,
                coins_model(funds@),
                DenomModel::Cw20(sender@),
                msg.amount,
                cw20_verdict,
            ) is None,
        ensures
            match r {
                Err(e) => {
                    &&& strap_refusal(
                        *old(self),
                        sender@,
                        coins_model(funds@),
                        DenomModel::Cw20(sender@),
                        msg.amount,
                        cw20_verdict,
                    ) == Some(e)
                    &&& *final(self) == *old(self)
                },
                Ok(resp) => {
                    &&& strap_refusal(
                        *old(self),
                        sender@,
                        coins_model(funds@),
                        DenomModel::Cw20(sender@),
                        msg.amount,
                        cw20_verdict,
                    ) is None
                    &&& final(self).wf()
                    &&& match msg.msg {
                        ReceiveMsg::ShitStrap { shit_strapper } => strap_effect(
                            *old(self),
                            *final(self),
                            resp@,
                            DenomModel::Cw20(sender@),
                            msg.amount,
                            shit_strapper@,
                            cw20_verdict,
                        ),
                    }
                },
            },
    {
        match msg.msg {
            ReceiveMsg::ShitStrap { shit_strapper } => {
                let shit = AssetUnchecked {
                    denom: UncheckedDenom::Cw20(sender.clone()),
                    amount: msg.amount,
                };
                self.execute_shit_strap(sender, funds, shit, shit_strapper, cw20_verdict)
            },
        }
    }

    /// Handles a request from `sender`, who attached `funds`. `cw20_verdict`
    /// is the chain's check of the cw20 contract the request names, if any:
    /// the asset's for a participation, the sender's for a cw20 receipt.
    pub fn execute(
        &mut self,
        sender: String,
        funds: Vec<Coin>,
        msg: ExecuteMsg,
        cw20_verdict: Option<Result<String, DenomFault>>,
    ) -> (r: Result<Response, ContractError>)
        requires
            old(self).wf(),
            msg matches ExecuteMsg::ShitStrap { shit } ==> (shit.denom is Cw20 ==> cw20_verdict is Some),
            msg is Receive ==> cw20_verdict is Some,
            execute_abort(*old(self), sender@, coins_model(funds@), msg, cw20_verdict) is None,
        ensures
            r is Ok ==> final(self).wf(),
            r is Err ==> *final(self) == *old(self),
            old(self).config.full_of_shit ==> final(self).config.full_of_shit,
            final(self).shit_pile >= old(self).shit_pile,
            same_settings(old(self).config, final(self).config),
            request_outcome(*old(self), *final(self), sender@, coins_model(funds@), msg, cw20_verdict, r),
    {
        match msg {
            ExecuteMsg::ShitStrap { shit } => {
                let strapper = sender.clone();
                self.execute_shit_strap(&sender, &funds, shit, strapper, cw20_verdict)
            },
            ExecuteMsg::Flush {} => self.execute_flush(&sender),
            ExecuteMsg::Receive(m) => self.receive_cw20_message(&sender, &funds, m, cw20_verdict),
            ExecuteMsg::RefundShitter {} => self.refund_shitter(&sender),
        }
    }

    /// Runs a request as the chain runs it: one that would abort the
    /// transaction (see `Abort`) is not attempted, leaves the state as it was
    /// and reports how it aborts; any other is handled by `execute`. Whatever
    /// the request, a closed shitstrap stays closed, the pile never shrinks
    /// and the settings never change.
    pub fn handle(
        &mut self,
        sender: String,
        funds: Vec<Coin>,
        msg: ExecuteMsg,
        cw20_verdict: Option<Result<String, DenomFault>>,
    ) -> (r: Result<Result<Response, ContractError>, Abort>)
        requires
            old(self).wf(),
            msg matches ExecuteMsg::ShitStrap { shit } ==> (shit.denom is Cw20 ==> cw20_verdict is Some),
            msg is Receive ==> cw20_verdict is Some,
        ensures
            final(self).wf(),
            old(self).config.full_of_shit ==> final(self).config.full_of_shit,
            final(self).shit_pile >= old(self).shit_pile,
            same_settings(old(self).config, final(self).config),
            match r {
                Err(a) => {
                    &&& execute_abort(*old(self), sender@, coins_model(funds@), msg, cw20_verdict) == Some(a)
                    &&& *final(self) == *old(self)
                },
                Ok(res) => {
                    &&& execute_abort(*old(self), sender@, coins_model(funds@), msg, cw20_verdict) is None
                    &&& res is Err ==> *final(self) == *old(self)
                    &&& request_outcome(*old(self), *final(self), sender@, coins_model(funds@), msg, cw20_verdict, res)
                },
            },
    {
        let abort = match &msg {
            ExecuteMsg::ShitStrap { shit } => self.strap_abort_check(
                &sender,
                &funds,
                &shit.denom,
                shit.amount,
                &cw20_verdict,
            ),
            ExecuteMsg::Receive(m) => {
                let denom = UncheckedDenom::Cw20(sender.clone());
                self.strap_abort_check(&sender, &funds, &denom, m.amount, &cw20_verdict)
            },
            _ => None,
        };
        match abort {
            Some(a) => Err(a),
            None => Ok(self.execute(sender, funds, msg, cw20_verdict)),
        }
    }

    /// Participates: `sender` sent `funds` with a request to strap `shit` on
    /// behalf of `shit_strapper`. `cw20_verdict` is the chain's check of the
    /// cw20 contract named, needed only when a cw20 is named.
    pub fn execute_shit_strap(
        &mut self,
        sender: &String,
        funds: &Vec<Coin>,
        shit: AssetUnchecked,
        shit_strapper: String,
        cw20_verdict: Option<Result<String, DenomFault>>,
    ) -> (r: Result<Response, ContractError>)
        requires
            old(self).wf(),
            shit.denom is Cw20 ==> cw20_verdict is Some,
            strap_abort(
                *old(self),
                sender@,
                coins_model(funds@),
                shit.denom@,
                shit.amount,
                cw20_verdict,
            ) is None,
        ensures
            match r {
                Err(e) => {
                    &&& strap_refusal(
                        *old(self),
                        sender@,
                        coins_model(funds@),
                        shit.denom@,
                        shit.amount,
                        cw20_verdict,
                    ) == Some(e)
                    &&& *final(self) == *old(self)
                },
                Ok(resp) => {
                    &&& strap_refusal(
                        *old(self),
                        sender@,
                        coins_model(funds@),
                        shit.denom@,
                        shit.amount,
                        cw20_verdict,
                    ) is None
                    &&& final(self).wf()
                    &&& strap_effect(
                        *old(self),
                        *final(self),
                        resp@,
                        shit.denom@,
                        shit.amount,
                        shit_strapper@,
                        cw20_verdict,
                    )
                },
            },
    {
        let ghost pre = *self;
        if self.config.full_of_shit {
            return Err(ContractError::FullOfShit {});
        }
        let idx = match find_accepted(&self.config.accepted, &shit.denom) {
            Some(i) => i,
            None => {
                return Err(ContractError::WrongShit {});
            },
        };
        let matched = self.config.accepted[idx].clone();
        assert(accepted_model(pre.config.accepted@)[idx as int] == matched@);
        assert(strap_matched(pre, shit.denom@) == Some(matched@));
        match &matched.token {
            UncheckedDenom::Native(t) => {
                if !paid_natively(funds, t, shit.amount) {
                    return Err(ContractError::DidntSendShit {});
                }
            },
            UncheckedDenom::Cw20(c) => {
                if *sender != *c {
                    return Err(ContractError::ShittyCw20 {});
                }
            },
        }
        let (value, received) = match calculate_shit_value(&matched, shit.amount, cw20_verdict) {
            Ok(p) => p,
            Err(e) => {
                return Err(e);
            },
        };
        let key = received.text().clone();
        let prior = match self.deposits.find(&key) {
            Some(i) => {
                proof {
                    lemma_lookup_at(self.deposits@, i as int);
                }
                self.deposits.entries[i].1.amount
            },
            None => 0,
        };
        assert(prior == deposit_total(pre.deposits@, key@));
        let total = match uint128_checked_add(prior, shit.amount) {
            Ok(t) => t,
            Err(e) => {
                return Err(ContractError::ShitStd(e));
            },
        };
        let new_val = value + self.shit_pile;
        let cutoff = self.config.cutoff;
        let handed_out = if new_val < cutoff {
            value
        } else if self.shit_pile < cutoff {
            cutoff - self.shit_pile
        } else {
            0
        };
        let mut messages: Vec<Transfer> = Vec::new();
        let mut attributes: Vec<Attribute> = Vec::new();
        self.deposits.upsert(key.clone(), Deposit { denom: received.clone(), amount: total });
        if new_val >= cutoff {
            let (_overflow, return_to_shitter_amnt) = match calculate_shit_return(
                new_val,
                cutoff,
                matched.shit_rate,
            ) {
                Ok(p) => p,
                Err(e) => {
                    assert(false);
                    (0, 0)
                },
            };
            proof {
                let dm = DepositModel { denom: received@, amount: total };
                assert forall|i: int|
                    0 <= i < self.deposits@.len() && #[trigger] self.deposits@[i].0 == key@
                        implies self.deposits@[i].1.amount >= return_to_shitter_amnt by {
                    crate::sorted_map::lemma_upsert_holds(pre.deposits@, key@, dm, i);
                }
            }
            messages = dao_payouts(&self.deposits, &key, return_to_shitter_amnt, &self.config.owner);
            attributes = dao_attribute_list(self.deposits.entries.len(), value, &received);
            let refund = Transfer {
                denom: received,
                recipient: shit_strapper.clone(),
                amount: return_to_shitter_amnt,
            };
            self.refunds.upsert(shit_strapper.clone(), refund);
            self.config.full_of_shit = true;
        }
        let send_shitmos = Transfer {
            denom: self.config.shitmos_addr.clone(),
            recipient: shit_strapper,
            amount: handed_out,
        };
        self.shit_pile = new_val;
        proof {
            if new_val < cutoff {
                assert(messages@.map_values(|t: Transfer| t@) =~= Seq::<TransferModel>::empty());
                assert(attributes@.map_values(|a: Attribute| a@) =~= Seq::<AttributeModel>::empty());
            }
        }
        let ghost msgs_before = messages@.map_values(|t: Transfer| t@);
        messages.push(send_shitmos);
        assert(messages@.map_values(|t: Transfer| t@) =~= msgs_before.push(messages@.last()@));
        Ok(Response { messages, attributes })
    }
}

} // verus!
