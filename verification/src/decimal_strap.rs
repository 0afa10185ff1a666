//! The shitstrap contract whose rates are decimals and whose strapped token is
//! a native denomination. When a payment reaches the cutoff, the strapped
//! value of that payment is sent back to its sender in the token paid, and the
//! overshoot is owed to it as a refund.

use vstd::prelude::*;
use cosmwasm_std::StdError;
use crate::cosmos::{decimal_inv, uint128_checked_multiply_ratio, uint128_mul_decimal};
use crate::denom::{
    check_outcome, into_checked, CheckedDenom, Coin, CoinModel, DenomFault, DenomModel, Transfer,
    TransferModel, UncheckedDenom,
};
use crate::error::ContractError;
use crate::msg::{
    AssetUnchecked, Attribute, AttributeModel, Cw20ReceiveMsg, PossibleShit, PossibleShitModel,
    ReceiveMsg, Response, ResponseModel,
};
use crate::shitstrap::{
    accepted_model, coins_model, find_accepted, find_named, first_accepted, paid_natively,
    payment_refusal, rate_named, shit_return, shit_value, Abort,
};
use crate::sorted_map::{lemma_lookup_at, lookup, upsert_model, SortedMap};

verus! {

/// What creating a shitstrap takes.
#[derive(Debug, PartialEq)]
pub struct InstantiateMsg {
    /// Who may close the shitstrap.
    pub owner: String,
    /// The accepted tokens and their rates (decimals, as atomics at 18 places).
    pub accepted: Vec<PossibleShit>,
    /// Strapped value at which the shitstrap closes.
    pub cutoff: u128,
    /// The strapped token, a native denomination.
    pub shitmos: String,
}

#[derive(Debug, PartialEq)]
pub enum ExecuteMsg {
    /// Participate in the shitstrap.
    ShitStrap { shit: AssetUnchecked },
    /// The admin closes the shitstrap.
    Flush {},
    /// A cw20 contract sent tokens.
    Receive(Cw20ReceiveMsg),
    /// The participant that filled the shitstrap claims its excess.
    RefundShitter {},
}

#[derive(Debug, PartialEq)]
pub enum QueryMsg {
    /// The cutoff.
    Cutoff {},
    /// The value strapped so far.
    ShitPile {},
    /// Whether the shitstrap is closed.
    FullOfShit {},
    /// The rate of the first accepted token named `asset`.
    ShitRate { asset: String },
}

#[derive(Debug, PartialEq)]
pub enum QueryResponse {
    Cutoff(u128),
    ShitPile(u128),
    FullOfShit(bool),
    ShitRate(Option<u128>),
}

/// A shitstrap's configuration.
#[derive(Debug, PartialEq)]
pub struct Config {
    pub admin: String,
    pub accepted: Vec<PossibleShit>,
    pub cutoff: u128,
    pub shitmos_addr: String,
    /// Set once the cutoff is reached or the admin closes the shitstrap.
    pub full_of_shit: bool,
}

/// Everything a shitstrap stores.
#[derive(Debug)]
pub struct DecimalShitstrap {
    pub config: Config,
    /// Strapped value handed out so far.
    pub shit_pile: u128,
    /// The refund waiting for the participant that filled the shitstrap.
    pub refunds: SortedMap<Transfer>,
}

/// The accepted entry an asset names.
pub open spec fn matched_entry(st: DecimalShitstrap, denom: DenomModel) -> Option<PossibleShitModel> {
    let accepted = accepted_model(st.config.accepted@);
    match first_accepted(accepted, denom) {
        Some(i) => Some(accepted[i]),
        None => None,
    }
}

/// Why a participation is refused, if it is.
pub open spec fn strap_refusal(
    st: DecimalShitstrap,
    sender: Seq<char>,
    funds: Seq<CoinModel>,
    denom: DenomModel,
    amount: u128,
    cw20_verdict: Option<Result<String, DenomFault>>,
) -> Option<ContractError> {
    if st.config.full_of_shit {
        Some(ContractError::FullOfShit {})
    } else {
        match matched_entry(st, denom) {
            None => Some(ContractError::WrongShit {}),
            Some(m) => if payment_refusal(m, sender, funds, amount) is Some {
                payment_refusal(m, sender, funds, amount)
            } else {
                match check_outcome(m.token, cw20_verdict) {
                    Err(f) => Some(ContractError::ShitDenomError(f)),
                    Ok(_) => None,
                }
            },
        }
    }
}

/// Whether, and how, a participation aborts.
pub open spec fn strap_abort(
    st: DecimalShitstrap,
    sender: Seq<char>,
    funds: Seq<CoinModel>,
    denom: DenomModel,
    amount: u128,
    cw20_verdict: Option<Result<String, DenomFault>>,
) -> Option<Abort> {
    if st.config.full_of_shit {
        None
    } else {
        match matched_entry(st, denom) {
            None => None,
            Some(m) => {
                let v = shit_value(amount, m.shit_rate);
                let new_val = st.shit_pile + v;
                if payment_refusal(m, sender, funds, amount) is Some {
                    None
                } else if v > u128::MAX {
                    Some(Abort::MultiplicationOverflow)
                } else if strap_refusal(st, sender, funds, denom, amount, cw20_verdict) is Some {
                    None
                } else if new_val > u128::MAX {
                    Some(Abort::AdditionOverflow)
                } else if new_val < st.config.cutoff {
                    None
                } else if m.shit_rate == 0 {
                    Some(Abort::NoInverse)
                } else if shit_return(new_val - st.config.cutoff, m.shit_rate) > u128::MAX {
                    Some(Abort::MultiplicationOverflow)
                } else {
                    None
                }
            },
        }
    }
}

/// What an accepted participation does. The strapped value is added to the
/// pile and sent to the strapper in the strapped token. When the pile reaches
/// the cutoff, the shitstrap closes: the strapped value is also sent to the
/// strapper in the token it paid, and the strapper is owed a refund of the
/// overshoot given back at the rate paid.
pub open spec fn strap_effect(
    pre: DecimalShitstrap,
    post: DecimalShitstrap,
    resp: ResponseModel,
    denom: DenomModel,
    amount: u128,
    strapper: Seq<char>,
    cw20_verdict: Option<Result<String, DenomFault>>,
) -> bool {
    match matched_entry(pre, denom) {
        None => false,
        Some(m) => match check_outcome(m.token, cw20_verdict) {
            Err(_) => false,
            Ok(d) => {
                let v = shit_value(amount, m.shit_rate);
                let new_val = pre.shit_pile + v;
                let filled = new_val >= pre.config.cutoff;
                let overflow = new_val - pre.config.cutoff;
                let shitmos = TransferModel {
                    denom: DenomModel::Native(pre.config.shitmos_addr@),
                    recipient: strapper,
                    amount: v as u128,
                };
                let returned = TransferModel { denom: d, recipient: strapper, amount: v as u128 };
                let refund = TransferModel {
                    denom: d,
                    recipient: strapper,
                    amount: shit_return(overflow, m.shit_rate) as u128,
                };
                &&& post.refunds.wf()
                &&& post.shit_pile == new_val
                &&& post.config.full_of_shit == filled
                &&& post.config.admin == pre.config.admin
                &&& post.config.accepted == pre.config.accepted
                &&& post.config.cutoff == pre.config.cutoff
                &&& post.config.shitmos_addr == pre.config.shitmos_addr
                &&& post.refunds@ == if filled {
                    upsert_model(pre.refunds@, strapper, refund)
                } else {
                    pre.refunds@
                }
                &&& resp.messages == if filled {
                    seq![returned, shitmos]
                } else {
                    seq![shitmos]
                }
                &&& resp.attributes.len() == 0
            },
        },
    }
}

/// A transfer to `sender` of `amount` of the denomination `recieved`.
pub fn shitstrap_dao(recieved: &CheckedDenom, sender: String, amount: u128) -> (r: Transfer)
    ensures
        r@ == (TransferModel { denom: recieved@, recipient: sender@, amount }),
{
    Transfer { denom: recieved.clone(), recipient: sender, amount }
}

impl DecimalShitstrap {
    /// Creates a shitstrap; `owner_verdict` is the chain's validation of the
    /// owner named.
    pub fn instantiate(msg: InstantiateMsg, owner_verdict: Result<String, StdError>) -> (r: Result<
        DecimalShitstrap,
        ContractError,
    >)
        ensures
            match owner_verdict {
                Err(e) => r == Err::<DecimalShitstrap, ContractError>(ContractError::ShitStd(e)),
                Ok(a) => r matches Ok(st) && {
                    &&& st.refunds.wf()
                    &&& st.config.admin@ == a@
                    &&& accepted_model(st.config.accepted@) == accepted_model(msg.accepted@)
                    &&& st.config.cutoff == msg.cutoff
                    &&& st.config.shitmos_addr@ == msg.shitmos@
                    &&& !st.config.full_of_shit
                    &&& st.shit_pile == 0
                    &&& st.refunds@.len() == 0
                },
            },
    {
        let admin = match owner_verdict {
            Ok(a) => a,
            Err(e) => {
                return Err(ContractError::ShitStd(e));
            },
        };
        Ok(DecimalShitstrap {
            config: Config {
                admin,
                accepted: msg.accepted,
                cutoff: msg.cutoff,
                shitmos_addr: msg.shitmos,
                full_of_shit: false,
            },
            shit_pile: 0,
            refunds: SortedMap::new(),
        })
    }

    /// Answers a query.
    pub fn query(&self, msg: &QueryMsg) -> (r: QueryResponse)
        ensures
            match msg {
                QueryMsg::Cutoff {} => r == QueryResponse::Cutoff(self.config.cutoff),
                QueryMsg::ShitPile {} => r == QueryResponse::ShitPile(self.shit_pile),
                QueryMsg::FullOfShit {} => r == QueryResponse::FullOfShit(self.config.full_of_shit),
                QueryMsg::ShitRate { asset } => r == QueryResponse::ShitRate(
                    rate_named(accepted_model(self.config.accepted@), asset@),
                ),
            },
    {
        match msg {
            QueryMsg::Cutoff {} => QueryResponse::Cutoff(self.config.cutoff),
            QueryMsg::ShitPile {} => QueryResponse::ShitPile(self.shit_pile),
            QueryMsg::FullOfShit {} => QueryResponse::FullOfShit(self.config.full_of_shit),
            QueryMsg::ShitRate { asset } => {
                let rate = match find_named(&self.config.accepted, asset) {
                    Some(i) => {
                        assert(accepted_model(self.config.accepted@)[i as int]
                            == self.config.accepted@[i as int]@);
                        Some(self.config.accepted[i].shit_rate)
                    },
                    None => None,
                };
                QueryResponse::ShitRate(rate)
            },
        }
    }

    /// Whether participating as described would abort the transaction, and
    /// how; the participation must not be attempted when it would.
    pub fn strap_abort_check(
        &self,
        sender: &String,
        funds: &Vec<Coin>,
        denom: &UncheckedDenom,
        amount: u128,
        cw20_verdict: &Option<Result<String, DenomFault>>,
    ) -> (r: Option<Abort>)
        ensures
            r == strap_abort(*self, sender@, coins_model(funds@), denom@, amount, *cw20_verdict),
    {
        if self.config.full_of_shit {
            return None;
        }
        let idx = match find_accepted(&self.config.accepted, denom) {
            Some(i) => i,
            None => {
                return None;
            },
        };
        let matched = &self.config.accepted[idx];
        assert(accepted_model(self.config.accepted@)[idx as int] == matched@);
        assert(matched_entry(*self, denom@) == Some(matched@));
        match &matched.token {
            UncheckedDenom::Native(t) => {
                if !paid_natively(funds, t, amount) {
                    return None;
                }
            },
            UncheckedDenom::Cw20(c) => {
                if *sender != *c {
                    return None;
                }
            },
        }
        let value = match uint128_checked_multiply_ratio(amount, matched.shit_rate, 1_000_000_000_000_000_000) {
            Some(v) => v,
            None => {
                return Some(Abort::MultiplicationOverflow);
            },
        };
        match &matched.token {
            UncheckedDenom::Native(t) => match crate::denom::validate_native_denom(t.clone()) {
                Ok(_) => {},
                Err(_) => {
                    return None;
                },
            },
            UncheckedDenom::Cw20(_) => match cw20_verdict {
                Some(Ok(_)) => {},
                _ => {
                    return None;
                },
            },
        }
        let new_val = match value.checked_add(self.shit_pile) {
            Some(v) => v,
            None => {
                return Some(Abort::AdditionOverflow);
            },
        };
        if new_val < self.config.cutoff {
            return None;
        }
        if matched.shit_rate == 0 {
            return Some(Abort::NoInverse);
        }
        let inverse = match decimal_inv(matched.shit_rate) {
            Some(i) => i,
            None => {
                return Some(Abort::NoInverse);
            },
        };
        if uint128_checked_multiply_ratio(new_val - self.config.cutoff, inverse, 1_000_000_000_000_000_000).is_none() {
            return Some(Abort::MultiplicationOverflow);
        }
        None
    }

    /// Participates: `sender` sent `funds` with a request to strap `shit` on
    /// behalf of `shit_strapper`. `cw20_verdict` is the chain's check of the
    /// cw20 contract named, needed only when a cw20 is named.
    pub fn execute_shit_strap(
        &mut self,
        sender: &String,
        funds: &Vec<Coin>,
        shit: AssetUnchecked,
        shit_strapper: String,
        cw20_verdict: Option<Result<String, DenomFault>>,
    ) -> (r: Result<Response, ContractError>)
        requires
            old(self).refunds.wf(),
            shit.denom is Cw20 ==> cw20_verdict is Some,
            strap_abort(
                *old(self),
                sender@,
                coins_model(funds@),
                shit.denom@,
                shit.amount,
                cw20_verdict,
            ) is None,
        ensures
            match r {
                Err(e) => {
                    &&& strap_refusal(
                        *old(self),
                        sender@,
                        coins_model(funds@),
                        shit.denom@,
                        shit.amount,
                        cw20_verdict,
                    ) == Some(e)
                    &&& *final(self) == *old(self)
                },
                Ok(resp) => {
                    &&& strap_refusal(
                        *old(self),
                        sender@,
                        coins_model(funds@),
                        shit.denom@,
                        shit.amount,
                        cw20_verdict,
                    ) is None
                    &&& strap_effect(
                        *old(self),
                        *final(self),
                        resp@,
                        shit.denom@,
                        shit.amount,
                        shit_strapper@,
                        cw20_verdict,
                    )
                },
            },
    {
        let ghost pre = *self;
        if self.config.full_of_shit {
            return Err(ContractError::FullOfShit {});
        }
        let idx = match find_accepted(&self.config.accepted, &shit.denom) {
            Some(i) => i,
            None => {
                return Err(ContractError::WrongShit {});
            },
        };
        let matched = self.config.accepted[idx].clone();
        assert(accepted_model(pre.config.accepted@)[idx as int] == matched@);
        assert(matched_entry(pre, shit.denom@) == Some(matched@));
        match &matched.token {
            UncheckedDenom::Native(t) => {
                if !paid_natively(funds, t, shit.amount) {
                    return Err(ContractError::DidntSendShit {});
                }
            },
            UncheckedDenom::Cw20(c) => {
                if *sender != *c {
                    return Err(ContractError::ShittyCw20 {});
                }
            },
        }
        let value = uint128_mul_decimal(shit.amount, matched.shit_rate);
        let received = match into_checked(&matched.token, cw20_verdict) {
            Ok(d) => d,
            Err(f) => {
                return Err(ContractError::ShitDenomError(f));
            },
        };
        let new_val = value + self.shit_pile;
        let cutoff = self.config.cutoff;
        let mut messages: Vec<Transfer> = Vec::new();
        if new_val >= cutoff {
            let cutoff_shit_value = new_val - cutoff;
            let inverse = match decimal_inv(matched.shit_rate) {
                Some(i) => i,
                None => {
                    assert(false);
                    0
                },
            };
            let shit_2_return = uint128_mul_decimal(cutoff_shit_value, inverse);
            messages.push(shitstrap_dao(&received, shit_strapper.clone(), value));
            let refund = Transfer {
                denom: received,
                recipient: shit_strapper.clone(),
                amount: shit_2_return,
            };
            self.refunds.upsert(shit_strapper.clone(), refund);
            self.config.full_of_shit = true;
        }
        let send_shitmos = Transfer {
            denom: CheckedDenom::Native(self.config.shitmos_addr.clone()),
            recipient: shit_strapper,
            amount: value,
        };
        self.shit_pile = new_val;
        let ghost msgs_before = messages@.map_values(|t: Transfer| t@);
        messages.push(send_shitmos);
        let resp = Response { messages, attributes: Vec::new() };
        proof {
            assert(resp@.messages =~= msgs_before.push(send_shitmos@));
            if new_val >= cutoff {
                assert(msgs_before =~= seq![msgs_before[0]]);
                assert(resp@.messages =~= seq![msgs_before[0], send_shitmos@]);
            } else {
                assert(msgs_before =~= Seq::<TransferModel>::empty());
            }
            assert(resp@.attributes =~= Seq::<AttributeModel>::empty());
        }
        Ok(resp)
    }

    /// The admin closes the shitstrap; anyone else is refused.
    pub fn execute_flush(&mut self, sender: &String) -> (r: Result<Response, ContractError>)
        ensures
            match r {
                Err(e) => {
                    &&& sender@ != old(self).config.admin@
                    &&& e == ContractError::ShittyAuthorization {}
                    &&& *final(self) == *old(self)
                },
                Ok(resp) => {
                    &&& sender@ == old(self).config.admin@
                    &&& final(self).config.full_of_shit
                    &&& final(self).config.admin == old(self).config.admin
                    &&& final(self).config.accepted == old(self).config.accepted
                    &&& final(self).config.cutoff == old(self).config.cutoff
                    &&& final(self).config.shitmos_addr == old(self).config.shitmos_addr
                    &&& final(self).shit_pile == old(self).shit_pile
                    &&& final(self).refunds == old(self).refunds
                    &&& resp@.messages.len() == 0
                    &&& resp@.attributes == seq![AttributeModel::Flusher(sender@)]
                },
            },
    {
        if *sender != self.config.admin {
            return Err(ContractError::ShittyAuthorization {});
        }
        self.config.full_of_shit = true;
        let mut resp = Response::new();
        resp.attributes.push(Attribute::Flusher(sender.clone()));
        assert(resp@.attributes =~= seq![AttributeModel::Flusher(sender@)]);
        Ok(resp)
    }

    /// The participant that filled the shitstrap claims the refund recorded
    /// for it; every recorded refund is then cleared.
    pub fn refund_shitter(&mut self, sender: &String) -> (r: Result<Response, ContractError>)
        requires
            old(self).refunds.wf(),
        ensures
            match lookup(old(self).refunds@, sender@) {
                None => {
                    &&& r == Err::<Response, ContractError>(ContractError::FullOfShit {})
                    &&& *final(self) == *old(self)
                },
                Some(t) => r matches Ok(resp) && {
                    &&& resp@.messages == seq![t]
                    &&& resp@.attributes.len() == 0
                    &&& final(self).refunds@.len() == 0
                    &&& final(self).refunds.wf()
                    &&& final(self).config == old(self).config
                    &&& final(self).shit_pile == old(self).shit_pile
                },
            },
    {
        match self.refunds.find(sender) {
            Some(i) => {
                proof {
                    lemma_lookup_at(self.refunds@, i as int);
                }
                let refund = self.refunds.entries[i].1.clone();
                self.refunds.clear();
                let mut resp = Response::new();
                resp.messages.push(refund);
                assert(resp@.messages =~= seq![resp.messages@[0]@]);
                Ok(resp)
            },
            None => Err(ContractError::FullOfShit {}),
        }
    }

    /// A cw20 contract (`sender`) sent `msg.amount` of its tokens with a
    /// request to strap them for the participant it names (already validated
    /// by the chain).
    pub fn receive_cw20_message(
        &mut self,
        sender: &String,
        funds: &Vec<Coin>,
        msg: Cw20ReceiveMsg,
        cw20_verdict: Option<Result<String, DenomFault>>,
    ) -> (r: Result<Response, ContractError>)
        requires
            old(self).refunds.wf(),
            cw20_verdict is Some,
            strap_abort(
                *old(self),
                sender@,
                coins_model(funds@),
                DenomModel::Cw20(sender@),
                msg.amount,
                cw20_verdict,
            ) is None,
        ensures
            match r {
                Err(e) => {
                    &&& strap_refusal(
                        *old(self),
                        sender@,
                        coins_model(funds@),
                        DenomModel::Cw20(sender@),
                        msg.amount,
                        cw20_verdict,
                    ) == Some(e)
                    &&& *final(self) == *old(self)
                },
                Ok(resp) => strap_refusal(
                    *old(self),
                    sender@,
                    coins_model(funds@),
                    DenomModel::Cw20(sender@),
                    msg.amount,
                    cw20_verdict,
                ) is None && match msg.msg {
                    ReceiveMsg::ShitStrap { shit_strapper } => strap_effect(
                        *old(self),
                        *final(self),
                        resp@,
                        DenomModel::Cw20(sender@),
                        msg.amount,
                        shit_strapper@,
                        cw20_verdict,
                    ),
                },
            },
    {
        match msg.msg {
            ReceiveMsg::ShitStrap { shit_strapper } => {
                let shit = AssetUnchecked {
                    denom: UncheckedDenom::Cw20(sender.clone()),
                    amount: msg.amount,
                };
                self.execute_shit_strap(sender, funds, shit, shit_strapper, cw20_verdict)
            },
        }
    }

    /// Handles a request from `sender`, who attached `funds`; see
    /// `Shitstrap::execute` for `cw20_verdict`.
    pub fn execute(
        &mut self,
        sender: String,
        funds: Vec<Coin>,
        msg: ExecuteMsg,
        cw20_verdict: Option<Result<String, DenomFault>>,
    ) -> (r: Result<Response, ContractError>)
        requires
            old(self).refunds.wf(),
            msg matches ExecuteMsg::ShitStrap { shit } ==> (shit.denom is Cw20 ==> cw20_verdict is Some),
            msg is Receive ==> cw20_verdict is Some,
            msg matches ExecuteMsg::ShitStrap { shit } ==> strap_abort(
                *old(self),
                sender@,
                coins_model(funds@),
                shit.denom@,
                shit.amount,
                cw20_verdict,
            ) is None,
            msg matches ExecuteMsg::Receive(m) ==> strap_abort(
                *old(self),
                sender@,
                coins_model(funds@),
                DenomModel::Cw20(sender@),
                m.amount,
                cw20_verdict,
            ) is None,
        ensures
            r is Ok ==> final(self).refunds.wf(),
            r is Err ==> *final(self) == *old(self),
            old(self).config.full_of_shit ==> final(self).config.full_of_shit,
            match msg {
                ExecuteMsg::ShitStrap { shit } => match r {
                    Err(e) => strap_refusal(
                        *old(self),
                        sender@,
                        coins_model(funds@),
                        shit.denom@,
                        shit.amount,
                        cw20_verdict,
                    ) == Some(e),
                    Ok(resp) => strap_refusal(
                        *old(self),
                        sender@,
                        coins_model(funds@),
                        shit.denom@,
                        shit.amount,
                        cw20_verdict,
                    ) is None && strap_effect(
                        *old(self),
                        *final(self),
                        resp@,
                        shit.denom@,
                        shit.amount,
                        sender@,
                        cw20_verdict,
                    ),
                },
                ExecuteMsg::Receive(m) => match r {
                    Err(e) => strap_refusal(
                        *old(self),
                        sender@,
                        coins_model(funds@),
                        DenomModel::Cw20(sender@),
                        m.amount,
                        cw20_verdict,
                    ) == Some(e),
                    Ok(resp) => strap_refusal(
                        *old(self),
                        sender@,
                        coins_model(funds@),
                        DenomModel::Cw20(sender@),
                        m.amount,
                        cw20_verdict,
                    ) is None && match m.msg {
                        ReceiveMsg::ShitStrap { shit_strapper } => strap_effect(
                            *old(self),
                            *final(self),
                            resp@,
                            DenomModel::Cw20(sender@),
                            m.amount,
                            shit_strapper@,
                            cw20_verdict,
                        ),
                    },
                },
                ExecuteMsg::Flush {} => match r {
                    Err(e) => sender@ != old(self).config.admin@ && e
                        == ContractError::ShittyAuthorization {},
                    Ok(resp) => {
                        &&& sender@ == old(self).config.admin@
                        &&& final(self).config.full_of_shit
                        &&& final(self).config.admin == old(self).config.admin
                        &&& final(self).config.accepted == old(self).config.accepted
                        &&& final(self).config.cutoff == old(self).config.cutoff
                        &&& final(self).config.shitmos_addr == old(self).config.shitmos_addr
                        &&& final(self).shit_pile == old(self).shit_pile
                        &&& final(self).refunds == old(self).refunds
                        &&& resp@.messages.len() == 0
                        &&& resp@.attributes == seq![AttributeModel::Flusher(sender@)]
                    },
                },
                ExecuteMsg::RefundShitter {} => match lookup(old(self).refunds@, sender@) {
                    None => r == Err::<Response, ContractError>(ContractError::FullOfShit {}),
                    Some(t) => r matches Ok(resp) && {
                        &&& resp@.messages == seq![t]
                        &&& resp@.attributes.len() == 0
                        &&& final(self).refunds@.len() == 0
                        &&& final(self).config == old(self).config
                        &&& final(self).shit_pile == old(self).shit_pile
                    },
                },
            },
    {
        match msg {
            ExecuteMsg::ShitStrap { shit } => {
                let strapper = sender.clone();
                self.execute_shit_strap(&sender, &funds, shit, strapper, cw20_verdict)
            },
            ExecuteMsg::Flush {} => self.execute_flush(&sender),
            ExecuteMsg::Receive(m) => self.receive_cw20_message(&sender, &funds, m, cw20_verdict),
            ExecuteMsg::RefundShitter {} => self.refund_shitter(&sender),
        }
    }
}

/// The state every decimal-rate shitstrap with a positive cutoff is in
/// between requests: while open, less than the cutoff has been strapped, and
/// at most one refund is owed, only once closed.
pub open spec fn sound(st: DecimalShitstrap) -> bool {
    &&& st.refunds.wf()
    &&& !st.config.full_of_shit ==> st.shit_pile < st.config.cutoff
    &&& st.refunds@.len() <= 1
    &&& st.refunds@.len() == 1 ==> st.config.full_of_shit
}

/// A shitstrap created with a positive cutoff is sound. (With a zero cutoff
/// it starts open with a pile already at the cutoff.)
pub proof fn law_created_sound(st: DecimalShitstrap)
    requires
        st.refunds.wf(),
        st.config.cutoff > 0,
        !st.config.full_of_shit,
        st.shit_pile == 0,
        st.refunds@.len() == 0,
    ensures
        sound(st),
{
}

/// An accepted participation leaves a sound shitstrap sound.
pub proof fn law_strap_keeps_sound(
    pre: DecimalShitstrap,
    post: DecimalShitstrap,
    resp: ResponseModel,
    sender: Seq<char>,
    funds: Seq<CoinModel>,
    denom: DenomModel,
    amount: u128,
    strapper: Seq<char>,
    cw20_verdict: Option<Result<String, DenomFault>>,
)
    requires
        sound(pre),
        strap_refusal(pre, sender, funds, denom, amount, cw20_verdict) is None,
        strap_effect(pre, post, resp, denom, amount, strapper, cw20_verdict),
    ensures
        sound(post),
{
    let m = matched_entry(pre, denom)->0;
    if pre.shit_pile + shit_value(amount, m.shit_rate) >= pre.config.cutoff {
        assert(post.refunds@.len() == 1);
    }
}

/// A closed shitstrap refuses every participation.
pub proof fn law_closed_refuses(
    st: DecimalShitstrap,
    sender: Seq<char>,
    funds: Seq<CoinModel>,
    denom: DenomModel,
    amount: u128,
    cw20_verdict: Option<Result<String, DenomFault>>,
)
    requires
        st.config.full_of_shit,
    ensures
        strap_refusal(st, sender, funds, denom, amount, cw20_verdict) == Some(
            ContractError::FullOfShit {},
        ),
{
}

} // verus!
