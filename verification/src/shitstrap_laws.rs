//! What holds of every shitstrap across its requests.

use vstd::prelude::*;
use cosmwasm_std::StdError;
use crate::cosmos::decimal_fractional;
use crate::denom::{check_outcome, CoinModel, DenomFault, DenomModel, TransferModel, UncheckedDenom};
use crate::error::ContractError;
use crate::msg::{AssetUnchecked, Cw20ReceiveMsg, ReceiveMsg, Response, ResponseModel};
use crate::shitstrap::{
    first_coin_from, flush_transfers, Config,
    execute_abort, participation_outcome, request_outcome, ExecuteMsg,
    accepted_fault_from, accepted_model, deposit_total, instantiated, DepositModel,
    same_settings, shit_return, shit_value, left_to_hand_out, strap_abort, strap_effect, strap_matched,
    strap_refusal, Abort, InstantiateMsg, Shitstrap,
};
use crate::sorted_map::{lemma_lookup_upsert_other, lemma_lookup_upsert_same, lookup};

verus! {

/// The state every shitstrap is in between requests: its maps are in key
/// order; its cutoff and every rate are positive; while open, less than the
/// cutoff has been strapped; and at most one refund is owed, only once closed.
pub open spec fn sound(st: Shitstrap) -> bool {
    &&& st.wf()
    &&& st.config.cutoff > 0
    &&& forall|i: int|
        0 <= i < st.config.accepted@.len() ==> #[trigger] st.config.accepted@[i].shit_rate > 0
    &&& !st.config.full_of_shit ==> st.shit_pile < st.config.cutoff
    &&& st.refunds@.len() <= 1
    &&& st.refunds@.len() == 1 ==> st.config.full_of_shit
}

proof fn lemma_no_fault_rates_positive(s: Seq<crate::msg::PossibleShitModel>, i: int)
    requires
        0 <= i <= s.len(),
        accepted_fault_from(s, i) is None,
    ensures
        forall|k: int| i <= k < s.len() ==> #[trigger] s[k].shit_rate > 0,
    decreases s.len() - i,
{
    if i < s.len() {
        lemma_no_fault_rates_positive(s, i + 1);
    }
}

/// A shitstrap as created is sound.
pub proof fn law_created_sound(
    sender: Seq<char>,
    msg: InstantiateMsg,
    owner_verdict: Option<Result<String, StdError>>,
    shitmos_verdict: Option<Result<String, DenomFault>>,
    st: Shitstrap,
)
    requires
        instantiated(sender, msg, owner_verdict, shitmos_verdict, st),
    ensures
        sound(st),
{
    let s = accepted_model(msg.accepted@);
    lemma_no_fault_rates_positive(s, 0);
    assert forall|i: int| 0 <= i < st.config.accepted@.len() implies #[trigger] st.config.accepted@[i].shit_rate
        > 0 by {
        assert(accepted_model(st.config.accepted@)[i] == st.config.accepted@[i]@);
        assert(s[i].shit_rate > 0);
    }
}

/// An accepted participation leaves a sound shitstrap sound.
pub proof fn law_strap_keeps_sound(
    pre: Shitstrap,
    post: Shitstrap,
    resp: ResponseModel,
    sender: Seq<char>,
    funds: Seq<CoinModel>,
    denom: DenomModel,
    amount: u128,
    strapper: Seq<char>,
    cw20_verdict: Option<Result<String, DenomFault>>,
)
    requires
        sound(pre),
        strap_refusal(pre, sender, funds, denom, amount, cw20_verdict) is None,
        strap_effect(pre, post, resp, denom, amount, strapper, cw20_verdict),
    ensures
        sound(post),
{
    let m = strap_matched(pre, denom)->0;
    let d = check_outcome(m.token, cw20_verdict)->Ok_0;
    let new_val = pre.shit_pile + shit_value(amount, m.shit_rate);
    if new_val >= pre.config.cutoff {
        assert(pre.refunds@.len() == 0);
        assert(post.refunds@.len() == 1);
    }
}

/// Closing leaves a sound shitstrap sound.
pub proof fn law_flush_keeps_sound(pre: Shitstrap, post: Shitstrap)
    requires
        sound(pre),
        post.config.full_of_shit,
        same_settings(pre.config, post.config),
        post.shit_pile == pre.shit_pile,
        post.deposits == pre.deposits,
        post.refunds == pre.refunds,
    ensures
        sound(post),
{
}

/// Claiming the refund leaves a sound shitstrap sound.
pub proof fn law_refund_keeps_sound(pre: Shitstrap, post: Shitstrap)
    requires
        sound(pre),
        post.wf(),
        post.config == pre.config,
        post.shit_pile == pre.shit_pile,
        post.refunds@.len() == 0,
    ensures
        sound(post),
{
}

/// A closed shitstrap refuses every participation.
pub proof fn law_closed_refuses(
    st: Shitstrap,
    sender: Seq<char>,
    funds: Seq<CoinModel>,
    denom: DenomModel,
    amount: u128,
    cw20_verdict: Option<Result<String, DenomFault>>,
)
    requires
        st.config.full_of_shit,
    ensures
        strap_refusal(st, sender, funds, denom, amount, cw20_verdict) == Some(
            ContractError::FullOfShit {},
        ),
{
}

/// In a sound shitstrap, giving back the overshoot never fails for want of an
/// inverse rate.
pub proof fn law_sound_has_inverse(
    st: Shitstrap,
    sender: Seq<char>,
    funds: Seq<CoinModel>,
    denom: DenomModel,
    amount: u128,
    cw20_verdict: Option<Result<String, DenomFault>>,
)
    requires
        sound(st),
    ensures
        strap_abort(st, sender, funds, denom, amount, cw20_verdict) != Some(Abort::NoInverse),
{
    let accepted = accepted_model(st.config.accepted@);
    match crate::shitstrap::first_accepted(accepted, denom) {
        Some(i) => {
            lemma_first_accepted_in_range(accepted, denom, 0);
            assert(accepted[i] == st.config.accepted@[i]@);
        },
        None => {},
    }
}

proof fn lemma_first_accepted_in_range(s: Seq<crate::msg::PossibleShitModel>, d: DenomModel, i: int)
    requires
        0 <= i,
    ensures
        crate::shitstrap::first_accepted_from(s, d, i) matches Some(k) ==> i <= k < s.len() && s[k].token == d,
    decreases s.len() - i,
{
    if i < s.len() {
        lemma_first_accepted_in_range(s, d, i + 1);
    }
}

/// An accepted participation adds its strapped value to the pile and sends
/// the participant, last, that value of the strapped token; the payment that
/// fills the shitstrap is sent only what remains up to the cutoff.
pub proof fn law_strapper_receives_value(
    pre: Shitstrap,
    post: Shitstrap,
    resp: ResponseModel,
    denom: DenomModel,
    amount: u128,
    strapper: Seq<char>,
    cw20_verdict: Option<Result<String, DenomFault>>,
)
    requires
        strap_effect(pre, post, resp, denom, amount, strapper, cw20_verdict),
    ensures
        ({
            let v = shit_value(amount, strap_matched(pre, denom)->0.shit_rate);
            &&& post.shit_pile == pre.shit_pile + v
            &&& resp.messages.len() > 0
            &&& resp.messages.last() == (TransferModel {
                denom: pre.config.shitmos_addr@,
                recipient: strapper,
                amount: if pre.shit_pile + v >= pre.config.cutoff {
                    left_to_hand_out(pre.shit_pile, pre.config.cutoff)
                } else {
                    v as u128
                },
            })
        }),
{
}

/// The strapped tokens handed out never pass the cutoff: after an accepted
/// participation in an open, sound shitstrap, what was handed out before plus what
/// this one is sent is the new pile while below the cutoff, and exactly the
/// cutoff once it is reached.
pub proof fn law_hand_out_up_to_cutoff(
    pre: Shitstrap,
    post: Shitstrap,
    resp: ResponseModel,
    denom: DenomModel,
    amount: u128,
    strapper: Seq<char>,
    cw20_verdict: Option<Result<String, DenomFault>>,
)
    requires
        sound(pre),
        !pre.config.full_of_shit,
        strap_effect(pre, post, resp, denom, amount, strapper, cw20_verdict),
    ensures
        pre.shit_pile + resp.messages.last().amount == if post.shit_pile < pre.config.cutoff {
            post.shit_pile as int
        } else {
            pre.config.cutoff as int
        },
{
    law_strapper_receives_value(pre, post, resp, denom, amount, strapper, cw20_verdict);
}

/// The payment that fills the shitstrap sends the owner everything paid in,
/// each in its own denomination, except the refund it leaves its participant:
/// for every denomination, what the owner is sent plus what is refunded of it
/// is exactly what was paid in of it.
pub proof fn law_fill_pays_everything_out(
    pre: Shitstrap,
    post: Shitstrap,
    resp: ResponseModel,
    sender: Seq<char>,
    funds: Seq<CoinModel>,
    denom: DenomModel,
    amount: u128,
    strapper: Seq<char>,
    cw20_verdict: Option<Result<String, DenomFault>>,
    i: int,
)
    requires
        sound(pre),
        strap_refusal(pre, sender, funds, denom, amount, cw20_verdict) is None,
        strap_abort(pre, sender, funds, denom, amount, cw20_verdict) is None,
        strap_effect(pre, post, resp, denom, amount, strapper, cw20_verdict),
        post.config.full_of_shit,
        0 <= i < post.deposits@.len(),
    ensures
        ({
            let paid = post.deposits@[i];
            let refund = lookup(post.refunds@, strapper)->0;
            &&& resp.messages[i] == (TransferModel {
                denom: paid.1.denom,
                recipient: pre.config.owner@,
                amount: (paid.1.amount - if refund.denom.text() == paid.0 {
                    refund.amount as int
                } else {
                    0
                }) as u128,
            })
            &&& refund.denom.text() == paid.0 ==> refund.amount <= paid.1.amount
        }),
{
    let m = strap_matched(pre, denom)->0;
    let d = check_outcome(m.token, cw20_verdict)->Ok_0;
    let overflow = pre.shit_pile + shit_value(amount, m.shit_rate) - pre.config.cutoff;
    let refund = TransferModel {
        denom: d,
        recipient: strapper,
        amount: shit_return(overflow, m.shit_rate) as u128,
    };
    let total = DepositModel { denom: d, amount: (deposit_total(pre.deposits@, d.text()) + amount) as u128 };
    assert(pre.refunds@.len() == 0);
    lemma_lookup_upsert_same(pre.refunds@, strapper, refund);
    if post.deposits@[i].0 == d.text() {
        crate::sorted_map::lemma_upsert_holds(pre.deposits@, d.text(), total, i);
    }
}

/// An accepted participation records its payment: the deposits of the paid
/// denomination grow by the amount paid, and no other deposit changes.
pub proof fn law_deposits_record_payment(
    pre: Shitstrap,
    post: Shitstrap,
    resp: ResponseModel,
    sender: Seq<char>,
    funds: Seq<CoinModel>,
    denom: DenomModel,
    amount: u128,
    strapper: Seq<char>,
    cw20_verdict: Option<Result<String, DenomFault>>,
    other: Seq<char>,
)
    requires
        pre.wf(),
        strap_refusal(pre, sender, funds, denom, amount, cw20_verdict) is None,
        strap_effect(pre, post, resp, denom, amount, strapper, cw20_verdict),
    ensures
        ({
            let key = check_outcome(strap_matched(pre, denom)->0.token, cw20_verdict)->Ok_0.text();
            &&& deposit_total(post.deposits@, key) == deposit_total(pre.deposits@, key) + amount
            &&& other != key ==> deposit_total(post.deposits@, other) == deposit_total(
                pre.deposits@,
                other,
            )
        }),
{
    let m = strap_matched(pre, denom)->0;
    let key = check_outcome(m.token, cw20_verdict)->Ok_0.text();
    let total = DepositModel {
        denom: check_outcome(m.token, cw20_verdict)->Ok_0,
        amount: (deposit_total(pre.deposits@, key) + amount) as u128,
    };
    lemma_lookup_upsert_same(pre.deposits@, key, total);
    if other != key {
        lemma_lookup_upsert_other(pre.deposits@, key, total, other);
    }
}

/// The tokens refunded for an overshoot are never worth more than the
/// overshoot, at the rate they were paid at.
pub proof fn law_refund_within_overshoot(overflow: nat, rate: u128)
    requires
        rate > 0,
    ensures
        shit_return(overflow as int, rate) * rate <= overflow * decimal_fractional(),
{
    let f = decimal_fractional();
    let inv = f * f / rate as int;
    assert(inv * rate <= f * f) by (nonlinear_arith)
        requires
            inv == f * f / rate as int,
            rate > 0,
            f > 0,
    ;
    let t = overflow * inv;
    let ret = t / f;
    assert(ret * f <= t) by (nonlinear_arith)
        requires
            ret == t / f,
            f > 0,
            t >= 0,
    ;
    assert(ret * rate * f <= t * rate) by (nonlinear_arith)
        requires
            ret * f <= t,
            rate > 0,
    ;
    assert(t * rate <= overflow * f * f) by (nonlinear_arith)
        requires
            t == overflow * inv,
            inv * rate <= f * f,
            overflow >= 0,
    ;
    assert(ret * rate <= overflow * f) by (nonlinear_arith)
        requires
            ret * rate * f <= overflow * f * f,
            f > 0,
    ;
}

/// The payment that fills a sound shitstrap leaves exactly one refund owed:
/// to its participant, of the overshoot given back at the rate paid, in the
/// denomination paid. Nobody else is owed anything.
pub proof fn law_filler_alone_owed(
    pre: Shitstrap,
    post: Shitstrap,
    resp: ResponseModel,
    sender: Seq<char>,
    funds: Seq<CoinModel>,
    denom: DenomModel,
    amount: u128,
    strapper: Seq<char>,
    cw20_verdict: Option<Result<String, DenomFault>>,
    other: Seq<char>,
)
    requires
        sound(pre),
        strap_refusal(pre, sender, funds, denom, amount, cw20_verdict) is None,
        strap_effect(pre, post, resp, denom, amount, strapper, cw20_verdict),
        post.config.full_of_shit,
    ensures
        ({
            let m = strap_matched(pre, denom)->0;
            let overflow = pre.shit_pile + shit_value(amount, m.shit_rate) - pre.config.cutoff;
            lookup(post.refunds@, strapper) == Some(
                TransferModel {
                    denom: check_outcome(m.token, cw20_verdict)->Ok_0,
                    recipient: strapper,
                    amount: shit_return(overflow, m.shit_rate) as u128,
                },
            )
        }),
        other != strapper ==> lookup(post.refunds@, other) is None,
{
    let m = strap_matched(pre, denom)->0;
    let d = check_outcome(m.token, cw20_verdict)->Ok_0;
    let overflow = pre.shit_pile + shit_value(amount, m.shit_rate) - pre.config.cutoff;
    let refund = TransferModel {
        denom: d,
        recipient: strapper,
        amount: shit_return(overflow, m.shit_rate) as u128,
    };
    assert(pre.refunds@.len() == 0);
    lemma_lookup_upsert_same(pre.refunds@, strapper, refund);
    assert(post.refunds@.len() == 1);
    if other != strapper {
        assert(post.refunds@[0].0 == strapper);
        assert(!crate::sorted_map::has_key(post.refunds@, other));
    }
}

/// Once the refund is claimed, nobody can claim it again.
pub proof fn law_refund_claimed_once(post: Shitstrap, anyone: Seq<char>)
    requires
        post.refunds@.len() == 0,
    ensures
        lookup(post.refunds@, anyone) is None,
{
}

/// A cw20 receipt is a participation: when the cw20 contract `c` sends
/// `m.amount` for the participant `m` names, the request aborts exactly when a
/// participation by `c` naming its own cw20 and that amount would, and it is
/// refused or takes effect exactly as that participation, with the named
/// participant credited in place of `c`.
pub proof fn law_receipt_is_participation(
    pre: Shitstrap,
    post: Shitstrap,
    c: String,
    funds: Seq<CoinModel>,
    m: Cw20ReceiveMsg,
    cw20_verdict: Option<Result<String, DenomFault>>,
    r: Result<Response, ContractError>,
)
    ensures
        ({
            let receipt = ExecuteMsg::Receive(m);
            let direct = ExecuteMsg::ShitStrap {
                shit: AssetUnchecked { denom: UncheckedDenom::Cw20(c), amount: m.amount },
            };
            let strapper = match m.msg {
                ReceiveMsg::ShitStrap { shit_strapper } => shit_strapper@,
            };
            &&& execute_abort(pre, c@, funds, receipt, cw20_verdict) == execute_abort(
                pre,
                c@,
                funds,
                direct,
                cw20_verdict,
            )
            &&& request_outcome(pre, post, c@, funds, receipt, cw20_verdict, r) == participation_outcome(
                pre,
                post,
                c@,
                funds,
                DenomModel::Cw20(c@),
                m.amount,
                strapper,
                cw20_verdict,
                r,
            )
            &&& request_outcome(pre, post, c@, funds, direct, cw20_verdict, r) == participation_outcome(
                pre,
                post,
                c@,
                funds,
                DenomModel::Cw20(c@),
                m.amount,
                c@,
                cw20_verdict,
                r,
            )
        }),
{
}

/// A shitstrap created with a named owner that the chain validates to `a`
/// belongs to `a`; its creator owns it only when no owner is named.
pub proof fn law_named_owner_owns(
    sender: Seq<char>,
    msg: InstantiateMsg,
    owner_verdict: Option<Result<String, StdError>>,
    shitmos_verdict: Option<Result<String, DenomFault>>,
    st: Shitstrap,
    a: String,
)
    requires
        instantiated(sender, msg, owner_verdict, shitmos_verdict, st),
    ensures
        msg.owner is Some && owner_verdict == Some(Ok::<String, StdError>(a)) ==> st.config.owner@ == a@,
        msg.owner is None ==> st.config.owner@ == sender,
{
}

proof fn lemma_first_coin(f: Seq<CoinModel>, t: Seq<char>, i: int)
    requires
        0 <= i,
    ensures
        match first_coin_from(f, t, i) {
            Some(k) => i <= k < f.len() && f[k].denom == t && forall|l: int| i <= l < k ==> #[trigger] f[l].denom != t,
            None => forall|l: int| i <= l < f.len() ==> #[trigger] f[l].denom != t,
        },
    decreases f.len() - i,
{
    if i < f.len() {
        lemma_first_coin(f, t, i + 1);
    }
}

/// A native payment into an open shitstrap that accepts its denomination `t`
/// is accepted only when the first attached coin of `t` carries exactly the
/// amount named: a first such coin of any other amount, larger or smaller, or
/// no such coin at all, is refused with `DidntSendShit`.
pub proof fn law_native_payment_exact(
    st: Shitstrap,
    sender: Seq<char>,
    funds: Seq<CoinModel>,
    t: Seq<char>,
    amount: u128,
    cw20_verdict: Option<Result<String, DenomFault>>,
    k: int,
)
    requires
        !st.config.full_of_shit,
        strap_matched(st, DenomModel::Native(t)) is Some,
    ensures
        0 <= k < funds.len() && funds[k].denom == t && (forall|j: int| 0 <= j < k ==> #[trigger] funds[j].denom != t)
            && funds[k].amount != amount ==> strap_refusal(st, sender, funds, DenomModel::Native(t), amount, cw20_verdict)
            == Some(ContractError::DidntSendShit {}),
        (forall|j: int| 0 <= j < funds.len() ==> #[trigger] funds[j].denom != t) ==> strap_refusal(
            st,
            sender,
            funds,
            DenomModel::Native(t),
            amount,
            cw20_verdict,
        ) == Some(ContractError::DidntSendShit {}),
        strap_refusal(st, sender, funds, DenomModel::Native(t), amount, cw20_verdict) is None ==> exists|j: int|
            0 <= j < funds.len() && #[trigger] funds[j].denom == t && funds[j].amount == amount && forall|l: int|
                0 <= l < j ==> #[trigger] funds[l].denom != t,
{
    let accepted = accepted_model(st.config.accepted@);
    lemma_first_accepted_in_range(accepted, DenomModel::Native(t), 0);
    lemma_first_coin(funds, t, 0);
    match first_coin_from(funds, t, 0) {
        Some(f) => {
            if 0 <= k < funds.len() && funds[k].denom == t && (forall|j: int| 0 <= j < k ==> #[trigger] funds[j].denom != t) {
                if k < f {
                    assert(funds[k].denom != t);
                } else if f < k {
                    assert(funds[f].denom != t);
                }
            }
        },
        None => {},
    }
}

/// The configuration the Config query answers is the stored one in every
/// field, whether the shitstrap is closed included.
pub proof fn law_config_answer_is_stored(answer: Config, st: Shitstrap)
    requires
        crate::shitstrap::same_config(answer, st.config),
    ensures
        answer.owner@ == st.config.owner@,
        accepted_model(answer.accepted@) == accepted_model(st.config.accepted@),
        answer.cutoff == st.config.cutoff,
        answer.shitmos_addr@ == st.config.shitmos_addr@,
        answer.full_of_shit == st.config.full_of_shit,
        answer.title@ == st.config.title@,
        answer.description@ == st.config.description@,
{
}

/// Flushing an open shitstrap sends the owner, in key order, every recorded
/// deposit in its own denomination (a cw20 stays a cw20) and amount, then the
/// strapped tokens not handed out, if any remain.
pub proof fn law_flush_pays_deposits(st: Shitstrap)
    requires
        !st.config.full_of_shit,
    ensures
        flush_transfers(st).len() == st.deposits@.len() + if st.shit_pile < st.config.cutoff {
            1int
        } else {
            0
        },
        forall|i: int|
            0 <= i < st.deposits@.len() ==> #[trigger] flush_transfers(st)[i] == (TransferModel {
                denom: st.deposits@[i].1.denom,
                recipient: st.config.owner@,
                amount: st.deposits@[i].1.amount,
            }),
        st.shit_pile < st.config.cutoff ==> flush_transfers(st).last() == (TransferModel {
            denom: st.config.shitmos_addr@,
            recipient: st.config.owner@,
            amount: (st.config.cutoff - st.shit_pile) as u128,
        }),
{
}

} // verus!
