//! The factory that creates shitstraps and records every one it created, with
//! who asked for it and which token it straps.

use vstd::prelude::*;
use cosmwasm_std::StdError;
use cw_ownable::OwnershipError;
use cw_utils::ParseReplyError;
use crate::denom::Coin;
use crate::order::{key_less, key_lt, lemma_key_lt_transitive};
use crate::shitstrap::InstantiateMsg as ShitstrapInstantiateMsg;
use crate::sorted_map::{keys_of, lower_bound, strictly_ascending, upsert_model, SortedMap};

verus! {

/// `cw_ownable::OwnershipError`, carried through the library unopened.
#[verifier::external_type_specification]
#[verifier::external_body]
pub struct ExOwnershipError(cw_ownable::OwnershipError);

/// `cw_utils::ParseReplyError`, carried through the library unopened.
#[verifier::external_type_specification]
#[verifier::external_body]
pub struct ExParseReplyError(cw_utils::ParseReplyError);

/// What `cw_utils::parse_instantiate_response_data` makes of the data bytes of
/// an instantiation's reply: the new contract's address, or its error.
pub uninterp spec fn instantiate_response_address(data: Seq<u8>) -> Result<Seq<char>, ParseReplyError>;

/// Calls `cw_utils::parse_instantiate_response_data`, which decodes the
/// protobuf `MsgInstantiateContractResponse` in `data`, and keeps the
/// contract address. Claimed: the outcome depends on the bytes alone (the
/// decoding reads nothing else); which bytes decode, and to what, is left to
/// the name.
#[verifier::external_body]
pub(crate) fn parse_instantiate_response(data: &Vec<u8>) -> (r: Result<String, ParseReplyError>)
    ensures
        match r {
            Ok(a) => instantiate_response_address(data@) == Ok::<Seq<char>, ParseReplyError>(a@),
            Err(e) => instantiate_response_address(data@) == Err::<Seq<char>, ParseReplyError>(e),
        },
{
    cw_utils::parse_instantiate_response_data(data).map(|m| m.contract_address)
}

/// Reply id of the submessage that instantiates a shitstrap.
pub const INSTANTIATE_CONTRACT_REPLY_ID: u64 = 0;

/// Entries listed when no limit is given.
pub const DEFAULT_LIMIT: u32 = 10;

/// Most entries listed at once.
pub const MAX_LIMIT: u32 = 50;

#[derive(Debug, PartialEq)]
pub enum ContractError {
    Std(StdError),
    Ownership(OwnershipError),
    /// Only the owner, when there is one, may create shitstraps.
    Unauthorized {},
    /// A reply to a submessage this factory did not send.
    UnknownReplyId { id: u64 },
    /// The instantiation failed, with the chain's message.
    SubMsgFailure(String),
    /// The instantiation's reply carries no data.
    MissingReplyData,
    /// The instantiation's reply data does not decode.
    ParseReply(ParseReplyError),
}

/// What creating the factory takes.
#[derive(Debug, PartialEq)]
pub struct InstantiateMsg {
    pub owner: Option<String>,
    pub shitstrap_id: u64,
}

/// An attribute of a factory response, by its key.
#[derive(Debug, PartialEq)]
pub enum FactoryAttribute {
    /// `method`: `instantiate`.
    MethodInstantiate,
    /// `creator`: who created the factory.
    Creator(String),
    /// `action`: `instantiate_cw_shistrap`.
    ActionInstantiateShitstrap,
    /// `new_shitstrap_contract`: the address of the shitstrap just created.
    NewShitstrapContract(String),
    /// `action`: `update_code_id`.
    ActionUpdateCodeId,
    /// `shistrap_code_id`: the code id now in use.
    ShitstrapCodeId(u64),
}

pub enum FactoryAttributeModel {
    MethodInstantiate,
    Creator(Seq<char>),
    ActionInstantiateShitstrap,
    NewShitstrapContract(Seq<char>),
    ActionUpdateCodeId,
    ShitstrapCodeId(u64),
}

impl View for FactoryAttribute {
    type V = FactoryAttributeModel;

    open spec fn view(&self) -> FactoryAttributeModel {
        match self {
            FactoryAttribute::MethodInstantiate => FactoryAttributeModel::MethodInstantiate,
            FactoryAttribute::Creator(c) => FactoryAttributeModel::Creator(c@),
            FactoryAttribute::ActionInstantiateShitstrap => FactoryAttributeModel::ActionInstantiateShitstrap,
            FactoryAttribute::NewShitstrapContract(a) => FactoryAttributeModel::NewShitstrapContract(a@),
            FactoryAttribute::ActionUpdateCodeId => FactoryAttributeModel::ActionUpdateCodeId,
            FactoryAttribute::ShitstrapCodeId(id) => FactoryAttributeModel::ShitstrapCodeId(*id),
        }
    }
}

pub open spec fn attributes_model(v: Seq<FactoryAttribute>) -> Seq<FactoryAttributeModel> {
    v.map_values(|a: FactoryAttribute| a@)
}

pub struct ShitstrapContractModel {
    pub contract: Seq<char>,
    pub instantiator: Seq<char>,
    pub shit: Seq<char>,
}

/// A shitstrap the factory created.
#[derive(Debug, PartialEq)]
pub struct ShitstrapContract {
    pub contract: String,
    pub instantiator: String,
    pub shit: String,
}

impl View for ShitstrapContract {
    type V = ShitstrapContractModel;

    open spec fn view(&self) -> ShitstrapContractModel {
        ShitstrapContractModel {
            contract: self.contract@,
            instantiator: self.instantiator@,
            shit: self.shit@,
        }
    }
}

impl Clone for ShitstrapContract {
    fn clone(&self) -> (r: Self)
        ensures
            r@ == self@,
    {
        ShitstrapContract {
            contract: self.contract.clone(),
            instantiator: self.instantiator.clone(),
            shit: self.shit.clone(),
        }
    }
}

#[derive(Debug, PartialEq)]
pub enum QueryMsg {
    /// All shitstraps, by address, after `start_after`.
    ListShitstrapContracts { start_after: Option<String>, limit: Option<u32> },
    /// All shitstraps, by address descending, before `start_before`.
    ListShitstrapContractsReverse { start_before: Option<String>, limit: Option<u32> },
    /// The shitstraps `instantiator` asked for, by address, after `start_after`.
    ListShitstrapContractsByInstantiator {
        instantiator: String,
        start_after: Option<String>,
        limit: Option<u32>,
    },
    /// The same, by address descending, before `start_before`.
    ListShitstrapContractsByInstantiatorReverse {
        instantiator: String,
        start_before: Option<String>,
        limit: Option<u32>,
    },
    /// The shitstraps strapping the token `recipient`, by address, after
    /// `start_after`.
    ListShitstrapContractsByToken {
        recipient: String,
        start_after: Option<String>,
        limit: Option<u32>,
    },
    /// The same, by address descending, before `start_before`.
    ListShitstrapContractsByTokenReverse {
        recipient: String,
        start_before: Option<String>,
        limit: Option<u32>,
    },
    /// The factory's ownership.
    Ownership {},
    /// The code id new shitstraps are created from.
    CodeId {},
}

/// Which recorded shitstraps a listing takes.
pub enum SelectorModel {
    All,
    Instantiator(Seq<char>),
    Token(Seq<char>),
}

#[derive(Debug, PartialEq)]
pub enum Selector {
    All,
    Instantiator(String),
    Token(String),
}

impl View for Selector {
    type V = SelectorModel;

    open spec fn view(&self) -> SelectorModel {
        match self {
            Selector::All => SelectorModel::All,
            Selector::Instantiator(s) => SelectorModel::Instantiator(s@),
            Selector::Token(s) => SelectorModel::Token(s@),
        }
    }
}

pub open spec fn selected_by(c: ShitstrapContractModel, s: SelectorModel) -> bool {
    match s {
        SelectorModel::All => true,
        SelectorModel::Instantiator(i) => c.instantiator == i,
        SelectorModel::Token(t) => c.shit == t,
    }
}

/// Whether `key` lies past the exclusive bound, in the direction walked.
pub open spec fn past_bound(key: Seq<char>, bound: Option<Seq<char>>, descending: bool) -> bool {
    match bound {
        None => true,
        Some(b) => if descending {
            key_lt(key, b)
        } else {
            key_lt(b, key)
        },
    }
}

pub open spec fn bound_model(b: Option<String>) -> Option<Seq<char>> {
    match b {
        Some(s) => Some(s@),
        None => None,
    }
}

/// The `k`-th entry visited when walking in the given direction.
pub open spec fn visited<W>(m: Seq<(Seq<char>, W)>, descending: bool, k: int) -> (Seq<char>, W) {
    if descending {
        m[m.len() - 1 - k]
    } else {
        m[k]
    }
}

/// What the first `k` entries visited contribute to a listing.
pub open spec fn selection(
    m: Seq<(Seq<char>, ShitstrapContractModel)>,
    descending: bool,
    s: SelectorModel,
    bound: Option<Seq<char>>,
    k: nat,
) -> Seq<ShitstrapContractModel>
    decreases k,
{
    if k == 0 {
        Seq::empty()
    } else {
        let prev = selection(m, descending, s, bound, (k - 1) as nat);
        let e = visited(m, descending, k - 1);
        if past_bound(e.0, bound, descending) && selected_by(e.1, s) {
            prev.push(e.1)
        } else {
            prev
        }
    }
}

/// A listing: the selected entries past the bound, in the direction walked,
/// at most `limit` of them.
pub open spec fn page(
    m: Seq<(Seq<char>, ShitstrapContractModel)>,
    descending: bool,
    s: SelectorModel,
    bound: Option<Seq<char>>,
    limit: nat,
) -> Seq<ShitstrapContractModel> {
    let all = selection(m, descending, s, bound, m.len());
    if all.len() <= limit {
        all
    } else {
        all.take(limit as int)
    }
}

/// Listing more entries only adds to the end.
pub proof fn lemma_selection_prefix(
    m: Seq<(Seq<char>, ShitstrapContractModel)>,
    descending: bool,
    s: SelectorModel,
    bound: Option<Seq<char>>,
    k: nat,
    j: nat,
)
    requires
        k <= j,
    ensures
        selection(m, descending, s, bound, k).len() <= selection(m, descending, s, bound, j).len(),
        selection(m, descending, s, bound, k) == selection(m, descending, s, bound, j).take(
            selection(m, descending, s, bound, k).len() as int,
        ),
    decreases j,
{
    let sk = selection(m, descending, s, bound, k);
    if k == j {
        assert(sk =~= sk.take(sk.len() as int));
    } else {
        lemma_selection_prefix(m, descending, s, bound, k, (j - 1) as nat);
        let sj1 = selection(m, descending, s, bound, (j - 1) as nat);
        let sj = selection(m, descending, s, bound, j);
        assert(sj.take(sk.len() as int) =~= sj1.take(sk.len() as int));
    }
}

/// The number of entries a listing may return: the limit asked for, or ten,
/// and never more than fifty.
pub open spec fn limit_of(limit: Option<u32>) -> nat {
    let asked = match limit {
        Some(l) => l,
        None => DEFAULT_LIMIT,
    };
    if asked < MAX_LIMIT {
        asked as nat
    } else {
        MAX_LIMIT as nat
    }
}

pub fn effective_limit(limit: Option<u32>) -> (r: usize)
    ensures
        r == limit_of(limit),
{
    let asked = match limit {
        Some(l) => l,
        None => DEFAULT_LIMIT,
    };
    if asked < MAX_LIMIT {
        asked as usize
    } else {
        MAX_LIMIT as usize
    }
}

/// What creating a shitstrap sends: an instantiation of the shitstrap code,
/// administered by the shitstrap's owner, whose success (and only its
/// success, when `reply_on_success`) is replied to with `reply_id`; and the
/// response's attributes.
#[derive(Debug, PartialEq)]
pub struct InstantiatePlan {
    pub admin: Option<String>,
    pub code_id: u64,
    pub msg: ShitstrapInstantiateMsg,
    pub funds: Vec<Coin>,
    pub label: String,
    pub reply_id: u64,
    pub reply_on_success: bool,
    pub attributes: Vec<FactoryAttribute>,
}

pub open spec fn option_text(o: Option<String>) -> Option<Seq<char>> {
    match o {
        Some(s) => Some(s@),
        None => None,
    }
}

/// Whether `sender` may create a shitstrap: anyone when the factory has no
/// owner, else only the owner.
pub open spec fn may_create(owner: Option<Seq<char>>, sender: Seq<char>) -> bool {
    match owner {
        Some(o) => o == sender,
        None => true,
    }
}

/// The plan for creating a shitstrap for `sender`: refused unless the
/// factory has no owner or `sender` is it; else an instantiation of `code_id`
/// with `msg`, `funds` and `label`, administered by the shitstrap's owner,
/// replied to on success, with the `instantiate_cw_shistrap` action.
pub open spec fn planned(
    owner: Option<Seq<char>>,
    sender: Seq<char>,
    funds: Seq<Coin>,
    msg: ShitstrapInstantiateMsg,
    label: String,
    code_id: u64,
    r: Result<InstantiatePlan, ContractError>,
) -> bool {
    if !may_create(owner, sender) {
        r == Err::<InstantiatePlan, ContractError>(ContractError::Unauthorized {})
    } else {
        r matches Ok(p) && {
            &&& option_text(p.admin) == option_text(msg.owner)
            &&& p.code_id == code_id
            &&& p.msg == msg
            &&& p.funds@ == funds
            &&& p.label == label
            &&& p.reply_id == INSTANTIATE_CONTRACT_REPLY_ID
            &&& p.reply_on_success
            &&& attributes_model(p.attributes@) == seq![FactoryAttributeModel::ActionInstantiateShitstrap]
        }
    }
}

/// Plans the instantiation of a shitstrap for `sender`, who must be the
/// factory's owner when it has one.
pub fn instantiate_contract(
    owner: &Option<String>,
    sender: &String,
    funds: Option<Vec<Coin>>,
    instantiate_msg: ShitstrapInstantiateMsg,
    label: String,
    code_id: u64,
) -> (r: Result<InstantiatePlan, ContractError>)
    ensures
        planned(
            option_text(*owner),
            sender@,
            match funds {
                Some(f) => f@,
                None => Seq::<Coin>::empty(),
            },
            instantiate_msg,
            label,
            code_id,
            r,
        ),
{
    match owner {
        Some(o) => {
            if *o != *sender {
                return Err(ContractError::Unauthorized {});
            }
        },
        None => {},
    }
    let admin = match &instantiate_msg.owner {
        Some(o) => Some(o.clone()),
        None => None,
    };
    let funds = match funds {
        Some(f) => f,
        None => Vec::new(),
    };
    let mut attributes: Vec<FactoryAttribute> = Vec::new();
    attributes.push(FactoryAttribute::ActionInstantiateShitstrap);
    assert(attributes_model(attributes@) =~= seq![FactoryAttributeModel::ActionInstantiateShitstrap]);
    Ok(InstantiatePlan {
        admin,
        code_id,
        msg: instantiate_msg,
        funds,
        label,
        reply_id: INSTANTIATE_CONTRACT_REPLY_ID,
        reply_on_success: true,
        attributes,
    })
}

/// Accepts a reply to the submessage with `id`: only the instantiation's.
pub fn reply_target(id: u64) -> (r: Result<(), ContractError>)
    ensures
        id == INSTANTIATE_CONTRACT_REPLY_ID <==> r is Ok,
        id != INSTANTIATE_CONTRACT_REPLY_ID ==> r == Err::<(), ContractError>(
            ContractError::UnknownReplyId { id },
        ),
{
    if id == INSTANTIATE_CONTRACT_REPLY_ID {
        Ok(())
    } else {
        Err(ContractError::UnknownReplyId { id })
    }
}

/// The address of the shitstrap a reply reports: only the instantiation's
/// reply (`id`) is accepted; `result` is what the chain answered, the
/// submessage's data (if any) on success, its error message on failure.
pub fn reply_address(id: u64, result: Result<Option<Vec<u8>>, String>) -> (r: Result<String, ContractError>)
    ensures
        id != INSTANTIATE_CONTRACT_REPLY_ID ==> r == Err::<String, ContractError>(
            ContractError::UnknownReplyId { id },
        ),
        id == INSTANTIATE_CONTRACT_REPLY_ID ==> match result {
            Err(e) => r == Err::<String, ContractError>(ContractError::SubMsgFailure(e)),
            Ok(None) => r == Err::<String, ContractError>(ContractError::MissingReplyData),
            Ok(Some(d)) => match instantiate_response_address(d@) {
                Ok(a) => r matches Ok(x) && x@ == a,
                Err(e) => r == Err::<String, ContractError>(ContractError::ParseReply(e)),
            },
        },
{
    match reply_target(id) {
        Err(e) => {
            return Err(e);
        },
        Ok(()) => {},
    }
    match result {
        Err(e) => Err(ContractError::SubMsgFailure(e)),
        Ok(None) => Err(ContractError::MissingReplyData),
        Ok(Some(data)) => match parse_instantiate_response(&data) {
            Ok(a) => Ok(a),
            Err(e) => Err(ContractError::ParseReply(e)),
        },
    }
}

#[derive(Debug, PartialEq)]
pub enum QueryResponse {
    /// A listing of recorded shitstraps.
    Contracts(Vec<ShitstrapContract>),
    /// Answered from the ownership record.
    Ownership {},
    /// The code id in use.
    CodeId(u64),
}

/// Everything the factory stores besides its ownership.
#[derive(Debug)]
pub struct Factory {
    /// The code new shitstraps are created from.
    pub code_id: u64,
    /// Who asked for the shitstrap being created, until its reply.
    pub tmp_instantiator: Option<String>,
    /// Every shitstrap created, by address.
    pub contracts: SortedMap<ShitstrapContract>,
}

impl Factory {
    /// Creates the factory for `creator`; the response names the method and
    /// the creator. (Its ownership is recorded by cw-ownable, outside.)
    pub fn instantiate(msg: &InstantiateMsg, creator: &String) -> (r: (Factory, Vec<FactoryAttribute>))
        ensures
            r.0.code_id == msg.shitstrap_id,
            r.0.tmp_instantiator is None,
            r.0.contracts@.len() == 0,
            r.0.contracts.wf(),
            attributes_model(r.1@) == seq![
                FactoryAttributeModel::MethodInstantiate,
                FactoryAttributeModel::Creator(creator@),
            ],
    {
        let mut attributes: Vec<FactoryAttribute> = Vec::new();
        attributes.push(FactoryAttribute::MethodInstantiate);
        attributes.push(FactoryAttribute::Creator(creator.clone()));
        assert(attributes_model(attributes@) =~= seq![
            FactoryAttributeModel::MethodInstantiate,
            FactoryAttributeModel::Creator(creator@),
        ]);
        (Factory { code_id: msg.shitstrap_id, tmp_instantiator: None, contracts: SortedMap::new() }, attributes)
    }

    /// `sender` asks for a shitstrap (attaching `funds` for it); it is
    /// remembered as the instantiator until the reply.
    pub fn execute_instantiate_native_shitstrap_contract(
        &mut self,
        owner: &Option<String>,
        sender: &String,
        funds: Vec<Coin>,
        instantiate_msg: ShitstrapInstantiateMsg,
        label: String,
    ) -> (r: Result<InstantiatePlan, ContractError>)
        ensures
            planned(option_text(*owner), sender@, funds@, instantiate_msg, label, old(self).code_id, r),
            r is Err ==> *final(self) == *old(self),
            r is Ok ==> {
                &&& final(self).tmp_instantiator == Some(*sender)
                &&& final(self).code_id == old(self).code_id
                &&& final(self).contracts == old(self).contracts
            },
    {
        let plan = instantiate_contract(owner, sender, Some(funds), instantiate_msg, label, self.code_id);
        if plan.is_ok() {
            self.tmp_instantiator = Some(sender.clone());
        }
        plan
    }

    /// The owner changes the code id; `owner_check` is the ownership record's
    /// verdict on the sender.
    pub fn execute_update_code_id(
        &mut self,
        owner_check: Result<(), OwnershipError>,
        shitstrap_code_id: u64,
    ) -> (r: Result<Vec<FactoryAttribute>, ContractError>)
        ensures
            match owner_check {
                Err(e) => r == Err::<Vec<FactoryAttribute>, ContractError>(ContractError::Ownership(e))
                    && *final(self) == *old(self),
                Ok(()) => r matches Ok(a) && {
                    &&& attributes_model(a@) == seq![
                        FactoryAttributeModel::ActionUpdateCodeId,
                        FactoryAttributeModel::ShitstrapCodeId(shitstrap_code_id),
                    ]
                    &&& final(self).code_id == shitstrap_code_id
                    &&& final(self).tmp_instantiator == old(self).tmp_instantiator
                    &&& final(self).contracts == old(self).contracts
                },
            },
    {
        match owner_check {
            Err(e) => Err(ContractError::Ownership(e)),
            Ok(()) => {
                self.code_id = shitstrap_code_id;
                let mut attributes: Vec<FactoryAttribute> = Vec::new();
                attributes.push(FactoryAttribute::ActionUpdateCodeId);
                attributes.push(FactoryAttribute::ShitstrapCodeId(shitstrap_code_id));
                assert(attributes_model(attributes@) =~= seq![
                    FactoryAttributeModel::ActionUpdateCodeId,
                    FactoryAttributeModel::ShitstrapCodeId(shitstrap_code_id),
                ]);
                Ok(attributes)
            },
        }
    }

    /// Records the shitstrap just created at `contract`, strapping `shit`,
    /// for the instantiator remembered, which is then forgotten.
    pub fn record_shitstrap(&mut self, contract: String, instantiator: String, shit: String) -> (r: Vec<
        FactoryAttribute,
    >)
        requires
            old(self).contracts.wf(),
        ensures
            attributes_model(r@) == seq![FactoryAttributeModel::NewShitstrapContract(contract@)],
            final(self).contracts.wf(),
            final(self).contracts@ == crate::sorted_map::upsert_model(
                old(self).contracts@,
                contract@,
                ShitstrapContractModel { contract: contract@, instantiator: instantiator@, shit: shit@ },
            ),
            final(self).tmp_instantiator is None,
            final(self).code_id == old(self).code_id,
    {
        let mut attributes: Vec<FactoryAttribute> = Vec::new();
        attributes.push(FactoryAttribute::NewShitstrapContract(contract.clone()));
        assert(attributes_model(attributes@) =~= seq![FactoryAttributeModel::NewShitstrapContract(contract@)]);
        let record = ShitstrapContract { contract: contract.clone(), instantiator, shit };
        self.contracts.upsert(contract, record);
        self.tmp_instantiator = None;
        attributes
    }

    /// Lists recorded shitstraps in the given direction, past the exclusive
    /// bound, that the selector takes, at most `limit` of them.
    pub fn list(&self, descending: bool, selector: &Selector, bound: &Option<String>, limit: usize) -> (r: Vec<ShitstrapContract>)
        ensures
            r@.map_values(|c: ShitstrapContract| c@) == page(
                self.contracts@,
                descending,
                selector@,
                bound_model(*bound),
                limit as nat,
            ),
    {
        let ghost m = self.contracts@;
        let ghost s = selector@;
        let ghost b = bound_model(*bound);
        let n = self.contracts.entries.len();
        let mut out: Vec<ShitstrapContract> = Vec::new();
        let mut k: usize = 0;
        while k < n && out.len() < limit
            invariant
                n == m.len(),
                m == self.contracts@,
                s == selector@,
                b == bound_model(*bound),
                k <= n,
                out@.len() <= limit,
                out@.map_values(|c: ShitstrapContract| c@) == selection(m, descending, s, b, k as nat),
            decreases n - k,
        {
            let idx = if descending {
                n - 1 - k
            } else {
                k
            };
            assert(visited(m, descending, k as int) == m[idx as int]);
            let entry = &self.contracts.entries[idx];
            assert(m[idx as int] == (entry.0@, entry.1@));
            let in_range = match bound {
                None => true,
                Some(b) => if descending {
                    key_less(&entry.0, b)
                } else {
                    key_less(b, &entry.0)
                },
            };
            let taken = match selector {
                Selector::All => true,
                Selector::Instantiator(i) => entry.1.instantiator == *i,
                Selector::Token(t) => entry.1.shit == *t,
            };
            assert(in_range == past_bound(m[idx as int].0, b, descending));
            assert(taken == selected_by(m[idx as int].1, s));
            let ghost before = out@.map_values(|c: ShitstrapContract| c@);
            if in_range && taken {
                out.push(entry.1.clone());
                assert(out@.map_values(|c: ShitstrapContract| c@) =~= before.push(entry.1@));
            }
            assert(selection(m, descending, s, b, (k + 1) as nat) == if in_range && taken {
                before.push(entry.1@)
            } else {
                before
            });
            k = k + 1;
        }
        proof {
            lemma_selection_prefix(m, descending, s, b, k as nat, n as nat);
            let all = selection(m, descending, s, b, n as nat);
            let got = selection(m, descending, s, b, k as nat);
            if k < n {
                assert(got.len() == limit);
                if all.len() <= limit {
                    assert(all =~= got);
                }
            }
        }
        out
    }

    /// Answers a query; the instantiator or token named in one must already
    /// be a validated address.
    pub fn query(&self, msg: &QueryMsg) -> (r: QueryResponse)
        ensures
            match msg {
                QueryMsg::ListShitstrapContracts { start_after, limit } => r matches QueryResponse::Contracts(v)
                    && v@.map_values(|c: ShitstrapContract| c@) == page(
                    self.contracts@,
                    false,
                    SelectorModel::All,
                    bound_model(*start_after),
                    limit_of(*limit),
                ),
                QueryMsg::ListShitstrapContractsReverse { start_before, limit } => r matches QueryResponse::Contracts(v)
                    && v@.map_values(|c: ShitstrapContract| c@) == page(
                    self.contracts@,
                    true,
                    SelectorModel::All,
                    bound_model(*start_before),
                    limit_of(*limit),
                ),
                QueryMsg::ListShitstrapContractsByInstantiator { instantiator, start_after, limit } => r matches QueryResponse::Contracts(v)
                    && v@.map_values(|c: ShitstrapContract| c@) == page(
                    self.contracts@,
                    false,
                    SelectorModel::Instantiator(instantiator@),
                    bound_model(*start_after),
                    limit_of(*limit),
                ),
                QueryMsg::ListShitstrapContractsByInstantiatorReverse { instantiator, start_before, limit } => r matches QueryResponse::Contracts(v)
                    && v@.map_values(|c: ShitstrapContract| c@) == page(
                    self.contracts@,
                    true,
                    SelectorModel::Instantiator(instantiator@),
                    bound_model(*start_before),
                    limit_of(*limit),
                ),
                QueryMsg::ListShitstrapContractsByToken { recipient, start_after, limit } => r matches QueryResponse::Contracts(v)
                    && v@.map_values(|c: ShitstrapContract| c@) == page(
                    self.contracts@,
                    false,
                    SelectorModel::Token(recipient@),
                    bound_model(*start_after),
                    limit_of(*limit),
                ),
                QueryMsg::ListShitstrapContractsByTokenReverse { recipient, start_before, limit } => r matches QueryResponse::Contracts(v)
                    && v@.map_values(|c: ShitstrapContract| c@) == page(
                    self.contracts@,
                    true,
                    SelectorModel::Token(recipient@),
                    bound_model(*start_before),
                    limit_of(*limit),
                ),
                QueryMsg::Ownership {} => r is Ownership,
                QueryMsg::CodeId {} => r == QueryResponse::CodeId(self.code_id),
            },
    {
        match msg {
            QueryMsg::ListShitstrapContracts { start_after, limit } => QueryResponse::Contracts(
                self.list(false, &Selector::All, start_after, effective_limit(*limit)),
            ),
            QueryMsg::ListShitstrapContractsReverse { start_before, limit } => QueryResponse::Contracts(
                self.list(true, &Selector::All, start_before, effective_limit(*limit)),
            ),
            QueryMsg::ListShitstrapContractsByInstantiator { instantiator, start_after, limit } => {
                let sel = Selector::Instantiator(instantiator.clone());
                QueryResponse::Contracts(self.list(false, &sel, start_after, effective_limit(*limit)))
            },
            QueryMsg::ListShitstrapContractsByInstantiatorReverse { instantiator, start_before, limit } => {
                let sel = Selector::Instantiator(instantiator.clone());
                QueryResponse::Contracts(self.list(true, &sel, start_before, effective_limit(*limit)))
            },
            QueryMsg::ListShitstrapContractsByToken { recipient, start_after, limit } => {
                let sel = Selector::Token(recipient.clone());
                QueryResponse::Contracts(self.list(false, &sel, start_after, effective_limit(*limit)))
            },
            QueryMsg::ListShitstrapContractsByTokenReverse { recipient, start_before, limit } => {
                let sel = Selector::Token(recipient.clone());
                QueryResponse::Contracts(self.list(true, &sel, start_before, effective_limit(*limit)))
            },
            QueryMsg::Ownership {} => QueryResponse::Ownership {},
            QueryMsg::CodeId {} => QueryResponse::CodeId(self.code_id),
        }
    }
}

/// Every record is kept under its own contract address.
pub open spec fn keyed_by_address(m: Seq<(Seq<char>, ShitstrapContractModel)>) -> bool {
    forall|i: int| 0 <= i < m.len() ==> #[trigger] m[i].0 == m[i].1.contract
}

/// `a` is walked before `b` in the given direction.
pub open spec fn walk_lt(a: Seq<char>, b: Seq<char>, descending: bool) -> bool {
    if descending {
        key_lt(b, a)
    } else {
        key_lt(a, b)
    }
}

proof fn lemma_selection_walk(
    m: Seq<(Seq<char>, ShitstrapContractModel)>,
    descending: bool,
    s: SelectorModel,
    b: Option<Seq<char>>,
    k: nat,
)
    requires
        strictly_ascending(keys_of(m)),
        keyed_by_address(m),
        k <= m.len(),
    ensures
        forall|i: int|
            0 <= i < selection(m, descending, s, b, k).len() ==> selected_by(
                #[trigger] selection(m, descending, s, b, k)[i],
                s,
            ) && past_bound(selection(m, descending, s, b, k)[i].contract, b, descending),
        forall|i: int, j: int|
            0 <= i < j < selection(m, descending, s, b, k).len() ==> walk_lt(
                #[trigger] selection(m, descending, s, b, k)[i].contract,
                #[trigger] selection(m, descending, s, b, k)[j].contract,
                descending,
            ),
        k < m.len() ==> forall|i: int|
            0 <= i < selection(m, descending, s, b, k).len() ==> walk_lt(
                #[trigger] selection(m, descending, s, b, k)[i].contract,
                visited(m, descending, k as int).0,
                descending,
            ),
    decreases k,
{
    if k > 0 {
        lemma_selection_walk(m, descending, s, b, (k - 1) as nat);
        let prev = selection(m, descending, s, b, (k - 1) as nat);
        let cur = selection(m, descending, s, b, k);
        let e = visited(m, descending, k - 1);
        let keys = keys_of(m);
        let n = m.len() as int;
        assert(e.1.contract == e.0) by {
            if descending {
                assert(m[n - 1 - (k - 1)].0 == m[n - 1 - (k - 1)].1.contract);
            } else {
                assert(m[k - 1].0 == m[k - 1].1.contract);
            }
        }
        if k < m.len() {
            let nxt = visited(m, descending, k as int);
            assert(walk_lt(e.0, nxt.0, descending)) by {
                if descending {
                    assert(keys[n - 1 - k] == nxt.0);
                    assert(keys[n - k] == e.0);
                } else {
                    assert(keys[k - 1] == e.0);
                    assert(keys[k as int] == nxt.0);
                }
            }
            assert forall|i: int| 0 <= i < cur.len() implies walk_lt(
                #[trigger] cur[i].contract,
                nxt.0,
                descending,
            ) by {
                if i < prev.len() {
                    assert(cur[i] == prev[i]);
                    if descending {
                        lemma_key_lt_transitive(nxt.0, e.0, cur[i].contract);
                    } else {
                        lemma_key_lt_transitive(cur[i].contract, e.0, nxt.0);
                    }
                }
            }
        }
        assert forall|i: int, j: int| 0 <= i < j < cur.len() implies walk_lt(
            #[trigger] cur[i].contract,
            #[trigger] cur[j].contract,
            descending,
        ) by {
            assert(cur[i] == prev[i]);
            if j < prev.len() {
                assert(cur[j] == prev[j]);
            }
        }
        assert forall|i: int| 0 <= i < cur.len() implies selected_by(#[trigger] cur[i], s)
            && past_bound(cur[i].contract, b, descending) by {
            if i < prev.len() {
                assert(cur[i] == prev[i]);
            }
        }
    }
}

/// A listing holds only entries that its selector takes and that lie past its
/// bound, walked strictly in its direction; it holds all of them when there
/// are no more than the limit, else exactly the limit.
pub proof fn law_listing_sound(
    m: Seq<(Seq<char>, ShitstrapContractModel)>,
    descending: bool,
    s: SelectorModel,
    b: Option<Seq<char>>,
    limit: nat,
)
    requires
        strictly_ascending(keys_of(m)),
        keyed_by_address(m),
    ensures
        forall|i: int|
            0 <= i < page(m, descending, s, b, limit).len() ==> selected_by(
                #[trigger] page(m, descending, s, b, limit)[i],
                s,
            ) && past_bound(page(m, descending, s, b, limit)[i].contract, b, descending),
        forall|i: int, j: int|
            0 <= i < j < page(m, descending, s, b, limit).len() ==> walk_lt(
                #[trigger] page(m, descending, s, b, limit)[i].contract,
                #[trigger] page(m, descending, s, b, limit)[j].contract,
                descending,
            ),
        page(m, descending, s, b, limit).len() == if selection(
            m,
            descending,
            s,
            b,
            m.len(),
        ).len() <= limit {
            selection(m, descending, s, b, m.len()).len()
        } else {
            limit
        },
{
    lemma_selection_walk(m, descending, s, b, m.len());
    let all = selection(m, descending, s, b, m.len());
    let p = page(m, descending, s, b, limit);
    if all.len() > limit {
        assert forall|i: int| 0 <= i < p.len() implies p[i] == all[i] by {}
    }
}

/// Recording a created shitstrap keeps every record under its own address.
pub proof fn law_record_keeps_keyed(
    m: Seq<(Seq<char>, ShitstrapContractModel)>,
    contract: Seq<char>,
    instantiator: Seq<char>,
    shit: Seq<char>,
)
    requires
        keyed_by_address(m),
    ensures
        keyed_by_address(
            upsert_model(
                m,
                contract,
                ShitstrapContractModel { contract, instantiator, shit },
            ),
        ),
{
    let u = upsert_model(m, contract, ShitstrapContractModel { contract, instantiator, shit });
    let p = lower_bound(keys_of(m), contract);
    crate::sorted_map::lemma_lower_bound_range(keys_of(m), contract, 0);
    assert forall|i: int| 0 <= i < u.len() implies #[trigger] u[i].0 == u[i].1.contract by {
        if p < m.len() && m[p].0 == contract {
            if i != p {
                assert(u[i] == m[i]);
            }
        } else {
            if i < p {
                assert(u[i] == m[i]);
            } else if i > p {
                assert(u[i] == m[i - 1]);
            }
        }
    }
}

} // verus!
