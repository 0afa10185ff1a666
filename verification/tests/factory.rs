use cw_shitstrap::denom::{Coin, UncheckedDenom};
use cw_shitstrap::factory::{
    effective_limit, instantiate_contract, reply_address, reply_target, ContractError, Factory, FactoryAttribute, InstantiateMsg, QueryMsg,
    QueryResponse, ShitstrapContract, INSTANTIATE_CONTRACT_REPLY_ID,
};
use cw_shitstrap::msg::PossibleShit;
use cw_shitstrap::shitstrap::InstantiateMsg as ShitstrapInstantiateMsg;

fn strap_msg(owner: Option<&str>) -> ShitstrapInstantiateMsg {
    ShitstrapInstantiateMsg {
        owner: owner.map(|o| o.to_string()),
        accepted: vec![PossibleShit::native_denom("uatom", 1)],
        cutoff: 100,
        shitmos: UncheckedDenom::Native("ushit".into()),
        title: "t".into(),
        description: "d".into(),
    }
}

fn contracts(r: QueryResponse) -> Vec<String> {
    match r {
        QueryResponse::Contracts(v) => v.into_iter().map(|c| c.contract).collect(),
        other => panic!("unexpected {other:?}"),
    }
}

fn filled() -> Factory {
    let mut f = Factory::instantiate(&InstantiateMsg { owner: None, shitstrap_id: 7 }, &"creator".to_string()).0;
    for (c, who, shit) in [
        ("contract5", "alice", "ushit"),
        ("contract2", "bob", "upoo"),
        ("contract9", "alice", "upoo"),
        ("contract1", "alice", "ushit"),
        ("contract7", "bob", "ushit"),
    ] {
        f.tmp_instantiator = Some(who.into());
        f.record_shitstrap(c.into(), who.into(), shit.into());
    }
    f
}

#[test]
fn limits_default_and_cap() {
    assert_eq!(effective_limit(None), 10);
    assert_eq!(effective_limit(Some(3)), 3);
    assert_eq!(effective_limit(Some(50)), 50);
    assert_eq!(effective_limit(Some(51)), 50);
}

#[test]
fn listings_walk_in_address_order() {
    let f = filled();
    assert_eq!(
        contracts(f.query(&QueryMsg::ListShitstrapContracts { start_after: None, limit: None })),
        vec!["contract1", "contract2", "contract5", "contract7", "contract9"]
    );
    assert_eq!(
        contracts(f.query(&QueryMsg::ListShitstrapContracts { start_after: Some("contract2".into()), limit: Some(2) })),
        vec!["contract5", "contract7"]
    );
    assert_eq!(
        contracts(f.query(&QueryMsg::ListShitstrapContractsReverse { start_before: Some("contract7".into()), limit: None })),
        vec!["contract5", "contract2", "contract1"]
    );
    assert_eq!(
        contracts(f.query(&QueryMsg::ListShitstrapContractsByInstantiator {
            instantiator: "alice".into(),
            start_after: Some("contract1".into()),
            limit: None
        })),
        vec!["contract5", "contract9"]
    );
    assert_eq!(
        contracts(f.query(&QueryMsg::ListShitstrapContractsByInstantiatorReverse {
            instantiator: "bob".into(),
            start_before: None,
            limit: Some(1)
        })),
        vec!["contract7"]
    );
    assert_eq!(
        contracts(f.query(&QueryMsg::ListShitstrapContractsByToken {
            recipient: "upoo".into(),
            start_after: None,
            limit: None
        })),
        vec!["contract2", "contract9"]
    );
    assert_eq!(
        contracts(f.query(&QueryMsg::ListShitstrapContractsByTokenReverse {
            recipient: "ushit".into(),
            start_before: Some("contract5".into()),
            limit: None
        })),
        vec!["contract1"]
    );
    assert_eq!(f.query(&QueryMsg::CodeId {}), QueryResponse::CodeId(7));
    assert_eq!(f.query(&QueryMsg::Ownership {}), QueryResponse::Ownership {});
}

#[test]
fn recording_again_replaces_and_forgets_instantiator() {
    let mut f = filled();
    f.tmp_instantiator = Some("carol".into());
    let attributes = f.record_shitstrap("contract2".into(), "carol".into(), "uxyz".into());
    assert_eq!(attributes, vec![FactoryAttribute::NewShitstrapContract("contract2".into())]);
    assert_eq!(f.tmp_instantiator, None);
    match f.query(&QueryMsg::ListShitstrapContractsByToken { recipient: "uxyz".into(), start_after: None, limit: None }) {
        QueryResponse::Contracts(v) => assert_eq!(
            v,
            vec![ShitstrapContract { contract: "contract2".into(), instantiator: "carol".into(), shit: "uxyz".into() }]
        ),
        other => panic!("unexpected {other:?}"),
    }
    assert_eq!(contracts(f.query(&QueryMsg::ListShitstrapContracts { start_after: None, limit: None })).len(), 5);
}

#[test]
fn only_owner_creates_when_owned() {
    let owner = Some("admin".to_string());
    let err = instantiate_contract(&owner, &"eve".into(), None, strap_msg(Some("eve")), "l".into(), 3).unwrap_err();
    assert_eq!(err, ContractError::Unauthorized {});
    let plan = instantiate_contract(&owner, &"admin".into(), None, strap_msg(Some("dao")), "l".into(), 3).unwrap();
    assert_eq!(plan.admin, Some("dao".into()));
    assert_eq!(plan.code_id, 3);
    assert!(plan.funds.is_empty());
    assert_eq!(plan.reply_id, INSTANTIATE_CONTRACT_REPLY_ID);
    assert!(plan.reply_on_success);
    assert_eq!(plan.attributes, vec![FactoryAttribute::ActionInstantiateShitstrap]);
    // no owner: anyone may create, and the funds go along
    let mut f = Factory::instantiate(&InstantiateMsg { owner: None, shitstrap_id: 4 }, &"creator".to_string()).0;
    let plan = f
        .execute_instantiate_native_shitstrap_contract(
            &None,
            &"eve".into(),
            vec![Coin { denom: "uatom".into(), amount: 5 }],
            strap_msg(None),
            "label".into(),
        )
        .unwrap();
    assert_eq!(plan.admin, None);
    assert_eq!(plan.code_id, 4);
    assert_eq!(plan.funds, vec![Coin { denom: "uatom".into(), amount: 5 }]);
    assert_eq!(f.tmp_instantiator, Some("eve".into()));
    // refused creation remembers nobody
    let mut g = Factory::instantiate(&InstantiateMsg { owner: None, shitstrap_id: 4 }, &"creator".to_string()).0;
    assert!(g
        .execute_instantiate_native_shitstrap_contract(&owner, &"eve".into(), vec![], strap_msg(None), "l".into())
        .is_err());
    assert_eq!(g.tmp_instantiator, None);
}

#[test]
fn code_id_and_replies() {
    let mut f = Factory::instantiate(&InstantiateMsg { owner: Some("admin".into()), shitstrap_id: 1 }, &"creator".to_string()).0;
    assert_eq!(
        f.execute_update_code_id(Err(cw_ownable::OwnershipError::NotOwner), 9).unwrap_err(),
        ContractError::Ownership(cw_ownable::OwnershipError::NotOwner)
    );
    assert_eq!(f.code_id, 1);
    let attributes = f.execute_update_code_id(Ok(()), 9).unwrap();
    assert_eq!(attributes, vec![FactoryAttribute::ActionUpdateCodeId, FactoryAttribute::ShitstrapCodeId(9)]);
    assert_eq!(f.code_id, 9);
    assert!(reply_target(0).is_ok());
    assert_eq!(reply_target(3).unwrap_err(), ContractError::UnknownReplyId { id: 3 });
}

#[test]
fn instantiation_names_method_and_creator() {
    let (f, attributes) = Factory::instantiate(&InstantiateMsg { owner: Some("admin".into()), shitstrap_id: 12 }, &"deployer".to_string());
    assert_eq!(f.code_id, 12);
    assert_eq!(attributes, vec![FactoryAttribute::MethodInstantiate, FactoryAttribute::Creator("deployer".into())]);
}

#[test]
fn reply_address_decodes_only_the_instantiation_reply() {
    // protobuf field 1 (length-delimited): the contract address
    let mut data = vec![0x0a, 9];
    data.extend_from_slice(b"contract3");
    assert_eq!(reply_address(INSTANTIATE_CONTRACT_REPLY_ID, Ok(Some(data.clone()))).unwrap(), "contract3");
    assert_eq!(reply_address(5, Ok(Some(data))).unwrap_err(), ContractError::UnknownReplyId { id: 5 });
    assert_eq!(
        reply_address(INSTANTIATE_CONTRACT_REPLY_ID, Err("out of gas".into())).unwrap_err(),
        ContractError::SubMsgFailure("out of gas".into())
    );
    assert_eq!(reply_address(INSTANTIATE_CONTRACT_REPLY_ID, Ok(None)).unwrap_err(), ContractError::MissingReplyData);
    // field 2 where field 1 is due
    let bad = vec![0x12, 1, b'x'];
    assert!(matches!(
        reply_address(INSTANTIATE_CONTRACT_REPLY_ID, Ok(Some(bad))).unwrap_err(),
        ContractError::ParseReply(cw_utils::ParseReplyError::ParseFailure(_))
    ));
}
