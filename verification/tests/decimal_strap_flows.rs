use std::collections::HashMap;

use cw_shitstrap::decimal_strap::{DecimalShitstrap, ExecuteMsg, InstantiateMsg, QueryMsg, QueryResponse};
use cw_shitstrap::denom::{CheckedDenom, Coin, DenomFault, Transfer, UncheckedDenom};
use cw_shitstrap::error::ContractError;
use cw_shitstrap::msg::{AssetUnchecked, PossibleShit, Response};

pub const OWNER: &str = "owner";
pub const SHITTER1: &str = "shitter1";
pub const SHITTER2: &str = "shitter2";
pub const SHITSTRAP: &str = "contract1";
pub const ONE: u128 = 1_000_000_000_000_000_000;

struct Chain {
    balances: HashMap<(String, String), u128>,
    strap: DecimalShitstrap,
}

fn coin(amount: u128, denom: &str) -> Coin {
    Coin { denom: denom.to_string(), amount }
}

impl Chain {
    fn balance(&self, who: &str, denom: &str) -> u128 {
        *self.balances.get(&(who.to_string(), denom.to_string())).unwrap_or(&0)
    }

    fn mint(&mut self, who: &str, amount: u128, denom: &str) {
        *self.balances.entry((who.to_string(), denom.to_string())).or_insert(0) += amount;
    }

    fn send(&mut self, from: &str, to: &str, amount: u128, denom: &str) {
        let have = self.balance(from, denom);
        assert!(have >= amount, "insufficient funds");
        self.balances.insert((from.to_string(), denom.to_string()), have - amount);
        self.mint(to, amount, denom);
    }

    fn apply(&mut self, resp: &Response) {
        for Transfer { denom, recipient, amount } in resp.messages.iter() {
            let d = match denom {
                CheckedDenom::Native(d) => d,
                CheckedDenom::Cw20(a) => a,
            };
            self.send(SHITSTRAP, recipient, *amount, d);
        }
    }

    fn execute(&mut self, sender: &str, msg: ExecuteMsg, funds: Vec<Coin>) -> Result<Response, ContractError> {
        // no cw20 contract exists on this chain
        let verdict = match &msg {
            ExecuteMsg::ShitStrap { shit: AssetUnchecked { denom: UncheckedDenom::Cw20(a), .. } } => {
                Some(Err(DenomFault::InvalidCw20 {
                    err: cosmwasm_std::StdError::generic_err(format!("no such contract: {a}")),
                }))
            }
            _ => None,
        };
        if let ExecuteMsg::ShitStrap { shit } = &msg {
            let abort = self.strap.strap_abort_check(&sender.to_string(), &funds, &shit.denom, shit.amount, &verdict);
            assert!(abort.is_none());
        }
        for c in funds.iter() {
            self.send(sender, SHITSTRAP, c.amount, &c.denom);
        }
        let res = self.strap.execute(sender.to_string(), funds.iter().map(|c| coin(c.amount, &c.denom)).collect(), msg, verdict);
        match &res {
            Ok(resp) => self.apply(resp),
            Err(_) => {
                for c in funds.iter() {
                    self.send(SHITSTRAP, sender, c.amount, &c.denom);
                }
            }
        }
        res
    }

    fn participate_native(&mut self, sender: &str, amount: u128, denom: &str) -> Result<Response, ContractError> {
        self.execute(
            sender,
            ExecuteMsg::ShitStrap { shit: AssetUnchecked::from_native(denom, amount) },
            vec![coin(amount, denom)],
        )
    }

    fn participate_cw20(&mut self, sender: &str, amount: u128) -> Result<Response, ContractError> {
        self.execute(
            sender,
            ExecuteMsg::ShitStrap {
                shit: AssetUnchecked { denom: UncheckedDenom::Cw20("poo".into()), amount },
            },
            vec![],
        )
    }
}

fn default_init(possible: Vec<PossibleShit>) -> Chain {
    let init = InstantiateMsg {
        owner: OWNER.into(),
        accepted: possible,
        cutoff: 222u128,
        shitmos: "ushit".into(),
    };
    let strap = DecimalShitstrap::instantiate(init, Ok(OWNER.to_string())).unwrap();
    let mut chain = Chain { balances: HashMap::new(), strap };
    chain.mint(SHITTER2, 1000, "poo");
    chain
}

fn setup_default_funds(chain: &mut Chain) {
    chain.mint(OWNER, 1000, "uatom");
    chain.mint(SHITTER1, 1_000, "uatom");
    chain.mint(SHITTER2, 1_000, "usilk");
    chain.mint(SHITSTRAP, 1_000_000, "ushit");
}

#[test]
fn test_test_shitstrap() {
    let mut shit = default_init(vec![PossibleShit {
        token: UncheckedDenom::Native("uatom".into()),
        shit_rate: ONE,
    }]);

    let first_deposit = 221u128;
    setup_default_funds(&mut shit);

    // try to participate in shitstrap with wrong native token
    let err = shit
        .execute(
            OWNER,
            ExecuteMsg::ShitStrap {
                shit: AssetUnchecked { denom: UncheckedDenom::Native("usilk".into()), amount: first_deposit },
            },
            vec![coin(first_deposit, "uatom")],
        )
        .unwrap_err();
    assert_eq!(ContractError::WrongShit {}, err);
    // try to participate in shitstrap with wrong cw20 token
    let err = shit.participate_cw20(OWNER, first_deposit).unwrap_err();
    assert_eq!(ContractError::WrongShit {}, err);

    // try to participate without sending token
    let err = shit
        .execute(
            SHITTER1,
            ExecuteMsg::ShitStrap {
                shit: AssetUnchecked { denom: UncheckedDenom::Native("uatom".into()), amount: first_deposit },
            },
            vec![],
        )
        .unwrap_err();
    assert_eq!(ContractError::DidntSendShit {}, err);

    // participate in shitstrap with correct token, but less sent then specified
    shit.execute(
        SHITTER1,
        ExecuteMsg::ShitStrap {
            shit: AssetUnchecked { denom: UncheckedDenom::Native("uatom".into()), amount: first_deposit },
        },
        vec![coin(22, "uatom")],
    )
    .unwrap_err();

    // participate in shitstrap with correct token
    shit.participate_native(SHITTER1, 221, "uatom").unwrap();
    // confirm shit_rate is calculated correctly
    assert_eq!(shit.strap.query(&QueryMsg::ShitPile {}), QueryResponse::ShitPile(first_deposit));

    // confirm new balance of shitstrap
    let balance = shit.balance(SHITSTRAP, "uatom");
    let shit_rate = match shit.strap.query(&QueryMsg::ShitRate { asset: "uatom".to_string() }) {
        QueryResponse::ShitRate(r) => r,
        other => panic!("unexpected {other:?}"),
    };
    let calculated = cosmwasm_std::Uint128::new(balance) * cosmwasm_std::Decimal::raw(shit_rate.unwrap());
    assert_eq!(calculated.u128(), first_deposit);

    // shitstrap reaches limit
    shit.execute(
        SHITTER1,
        ExecuteMsg::ShitStrap {
            shit: AssetUnchecked { denom: UncheckedDenom::Native("uatom".into()), amount: 2u128 },
        },
        vec![coin(2u128, "uatom")],
    )
    .unwrap();

    // confirm contract will not continue to shitstrap
    assert_eq!(shit.strap.query(&QueryMsg::FullOfShit {}), QueryResponse::FullOfShit(true));

    assert_eq!(shit.balance(SHITTER1, "uatom"), 779u128);

    // no more shitstrapping can commence
    let err = shit
        .execute(
            SHITTER1,
            ExecuteMsg::ShitStrap {
                shit: AssetUnchecked { denom: UncheckedDenom::Native("uatom".into()), amount: 2u128 },
            },
            vec![coin(2u128, "uatom")],
        )
        .unwrap_err();
    assert_eq!(ContractError::FullOfShit {}, err);

    // refund on shitstrapping occurs
    shit.execute(SHITTER1, ExecuteMsg::RefundShitter {}, vec![]).unwrap();

    assert_eq!(shit.balance(SHITTER1, "uatom"), 780u128);
}

#[test]
fn decimal_filling_sends_value_back_and_owes_overshoot() {
    // 0.5 rate: 500 atoms are worth 250, 28 past a cutoff of 222
    let mut shit = default_init(vec![PossibleShit::native_denom("uatom", ONE / 2)]);
    setup_default_funds(&mut shit);
    let resp = shit.participate_native(SHITTER1, 500, "uatom").unwrap();
    assert_eq!(
        resp.messages,
        vec![
            Transfer { denom: CheckedDenom::Native("uatom".into()), recipient: SHITTER1.into(), amount: 250 },
            Transfer { denom: CheckedDenom::Native("ushit".into()), recipient: SHITTER1.into(), amount: 250 },
        ]
    );
    assert!(resp.attributes.is_empty());
    // overshoot 28 at 0.5 gives back 56 atoms
    let resp = shit.execute(SHITTER1, ExecuteMsg::RefundShitter {}, vec![]).unwrap();
    assert_eq!(
        resp.messages,
        vec![Transfer { denom: CheckedDenom::Native("uatom".into()), recipient: SHITTER1.into(), amount: 56 }]
    );
    assert_eq!(shit.execute(SHITTER1, ExecuteMsg::RefundShitter {}, vec![]).unwrap_err(), ContractError::FullOfShit {});
}

#[test]
fn decimal_admin_flush_and_cutoff_query() {
    let mut shit = default_init(vec![PossibleShit::native_denom("uatom", ONE)]);
    assert_eq!(shit.strap.query(&QueryMsg::Cutoff {}), QueryResponse::Cutoff(222));
    assert_eq!(shit.execute(SHITTER1, ExecuteMsg::Flush {}, vec![]).unwrap_err(), ContractError::ShittyAuthorization {});
    shit.execute(OWNER, ExecuteMsg::Flush {}, vec![]).unwrap();
    assert_eq!(shit.strap.query(&QueryMsg::FullOfShit {}), QueryResponse::FullOfShit(true));
    let bad = DecimalShitstrap::instantiate(
        InstantiateMsg { owner: "x".into(), accepted: vec![], cutoff: 1, shitmos: "ushit".into() },
        Err(cosmwasm_std::StdError::generic_err("invalid address")),
    )
    .unwrap_err();
    assert_eq!(bad, ContractError::ShitStd(cosmwasm_std::StdError::generic_err("invalid address")));
}
