use std::collections::HashMap;

use cw_shitstrap::denom::{CheckedDenom, Coin, DenomFault, Transfer, UncheckedDenom};
use cw_shitstrap::error::ContractError;
use cw_shitstrap::msg::{AssetUnchecked, Attribute, Cw20ReceiveMsg, PossibleShit, ReceiveMsg, Response};
use cw_shitstrap::shitstrap::{
    ExecuteMsg, InstantiateMsg, QueryMsg, QueryResponse, Shitstrap, MAX_DEC_PRECISION,
};

pub const DEFAULT_BALANCE: u128 = 1_000_000_000;
pub const DEFAULT_CW20: &str = "contract0";
pub const SHITSTRAP: &str = "contract1";
pub const OWNER: &str = "owner";
pub const SHITTER1: &str = "shitter1";
pub const SHITTER2: &str = "shitter2";
pub const SHITTER3: &str = "shitter3";

/// Balances per (holder, denomination); cw20 balances use the token's address
/// as the denomination.
struct Chain {
    balances: HashMap<(String, String), u128>,
    strap: Shitstrap,
}

fn coin(amount: u128, denom: &str) -> Coin {
    Coin { denom: denom.to_string(), amount }
}

fn decimal(atomics: u128, rate: u128) -> u128 {
    cosmwasm_std::Uint128::new(atomics)
        .mul_floor(cosmwasm_std::Decimal::from_atomics(rate, MAX_DEC_PRECISION).unwrap())
        .u128()
}

impl Chain {
    fn balance(&self, who: &str, denom: &str) -> u128 {
        *self.balances.get(&(who.to_string(), denom.to_string())).unwrap_or(&0)
    }

    fn mint(&mut self, who: &str, amount: u128, denom: &str) {
        *self.balances.entry((who.to_string(), denom.to_string())).or_insert(0) += amount;
    }

    fn send(&mut self, from: &str, to: &str, amount: u128, denom: &str) {
        let have = self.balance(from, denom);
        assert!(have >= amount, "insufficient funds");
        self.balances.insert((from.to_string(), denom.to_string()), have - amount);
        self.mint(to, amount, denom);
    }

    fn apply(&mut self, resp: &Response) {
        for t in resp.messages.iter() {
            let Transfer { denom, recipient, amount } = t;
            let d = match denom {
                CheckedDenom::Native(d) => d,
                CheckedDenom::Cw20(a) => a,
            };
            self.send(SHITSTRAP, recipient, *amount, d);
        }
    }

    /// The chain's check of a cw20 address: only the cw20 contract answers.
    fn cw20_verdict(&self, denom: &UncheckedDenom) -> Option<Result<String, DenomFault>> {
        match denom {
            UncheckedDenom::Cw20(a) if a == DEFAULT_CW20 => Some(Ok(a.clone())),
            UncheckedDenom::Cw20(a) => Some(Err(DenomFault::InvalidCw20 {
                err: cosmwasm_std::StdError::generic_err(format!("no such contract: {a}")),
            })),
            UncheckedDenom::Native(_) => None,
        }
    }

    /// Runs a request: funds move to the contract first and back on failure.
    fn execute(&mut self, sender: &str, msg: ExecuteMsg, funds: Vec<Coin>) -> Result<Response, ContractError> {
        let verdict = match &msg {
            ExecuteMsg::ShitStrap { shit } => self.cw20_verdict(&shit.denom),
            ExecuteMsg::Receive(_) => self.cw20_verdict(&UncheckedDenom::Cw20(sender.to_string())),
            _ => None,
        };
        for c in funds.iter() {
            self.send(sender, SHITSTRAP, c.amount, &c.denom);
        }
        let res = match self.strap.handle(sender.to_string(), funds.iter().map(|c| coin(c.amount, &c.denom)).collect(), msg, verdict) {
            Ok(res) => res,
            Err(a) => panic!("request would abort: {a:?}"),
        };
        match &res {
            Ok(resp) => self.apply(resp),
            Err(_) => {
                for c in funds.iter() {
                    self.send(SHITSTRAP, sender, c.amount, &c.denom);
                }
            }
        }
        res
    }

    fn participate_native(&mut self, sender: &str, amount: u128, denom: &str) -> Result<Response, ContractError> {
        self.execute(
            sender,
            ExecuteMsg::ShitStrap { shit: AssetUnchecked::from_native(denom, amount) },
            vec![coin(amount, denom)],
        )
    }

    fn participate_cw20(&mut self, sender: &str, amount: u128, contract: &str) -> Result<Response, ContractError> {
        self.execute(
            contract,
            ExecuteMsg::Receive(Cw20ReceiveMsg {
                sender: sender.to_string(),
                amount,
                msg: ReceiveMsg::ShitStrap { shit_strapper: sender.to_string() },
            }),
            vec![],
        )
    }

    fn pile(&self) -> u128 {
        match self.strap.query(&QueryMsg::ShitPile {}) {
            QueryResponse::ShitPile(v) => v,
            other => panic!("unexpected {other:?}"),
        }
    }
}

fn default_init(possible: Vec<PossibleShit>, cutoff: u128) -> Chain {
    let init = InstantiateMsg {
        owner: Some(OWNER.to_string()),
        accepted: possible,
        cutoff,
        shitmos: UncheckedDenom::Native("ushit".into()),
        title: "yoo".into(),
        description: "yoooooo".into(),
    };
    let strap = Shitstrap::instantiate(OWNER.to_string(), init, Some(Ok(OWNER.to_string())), None).unwrap();
    let mut chain = Chain { balances: HashMap::new(), strap };
    chain.mint(SHITTER2, 100000000, DEFAULT_CW20);
    chain.mint(SHITTER3, 100000000, DEFAULT_CW20);
    chain
}

fn setup_default_funds(chain: &mut Chain) {
    chain.mint(OWNER, 1_000_000_000, "uatom");
    chain.mint(SHITTER1, 1_000_000_000, "uatom");
    chain.mint(SHITTER3, 1_000_000_000, "ushit");
    chain.mint(SHITTER2, 1_000_000_000, "usilk");
    chain.mint(SHITSTRAP, 1_000_000_000_000, "ushit");
}

#[test]
fn test_bad_init() {
    let mut possible = vec![
        PossibleShit::native_denom("uatom", 1_000_000u128),
        PossibleShit::native_denom("uatom", 1_000_000u128),
        PossibleShit::native_denom("uatom3", 0u128),
        PossibleShit::native_denom("uatom4", 1_000_000u128),
    ];
    let copy = |v: &Vec<PossibleShit>| v.iter().map(|p| p.clone()).collect::<Vec<_>>();
    let msg = |accepted: Vec<PossibleShit>, cutoff: u128, title: &str, description: &str| InstantiateMsg {
        owner: Some(OWNER.to_string()),
        accepted,
        cutoff,
        shitmos: UncheckedDenom::Native("ushit".into()),
        title: title.into(),
        description: description.into(),
    };
    let init = |m: InstantiateMsg| Shitstrap::instantiate(OWNER.to_string(), m, Some(Ok(OWNER.to_string())), None);
    let title = "a".repeat(101);
    let description = "y".repeat(1001);

    let err = init(msg(copy(&possible), 0, &title, &description)).unwrap_err();
    assert_eq!(ContractError::ShittyCutoffRatio {}, err);
    let err = init(msg(copy(&possible), 1_000_000, &title, &description)).unwrap_err();
    assert_eq!(ContractError::ShittyTitle {}, err);
    let err = init(msg(copy(&possible), 1_000_000, "shitstrap", &description)).unwrap_err();
    assert_eq!(ContractError::ShittyDescription {}, err);
    let err = init(msg(copy(&possible), 1_000_000, "shitstrap", "shitstrap description")).unwrap_err();
    assert_eq!(ContractError::UnnaceptableShitAmount {}, err);
    possible.pop();
    let err = init(msg(copy(&possible), 1_000_000, "shitstrap", "shitstrap description")).unwrap_err();
    assert_eq!(ContractError::SameShit {}, err);
    possible[1].token = UncheckedDenom::Native("uatom2".into());
    let err = init(msg(copy(&possible), 1_000_000, "shitstrap", "shitstrap description")).unwrap_err();
    assert_eq!(ContractError::ShittyConversionRatio {}, err);
    possible[2].shit_rate = 1;
    init(msg(copy(&possible), 1_000_000, "shitstrap", "shitstrap description")).unwrap();
}

#[test]
fn test_shitstrap() {
    // 1:1 ratio
    let mut shit = default_init(vec![PossibleShit::native_denom("uatom", 1000000000000000000u128)], 222000000u128);
    // deposit 1 less than max
    let first_deposit = 221_000_000u128;
    setup_default_funds(&mut shit);

    // error with wrong native token
    let err = shit
        .execute(
            OWNER,
            ExecuteMsg::ShitStrap { shit: AssetUnchecked::from_native("usilk", first_deposit) },
            vec![coin(first_deposit, "uatom")],
        )
        .unwrap_err();
    assert_eq!(ContractError::WrongShit {}, err);

    // error with wrong cw20 token
    let err = shit.participate_cw20(OWNER, first_deposit, "contract0").unwrap_err();
    assert_eq!(ContractError::WrongShit {}, err);

    // error without sending token
    let err = shit
        .execute(
            SHITTER1,
            ExecuteMsg::ShitStrap { shit: AssetUnchecked::from_native("uatom", first_deposit) },
            vec![],
        )
        .unwrap_err();
    assert_eq!(ContractError::DidntSendShit {}, err);

    // error with correct token, but less sent then specified
    shit.execute(
        SHITTER1,
        ExecuteMsg::ShitStrap { shit: AssetUnchecked::from_native("uatom", first_deposit) },
        vec![coin(22, "uatom")],
    )
    .unwrap_err();

    assert_eq!(shit.balance(OWNER, "uatom"), DEFAULT_BALANCE);

    // participate in shitstrap with correct token
    shit.participate_native(SHITTER1, 221_000_000, "uatom").unwrap();

    // confirm shit_rate is calculated correctly
    assert_eq!(shit.pile(), first_deposit);

    // confirm new balance of shitstrap
    let balance = shit.balance(SHITSTRAP, "uatom");
    let shit_rate = match shit.strap.query(&QueryMsg::ShitRate { asset: "uatom".to_string() }) {
        QueryResponse::ShitRate(r) => r,
        other => panic!("unexpected {other:?}"),
    };
    assert_eq!(decimal(balance, shit_rate.unwrap()), first_deposit);

    // shitstrap reaches limit
    shit.participate_native(SHITTER1, 2_000_000u128, "uatom").unwrap();

    // confirm contract will not continue to shitstrap
    assert_eq!(shit.strap.query(&QueryMsg::FullOfShit {}), QueryResponse::FullOfShit(true));

    // confirm balances
    assert_eq!(shit.balance(SHITSTRAP, "uatom"), 1_000_000u128);
    assert_eq!(shit.balance(SHITTER1, "uatom"), 777_000_000u128);
    assert_eq!(shit.balance(OWNER, "uatom"), 1_222_000_000u128);

    // no more shitstrapping can commence
    let err = shit.participate_native(SHITTER1, 2_000_000u128, "uatom").unwrap_err();
    assert_eq!(ContractError::FullOfShit {}, err);

    // refund on shitstrapping occurs
    shit.execute(SHITTER1, ExecuteMsg::RefundShitter {}, vec![]).unwrap();

    // should have 1 extra token sent back
    assert_eq!(shit.balance(SHITTER1, "uatom"), 778_000_000u128);
    assert_eq!(shit.balance(SHITSTRAP, "uatom"), 0);
}

#[test]
fn test_fee_destination() {
    let first_deposit = 100_000_000u128; // 100
    let cw20_shit_ratio = 640000000000000000u128; // 64%
    let atom_shit_ratio = 360000000000000000u128; // 36%

    let mut shit = default_init(
        vec![
            PossibleShit::native_denom("uatom", atom_shit_ratio),
            PossibleShit::native_cw20(DEFAULT_CW20, cw20_shit_ratio),
        ],
        222000000u128,
    );
    setup_default_funds(&mut shit);
    let first = decimal(first_deposit, atom_shit_ratio);

    shit.mint(SHITSTRAP, 222000000u128, "ushit");
    // assert shitstrap default balance
    assert_eq!(shit.balance(SHITSTRAP, "ushit"), 222000000u128 + 1_000_000_000_000u128);
    assert_eq!(shit.balance(SHITSTRAP, "uatom"), 0);

    // user 1 funds with native
    shit.participate_native(SHITTER1, 100_000_000, "uatom").unwrap();
    assert_eq!(shit.pile(), first);

    // confirm funds made it to shitter
    assert_eq!(shit.balance(SHITTER1, "uatom"), DEFAULT_BALANCE - first_deposit);
    assert_eq!(shit.balance(SHITTER1, "ushit"), first);

    // confirm funds are still in shitstrap
    assert_eq!(shit.balance(SHITSTRAP, "uatom"), first_deposit);
    assert_eq!(shit.balance(SHITSTRAP, "ushit"), 1_000_000_000_000u128 + (222000000u128 - first));

    // cw20 sent without the receive hook is not a participation
    shit.send(SHITTER2, SHITSTRAP, 100_000_000u128, DEFAULT_CW20);

    // end shitstrap early
    let resp = shit.execute(OWNER, ExecuteMsg::Flush {}, vec![]).unwrap();
    assert!(resp.messages.contains(&Transfer {
        denom: CheckedDenom::Native("ushit".into()),
        recipient: OWNER.into(),
        amount: 222000000u128 - first,
    }));
    assert!(resp.messages.contains(&Transfer {
        denom: CheckedDenom::Native("uatom".into()),
        recipient: OWNER.into(),
        amount: first_deposit,
    }));

    // confirm shitstrap balance is empty
    assert_eq!(shit.balance(SHITSTRAP, "uatom"), 0);
    assert_eq!(shit.balance(SHITSTRAP, "ushit"), 1_000_000_000_000u128);

    // confirm shistrap owner now has updated balance
    assert_eq!(shit.balance(OWNER, "uatom"), DEFAULT_BALANCE + first_deposit);
    assert_eq!(shit.balance(OWNER, "ushit"), 222000000u128 - first);
}

#[test]
fn test_mult_participants_mult_possible_shit() {
    let first_deposit = 100_000_000u128; // 100
    let cw20_shit_ratio = 640000000000000000u128; // 64%
    let atom_shit_ratio = 360000000000000000u128; // 36%

    let mut shit = default_init(
        vec![
            PossibleShit::native_denom("uatom", atom_shit_ratio),
            PossibleShit::native_cw20(DEFAULT_CW20, cw20_shit_ratio),
        ],
        222000000u128,
    );
    setup_default_funds(&mut shit);

    // error with wrong native token
    let err = shit
        .execute(
            SHITTER2,
            ExecuteMsg::ShitStrap { shit: AssetUnchecked::from_native("usilk", first_deposit) },
            vec![coin(first_deposit, "usilk")],
        )
        .unwrap_err();
    assert_eq!(ContractError::WrongShit {}, err);

    // error with wrong cw20
    let err = shit
        .execute(
            "contract2",
            ExecuteMsg::Receive(Cw20ReceiveMsg {
                sender: SHITTER2.to_string(),
                amount: 200,
                msg: ReceiveMsg::ShitStrap { shit_strapper: SHITTER2.to_string() },
            }),
            vec![],
        )
        .unwrap_err();
    assert_eq!(ContractError::WrongShit {}, err);

    // user 1 funds with native
    shit.participate_native(SHITTER1, 100_000_000, "uatom").unwrap();
    assert_eq!(shit.pile(), decimal(first_deposit, atom_shit_ratio));
    assert_eq!(shit.balance(SHITTER1, "uatom"), DEFAULT_BALANCE - first_deposit);
    assert_eq!(shit.balance(SHITTER1, "ushit"), decimal(first_deposit, atom_shit_ratio));

    // user 2 funds with cw20
    shit.participate_cw20(SHITTER2, 100_000_000, "contract0").unwrap();
    let expected = decimal(first_deposit, cw20_shit_ratio) + decimal(first_deposit, atom_shit_ratio);
    assert_eq!(shit.pile(), expected);
    assert_eq!(shit.balance(SHITTER2, "ushit"), decimal(first_deposit, cw20_shit_ratio));
    assert_eq!(shit.balance(SHITTER2, "usilk"), DEFAULT_BALANCE);
}

#[test]
fn test_cw20_receive() {
    let mut shit = default_init(vec![PossibleShit::native_cw20(DEFAULT_CW20, 100u128)], 222u128);
    let first_deposit = 100u128;
    setup_default_funds(&mut shit);

    // cannot directly call shit_strap entry point with cw20
    let err = shit
        .execute(
            SHITTER1,
            ExecuteMsg::ShitStrap {
                shit: AssetUnchecked { denom: UncheckedDenom::Cw20(DEFAULT_CW20.into()), amount: first_deposit },
            },
            vec![],
        )
        .unwrap_err();
    assert_eq!(ContractError::ShittyCw20 {}, err);

    // only cw20 can call receive entry point
    let err = shit
        .execute(
            SHITTER2,
            ExecuteMsg::Receive(Cw20ReceiveMsg {
                sender: SHITTER2.to_string(),
                amount: first_deposit,
                msg: ReceiveMsg::ShitStrap { shit_strapper: SHITTER2.to_string() },
            }),
            vec![],
        )
        .unwrap_err();
    assert_eq!(ContractError::WrongShit {}, err);
}

#[test]
fn filling_pays_owner_every_deposit_in_key_order() {
    // uatom pays 1:1, the cw20 2:1; cutoff 50
    let mut shit = default_init(
        vec![
            PossibleShit::native_denom("uatom", 1_000_000_000_000_000_000u128),
            PossibleShit::native_cw20(DEFAULT_CW20, 2_000_000_000_000_000_000u128),
        ],
        50,
    );
    setup_default_funds(&mut shit);
    shit.mint(DEFAULT_CW20, 0, DEFAULT_CW20);
    shit.participate_native(SHITTER1, 30, "uatom").unwrap();
    // the cw20 tokens land in the contract as the cw20 contract reports
    shit.mint(SHITSTRAP, 15, DEFAULT_CW20);
    let resp = shit.participate_cw20(SHITTER2, 15, DEFAULT_CW20).unwrap();
    // pile 30 + 30 = 60, overshoot 10
    assert_eq!(shit.pile(), 60);
    // "contract0" sorts before "uatom"; each deposit is sent in its own kind,
    // the filling one less the refund (overshoot 10 at rate 2 gives back 5);
    // the filler is sent only what remains up to the cutoff (50 - 30)
    assert_eq!(
        resp.messages,
        vec![
            Transfer { denom: CheckedDenom::Cw20(DEFAULT_CW20.into()), recipient: OWNER.into(), amount: 10 },
            Transfer { denom: CheckedDenom::Native("uatom".into()), recipient: OWNER.into(), amount: 30 },
            Transfer { denom: CheckedDenom::Native("ushit".into()), recipient: SHITTER2.into(), amount: 20 },
        ]
    );
    assert_eq!(shit.balance(SHITTER1, "ushit") + shit.balance(SHITTER2, "ushit"), 50);
    assert_eq!(
        resp.attributes,
        vec![
            Attribute::DaoShitstrapAmount(30),
            Attribute::DaoShitstrapRecieved(CheckedDenom::Cw20(DEFAULT_CW20.into())),
            Attribute::DaoShitstrapAmount(30),
            Attribute::DaoShitstrapRecieved(CheckedDenom::Cw20(DEFAULT_CW20.into())),
        ]
    );
    // the refund: overshoot 10 at rate 2 gives back 5
    let refund = shit.strap.refund_shitter(&SHITTER1.to_string()).unwrap_err();
    assert_eq!(refund, ContractError::FullOfShit {});
    let resp = shit.strap.refund_shitter(&SHITTER2.to_string()).unwrap();
    assert_eq!(
        resp.messages,
        vec![Transfer { denom: CheckedDenom::Cw20(DEFAULT_CW20.into()), recipient: SHITTER2.into(), amount: 5 }]
    );
    // a second claim finds nothing
    assert_eq!(shit.strap.refund_shitter(&SHITTER2.to_string()).unwrap_err(), ContractError::FullOfShit {});
}

#[test]
fn only_owner_flushes() {
    let mut shit = default_init(vec![PossibleShit::native_denom("uatom", 1_000_000_000_000_000_000u128)], 100);
    setup_default_funds(&mut shit);
    let err = shit.execute(SHITTER1, ExecuteMsg::Flush {}, vec![]).unwrap_err();
    assert_eq!(err, ContractError::ShittyAuthorization {});
    assert_eq!(shit.strap.query(&QueryMsg::FullOfShit {}), QueryResponse::FullOfShit(false));
    let resp = shit.execute(OWNER, ExecuteMsg::Flush {}, vec![]).unwrap();
    assert_eq!(resp.attributes, vec![Attribute::Flusher(OWNER.into())]);
    // nothing paid in: the owner gets back the whole cutoff of strapped tokens
    assert_eq!(
        resp.messages,
        vec![Transfer { denom: CheckedDenom::Native("ushit".into()), recipient: OWNER.into(), amount: 100 }]
    );
    assert_eq!(shit.strap.query(&QueryMsg::FullOfShit {}), QueryResponse::FullOfShit(true));
    // flushing a closed shitstrap sends nothing more
    let resp = shit.execute(OWNER, ExecuteMsg::Flush {}, vec![]).unwrap();
    assert!(resp.messages.is_empty());
    // closed: nobody participates, and nobody is owed a refund
    assert_eq!(shit.participate_native(SHITTER1, 5, "uatom").unwrap_err(), ContractError::FullOfShit {});
    assert_eq!(shit.execute(SHITTER1, ExecuteMsg::RefundShitter {}, vec![]).unwrap_err(), ContractError::FullOfShit {});
}

#[test]
fn instantiate_takes_sender_as_owner_and_checks_shitmos() {
    let msg = |shitmos: UncheckedDenom| InstantiateMsg {
        owner: None,
        accepted: vec![PossibleShit::native_denom("uatom", 1)],
        cutoff: 10,
        shitmos,
        title: String::new(),
        description: String::new(),
    };
    let st = Shitstrap::instantiate("creator".into(), msg(UncheckedDenom::Native("ushit".into())), None, None).unwrap();
    assert_eq!(st.config.owner, "creator");
    assert_eq!(st.config.shitmos_addr, CheckedDenom::Native("ushit".into()));
    assert_eq!(st.config.cutoff, 10);
    let err = Shitstrap::instantiate("creator".into(), msg(UncheckedDenom::Native("u".into())), None, None).unwrap_err();
    assert_eq!(err, ContractError::ShitDenomError(DenomFault::NativeDenomLength { len: 1 }));
    let st = Shitstrap::instantiate(
        "creator".into(),
        msg(UncheckedDenom::Cw20("contract9".into())),
        None,
        Some(Ok("contract9".into())),
    )
    .unwrap();
    assert_eq!(st.config.shitmos_addr, CheckedDenom::Cw20("contract9".into()));
    // an owner that does not validate is refused first
    let mut bad_owner = msg(UncheckedDenom::Native("ushit".into()));
    bad_owner.owner = Some("Bad Owner".into());
    bad_owner.cutoff = 0;
    let err = Shitstrap::instantiate(
        "creator".into(),
        bad_owner,
        Some(Err(cosmwasm_std::StdError::generic_err("invalid address"))),
        None,
    )
    .unwrap_err();
    assert_eq!(err, ContractError::ShitStd(cosmwasm_std::StdError::generic_err("invalid address")));
    // at most three accepted entries
    let with = |n: usize| InstantiateMsg {
        owner: None,
        accepted: (0..n).map(|i| PossibleShit::native_denom(&format!("uatom{i}"), 1)).collect(),
        cutoff: 10,
        shitmos: UncheckedDenom::Native("ushit".into()),
        title: String::new(),
        description: String::new(),
    };
    assert!(Shitstrap::instantiate("creator".into(), with(3), None, None).is_ok());
    for n in [0usize, 4, 5] {
        let err = Shitstrap::instantiate("creator".into(), with(n), None, None).unwrap_err();
        assert_eq!(err, ContractError::UnnaceptableShitAmount {});
    }
}

#[test]
fn deposit_overflow_is_an_error_and_abort_is_reported() {
    let mut shit = default_init(vec![PossibleShit::native_denom("uatom", 1)], u128::MAX);
    shit.mint(SHITTER1, u128::MAX, "uatom");
    shit.mint(SHITSTRAP, u128::MAX, "ushit");
    // a rate of one atom: the strapped value is the amount over 10^18, rounded down
    shit.participate_native(SHITTER1, u128::MAX - 5, "uatom").unwrap();
    assert_eq!(shit.pile(), (u128::MAX - 5) / 1_000_000_000_000_000_000u128);
    let err = shit
        .strap
        .execute(
            SHITTER1.into(),
            vec![coin(6, "uatom")],
            ExecuteMsg::ShitStrap { shit: AssetUnchecked::from_native("uatom", 6) },
            None,
        )
        .unwrap_err();
    assert!(matches!(err, ContractError::ShitStd(_)));
    // a huge payment at a huge rate would overflow the strapped value
    let big = default_init(vec![PossibleShit::native_denom("uatom", u128::MAX)], 10);
    let abort = big.strap.strap_abort_check(
        &SHITTER1.to_string(),
        &vec![coin(u128::MAX, "uatom")],
        &UncheckedDenom::Native("uatom".into()),
        u128::MAX,
        &None,
    );
    assert_eq!(abort, Some(cw_shitstrap::shitstrap::Abort::MultiplicationOverflow));
}

#[test]
fn config_and_rates_queries() {
    let shit = default_init(
        vec![
            PossibleShit::native_denom("uatom", 7),
            PossibleShit::native_cw20("uatom", 9),
            PossibleShit::native_cw20(DEFAULT_CW20, 11),
        ],
        100,
    );
    // the first entry named so wins, whatever its kind
    assert_eq!(shit.strap.query(&QueryMsg::ShitRate { asset: "uatom".into() }), QueryResponse::ShitRate(Some(7)));
    assert_eq!(shit.strap.query(&QueryMsg::ShitRate { asset: DEFAULT_CW20.into() }), QueryResponse::ShitRate(Some(11)));
    assert_eq!(shit.strap.query(&QueryMsg::ShitRate { asset: "nope".into() }), QueryResponse::ShitRate(None));
    match shit.strap.query(&QueryMsg::ShitRates {}) {
        QueryResponse::ShitRates(v) => assert_eq!(v.len(), 3),
        other => panic!("unexpected {other:?}"),
    }
    match shit.strap.query(&QueryMsg::Config {}) {
        QueryResponse::Config(c) => {
            assert_eq!(c.owner, OWNER);
            assert_eq!(c.cutoff, 100);
            assert_eq!(c.title, "yoo");
            assert!(!c.full_of_shit);
        }
        other => panic!("unexpected {other:?}"),
    }
}

#[test]
fn filling_overshoot_is_split_between_owner_and_filler() {
    // 1:1, cutoff 222; 221 then 3 overshoots by 2
    let mut shit = default_init(vec![PossibleShit::native_denom("uatom", 1_000_000_000_000_000_000u128)], 222_000_000);
    setup_default_funds(&mut shit);
    shit.participate_native(SHITTER1, 221_000_000, "uatom").unwrap();
    let resp = shit.participate_native(SHITTER1, 3_000_000, "uatom").unwrap();
    assert_eq!(
        resp.messages,
        vec![
            Transfer { denom: CheckedDenom::Native("uatom".into()), recipient: OWNER.into(), amount: 222_000_000 },
            Transfer { denom: CheckedDenom::Native("ushit".into()), recipient: SHITTER1.into(), amount: 1_000_000 },
        ]
    );
    // exactly the cutoff of strapped tokens went out
    assert_eq!(shit.balance(SHITTER1, "ushit"), 222_000_000);
    shit.execute(SHITTER1, ExecuteMsg::RefundShitter {}, vec![]).unwrap();
    // everything paid in went to the owner or back to the filler
    assert_eq!(shit.balance(SHITSTRAP, "uatom"), 0);
    assert_eq!(shit.balance(OWNER, "uatom"), DEFAULT_BALANCE + 222_000_000);
    assert_eq!(shit.balance(SHITTER1, "uatom"), DEFAULT_BALANCE - 222_000_000);
}

#[test]
fn same_token_twice_is_refused_whatever_the_rate() {
    let init = |accepted: Vec<PossibleShit>| {
        Shitstrap::instantiate(
            OWNER.to_string(),
            InstantiateMsg {
                owner: None,
                accepted,
                cutoff: 10,
                shitmos: UncheckedDenom::Native("ushit".into()),
                title: String::new(),
                description: String::new(),
            },
            None,
            None,
        )
    };
    let err = init(vec![PossibleShit::native_denom("uatom", 1_000_000), PossibleShit::native_denom("uatom", 2_000_000)])
        .unwrap_err();
    assert_eq!(err, ContractError::SameShit {});
    // the same text as a native denom and as a cw20 names two tokens
    assert!(init(vec![PossibleShit::native_denom("uatom", 1), PossibleShit::native_cw20("uatom", 1)]).is_ok());
}

#[test]
fn handle_reports_an_abort_and_leaves_the_state() {
    let mut big = default_init(vec![PossibleShit::native_denom("uatom", u128::MAX)], 10);
    let res = big.strap.handle(
        SHITTER1.to_string(),
        vec![coin(u128::MAX, "uatom")],
        ExecuteMsg::ShitStrap { shit: AssetUnchecked::from_native("uatom", u128::MAX) },
        None,
    );
    assert_eq!(res.unwrap_err(), cw_shitstrap::shitstrap::Abort::MultiplicationOverflow);
    assert_eq!(big.pile(), 0);
    assert_eq!(big.strap.query(&QueryMsg::FullOfShit {}), QueryResponse::FullOfShit(false));
}
