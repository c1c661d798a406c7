use currency::big_nat::BigNat;
use currency::currency_error::CurrencyError;
use currency::icrc1_types::Allowance;
use currency::principal::PrincipalId;
use currency::remote::{CallContext, CallStage, Event, RemoteCall, Step};
use currency::state::TransactionState;
use currency::types::canister_wallet::DepositStage;
use currency::types::canister_wallets::btc_token_wallet::CKBTCTokenWallet;
use currency::types::canister_wallets::ckerc20_token_wallet::CKERC20TokenWallet;
use currency::types::canister_wallets::icp_canister_wallet::ICPCanisterWallet;
use currency::types::canister_wallets::icrc1_token_wallet::{
    GenericICRC1TokenWallet, ICRC1TokenMetadata, MetadataStage, StandardRecord,
};
use currency::types::constants::{canister_id, USDC_LEDGER_NUMBER};
use currency::types::currency::{CKTokenSymbol, Token};
use currency::types::currency_manager::{CurrencyManager, MAX_VALUE_SIZE_CURRENCY_MANAGER};
use currency::types::token_registry::{ICRC1TokenRegistry, MAX_VALUE_SIZE_TOKEN_REGISTRY};
use currency::Currency;

const NOW: u64 = 1_700_000_000_000_000_000;

fn custody() -> PrincipalId {
    canister_id(1_000)
}

fn user() -> PrincipalId {
    PrincipalId::from_slice(&[1, 2, 3]).unwrap()
}

fn context() -> CallContext {
    CallContext { canister_id: custody(), now: NOW }
}

fn chat_ledger() -> PrincipalId {
    canister_id(555)
}

fn metadata(symbol: &str, standards: &[&str]) -> ICRC1TokenMetadata {
    ICRC1TokenMetadata {
        name: format!("{} token", symbol),
        symbol: symbol.to_string(),
        decimals: 8,
        fee: 100_000,
        supported_standards: standards
            .iter()
            .map(|name| StandardRecord { name: name.to_string(), url: format!("https://{}", name) })
            .collect(),
    }
}

fn chat() -> Currency {
    Currency::GenericICRC1(Token::from_string(chat_ledger(), "CHAT", 8))
}

/// Drives the metadata query of `manager.add_currency` with a ledger that
/// answers with the given metadata.
fn add_generic(manager: &mut CurrencyManager, currency: Currency, reported: &ICRC1TokenMetadata) -> (Result<(), CurrencyError>, usize) {
    let mut stage = MetadataStage::Start;
    let mut event = Event::Started;
    let mut calls = 0;
    loop {
        let (next, step) = manager.add_currency(currency, stage, event);
        match step {
            Step::Done(result) => return (result, calls),
            Step::Call(call) => {
                calls += 1;
                event = match call {
                    RemoteCall::Icrc1Name { .. } => Event::Text(reported.name.clone()),
                    RemoteCall::Icrc1Symbol { .. } => Event::Text(reported.symbol.clone()),
                    RemoteCall::Icrc1Decimals { .. } => Event::Decimals(reported.decimals),
                    RemoteCall::Icrc1Fee { .. } => Event::Number(BigNat::from_u128(reported.fee)),
                    RemoteCall::Icrc1SupportedStandards { .. } => {
                        Event::Standards(reported.supported_standards.clone())
                    }
                    other => panic!("{:?}", other),
                };
                stage = next;
            }
        }
    }
}

fn all_tags() -> Vec<Currency> {
    vec![
        Currency::ICP,
        Currency::BTC,
        Currency::CKETHToken(CKTokenSymbol::USDC),
        Currency::CKETHToken(CKTokenSymbol::USDT),
        Currency::CKETHToken(CKTokenSymbol::ETH),
        Currency::CKETHToken(CKTokenSymbol::BTC),
        chat(),
    ]
}

fn empty_manager() -> CurrencyManager {
    CurrencyManager { icp: None, ckerc20_tokens: vec![], btc: None, generic_icrc1_tokens: vec![] }
}

#[test]
fn new_manager_holds_the_native_and_the_bitcoin_backend() {
    let manager = CurrencyManager::new();
    assert_eq!(manager.icp, Some(ICPCanisterWallet));
    assert_eq!(manager.btc, Some(CKBTCTokenWallet::new()));
    assert!(manager.ckerc20_tokens.is_empty());
    assert!(manager.generic_icrc1_tokens.is_empty());
    assert_eq!(MAX_VALUE_SIZE_CURRENCY_MANAGER, 100_000);
    assert_eq!(MAX_VALUE_SIZE_TOKEN_REGISTRY, 10_000_000);
}

#[test]
fn operations_without_a_backend_fail_with_wallet_not_set() {
    let manager = empty_manager();
    for currency in all_tags() {
        for stage in [CallStage::Start, CallStage::Awaiting, CallStage::Finished] {
            let mut store = TransactionState::new();
            let deposit_stage = match stage {
                CallStage::Start => DepositStage::Start,
                CallStage::Awaiting => DepositStage::AwaitingTransfer,
                CallStage::Finished => DepositStage::AwaitingRefresh,
            };
            let event = || match stage {
                CallStage::Start => Event::Started,
                CallStage::Awaiting => Event::TransferFrom(Ok(1)),
                CallStage::Finished => Event::Rejected("x".to_string()),
            };
            assert_eq!(
                manager.deposit(&mut store, &currency, user(), 5, &context(), deposit_stage, event()),
                (DepositStage::Finished, Step::Done(Err(CurrencyError::WalletNotSet)))
            );
            assert_eq!(store.len(), 0);
            assert_eq!(
                manager.validate_allowance(&currency, user(), 5, &context(), stage, event()),
                (CallStage::Finished, Step::Done(Err(CurrencyError::WalletNotSet)))
            );
            assert_eq!(
                manager.withdraw(&currency, user(), 50_000, &context(), stage, event()),
                (CallStage::Finished, Step::Done(Err(CurrencyError::WalletNotSet)))
            );
            assert_eq!(
                manager.withdraw_rake(&currency, user(), 50_000, &context(), stage, event()),
                (CallStage::Finished, Step::Done(Err(CurrencyError::WalletNotSet)))
            );
            assert_eq!(
                manager.get_balance(&currency, user(), stage, event()),
                (CallStage::Finished, Step::Done(Err(CurrencyError::WalletNotSet)))
            );
        }
    }
}

#[test]
fn operations_are_routed_to_the_backend_of_the_tag() {
    let mut manager = CurrencyManager::new();
    manager.insert_erc20(CKTokenSymbol::USDT);
    manager.insert_erc20(CKTokenSymbol::USDC);
    manager.insert_generic(GenericICRC1TokenWallet { ledger_id: canister_id(444), metadata: metadata("OTHER", &[]) });
    manager.insert_generic(GenericICRC1TokenWallet { ledger_id: chat_ledger(), metadata: metadata("CHAT", &["ICRC-2"]) });
    let ledger_of = |step: Step<u128>| match step {
        Step::Call(RemoteCall::Icrc1BalanceOf { ledger, .. }) => ledger,
        other => panic!("{:?}", other),
    };
    let balance = |currency: Currency| manager.get_balance(&currency, user(), CallStage::Start, Event::Started).1;
    assert_eq!(ledger_of(balance(Currency::ICP)).to_text(), "ryjl3-tyaaa-aaaaa-aaaba-cai");
    assert_eq!(ledger_of(balance(Currency::BTC)).to_text(), "mxzaz-hqaaa-aaaar-qaada-cai");
    assert_eq!(ledger_of(balance(Currency::CKETHToken(CKTokenSymbol::USDC))), canister_id(USDC_LEDGER_NUMBER));
    assert_eq!(ledger_of(balance(chat())), chat_ledger());
    assert_eq!(
        balance(Currency::CKETHToken(CKTokenSymbol::ETH)),
        Step::Done(Err(CurrencyError::WalletNotSet))
    );
    let unknown = Currency::GenericICRC1(Token::from_string(chat_ledger(), "NONE", 8));
    assert_eq!(balance(unknown), Step::Done(Err(CurrencyError::WalletNotSet)));
}

#[test]
fn third_party_token_is_found_by_its_symbol_alone() {
    let mut manager = empty_manager();
    manager.insert_generic(GenericICRC1TokenWallet { ledger_id: chat_ledger(), metadata: metadata("CHAT", &[]) });
    let elsewhere = Currency::GenericICRC1(Token::from_string(canister_id(1), "CHAT", 2));
    let step = manager.get_balance(&elsewhere, user(), CallStage::Start, Event::Started).1;
    assert!(matches!(step, Step::Call(RemoteCall::Icrc1BalanceOf { ledger, .. }) if ledger == chat_ledger()));
}

#[test]
fn manager_deposit_runs_the_backend_s_protocol() {
    let manager = CurrencyManager::new();
    let mut store = TransactionState::new();
    let (stage, step) =
        manager.deposit(&mut store, &Currency::ICP, user(), 400, &context(), DepositStage::Start, Event::Started);
    assert!(matches!(step, Step::Call(RemoteCall::Icrc2Allowance { .. })));
    let reply = Event::Allowance(Allowance { allowance: 500, expires_at: None });
    let (stage, step) = manager.deposit(&mut store, &Currency::ICP, user(), 400, &context(), stage, reply);
    assert!(matches!(step, Step::Call(RemoteCall::Icrc2TransferFrom { .. })));
    let (stage, step) = manager.deposit(
        &mut store,
        &Currency::ICP,
        user(),
        400,
        &context(),
        stage,
        Event::TransferFrom(Ok(31)),
    );
    assert_eq!((stage, step), (DepositStage::Finished, Step::Done(Ok(()))));
    assert_eq!(store.transactions(), vec![format!("ICP-DEPOSIT-31-{}-{}", user().to_text(), NOW)]);
}

#[test]
fn manager_refuses_a_deposit_below_the_allowance() {
    let manager = CurrencyManager::new();
    let mut store = TransactionState::new();
    let reply = Event::Allowance(Allowance { allowance: 5, expires_at: None });
    assert_eq!(
        manager.deposit(&mut store, &Currency::BTC, user(), 6, &context(), DepositStage::AwaitingAllowance, reply),
        (DepositStage::Finished, Step::Done(Err(CurrencyError::InsufficientAllowance)))
    );
    assert_eq!(store.len(), 0);
}

#[test]
fn rake_withdrawal_is_a_withdrawal() {
    let manager = CurrencyManager::new();
    for currency in [Currency::ICP, Currency::BTC] {
        assert_eq!(
            manager.withdraw_rake(&currency, user(), 50_000, &context(), CallStage::Start, Event::Started),
            manager.withdraw(&currency, user(), 50_000, &context(), CallStage::Start, Event::Started)
        );
    }
}

#[test]
fn adding_a_well_known_asset_twice_yields_one_backend() {
    let mut manager = empty_manager();
    for _ in 0..2 {
        for currency in [
            Currency::ICP,
            Currency::BTC,
            Currency::CKETHToken(CKTokenSymbol::USDC),
            Currency::CKETHToken(CKTokenSymbol::ETH),
        ] {
            assert_eq!(
                manager.add_currency(currency, MetadataStage::Start, Event::Started),
                (MetadataStage::Finished, Step::Done(Ok(())))
            );
        }
    }
    assert_eq!(
        manager,
        CurrencyManager {
            icp: Some(ICPCanisterWallet),
            ckerc20_tokens: vec![
                CKERC20TokenWallet::new(CKTokenSymbol::USDC),
                CKERC20TokenWallet::new(CKTokenSymbol::ETH)
            ],
            btc: Some(CKBTCTokenWallet::new()),
            generic_icrc1_tokens: vec![],
        }
    );
}

#[test]
fn bitcoin_symbol_is_no_asset_of_the_ethereum_minter() {
    let mut manager = empty_manager();
    assert_eq!(
        manager.add_currency(Currency::CKETHToken(CKTokenSymbol::BTC), MetadataStage::Start, Event::Started),
        (
            MetadataStage::Finished,
            Step::Done(Err(CurrencyError::OperationNotSupported(
                "BTC is not an asset of the Ethereum minter".to_string()
            )))
        )
    );
    assert_eq!(manager, empty_manager());
}

#[test]
fn adding_a_third_party_token_asks_its_ledger_once() {
    let mut manager = empty_manager();
    let reported = metadata("CHAT", &["ICRC-1", "ICRC-2"]);
    assert_eq!(add_generic(&mut manager, chat(), &reported), (Ok(()), 5));
    assert_eq!(
        manager.generic_icrc1_tokens,
        vec![GenericICRC1TokenWallet { ledger_id: chat_ledger(), metadata: reported.clone() }]
    );
    assert_eq!(add_generic(&mut manager, chat(), &reported), (Ok(()), 0));
    assert_eq!(manager.generic_icrc1_tokens.len(), 1);
}

#[test]
fn token_whose_ledger_reports_another_symbol_is_added_once() {
    let mut manager = empty_manager();
    let reported = metadata("CHAT", &[]);
    let mistaken = Currency::GenericICRC1(Token::from_string(chat_ledger(), "CHT", 8));
    assert_eq!(add_generic(&mut manager, mistaken, &reported), (Ok(()), 5));
    assert_eq!(add_generic(&mut manager, mistaken, &reported), (Ok(()), 5));
    assert_eq!(manager.generic_icrc1_tokens.len(), 1);
    assert_eq!(manager.generic_icrc1_tokens[0].metadata.symbol, "CHAT");
}

#[test]
fn failed_metadata_query_adds_nothing() {
    let mut manager = empty_manager();
    let (stage, step) = manager.add_currency(chat(), MetadataStage::Start, Event::Started);
    assert_eq!(step, Step::Call(RemoteCall::Icrc1Name { ledger: chat_ledger() }));
    let (stage, step) = manager.add_currency(chat(), stage, Event::Text("Chat".to_string()));
    assert_eq!(stage, MetadataStage::AwaitingSymbol { name: "Chat".to_string() });
    assert_eq!(step, Step::Call(RemoteCall::Icrc1Symbol { ledger: chat_ledger() }));
    let (stage, step) = manager.add_currency(chat(), stage, Event::Rejected("down".to_string()));
    assert_eq!(stage, MetadataStage::Finished);
    assert_eq!(
        step,
        Step::Done(Err(CurrencyError::CanisterCallFailed("Failed to query token symbol: down".to_string())))
    );
    assert_eq!(manager, empty_manager());
}

#[test]
fn removing_a_backend_is_idempotent() {
    let mut manager = CurrencyManager::new();
    manager.insert_erc20(CKTokenSymbol::USDC);
    manager.insert_erc20(CKTokenSymbol::USDT);
    manager.insert_erc20(CKTokenSymbol::ETH);
    manager.insert_generic(GenericICRC1TokenWallet { ledger_id: chat_ledger(), metadata: metadata("CHAT", &[]) });
    manager.insert_generic(GenericICRC1TokenWallet { ledger_id: canister_id(2), metadata: metadata("DOGE", &[]) });
    for _ in 0..2 {
        manager.remove_currency(&Currency::CKETHToken(CKTokenSymbol::USDT));
        manager.remove_currency(&chat());
        manager.remove_currency(&Currency::ICP);
        assert_eq!(manager.icp, None);
        assert!(manager.btc.is_some());
        assert_eq!(
            manager.ckerc20_tokens,
            vec![CKERC20TokenWallet::new(CKTokenSymbol::USDC), CKERC20TokenWallet::new(CKTokenSymbol::ETH)]
        );
        assert_eq!(manager.generic_icrc1_tokens.len(), 1);
        assert_eq!(manager.generic_icrc1_tokens[0].metadata.symbol, "DOGE");
    }
    manager.remove_currency(&Currency::BTC);
    assert_eq!(manager.btc, None);
    manager.remove_currency(&Currency::CKETHToken(CKTokenSymbol::BTC));
    assert_eq!(manager.ckerc20_tokens.len(), 2);
}

#[test]
fn removing_a_backend_leaves_the_store_as_it_is() {
    let mut manager = CurrencyManager::new();
    let mut store = TransactionState::new();
    manager.deposit(
        &mut store,
        &Currency::ICP,
        user(),
        1,
        &context(),
        DepositStage::AwaitingTransfer,
        Event::TransferFrom(Ok(1)),
    );
    let before = store.transactions();
    manager.remove_currency(&Currency::ICP);
    assert_eq!(store.transactions(), before);
    assert_eq!(
        manager
            .deposit(&mut store, &Currency::ICP, user(), 1, &context(), DepositStage::Start, Event::Started)
            .1,
        Step::Done(Err(CurrencyError::WalletNotSet))
    );
    assert_eq!(store.transactions(), before);
}

#[test]
fn metadata_query_asks_five_questions_in_order() {
    let ledger = chat_ledger();
    let (stage, step) = GenericICRC1TokenWallet::query_token_metadata(ledger, MetadataStage::Start, Event::Started);
    assert_eq!((stage.clone(), step), (MetadataStage::AwaitingName, Step::Call(RemoteCall::Icrc1Name { ledger })));
    let (stage, step) = GenericICRC1TokenWallet::query_token_metadata(ledger, stage, Event::Text("Chat".to_string()));
    assert_eq!(step, Step::Call(RemoteCall::Icrc1Symbol { ledger }));
    let (stage, step) = GenericICRC1TokenWallet::query_token_metadata(ledger, stage, Event::Text("CHAT".to_string()));
    assert_eq!(step, Step::Call(RemoteCall::Icrc1Decimals { ledger }));
    let (stage, step) = GenericICRC1TokenWallet::query_token_metadata(ledger, stage, Event::Decimals(8));
    assert_eq!(step, Step::Call(RemoteCall::Icrc1Fee { ledger }));
    let beyond = BigNat::from_decimal("340282366920938463463374607431768211456").unwrap();
    let (stage, step) = GenericICRC1TokenWallet::query_token_metadata(ledger, stage, Event::Number(beyond));
    assert_eq!(
        stage,
        MetadataStage::AwaitingStandards { name: "Chat".to_string(), symbol: "CHAT".to_string(), decimals: 8, fee: 10_000 }
    );
    assert_eq!(step, Step::Call(RemoteCall::Icrc1SupportedStandards { ledger }));
    let standards = vec![StandardRecord { name: "ICRC-1".to_string(), url: "u".to_string() }];
    let (stage, step) =
        GenericICRC1TokenWallet::query_token_metadata(ledger, stage, Event::Standards(standards.clone()));
    assert_eq!(stage, MetadataStage::Finished);
    assert_eq!(
        step,
        Step::Done(Ok(ICRC1TokenMetadata {
            name: "Chat".to_string(),
            symbol: "CHAT".to_string(),
            decimals: 8,
            fee: 10_000,
            supported_standards: standards,
        }))
    );
}

#[test]
fn failed_metadata_queries_say_which_query_failed() {
    let ledger = chat_ledger();
    let name = || "n".to_string();
    let cases = vec![
        (MetadataStage::AwaitingName, "token name"),
        (MetadataStage::AwaitingSymbol { name: name() }, "token symbol"),
        (MetadataStage::AwaitingDecimals { name: name(), symbol: name() }, "token decimals"),
        (MetadataStage::AwaitingFee { name: name(), symbol: name(), decimals: 1 }, "token fee"),
        (
            MetadataStage::AwaitingStandards { name: name(), symbol: name(), decimals: 1, fee: 1 },
            "supported standards",
        ),
    ];
    for (stage, what) in cases {
        assert_eq!(
            GenericICRC1TokenWallet::new(ledger, stage, Event::Rejected("down".to_string())),
            (
                MetadataStage::Finished,
                Step::Done(Err(CurrencyError::CanisterCallFailed(format!("Failed to query {}: down", what))))
            )
        );
    }
}

#[test]
fn backend_of_a_token_is_made_of_its_metadata() {
    let stage = MetadataStage::AwaitingStandards {
        name: "Chat".to_string(),
        symbol: "CHAT".to_string(),
        decimals: 8,
        fee: 7,
    };
    let (stage, step) = GenericICRC1TokenWallet::new(chat_ledger(), stage, Event::Standards(vec![]));
    assert_eq!(stage, MetadataStage::Finished);
    assert_eq!(
        step,
        Step::Done(Ok(GenericICRC1TokenWallet {
            ledger_id: chat_ledger(),
            metadata: ICRC1TokenMetadata {
                name: "Chat".to_string(),
                symbol: "CHAT".to_string(),
                decimals: 8,
                fee: 7,
                supported_standards: vec![],
            },
        }))
    );
}

fn register(registry: &mut ICRC1TokenRegistry, ledger: PrincipalId, reported: &ICRC1TokenMetadata) -> (Result<ICRC1TokenMetadata, CurrencyError>, usize) {
    let mut stage = MetadataStage::Start;
    let mut event = Event::Started;
    let mut calls = 0;
    loop {
        let (next, step) = registry.register_token(ledger, stage, event);
        match step {
            Step::Done(result) => return (result, calls),
            Step::Call(call) => {
                calls += 1;
                event = match call {
                    RemoteCall::Icrc1Name { .. } => Event::Text(reported.name.clone()),
                    RemoteCall::Icrc1Symbol { .. } => Event::Text(reported.symbol.clone()),
                    RemoteCall::Icrc1Decimals { .. } => Event::Decimals(reported.decimals),
                    RemoteCall::Icrc1Fee { .. } => Event::Number(BigNat::from_u128(reported.fee)),
                    RemoteCall::Icrc1SupportedStandards { .. } => {
                        Event::Standards(reported.supported_standards.clone())
                    }
                    other => panic!("{:?}", other),
                };
                stage = next;
            }
        }
    }
}

#[test]
fn registry_caches_what_a_ledger_reported() {
    let mut registry = ICRC1TokenRegistry::new();
    assert!(!registry.is_token_registered(&chat_ledger()));
    assert!(!registry.is_symbol_registered("CHAT"));
    assert_eq!(registry.get_token_metadata(&chat_ledger()), None);
    assert_eq!(registry.get_ledger_by_symbol("CHAT"), None);
    assert_eq!(registry.to_currency(&chat_ledger()), None);
    assert!(registry.get_all_tokens().is_empty());

    let reported = metadata("CHAT", &["ICRC-1"]);
    assert_eq!(register(&mut registry, chat_ledger(), &reported), (Ok(reported.clone()), 5));
    assert!(registry.is_token_registered(&chat_ledger()));
    assert!(registry.is_symbol_registered("CHAT"));
    assert!(!registry.is_symbol_registered("chat"));
    assert_eq!(registry.get_token_metadata(&chat_ledger()), Some(reported.clone()));
    assert_eq!(registry.get_ledger_by_symbol("CHAT"), Some(chat_ledger()));
    assert_eq!(registry.get_all_tokens(), vec![(chat_ledger(), reported.clone())]);

    let changed = metadata("OTHER", &[]);
    assert_eq!(register(&mut registry, chat_ledger(), &changed), (Ok(reported.clone()), 0));
    assert_eq!(registry.get_all_tokens().len(), 1);
    assert!(!registry.is_symbol_registered("OTHER"));
}

#[test]
fn registry_keeps_the_last_ledger_of_a_symbol() {
    let mut registry = ICRC1TokenRegistry::new();
    register(&mut registry, canister_id(1), &metadata("AAA", &[])).0.unwrap();
    register(&mut registry, canister_id(2), &metadata("BBB", &[])).0.unwrap();
    register(&mut registry, canister_id(3), &metadata("AAA", &[])).0.unwrap();
    assert_eq!(registry.get_ledger_by_symbol("AAA"), Some(canister_id(3)));
    assert_eq!(registry.get_ledger_by_symbol("BBB"), Some(canister_id(2)));
    assert!(registry.is_token_registered(&canister_id(1)));
    let ledgers: Vec<PrincipalId> = registry.get_all_tokens().into_iter().map(|(ledger, _)| ledger).collect();
    assert_eq!(ledgers, vec![canister_id(1), canister_id(2), canister_id(3)]);
}

#[test]
fn registry_registers_nothing_when_the_query_fails() {
    let mut registry = ICRC1TokenRegistry::new();
    let (stage, _) = registry.register_token(chat_ledger(), MetadataStage::Start, Event::Started);
    let (stage, step) = registry.register_token(chat_ledger(), stage, Event::Rejected("down".to_string()));
    assert_eq!(stage, MetadataStage::Finished);
    assert_eq!(
        step,
        Step::Done(Err(CurrencyError::CanisterCallFailed("Failed to query token name: down".to_string())))
    );
    assert_eq!(registry, ICRC1TokenRegistry::new());
}

#[test]
fn registered_tokens_become_asset_tags() {
    let mut registry = ICRC1TokenRegistry::new();
    let cases = vec![
        ("ICP", Currency::ICP),
        ("ckBTC", Currency::BTC),
        ("ckETH", Currency::CKETHToken(CKTokenSymbol::ETH)),
        ("ckUSDC", Currency::CKETHToken(CKTokenSymbol::USDC)),
        ("ckUSDT", Currency::CKETHToken(CKTokenSymbol::USDT)),
        ("CHAT", Currency::GenericICRC1(Token::from_string(canister_id(6), "CHAT", 8))),
        ("icp", Currency::GenericICRC1(Token::from_string(canister_id(7), "icp", 8))),
        ("LONGSYMBOL", Currency::GenericICRC1(Token::from_string(canister_id(8), "LONGSYMB", 8))),
    ];
    for (i, (symbol, _)) in cases.iter().enumerate() {
        register(&mut registry, canister_id(1 + i as u64), &metadata(symbol, &[])).0.unwrap();
    }
    for (i, (_, currency)) in cases.iter().enumerate() {
        assert_eq!(registry.to_currency(&canister_id(1 + i as u64)), Some(*currency));
    }
    assert_eq!(registry.to_currency(&canister_id(99)), None);
}

#[test]
fn registered_token_can_be_added_to_the_manager() {
    let mut registry = ICRC1TokenRegistry::new();
    let reported = metadata("CHAT", &["ICRC-2"]);
    register(&mut registry, chat_ledger(), &reported).0.unwrap();
    let currency = registry.to_currency(&chat_ledger()).unwrap();
    let mut manager = CurrencyManager::new();
    assert_eq!(add_generic(&mut manager, currency, &reported).0, Ok(()));
    let step = manager.validate_allowance(&currency, user(), 1, &context(), CallStage::Start, Event::Started).1;
    assert!(matches!(step, Step::Call(RemoteCall::Icrc2Allowance { ledger, .. }) if ledger == chat_ledger()));
}

#[test]
fn registry_is_rebuilt_from_its_entries() {
    let mut registry = ICRC1TokenRegistry::new();
    register(&mut registry, canister_id(1), &metadata("AAA", &[])).0.unwrap();
    register(&mut registry, canister_id(2), &metadata("AAA", &[])).0.unwrap();
    let tokens = registry
        .get_all_tokens()
        .into_iter()
        .map(|(ledger_id, metadata)| currency::types::token_registry::RegisteredToken { ledger_id, metadata })
        .collect();
    let symbols = registry.get_all_symbols();
    assert_eq!(symbols.len(), 1);
    assert_eq!((symbols[0].symbol.as_str(), symbols[0].ledger_id), ("AAA", canister_id(2)));
    assert_eq!(ICRC1TokenRegistry::from_entries(tokens, symbols), registry);
    assert_eq!(ICRC1TokenRegistry::default(), ICRC1TokenRegistry::new());
}
