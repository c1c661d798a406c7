use currency::big_nat::BigNat;
use currency::ckbtc_minter_canister_interface::{UpdateBalanceArg, UpdateBalanceError, UpdateBalanceRet};
use currency::currency_error::CurrencyError;
use currency::icrc1_types::{
    Account, Allowance, AllowanceArgs, TransferArg, TransferErrorIcrc1, TransferFromArg,
    TransferFromError,
};
use currency::principal::PrincipalId;
use currency::remote::{CallContext, CallStage, Event, LedgerTransferArgs, RemoteCall, Step};
use currency::state::{parse_timestamp, TransactionState};
use currency::types::canister_wallet::{
    deposit_record_id, judge_allowance, pull_failure, AssetFamily, CanisterWallet, DepositStage,
};
use currency::types::canister_wallets::btc_token_wallet::CKBTCTokenWallet;
use currency::types::canister_wallets::ckerc20_token_wallet::CKERC20TokenWallet;
use currency::types::canister_wallets::icp_canister_wallet::ICPCanisterWallet;
use currency::types::canister_wallets::icrc1_token_wallet::{
    GenericICRC1TokenWallet, ICRC1TokenMetadata, StandardRecord,
};
use currency::types::constants::{canister_id, BTC_LEDGER_NUMBER, BTC_MINTER_NUMBER, USDC_LEDGER_NUMBER};
use currency::types::currency::CKTokenSymbol;
use currency::utils::{mainnet_ledger_id, AccountIdentifier, Subaccount};

const NOW: u64 = 1_700_000_000_000_000_000;

fn custody() -> PrincipalId {
    canister_id(1_000)
}

fn user() -> PrincipalId {
    PrincipalId::from_slice(&[9, 8, 7, 6, 5, 4, 3, 2, 1, 2]).unwrap()
}

fn context() -> CallContext {
    CallContext { canister_id: custody(), now: NOW }
}

fn generic(standards: &[&str]) -> GenericICRC1TokenWallet {
    GenericICRC1TokenWallet {
        ledger_id: canister_id(555),
        metadata: ICRC1TokenMetadata {
            name: "Chat".to_string(),
            symbol: "CHAT".to_string(),
            decimals: 8,
            fee: 100_000,
            supported_standards: standards
                .iter()
                .map(|name| StandardRecord { name: name.to_string(), url: String::new() })
                .collect(),
        },
    }
}

fn allowance_query(ledger: PrincipalId) -> RemoteCall {
    RemoteCall::Icrc2Allowance {
        ledger,
        args: AllowanceArgs {
            account: Account { owner: user(), subaccount: None },
            spender: Account { owner: custody(), subaccount: None },
        },
    }
}

fn pull(ledger: PrincipalId, amount: u128, fee: u128) -> RemoteCall {
    RemoteCall::Icrc2TransferFrom {
        ledger,
        args: TransferFromArg {
            spender_subaccount: None,
            from: Account { owner: user(), subaccount: None },
            to: Account { owner: custody(), subaccount: None },
            amount,
            fee: Some(fee),
            memo: None,
            created_at_time: Some(NOW),
        },
    }
}

#[test]
fn native_deposit_with_sufficient_allowance_is_recorded() {
    let wallet = ICPCanisterWallet;
    let mut store = TransactionState::new();
    let (stage, step) =
        wallet.deposit(&mut store, user(), 400, &context(), DepositStage::Start, Event::Started);
    assert_eq!(stage, DepositStage::AwaitingAllowance);
    assert_eq!(step, Step::Call(allowance_query(mainnet_ledger_id())));
    assert_eq!(store.len(), 0);

    let reply = Event::Allowance(Allowance { allowance: 500, expires_at: None });
    let (stage, step) = wallet.deposit(&mut store, user(), 400, &context(), stage, reply);
    assert_eq!(stage, DepositStage::AwaitingTransfer);
    assert_eq!(step, Step::Call(pull(mainnet_ledger_id(), 400, 10_000)));
    assert_eq!(store.len(), 0);

    let later = CallContext { canister_id: custody(), now: NOW + 5 };
    let (stage, step) =
        wallet.deposit(&mut store, user(), 400, &later, stage, Event::TransferFrom(Ok(7)));
    assert_eq!(stage, DepositStage::Finished);
    assert_eq!(step, Step::Done(Ok(())));
    let ids = store.transactions();
    assert_eq!(ids, vec![format!("ICP-DEPOSIT-7-{}-{}", user().to_text(), NOW + 5)]);
    assert!(parse_timestamp(&ids[0]).unwrap() as u64 >= NOW);
    assert!(ids[0].ends_with(&(NOW + 5).to_string()));
}

#[test]
fn deposit_below_allowance_fails_and_records_nothing() {
    let mut store = TransactionState::new();
    let reply = Event::Allowance(Allowance { allowance: 399, expires_at: None });
    let next = ICPCanisterWallet.deposit(
        &mut store,
        user(),
        400,
        &context(),
        DepositStage::AwaitingAllowance,
        reply,
    );
    assert_eq!(next, (DepositStage::Finished, Step::Done(Err(CurrencyError::InsufficientAllowance))));
    assert_eq!(store.len(), 0);
}

#[test]
fn deposit_with_exact_allowance_goes_on() {
    let mut store = TransactionState::new();
    let reply = Event::Allowance(Allowance { allowance: 400, expires_at: Some(NOW + 1) });
    let (stage, step) = CKBTCTokenWallet::new().deposit(
        &mut store,
        user(),
        400,
        &context(),
        DepositStage::AwaitingAllowance,
        reply,
    );
    assert_eq!(stage, DepositStage::AwaitingTransfer);
    assert_eq!(step, Step::Call(pull(canister_id(BTC_LEDGER_NUMBER), 400, 10)));
}

#[test]
fn deposit_with_expired_allowance_fails_whatever_the_allowance() {
    for expires_at in [0, NOW - 1, NOW] {
        let mut store = TransactionState::new();
        let reply = Event::Allowance(Allowance { allowance: u128::MAX, expires_at: Some(expires_at) });
        let next = CKERC20TokenWallet::new(CKTokenSymbol::USDC).deposit(
            &mut store,
            user(),
            400,
            &context(),
            DepositStage::AwaitingAllowance,
            reply,
        );
        assert_eq!(
            next,
            (DepositStage::Finished, Step::Done(Err(CurrencyError::InsufficientAllowance)))
        );
        assert_eq!(store.len(), 0);
    }
}

#[test]
fn allowance_rule_is_amount_and_expiry() {
    let open = Allowance { allowance: 10, expires_at: None };
    assert_eq!(judge_allowance(&open, 10, NOW), Ok(()));
    assert_eq!(judge_allowance(&open, 11, NOW), Err(CurrencyError::InsufficientAllowance));
    assert_eq!(judge_allowance(&open, 0, NOW), Ok(()));
    let timed = Allowance { allowance: 10, expires_at: Some(NOW) };
    assert_eq!(judge_allowance(&timed, 1, NOW), Err(CurrencyError::InsufficientAllowance));
    assert_eq!(judge_allowance(&timed, 1, NOW - 1), Ok(()));
    assert_eq!(judge_allowance(&timed, 1, NOW + 1), Err(CurrencyError::InsufficientAllowance));
}

#[test]
fn deposit_reports_a_failed_allowance_query() {
    let mut store = TransactionState::new();
    let next = ICPCanisterWallet.deposit(
        &mut store,
        user(),
        1,
        &context(),
        DepositStage::AwaitingAllowance,
        Event::Rejected("(SysTransient, \"down\")".to_string()),
    );
    assert_eq!(
        next.1,
        Step::Done(Err(CurrencyError::AllowanceCheckFailed("(SysTransient, \"down\")".to_string())))
    );
    assert_eq!(next.0, DepositStage::Finished);
}

#[test]
fn deposit_reports_a_refused_pull() {
    let mut store = TransactionState::new();
    let refused = |error: TransferFromError| Event::TransferFrom(Err(error));
    let next = ICPCanisterWallet.deposit(
        &mut store,
        user(),
        1,
        &context(),
        DepositStage::AwaitingTransfer,
        refused(TransferFromError::InsufficientFunds { balance: 3 }),
    );
    assert_eq!(
        next.1,
        Step::Done(Err(CurrencyError::TransferFromFailed("InsufficientFunds { balance: 3 }".to_string())))
    );
    let next = ICPCanisterWallet.deposit(
        &mut store,
        user(),
        1,
        &context(),
        DepositStage::AwaitingTransfer,
        refused(TransferFromError::InsufficientAllowance { allowance: 0 }),
    );
    assert_eq!(next.1, Step::Done(Err(CurrencyError::InsufficientAllowance)));
    let next = ICPCanisterWallet.deposit(
        &mut store,
        user(),
        1,
        &context(),
        DepositStage::AwaitingTransfer,
        Event::Rejected("gone".to_string()),
    );
    assert_eq!(next.1, Step::Done(Err(CurrencyError::TransferFromFailed("gone".to_string()))));
    assert_eq!(store.len(), 0);
}

#[test]
fn bitcoin_backend_words_a_refused_pull() {
    let text = |error: TransferFromError| match pull_failure(AssetFamily::Bitcoin, &error) {
        CurrencyError::TransferFromFailed(text) => text,
        other => panic!("{:?}", other),
    };
    assert_eq!(text(TransferFromError::BadFee { expected_fee: 12 }), "Bad fee: Expected 12, got 10000");
    assert_eq!(text(TransferFromError::BadBurn { min_burn_amount: 5 }), "Bad burn: Minimum burn amount is 5");
    assert_eq!(
        text(TransferFromError::InsufficientFunds { balance: 1_000 }),
        "Insufficient funds: Balance is 1000"
    );
    assert_eq!(text(TransferFromError::TooOld), "Transaction is too old");
    assert_eq!(
        text(TransferFromError::CreatedInFuture { ledger_time: 99 }),
        "Transaction created in the future: 99"
    );
    assert_eq!(
        text(TransferFromError::GenericError { error_code: 4, message: "no \"luck\"".to_string() }),
        "Error code 4: no \"luck\""
    );
    assert_eq!(text(TransferFromError::Duplicate { duplicate_of: 8 }), "Duplicate transaction: 8");
    assert_eq!(text(TransferFromError::TemporarilyUnavailable), "Service temporarily unavailable");
    assert_eq!(
        pull_failure(AssetFamily::Bitcoin, &TransferFromError::InsufficientAllowance { allowance: 1 }),
        CurrencyError::InsufficientAllowance
    );
    assert_eq!(
        pull_failure(AssetFamily::Generic, &TransferFromError::TooOld),
        CurrencyError::TransferFromFailed("TooOld".to_string())
    );
}

#[test]
fn bitcoin_deposit_refreshes_the_balance_and_ignores_the_outcome() {
    let wallet = CKBTCTokenWallet::new();
    for reply in [
        Event::Rejected("down".to_string()),
        Event::BalanceRefreshed(UpdateBalanceRet::Failure(UpdateBalanceError::AlreadyProcessing)),
        Event::BalanceRefreshed(UpdateBalanceRet::Success(vec![])),
    ] {
        let mut store = TransactionState::new();
        let (stage, step) = wallet.deposit(
            &mut store,
            user(),
            50,
            &context(),
            DepositStage::AwaitingTransfer,
            Event::TransferFrom(Ok(123_456)),
        );
        assert_eq!(stage, DepositStage::AwaitingRefresh);
        assert_eq!(
            step,
            Step::Call(RemoteCall::UpdateBalance {
                minter: canister_id(BTC_MINTER_NUMBER),
                args: UpdateBalanceArg { owner: Some(custody()), subaccount: None },
            })
        );
        assert_eq!(
            store.transactions(),
            vec![format!("CKBTC-DEPOSIT-123456-{}-{}", user().to_text(), NOW)]
        );
        let next = wallet.deposit(&mut store, user(), 50, &context(), stage, reply);
        assert_eq!(next, (DepositStage::Finished, Step::Done(Ok(()))));
        assert_eq!(store.len(), 1);
    }
}

#[test]
fn deposit_identifiers_name_the_family() {
    let mut store = TransactionState::new();
    CKERC20TokenWallet::new(CKTokenSymbol::ETH).deposit(
        &mut store,
        user(),
        1,
        &context(),
        DepositStage::AwaitingTransfer,
        Event::TransferFrom(Ok(1)),
    );
    generic(&["ICRC-1", "ICRC-2"]).deposit(
        &mut store,
        user(),
        1,
        &context(),
        DepositStage::AwaitingTransfer,
        Event::TransferFrom(Ok(u128::MAX)),
    );
    assert_eq!(
        store.transactions(),
        vec![
            format!("CKERC20-DEPOSIT-1-{}-{}", user().to_text(), NOW),
            format!("CHAT-DEPOSIT-{}-{}-{}", u128::MAX, user().to_text(), NOW),
        ]
    );
    assert_eq!(
        deposit_record_id("TAG", 5, &PrincipalId::management_canister(), 9),
        "TAG-DEPOSIT-5-aaaaa-aa-9"
    );
}

#[test]
fn deposit_of_the_same_transfer_at_the_same_time_is_recorded_once() {
    let mut store = TransactionState::new();
    for _ in 0..2 {
        ICPCanisterWallet.deposit(
            &mut store,
            user(),
            1,
            &context(),
            DepositStage::AwaitingTransfer,
            Event::TransferFrom(Ok(1)),
        );
    }
    assert_eq!(store.len(), 1);
}

#[test]
fn deposit_answers_an_unexpected_event_with_an_error() {
    let mut store = TransactionState::new();
    let unexpected = Step::Done(Err(CurrencyError::CanisterCallFailed("unexpected event".to_string())));
    let next = ICPCanisterWallet.deposit(
        &mut store,
        user(),
        1,
        &context(),
        DepositStage::Start,
        Event::TransferFrom(Ok(1)),
    );
    assert_eq!(next, (DepositStage::Finished, unexpected));
    let next = ICPCanisterWallet.deposit(
        &mut store,
        user(),
        1,
        &context(),
        DepositStage::Finished,
        Event::Started,
    );
    assert_eq!(next.0, DepositStage::Finished);
    assert!(matches!(next.1, Step::Done(Err(CurrencyError::CanisterCallFailed(_)))));
    let next = ICPCanisterWallet.deposit(
        &mut store,
        user(),
        1,
        &context(),
        DepositStage::AwaitingAllowance,
        Event::TransferFrom(Ok(1)),
    );
    assert!(matches!(next.1, Step::Done(Err(CurrencyError::CanisterCallFailed(_)))));
    assert_eq!(store.len(), 0);
}

#[test]
fn token_without_allowances_refuses_validation_without_a_call() {
    let wallet = generic(&["ICRC-1"]);
    assert!(!wallet.supports_icrc2());
    let next = wallet.validate_allowance(user(), 5, &context(), CallStage::Start, Event::Started);
    assert_eq!(
        next,
        (
            CallStage::Finished,
            Step::Done(Err(CurrencyError::OperationNotSupported(
                "Token CHAT does not support ICRC-2 (allowance) operations".to_string()
            )))
        )
    );
    let mut store = TransactionState::new();
    let next = wallet.deposit(&mut store, user(), 5, &context(), DepositStage::Start, Event::Started);
    assert_eq!(
        next.1,
        Step::Done(Err(CurrencyError::OperationNotSupported(
            "Token CHAT does not support ICRC-2 (allowance) operations".to_string()
        )))
    );
    let next = wallet.check_allowance(user(), &context(), CallStage::Start, Event::Started);
    assert_eq!(
        next.1,
        Step::Done(Err(CurrencyError::OperationNotSupported(
            "Token does not support ICRC-2 (allowance) operations".to_string()
        )))
    );
    let next = wallet.transfer_from(user(), 5, &context(), CallStage::Start, Event::Started);
    assert_eq!(
        next.1,
        Step::Done(Err(CurrencyError::OperationNotSupported(
            "Token does not support ICRC-2 (transfer_from) operations".to_string()
        )))
    );
}

#[test]
fn token_with_allowances_validates_like_the_others() {
    let wallet = generic(&["ICRC-1", "ICRC-2"]);
    assert!(wallet.supports_icrc2());
    assert!(!generic(&[]).supports_icrc2());
    assert!(!generic(&["icrc-2", "ICRC-21"]).supports_icrc2());
    let (stage, step) =
        wallet.validate_allowance(user(), 5, &context(), CallStage::Start, Event::Started);
    assert_eq!(stage, CallStage::Awaiting);
    assert_eq!(step, Step::Call(allowance_query(canister_id(555))));
    let enough = Event::Allowance(Allowance { allowance: 5, expires_at: None });
    assert_eq!(
        wallet.validate_allowance(user(), 5, &context(), stage, enough),
        (CallStage::Finished, Step::Done(Ok(())))
    );
    let short = Event::Allowance(Allowance { allowance: 4, expires_at: None });
    assert_eq!(
        wallet.validate_allowance(user(), 5, &context(), stage, short).1,
        Step::Done(Err(CurrencyError::InsufficientAllowance))
    );
    let expired = Event::Allowance(Allowance { allowance: 5, expires_at: Some(NOW) });
    assert_eq!(
        wallet.validate_allowance(user(), 5, &context(), stage, expired).1,
        Step::Done(Err(CurrencyError::InsufficientAllowance))
    );
    let down = Event::Rejected("down".to_string());
    assert_eq!(
        wallet.validate_allowance(user(), 5, &context(), stage, down).1,
        Step::Done(Err(CurrencyError::AllowanceCheckFailed("down".to_string())))
    );
}

#[test]
fn generic_pull_names_the_token_s_fee() {
    let wallet = generic(&["ICRC-2"]);
    let (stage, step) = wallet.transfer_from(user(), 5, &context(), CallStage::Start, Event::Started);
    assert_eq!(step, Step::Call(pull(canister_id(555), 5, 100_000)));
    assert_eq!(
        wallet.transfer_from(user(), 5, &context(), stage, Event::TransferFrom(Ok(88))),
        (CallStage::Finished, Step::Done(Ok(88)))
    );
}

#[test]
fn wrapped_asset_pull_names_the_native_fee() {
    let wallet = CKERC20TokenWallet::new(CKTokenSymbol::USDC);
    let from = Account { owner: user(), subaccount: None };
    let to = Account { owner: custody(), subaccount: Some(vec![1; 32]) };
    let (stage, step) = wallet.transfer_from(
        canister_id(USDC_LEDGER_NUMBER),
        from.clone(),
        to.clone(),
        77,
        NOW,
        CallStage::Start,
        Event::Started,
    );
    assert_eq!(stage, CallStage::Awaiting);
    assert_eq!(
        step,
        Step::Call(RemoteCall::Icrc2TransferFrom {
            ledger: canister_id(USDC_LEDGER_NUMBER),
            args: TransferFromArg {
                spender_subaccount: None,
                from: from.clone(),
                to: to.clone(),
                amount: 77,
                fee: Some(10_000),
                memo: None,
                created_at_time: Some(NOW),
            },
        })
    );
    let (_, step) = wallet.check_allowance(
        canister_id(USDC_LEDGER_NUMBER),
        from.clone(),
        to.clone(),
        CallStage::Start,
        Event::Started,
    );
    assert_eq!(
        step,
        Step::Call(RemoteCall::Icrc2Allowance {
            ledger: canister_id(USDC_LEDGER_NUMBER),
            args: AllowanceArgs { account: from, spender: to },
        })
    );
}

#[test]
fn allowance_query_returns_the_allowance() {
    let allowance = Allowance { allowance: 5, expires_at: Some(1) };
    assert_eq!(
        ICPCanisterWallet.check_allowance(user(), &context(), CallStage::Awaiting, Event::Allowance(allowance)),
        (CallStage::Finished, Step::Done(Ok(allowance)))
    );
    let (_, step) =
        CKBTCTokenWallet::new().check_allowance(user(), &context(), CallStage::Start, Event::Started);
    assert_eq!(step, Step::Call(allowance_query(canister_id(BTC_LEDGER_NUMBER))));
    let (_, step) = ICPCanisterWallet.transfer_from(user(), 9, &context(), CallStage::Start, Event::Started);
    assert_eq!(step, Step::Call(pull(mainnet_ledger_id(), 9, 10_000)));
    let (_, step) =
        CKBTCTokenWallet::new().transfer_from(user(), 9, &context(), CallStage::Start, Event::Started);
    assert_eq!(step, Step::Call(pull(canister_id(BTC_LEDGER_NUMBER), 9, 10)));
}

#[test]
fn native_withdrawal_goes_to_the_receiver_s_default_account() {
    let wallet = ICPCanisterWallet;
    let (stage, step) = wallet.withdraw(user(), 1_000_000, &context(), CallStage::Start, Event::Started);
    assert_eq!(stage, CallStage::Awaiting);
    let to = ic_ledger_types::AccountIdentifier::new(
        &candid::Principal::from_slice(&user().to_bytes()),
        &ic_ledger_types::DEFAULT_SUBACCOUNT,
    );
    assert_eq!(
        step,
        Step::Call(RemoteCall::LedgerTransfer {
            ledger: mainnet_ledger_id(),
            args: LedgerTransferArgs {
                memo: 0,
                amount_e8s: 990_000,
                fee_e8s: 10_000,
                from_subaccount: Some(Subaccount([0; 32])),
                to: AccountIdentifier(*to.as_bytes()),
                created_at_time: None,
            },
        })
    );
    assert_eq!(
        wallet.withdraw(user(), 1_000_000, &context(), stage, Event::LedgerTransfer(Ok(5))),
        (CallStage::Finished, Step::Done(Ok(())))
    );
    assert_eq!(
        wallet
            .withdraw(
                user(),
                1_000_000,
                &context(),
                stage,
                Event::LedgerTransfer(Err("TxTooOld { allowed_window_nanos: 1 }".to_string()))
            )
            .1,
        Step::Done(Err(CurrencyError::LedgerError(
            "Transfer failed: TxTooOld { allowed_window_nanos: 1 }".to_string()
        )))
    );
    assert_eq!(
        wallet.withdraw(user(), 1_000_000, &context(), stage, Event::Rejected("down".to_string())).1,
        Step::Done(Err(CurrencyError::LedgerError("ICDK call error: down".to_string())))
    );
    assert!(matches!(
        wallet.withdraw(user(), 1_000_000, &context(), stage, Event::Transfer(Ok(5))).1,
        Step::Done(Err(CurrencyError::CanisterCallFailed(_)))
    ));
}

#[test]
fn withdrawal_of_the_fee_itself_sends_nothing_more() {
    let (_, step) = ICPCanisterWallet.withdraw(user(), 10_000, &context(), CallStage::Start, Event::Started);
    match step {
        Step::Call(RemoteCall::LedgerTransfer { args, .. }) => assert_eq!(args.amount_e8s, 0),
        other => panic!("{:?}", other),
    }
}

#[test]
fn withdrawal_below_the_fee_is_refused_without_a_call() {
    let refused = Step::Done(Err(CurrencyError::WithdrawalFailed("Amount does not cover the fee".to_string())));
    assert_eq!(
        ICPCanisterWallet.withdraw(user(), 9_999, &context(), CallStage::Start, Event::Started),
        (CallStage::Finished, refused)
    );
    let refused = Step::Done(Err(CurrencyError::WithdrawalFailed("Amount does not cover the fee".to_string())));
    assert_eq!(
        CKERC20TokenWallet::new(CKTokenSymbol::USDT).withdraw(
            user(),
            9_999,
            &context(),
            CallStage::Start,
            Event::Started
        ),
        (CallStage::Finished, refused)
    );
    assert_eq!(
        CKBTCTokenWallet::new().withdraw(user(), 9, &context(), CallStage::Start, Event::Started).1,
        Step::Done(Err(CurrencyError::WithdrawalFailed(
            "Withdraw failed: Amount does not cover the fee".to_string()
        )))
    );
}

#[test]
fn token_withdrawal_deducts_the_backend_s_fee() {
    let push = |ledger: PrincipalId, amount: u128, fee: u128| {
        Step::Call(RemoteCall::Icrc1Transfer {
            ledger,
            args: TransferArg {
                to: Account { owner: user(), subaccount: Some(vec![0; 32]) },
                fee: Some(fee),
                memo: None,
                from_subaccount: None,
                created_at_time: Some(NOW),
                amount,
            },
        })
    };
    let start = |wallet: &dyn Fn() -> (CallStage, Step<()>)| wallet();
    assert_eq!(
        start(&|| CKBTCTokenWallet::new().withdraw(user(), 1_000, &context(), CallStage::Start, Event::Started)),
        (CallStage::Awaiting, push(canister_id(BTC_LEDGER_NUMBER), 990, 10))
    );
    assert_eq!(
        start(&|| CKERC20TokenWallet::new(CKTokenSymbol::USDC).withdraw(
            user(),
            1_000_000,
            &context(),
            CallStage::Start,
            Event::Started
        )),
        (CallStage::Awaiting, push(canister_id(USDC_LEDGER_NUMBER), 990_000, 10_000))
    );
    assert_eq!(
        start(&|| generic(&[]).withdraw(user(), 100_000, &context(), CallStage::Start, Event::Started)),
        (CallStage::Awaiting, push(canister_id(555), 0, 100_000))
    );
    assert_eq!(
        start(&|| CKERC20TokenWallet::new(CKTokenSymbol::ETH).withdraw(
            user(),
            u64::MAX,
            &context(),
            CallStage::Start,
            Event::Started
        )),
        (
            CallStage::Awaiting,
            push(canister_id(0x0230_009d), u64::MAX as u128 - 2_000_000_000_000, 2_000_000_000_000)
        )
    );
}

#[test]
fn token_withdrawal_reports_what_the_ledger_said() {
    let wallet = CKERC20TokenWallet::new(CKTokenSymbol::USDC);
    let refused = Event::Transfer(Err(TransferErrorIcrc1::InsufficientFunds { balance: 5 }));
    assert_eq!(
        wallet.withdraw(user(), 20_000, &context(), CallStage::Awaiting, refused),
        (
            CallStage::Finished,
            Step::Done(Err(CurrencyError::LedgerError(
                "Ledger transfer error: InsufficientFunds { balance: 5 }".to_string()
            )))
        )
    );
    assert_eq!(
        wallet.withdraw(user(), 20_000, &context(), CallStage::Awaiting, Event::Rejected("CanisterReject no".to_string())).1,
        Step::Done(Err(CurrencyError::LedgerError("Failed to call ledger: CanisterReject no".to_string())))
    );
    assert_eq!(
        wallet.withdraw(user(), 20_000, &context(), CallStage::Awaiting, Event::Transfer(Ok(3))),
        (CallStage::Finished, Step::Done(Ok(())))
    );
    assert!(matches!(
        wallet.withdraw(user(), 20_000, &context(), CallStage::Awaiting, Event::LedgerTransfer(Ok(3))).1,
        Step::Done(Err(CurrencyError::CanisterCallFailed(_)))
    ));
}

#[test]
fn bitcoin_withdrawal_wraps_every_failure() {
    let wallet = CKBTCTokenWallet::new();
    let refused = Event::Transfer(Err(TransferErrorIcrc1::TooOld));
    assert_eq!(
        wallet.withdraw(user(), 20_000, &context(), CallStage::Awaiting, refused).1,
        Step::Done(Err(CurrencyError::WithdrawalFailed(
            "Ledger error: Ledger transfer error: TooOld".to_string()
        )))
    );
    assert_eq!(
        wallet.withdraw(user(), 20_000, &context(), CallStage::Awaiting, Event::Rejected("x".to_string())).1,
        Step::Done(Err(CurrencyError::WithdrawalFailed("Ledger error: Failed to call ledger: x".to_string())))
    );
    assert_eq!(
        wallet.withdraw(user(), 20_000, &context(), CallStage::Finished, Event::Started).1,
        Step::Done(Err(CurrencyError::WithdrawalFailed("Canister call failed".to_string())))
    );
}

#[test]
fn balance_is_read_as_128_bits() {
    let wallet = CKERC20TokenWallet::new(CKTokenSymbol::USDC);
    let (stage, step) = wallet.get_balance(user(), CallStage::Start, Event::Started);
    assert_eq!(stage, CallStage::Awaiting);
    assert_eq!(
        step,
        Step::Call(RemoteCall::Icrc1BalanceOf {
            ledger: canister_id(USDC_LEDGER_NUMBER),
            account: Account { owner: user(), subaccount: None },
        })
    );
    assert_eq!(
        wallet.get_balance(user(), stage, Event::Number(BigNat::from_u128(u128::MAX))),
        (CallStage::Finished, Step::Done(Ok(u128::MAX)))
    );
    let beyond = BigNat::from_decimal("340282366920938463463374607431768211456").unwrap();
    assert_eq!(
        wallet.get_balance(user(), stage, Event::Number(beyond)).1,
        Step::Done(Err(CurrencyError::LedgerError(
            "Failed to convert balance '340282366920938463463374607431768211456' to u128".to_string()
        )))
    );
}

#[test]
fn failed_balance_query_names_the_asset() {
    let down = || Event::Rejected("down".to_string());
    let text = |step: Step<u128>| match step {
        Step::Done(Err(CurrencyError::LedgerError(text))) => text,
        other => panic!("{:?}", other),
    };
    assert_eq!(
        text(ICPCanisterWallet.get_balance(user(), CallStage::Awaiting, down()).1),
        "Failed to query ICP balance: down"
    );
    assert_eq!(
        text(CKBTCTokenWallet::new().get_balance(user(), CallStage::Awaiting, down()).1),
        "Failed to query ckBTC balance: down"
    );
    assert_eq!(
        text(CKERC20TokenWallet::new(CKTokenSymbol::USDT).get_balance(user(), CallStage::Awaiting, down()).1),
        "Failed to query USDT balance: down"
    );
    assert_eq!(
        text(generic(&[]).get_balance(user(), CallStage::Awaiting, down()).1),
        "Failed to query CHAT balance: down"
    );
}

#[test]
fn backends_state_their_terms() {
    let icp = ICPCanisterWallet.wallet_terms();
    assert_eq!(icp.family, AssetFamily::Native);
    assert_eq!(icp.ledger, mainnet_ledger_id());
    assert_eq!((icp.pull_fee, icp.withdraw_fee), (10_000, 10_000));
    assert_eq!(icp.tag, "ICP");
    let btc = CKBTCTokenWallet::default().wallet_terms();
    assert_eq!(btc.family, AssetFamily::Bitcoin);
    assert_eq!(btc.minter, Some(canister_id(BTC_MINTER_NUMBER)));
    assert_eq!((btc.pull_fee, btc.withdraw_fee), (10, 10));
    assert_eq!((btc.tag.as_str(), btc.asset_name.as_str()), ("CKBTC", "ckBTC"));
    let eth = CKERC20TokenWallet::new(CKTokenSymbol::ETH).wallet_terms();
    assert_eq!(eth.family, AssetFamily::Erc20);
    assert_eq!((eth.pull_fee, eth.withdraw_fee), (10_000, 2_000_000_000_000));
    assert_eq!((eth.tag.as_str(), eth.asset_name.as_str()), ("CKERC20", "ETH"));
    let chat = generic(&["ICRC-2"]).wallet_terms();
    assert_eq!(chat.family, AssetFamily::Generic);
    assert_eq!((chat.pull_fee, chat.withdraw_fee), (100_000, 100_000));
    assert_eq!((chat.tag.as_str(), chat.asset_name.as_str()), ("CHAT", "CHAT"));
    assert!(chat.supports_allowance);
    assert!(!generic(&[]).wallet_terms().supports_allowance);
}
