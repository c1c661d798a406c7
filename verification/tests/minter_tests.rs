use currency::big_nat::BigNat;
use currency::ckbtc_minter_canister_interface::{
    GetBtcAddressArg, UpdateBalanceError, UpdateBalanceRet, Utxo, UtxoOutpoint, UtxoStatus,
};
use currency::cketh_minter_canister_interface::{
    CkErc20Token, EthTransaction, Event as MinterEvent, EventPayload, EventSource, GetEventsArg,
    GetEventsRet, LedgerError, MinterInfo, RetrieveErc20Request, TxFinalizedStatus,
    WithdrawErc20Arg, WithdrawErc20Error, WithdrawErc20Ret, WithdrawalDetail,
    WithdrawalSearchParameter, WithdrawalStatus,
};
use currency::currency_error::CurrencyError;
use currency::principal::PrincipalId;
use currency::remote::{CallContext, CallStage, Event, RemoteCall, Step};
use currency::types::canister_wallets::btc_token_wallet::CKBTCTokenWallet;
use currency::types::canister_wallets::ckerc20_token_wallet::{
    burn_failure, find_mint, translate_status, withdrawal_failure, CKERC20TokenWallet,
    CKTokenWithdrawalStatus, MintScanStage,
};
use currency::types::constants::{
    canister_id, BTC_LEDGER_NUMBER, BTC_MINTER_NUMBER, CKETH_MINTER_NUMBER, ETH_LEDGER_NUMBER,
    USDC_LEDGER_NUMBER, USDT_LEDGER_NUMBER,
};
use currency::types::currency::{CKTokenConfig, CKTokenSymbol};

fn custody() -> PrincipalId {
    canister_id(1_000)
}

fn context() -> CallContext {
    CallContext { canister_id: custody(), now: 55 }
}

fn number(value: u128) -> BigNat {
    BigNat::from_u128(value)
}

fn minter() -> PrincipalId {
    canister_id(CKETH_MINTER_NUMBER)
}

fn mint(hash: &str, block: u128) -> MinterEvent {
    MinterEvent {
        timestamp: 1,
        payload: EventPayload::MintedCkErc20 {
            event_source: EventSource { transaction_hash: hash.to_string(), log_index: number(0) },
            erc20_contract_address: "0xa0b8".to_string(),
            mint_block_index: number(block),
            ckerc20_token_symbol: "ckUSDC".to_string(),
        },
    }
}

fn other_event() -> MinterEvent {
    MinterEvent { timestamp: 2, payload: EventPayload::SyncedToBlock { block_number: number(9) } }
}

fn events(list: Vec<MinterEvent>) -> Event {
    Event::Events(GetEventsRet { total_event_count: list.len() as u64, events: list })
}

fn events_query() -> Step<u64> {
    Step::Call(RemoteCall::GetEvents { minter: minter(), args: GetEventsArg { start: 0, length: 100 } })
}

fn detail(status: WithdrawalStatus) -> WithdrawalDetail {
    WithdrawalDetail {
        status,
        token_symbol: "ckUSDC".to_string(),
        withdrawal_amount: number(5),
        withdrawal_id: 3,
        from: custody(),
        from_subaccount: None,
        max_transaction_fee: None,
        recipient_address: "0xabc".to_string(),
    }
}

#[test]
fn wrapped_assets_have_their_well_known_configurations() {
    assert_eq!(
        CKERC20TokenWallet::new(CKTokenSymbol::USDC).config,
        CKTokenConfig {
            minter_id: minter(),
            ledger_id: canister_id(USDC_LEDGER_NUMBER),
            token_symbol: CKTokenSymbol::USDC,
            decimals: 6,
            fee: 10_000,
        }
    );
    assert_eq!(
        CKERC20TokenWallet::new(CKTokenSymbol::USDT).config,
        CKTokenConfig {
            minter_id: minter(),
            ledger_id: canister_id(USDT_LEDGER_NUMBER),
            token_symbol: CKTokenSymbol::USDT,
            decimals: 6,
            fee: 10_000,
        }
    );
    assert_eq!(
        CKERC20TokenWallet::new(CKTokenSymbol::ETH).config,
        CKTokenConfig {
            minter_id: minter(),
            ledger_id: canister_id(ETH_LEDGER_NUMBER),
            token_symbol: CKTokenSymbol::ETH,
            decimals: 18,
            fee: 2_000_000_000_000,
        }
    );
    assert_eq!(
        CKBTCTokenWallet::new().config,
        CKTokenConfig {
            minter_id: canister_id(BTC_MINTER_NUMBER),
            ledger_id: canister_id(BTC_LEDGER_NUMBER),
            token_symbol: CKTokenSymbol::BTC,
            decimals: 8,
            fee: 10,
        }
    );
}

#[test]
fn bitcoin_deposit_address_is_asked_of_the_minter() {
    let wallet = CKBTCTokenWallet::new();
    let (stage, step) = wallet.get_deposit_address(&context(), CallStage::Start, Event::Started);
    assert_eq!(stage, CallStage::Awaiting);
    assert_eq!(
        step,
        Step::Call(RemoteCall::GetBtcAddress {
            minter: canister_id(BTC_MINTER_NUMBER),
            args: GetBtcAddressArg { owner: Some(custody()), subaccount: None },
        })
    );
    assert_eq!(
        wallet.get_deposit_address(&context(), stage, Event::Text("bc1q".to_string())),
        (CallStage::Finished, Step::Done(Ok("bc1q".to_string())))
    );
    assert_eq!(
        wallet.get_deposit_address(&context(), stage, Event::Rejected("down".to_string())).1,
        Step::Done(Err(CurrencyError::CanisterCallFailed("down".to_string())))
    );
}

#[test]
fn balance_refresh_reports_what_the_minter_said() {
    let wallet = CKBTCTokenWallet::new();
    let utxo = Utxo { height: 1, value: 2, outpoint: UtxoOutpoint { txid: vec![1, 2], vout: 0 } };
    let statuses = vec![UtxoStatus::Minted { minted_amount: 2, block_index: 9, utxo }];
    assert_eq!(
        wallet.update_balance(
            &context(),
            CallStage::Awaiting,
            Event::BalanceRefreshed(UpdateBalanceRet::Success(statuses.clone()))
        ),
        (CallStage::Finished, Step::Done(Ok(statuses)))
    );
    let text = |error: UpdateBalanceError| {
        match wallet
            .update_balance(
                &context(),
                CallStage::Awaiting,
                Event::BalanceRefreshed(UpdateBalanceRet::Failure(error)),
            )
            .1
        {
            Step::Done(Err(CurrencyError::LedgerError(text))) => text,
            other => panic!("{:?}", other),
        }
    };
    assert_eq!(
        text(UpdateBalanceError::GenericError { error_message: "bad".to_string(), error_code: 9 }),
        "Error code 9: bad"
    );
    assert_eq!(
        text(UpdateBalanceError::TemporarilyUnavailable("busy".to_string())),
        "Service temporarily unavailable: busy"
    );
    assert_eq!(text(UpdateBalanceError::AlreadyProcessing), "Already processing balance update");
    assert_eq!(
        text(UpdateBalanceError::NoNewUtxos {
            suspended_utxos: None,
            required_confirmations: 6,
            pending_utxos: None,
            current_confirmations: Some(2),
        }),
        "No new UTXOs available. Required confirmations: 6, Current: 2"
    );
    assert_eq!(
        text(UpdateBalanceError::NoNewUtxos {
            suspended_utxos: None,
            required_confirmations: 12,
            pending_utxos: Some(vec![]),
            current_confirmations: None,
        }),
        "No new UTXOs available. Required confirmations: 12, Current: 0"
    );
    assert_eq!(
        wallet.update_balance(&context(), CallStage::Awaiting, Event::Rejected("down".to_string())).1,
        Step::Done(Err(CurrencyError::CanisterCallFailed("down".to_string())))
    );
}

#[test]
fn ethereum_deposit_addresses_are_asked_of_the_minter() {
    let wallet = CKERC20TokenWallet::new(CKTokenSymbol::USDC);
    let (stage, step) = wallet.get_deposit_address(CallStage::Start, Event::Started);
    assert_eq!(step, Step::Call(RemoteCall::SmartContractAddress { minter: minter() }));
    assert_eq!(
        wallet.get_deposit_address(stage, Event::OptionalText(Some("0x1".to_string()))),
        (CallStage::Finished, Step::Done(Ok(Some("0x1".to_string()))))
    );
    assert_eq!(
        wallet.get_deposit_address(stage, Event::OptionalText(None)).1,
        Step::Done(Ok(None))
    );
    let (stage, step) = wallet.get_deposit_address_for_principal(CallStage::Start, Event::Started);
    assert_eq!(step, Step::Call(RemoteCall::GetMinterInfo { minter: minter() }));
    let info = |address: Option<&str>| {
        Event::MinterInfo(MinterInfo {
            deposit_with_subaccount_helper_contract_address: address.map(|a| a.to_string()),
            eth_balance: None,
            eth_helper_contract_address: Some("0xother".to_string()),
            last_observed_block_number: None,
            evm_rpc_id: None,
            erc20_helper_contract_address: None,
            last_erc20_scraped_block_number: None,
            supported_ckerc20_tokens: None,
            last_gas_fee_estimate: None,
            cketh_ledger_id: None,
            smart_contract_address: None,
            last_eth_scraped_block_number: None,
            minimum_withdrawal_amount: None,
            erc20_balances: None,
            minter_address: None,
            last_deposit_with_subaccount_scraped_block_number: None,
            ethereum_block_height: None,
        })
    };
    assert_eq!(
        wallet.get_deposit_address_for_principal(stage, info(Some("0xhelper"))),
        (CallStage::Finished, Step::Done(Ok("0xhelper".to_string())))
    );
    assert_eq!(
        wallet.get_deposit_address_for_principal(stage, info(None)).1,
        Step::Done(Err(CurrencyError::NoDepositAddress))
    );
    assert_eq!(
        wallet.get_deposit_address_for_principal(stage, Event::Rejected("down".to_string())).1,
        Step::Done(Err(CurrencyError::CanisterCallFailed("down".to_string())))
    );
}

#[test]
fn mint_scan_finds_the_mint_of_the_transaction() {
    let wallet = CKERC20TokenWallet::new(CKTokenSymbol::USDC);
    let (stage, step) = wallet.get_mint_block_number("0xbeef", MintScanStage::Start, Event::Started);
    assert_eq!(stage, MintScanStage::Awaiting { attempt: 1 });
    assert_eq!(step, events_query());
    let reply = events(vec![other_event(), mint("0xdead", 4), mint("0xbeef", 17), mint("0xbeef", 18)]);
    assert_eq!(
        wallet.get_mint_block_number("0xbeef", stage, reply),
        (MintScanStage::Finished, Step::Done(Ok(17)))
    );
}

#[test]
fn mint_scan_asks_ten_times_at_most() {
    let wallet = CKERC20TokenWallet::new(CKTokenSymbol::USDC);
    let (mut stage, mut step) =
        wallet.get_mint_block_number("0xbeef", MintScanStage::Start, Event::Started);
    let mut calls = 0;
    while let Step::Call(_) = step {
        calls += 1;
        assert_eq!(stage, MintScanStage::Awaiting { attempt: calls });
        assert_eq!(step, events_query());
        let next = wallet.get_mint_block_number("0xbeef", stage, events(vec![mint("0xdead", 4)]));
        stage = next.0;
        step = next.1;
    }
    assert_eq!(calls, 10);
    assert_eq!(stage, MintScanStage::Finished);
    assert_eq!(step, Step::Done(Err(CurrencyError::TransactionNotFound)));
}

#[test]
fn mint_scan_stops_at_a_failed_call_and_at_a_block_beyond_64_bits() {
    let wallet = CKERC20TokenWallet::new(CKTokenSymbol::USDC);
    let stage = MintScanStage::Awaiting { attempt: 3 };
    assert_eq!(
        wallet.get_mint_block_number("0xbeef", stage, Event::Rejected("down".to_string())),
        (MintScanStage::Finished, Step::Done(Err(CurrencyError::CanisterCallFailed("down".to_string()))))
    );
    assert_eq!(
        wallet.get_mint_block_number("0xbeef", stage, events(vec![mint("0xbeef", u64::MAX as u128 + 1)])),
        (
            MintScanStage::Finished,
            Step::Done(Err(CurrencyError::QueryError("Block number too large".to_string())))
        )
    );
    assert_eq!(
        wallet.get_mint_block_number("0xbeef", stage, events(vec![mint("0xbeef", u64::MAX as u128)])).1,
        Step::Done(Ok(u64::MAX))
    );
    assert_eq!(
        wallet.get_mint_block_number("0xbeef", MintScanStage::Awaiting { attempt: 200 }, events(vec![])).1,
        Step::Done(Err(CurrencyError::TransactionNotFound))
    );
}

#[test]
fn find_mint_takes_the_first_match() {
    let list = vec![mint("a", 1), other_event(), mint("b", 2), mint("a", 3)];
    assert_eq!(find_mint(&list, "a"), Some(&number(1)));
    assert_eq!(find_mint(&list, "b"), Some(&number(2)));
    assert_eq!(find_mint(&list, "c"), None);
    assert_eq!(find_mint(&vec![], "a"), None);
}

#[test]
fn ethereum_withdrawal_is_asked_of_the_minter() {
    let wallet = CKERC20TokenWallet::new(CKTokenSymbol::USDT);
    let (stage, step) = wallet.withdraw_icrc1_token_to_eth_address(
        "0xabc".to_string(),
        1_234_567,
        CallStage::Start,
        Event::Started,
    );
    assert_eq!(stage, CallStage::Awaiting);
    assert_eq!(
        step,
        Step::Call(RemoteCall::WithdrawErc20 {
            minter: minter(),
            args: WithdrawErc20Arg {
                ckerc20_ledger_id: canister_id(USDT_LEDGER_NUMBER),
                recipient: "0xabc".to_string(),
                from_cketh_subaccount: None,
                from_ckerc20_subaccount: None,
                amount: number(1_234_567),
            },
        })
    );
    let accepted = Event::WithdrawErc20(WithdrawErc20Ret::Success(RetrieveErc20Request {
        ckerc20_block_index: number(1),
        cketh_block_index: number(2),
    }));
    assert_eq!(
        wallet.withdraw_icrc1_token_to_eth_address("0xabc".to_string(), 5, stage, accepted),
        (CallStage::Finished, Step::Done(Ok(())))
    );
    let refused = Event::WithdrawErc20(WithdrawErc20Ret::Failure(
        WithdrawErc20Error::RecipientAddressBlocked { address: "0xabc".to_string() },
    ));
    assert_eq!(
        wallet.withdraw_icrc1_token_to_eth_address("0xabc".to_string(), 5, stage, refused).1,
        Step::Done(Err(CurrencyError::WithdrawalFailed("Recipient address blocked: 0xabc".to_string())))
    );
    assert_eq!(
        wallet
            .withdraw_icrc1_token_to_eth_address("0xabc".to_string(), 5, stage, Event::Rejected("down".to_string()))
            .1,
        Step::Done(Err(CurrencyError::CanisterCallFailed("down".to_string())))
    );
}

#[test]
fn refused_withdrawals_are_worded() {
    let token = |symbol: &str| CkErc20Token {
        erc20_contract_address: "0x1".to_string(),
        ledger_canister_id: canister_id(1),
        ckerc20_token_symbol: symbol.to_string(),
    };
    assert_eq!(
        withdrawal_failure(&WithdrawErc20Error::TokenNotSupported {
            supported_tokens: vec![token("ckUSDC"), token("ck\"X\""), token("ckUSDT")],
        }),
        "Token not supported. Supported tokens: [\"ckUSDC\", \"ck\\\"X\\\"\", \"ckUSDT\"]"
    );
    assert_eq!(
        withdrawal_failure(&WithdrawErc20Error::TokenNotSupported { supported_tokens: vec![] }),
        "Token not supported. Supported tokens: []"
    );
    assert_eq!(
        withdrawal_failure(&WithdrawErc20Error::TokenNotSupported { supported_tokens: vec![token("a")] }),
        format!("Token not supported. Supported tokens: {:?}", vec!["a"])
    );
    assert_eq!(
        withdrawal_failure(&WithdrawErc20Error::TemporarilyUnavailable("busy".to_string())),
        "Service temporarily unavailable: busy"
    );
    let allowance = LedgerError::InsufficientAllowance {
        token_symbol: "ckUSDC".to_string(),
        ledger_id: canister_id(1),
        allowance: number(1_000),
        failed_burn_amount: number(2_500_000),
    };
    assert_eq!(
        withdrawal_failure(&WithdrawErc20Error::CkErc20LedgerError {
            error: allowance.clone(),
            cketh_block_index: number(1),
        }),
        "Insufficient allowance for ckUSDC: have 1_000 need 2_500_000"
    );
    assert_eq!(
        withdrawal_failure(&WithdrawErc20Error::CkEthLedgerError { error: allowance }),
        "Insufficient ckUSDC allowance: have 1_000 need 2_500_000"
    );
}

#[test]
fn burn_failures_are_worded_for_either_ledger() {
    let unavailable = LedgerError::TemporarilyUnavailable("busy".to_string());
    assert_eq!(burn_failure(&unavailable, true), "Ledger temporarily unavailable: busy");
    assert_eq!(burn_failure(&unavailable, false), "ckETH ledger temporarily unavailable: busy");
    let low = LedgerError::AmountTooLow {
        minimum_burn_amount: number(30_000),
        token_symbol: "ckETH".to_string(),
        ledger_id: canister_id(1),
        failed_burn_amount: number(5),
    };
    assert_eq!(burn_failure(&low, true), "Amount too low for ckETH: minimum 30_000 got 5");
    assert_eq!(burn_failure(&low, false), "ckETH amount too low: minimum 30_000 got 5");
    let funds = LedgerError::InsufficientFunds {
        balance: number(0),
        token_symbol: "ckUSDT".to_string(),
        ledger_id: canister_id(1),
        failed_burn_amount: number(1_000_000),
    };
    assert_eq!(burn_failure(&funds, true), "Insufficient funds for ckUSDT: have 0 need 1_000_000");
    assert_eq!(burn_failure(&funds, false), "Insufficient ckETH funds: have 0 need 1_000_000");
}

#[test]
fn withdrawal_status_is_translated() {
    let hash = || "0xfeed".to_string();
    assert_eq!(translate_status(&WithdrawalStatus::Pending), CKTokenWithdrawalStatus::Pending);
    assert_eq!(translate_status(&WithdrawalStatus::TxCreated), CKTokenWithdrawalStatus::TxCreated);
    assert_eq!(
        translate_status(&WithdrawalStatus::TxSent(EthTransaction { transaction_hash: hash() })),
        CKTokenWithdrawalStatus::TxSent { transaction_hash: hash() }
    );
    let success = |fee: Option<BigNat>| {
        translate_status(&WithdrawalStatus::TxFinalized(TxFinalizedStatus::Success {
            transaction_hash: hash(),
            effective_transaction_fee: fee,
        }))
    };
    assert_eq!(
        success(Some(number(21_000))),
        CKTokenWithdrawalStatus::TxFinalized { transaction_hash: hash(), effective_fee: Some(21_000) }
    );
    assert_eq!(
        success(Some(number(u64::MAX as u128 + 1))),
        CKTokenWithdrawalStatus::TxFinalized { transaction_hash: hash(), effective_fee: Some(0) }
    );
    assert_eq!(
        success(None),
        CKTokenWithdrawalStatus::TxFinalized { transaction_hash: hash(), effective_fee: None }
    );
    assert_eq!(
        translate_status(&WithdrawalStatus::TxFinalized(TxFinalizedStatus::Reimbursed {
            transaction_hash: hash(),
            reimbursed_amount: number(1),
            reimbursed_in_block: number(2),
        })),
        CKTokenWithdrawalStatus::Failed("Transaction failed and was reimbursed. Tx hash: 0xfeed".to_string())
    );
    assert_eq!(
        translate_status(&WithdrawalStatus::TxFinalized(TxFinalizedStatus::PendingReimbursement(
            EthTransaction { transaction_hash: hash() }
        ))),
        CKTokenWithdrawalStatus::Failed(
            "Transaction failed, reimbursement pending. Tx hash: 0xfeed".to_string()
        )
    );
}

#[test]
fn withdrawal_status_is_asked_by_the_handle() {
    let wallet = CKERC20TokenWallet::new(CKTokenSymbol::USDC);
    let (stage, step) = wallet.check_withdrawal_status(3, CallStage::Start, Event::Started);
    assert_eq!(
        step,
        Step::Call(RemoteCall::WithdrawalStatus {
            minter: minter(),
            parameter: WithdrawalSearchParameter::ByWithdrawalId(3),
        })
    );
    let reply = Event::WithdrawalStatus(vec![detail(WithdrawalStatus::TxCreated), detail(WithdrawalStatus::Pending)]);
    assert_eq!(
        wallet.check_withdrawal_status(3, stage, reply),
        (CallStage::Finished, Step::Done(Ok(CKTokenWithdrawalStatus::TxCreated)))
    );
    assert_eq!(
        wallet.check_withdrawal_status(3, stage, Event::WithdrawalStatus(vec![])).1,
        Step::Done(Err(CurrencyError::WithdrawalFailed("Withdrawal not found".to_string())))
    );
    assert_eq!(
        wallet.check_withdrawal_status(3, stage, Event::Rejected("down".to_string())).1,
        Step::Done(Err(CurrencyError::CanisterCallFailed("down".to_string())))
    );
}
