use currency::currency_error::CurrencyError;
use currency::icrc1_types::{TransferErrorIcrc1, TransferFromError};
use currency::principal::PrincipalId;
use currency::types::constants::canister_id;
use currency::types::currency::{CKTokenConfig, CKTokenSymbol, Token};
use currency::Currency;

fn ledger() -> PrincipalId {
    canister_id(77)
}

#[test]
fn decimals_of_the_well_known_assets() {
    assert_eq!(Currency::ICP.decimals(), 8);
    assert_eq!(Currency::BTC.decimals(), 8);
    assert_eq!(Currency::CKETHToken(CKTokenSymbol::USDC).decimals(), 6);
    assert_eq!(Currency::CKETHToken(CKTokenSymbol::USDT).decimals(), 6);
    assert_eq!(Currency::CKETHToken(CKTokenSymbol::ETH).decimals(), 18);
    assert_eq!(Currency::CKETHToken(CKTokenSymbol::BTC).decimals(), 8);
}

#[test]
fn decimals_of_a_third_party_token_are_its_own() {
    let token = Token::from_string(ledger(), "ABC", 12);
    assert_eq!(Currency::GenericICRC1(token).decimals(), 12);
}

#[test]
fn token_symbol_is_padded_with_zeros() {
    let token = Token::from_string(ledger(), "ABC", 2);
    assert_eq!(token.symbol, [b'A', b'B', b'C', 0, 0, 0, 0, 0]);
    assert_eq!(token.ledger_id, ledger());
    assert_eq!(token.decimals, 2);
    assert_eq!(token.symbol_to_string(), "ABC");
}

#[test]
fn token_symbol_keeps_the_first_eight_bytes() {
    let token = Token::from_string(ledger(), "ABCDEFGHIJ", 2);
    assert_eq!(token.symbol, *b"ABCDEFGH");
    assert_eq!(token.symbol_to_string(), "ABCDEFGH");
    let exact = Token::from_string(ledger(), "12345678", 2);
    assert_eq!(exact.symbol_to_string(), "12345678");
    let empty = Token::from_string(ledger(), "", 2);
    assert_eq!(empty.symbol, [0; 8]);
    assert_eq!(empty.symbol_to_string(), "");
}

#[test]
fn token_symbol_cut_inside_a_character_is_read_lossily() {
    let token = Token::from_string(ledger(), "ABCDEFGé", 2);
    assert_eq!(token.symbol[7], 0xc3);
    assert_eq!(token.symbol_to_string(), "ABCDEFG\u{fffd}");
    let whole = Token::from_string(ledger(), "éé", 2);
    assert_eq!(whole.symbol_to_string(), "éé");
}

#[test]
fn token_symbol_ends_at_the_first_zero_byte() {
    let token = Token { ledger_id: ledger(), symbol: [b'A', 0, b'B', 0, 0, 0, 0, 0], decimals: 1 };
    assert_eq!(token.symbol_to_string(), "A");
}

#[test]
fn tokens_and_tags_compare_by_value() {
    let a = Token::from_string(ledger(), "ABC", 2);
    let b = Token::from_string(ledger(), "ABC", 2);
    assert_eq!(a, b);
    assert_ne!(a, Token::from_string(ledger(), "ABD", 2));
    assert_ne!(a, Token::from_string(ledger(), "ABC", 3));
    assert_ne!(a, Token::from_string(canister_id(78), "ABC", 2));
    assert_eq!(Currency::GenericICRC1(a), Currency::GenericICRC1(b));
    assert_ne!(Currency::ICP, Currency::BTC);
    assert_ne!(Currency::CKETHToken(CKTokenSymbol::BTC), Currency::BTC);
    assert_eq!(Currency::CKETHToken(CKTokenSymbol::ETH), Currency::CKETHToken(CKTokenSymbol::ETH));
    let copy = a;
    assert_eq!(copy, a);
}

#[test]
fn configurations_compare_by_value() {
    let config = CKTokenConfig {
        minter_id: canister_id(1),
        ledger_id: canister_id(2),
        token_symbol: CKTokenSymbol::USDC,
        decimals: 6,
        fee: 10_000,
    };
    assert_eq!(config, config.clone());
    assert_ne!(config, CKTokenConfig { fee: 10_001, ..config });
    assert_ne!(config, CKTokenConfig { ledger_id: canister_id(3), ..config });
}

#[test]
fn tags_are_stored_under_their_numbers() {
    assert_eq!(u8::from(Currency::ICP), 0);
    assert_eq!(u8::from(Currency::CKETHToken(CKTokenSymbol::USDC)), 1);
    assert_eq!(u8::from(Currency::CKETHToken(CKTokenSymbol::USDT)), 2);
    assert_eq!(u8::from(Currency::CKETHToken(CKTokenSymbol::ETH)), 3);
    assert_eq!(u8::from(Currency::CKETHToken(CKTokenSymbol::BTC)), 4);
    assert_eq!(u8::from(Currency::BTC), 5);
    assert_eq!(u8::from(Currency::GenericICRC1(Token::from_string(ledger(), "X", 1))), 6);
    for value in 0..=5u8 {
        assert_eq!(u8::from(Currency::from(value)), value);
    }
    assert_eq!(Currency::from(3), Currency::CKETHToken(CKTokenSymbol::ETH));
}

#[test]
fn tags_are_shown_by_their_names() {
    assert_eq!(Currency::ICP.to_string(), "ICP");
    assert_eq!(Currency::BTC.to_string(), "BTC");
    assert_eq!(Currency::CKETHToken(CKTokenSymbol::USDC).to_string(), "USDC");
    assert_eq!(Currency::CKETHToken(CKTokenSymbol::USDT).to_string(), "USDT");
    assert_eq!(Currency::CKETHToken(CKTokenSymbol::ETH).to_string(), "ETH");
    assert_eq!(Currency::CKETHToken(CKTokenSymbol::BTC).to_string(), "BTC");
    assert_eq!(Currency::GenericICRC1(Token::from_string(ledger(), "CHAT", 8)).to_string(), "CHAT");
    assert_eq!(format!("{:?}", CKTokenSymbol::USDC), CKTokenSymbol::USDC.to_string());
}

#[test]
fn errors_describe_themselves() {
    let text = "why".to_string();
    assert_eq!(CurrencyError::LockError.to_string(), "failed to acquire lock");
    assert_eq!(CurrencyError::SerializationError(text.clone()).to_string(), "serialization error: why");
    assert_eq!(CurrencyError::BlockQueryFailed(text.clone()).to_string(), "Block query failed: why");
    assert_eq!(CurrencyError::BlockNotFound.to_string(), "Block not found");
    assert_eq!(CurrencyError::NoBlockNumberProvided.to_string(), "No block number provided");
    assert_eq!(
        CurrencyError::NoTransactionSignatureProvided.to_string(),
        "No transaction signature provided"
    );
    assert_eq!(CurrencyError::InvalidTransactionDetails.to_string(), "Invalid transaction details");
    assert_eq!(CurrencyError::TransactionNotFound.to_string(), "Transaction not found");
    assert_eq!(CurrencyError::InvalidTransactionType.to_string(), "Invalid transaction type");
    assert_eq!(CurrencyError::DuplicateTransaction.to_string(), "Duplicate transaction");
    assert_eq!(CurrencyError::LedgerError(text.clone()).to_string(), "Ledger error: why");
    assert_eq!(CurrencyError::InsufficientFunds.to_string(), "Insufficient funds");
    assert_eq!(CurrencyError::QueryError(text.clone()).to_string(), "Query error: why");
    assert_eq!(CurrencyError::GetBlockError(text.clone()).to_string(), "Get block error: why");
    assert_eq!(CurrencyError::CanisterCallFailed(text.clone()).to_string(), "Canister call failed");
    assert_eq!(CurrencyError::NoDepositAddress.to_string(), "No deposit address found");
    assert_eq!(CurrencyError::WalletNotSet.to_string(), "Wallet not set");
    assert_eq!(CurrencyError::WithdrawalFailed(text.clone()).to_string(), "Withdraw failed: why");
    assert_eq!(CurrencyError::InsufficientAllowance.to_string(), "Insufficient allowance");
    assert_eq!(CurrencyError::AllowanceCheckFailed(text.clone()).to_string(), "Failed to check allowance");
    assert_eq!(CurrencyError::TransferFromFailed(text.clone()).to_string(), "Failed to transfer from");
    assert_eq!(
        CurrencyError::OperationNotSupported(text).to_string(),
        "Operation not supported: why"
    );
}

#[test]
fn transfer_from_errors_are_written_in_their_debug_form() {
    let errors = vec![
        TransferFromError::BadFee { expected_fee: 10 },
        TransferFromError::BadBurn { min_burn_amount: 0 },
        TransferFromError::InsufficientFunds { balance: u128::MAX },
        TransferFromError::InsufficientAllowance { allowance: 1_000_000 },
        TransferFromError::TooOld,
        TransferFromError::CreatedInFuture { ledger_time: u64::MAX },
        TransferFromError::Duplicate { duplicate_of: 42 },
        TransferFromError::TemporarilyUnavailable,
        TransferFromError::GenericError { error_code: 7, message: "plain".to_string() },
        TransferFromError::GenericError {
            error_code: 7,
            message: "with \"quotes\", a \\ and a\nline break \u{1f600} \u{7f}".to_string(),
        },
    ];
    for error in errors {
        assert_eq!(error.debug_string(), format!("{:?}", error));
    }
    assert_eq!(
        TransferFromError::BadFee { expected_fee: 10 }.debug_string(),
        "BadFee { expected_fee: 10 }"
    );
    assert_eq!(
        TransferFromError::GenericError { error_code: 7, message: "a\"b".to_string() }.debug_string(),
        "GenericError { error_code: 7, message: \"a\\\"b\" }"
    );
}

#[test]
fn transfer_errors_are_written_in_their_debug_form() {
    let errors = vec![
        TransferErrorIcrc1::GenericError { message: "it's \"broken\"".to_string(), error_code: 3 },
        TransferErrorIcrc1::TemporarilyUnavailable,
        TransferErrorIcrc1::BadBurn { min_burn_amount: 5 },
        TransferErrorIcrc1::Duplicate { duplicate_of: 6 },
        TransferErrorIcrc1::BadFee { expected_fee: 7 },
        TransferErrorIcrc1::CreatedInFuture { ledger_time: 8 },
        TransferErrorIcrc1::TooOld,
        TransferErrorIcrc1::InsufficientFunds { balance: 9 },
    ];
    for error in errors {
        assert_eq!(error.debug_string(), format!("{:?}", error));
    }
    assert_eq!(
        TransferErrorIcrc1::GenericError { message: "m".to_string(), error_code: 3 }.debug_string(),
        "GenericError { message: \"m\", error_code: 3 }"
    );
}
