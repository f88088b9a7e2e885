use htlc_escrow::token::{Token, TokenError};

#[test]
fn initialize_sets_metadata_once() {
    let mut token = Token::new(7);
    assert_eq!(token.initialize(1, "Test Token".to_string(), "TST".to_string(), 6), Ok(()));
    assert_eq!(token.name(), "Test Token".to_string());
    assert_eq!(token.symbol(), "TST".to_string());
    assert_eq!(token.decimals(), 6);
    assert_eq!(token.total_supply(), 0);

    let again = token.initialize(2, "Other".to_string(), "OTH".to_string(), 2);
    assert_eq!(again, Err(TokenError::AlreadyInitialized));
    assert_eq!(token.name(), "Test Token".to_string());
}

#[test]
fn mint_requires_an_initialized_ledger_and_its_admin() {
    let mut token = Token::new(7);
    assert_eq!(token.mint(1, 10, 100), Err(TokenError::NotInitialized));

    token.initialize(1, "Test Token".to_string(), "TST".to_string(), 6).unwrap();
    assert_eq!(token.mint(2, 10, 100), Err(TokenError::Unauthorized));
    assert_eq!(token.mint(1, 10, -1), Err(TokenError::InvalidAmount));
    assert_eq!(token.balance(10), 0);

    assert_eq!(token.mint(1, 10, 100), Ok(()));
    assert_eq!(token.balance(10), 100);
    assert_eq!(token.total_supply(), 100);
}

#[test]
fn transfer_moves_exactly_the_amount() {
    let mut token = Token::new(7);
    token.initialize(1, "Test Token".to_string(), "TST".to_string(), 6).unwrap();
    token.mint(1, 10, 1000).unwrap();

    assert_eq!(token.transfer(10, 10, 20, 300), Ok(()));
    assert_eq!(token.balance(10), 700);
    assert_eq!(token.balance(20), 300);
    assert_eq!(token.total_supply(), 1000);
}

#[test]
fn transfer_fails_explicitly_instead_of_truncating() {
    let mut token = Token::new(7);
    token.initialize(1, "Test Token".to_string(), "TST".to_string(), 6).unwrap();
    token.mint(1, 10, 100).unwrap();

    assert_eq!(token.transfer(10, 10, 20, 101), Err(TokenError::InsufficientBalance));
    assert_eq!(token.transfer(20, 10, 20, 50), Err(TokenError::Unauthorized));
    assert_eq!(token.transfer(10, 10, 20, -5), Err(TokenError::InvalidAmount));
    assert_eq!(token.balance(10), 100);
    assert_eq!(token.balance(20), 0);
}

#[test]
fn transfer_to_self_moves_nothing() {
    let mut token = Token::new(7);
    token.initialize(1, "Test Token".to_string(), "TST".to_string(), 6).unwrap();
    token.mint(1, 10, 100).unwrap();

    assert_eq!(token.transfer(10, 10, 10, 60), Ok(()));
    assert_eq!(token.balance(10), 100);
    assert_eq!(token.transfer(10, 10, 10, 101), Err(TokenError::InsufficientBalance));
}

#[test]
fn mint_refuses_overflowing_balances() {
    let mut token = Token::new(7);
    token.initialize(1, "Test Token".to_string(), "TST".to_string(), 6).unwrap();
    token.mint(1, 10, i128::MAX).unwrap();
    assert_eq!(token.mint(1, 10, 1), Err(TokenError::Overflow));
    assert_eq!(token.mint(1, 20, 1), Err(TokenError::Overflow));
    assert_eq!(token.balance(10), i128::MAX);
    assert_eq!(token.total_supply(), i128::MAX);
}

#[test]
fn transfer_of_everything_is_allowed() {
    let mut token = Token::new(7);
    token.initialize(1, "Test Token".to_string(), "TST".to_string(), 6).unwrap();
    token.mint(1, 10, i128::MAX).unwrap();
    assert_eq!(token.transfer(10, 10, 20, i128::MAX), Ok(()));
    assert_eq!(token.balance(10), 0);
    assert_eq!(token.balance(20), i128::MAX);
}
