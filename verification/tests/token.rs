use vinifica::contract::{SetAdmin, Token, TokenError, TokenEvent, check_nonnegative_amount};
use vinifica::models::{Address, MuxedAddress, WineLotMetadata};
use vinifica::storage_types::{AllowanceValue, BALANCE_BUMP_AMOUNT, INSTANCE_BUMP_AMOUNT};

fn plain(to: Address) -> MuxedAddress {
    MuxedAddress { address: to, id: None }
}

fn wine_metadata() -> WineLotMetadata {
    WineLotMetadata {
        lot_id: String::from("LOT-0042"),
        winery_name: String::from("Sunrise Hills"),
        region: String::from("Douro"),
        country: String::from("Portugal"),
        vintage: 2021,
        varietal: String::from("Touriga Nacional"),
        bottle_count: 600,
        description: Some(String::from("South slope, old vines")),
        token_code: String::from("SRH42"),
    }
}

#[test]
fn constructor_plain_metadata() {
    let admin = Address(1);
    let token = Token::__constructor(
        admin,
        7,
        String::from("Plain Token"),
        String::from("PLT"),
        None,
    );
    assert_eq!(token.decimals(), 7);
    assert_eq!(token.name(), "Plain Token");
    assert_eq!(token.symbol(), "PLT");
    let mut token = token;
    assert_eq!(token.get_wine_lot_metadata(50), None);
}

#[test]
fn constructor_derives_wine_lot_display_metadata() {
    let admin = Address(1);
    let mut token = Token::__constructor(
        admin,
        0,
        String::from("ignored"),
        String::from("IGN"),
        Some(wine_metadata()),
    );
    assert_eq!(token.name(), "WineLot-Sunrise Hills-2021");
    assert_eq!(token.symbol(), "WLT-SRH42");
    assert_eq!(token.get_wine_lot_metadata(50), Some(wine_metadata()));
}

#[test]
fn vintage_renders_in_decimal_at_the_edges() {
    let mut zero = wine_metadata();
    zero.vintage = 0;
    let token = Token::__constructor(
        Address(1),
        0,
        String::from("ignored"),
        String::from("IGN"),
        Some(zero),
    );
    assert_eq!(token.name(), "WineLot-Sunrise Hills-0");
    let mut wide = wine_metadata();
    wide.vintage = u32::MAX;
    let token = Token::__constructor(
        Address(1),
        0,
        String::from("ignored"),
        String::from("IGN"),
        Some(wide),
    );
    assert_eq!(token.name(), "WineLot-Sunrise Hills-4294967295");
}

#[test]
fn mint_transfer_and_allowance_scenario() {
    let admin = Address(1);
    let a = Address(10);
    let b = Address(11);
    let c = Address(12);
    let d = Address(13);
    let seq = 1000u32;
    let mut token = Token::__constructor(
        admin,
        7,
        String::from("Scenario"),
        String::from("SCN"),
        None,
    );
    token.mint(admin, a, 1000, seq);
    assert_eq!(token.balance(a, seq), 1000);
    assert_eq!(token.transfer(a, a, plain(b), 400, seq), Ok(()));
    assert_eq!(token.balance(a, seq), 600);
    assert_eq!(token.balance(b, seq), 400);
    token.approve(a, a, c, 300, seq + 10, seq);
    assert_eq!(token.allowance(a, c, seq), 300);
    assert_eq!(token.transfer_from(c, c, a, d, 300, seq), Ok(()));
    assert_eq!(token.balance(a, seq), 300);
    assert_eq!(token.balance(d, seq), 300);
    assert_eq!(token.allowance(a, c, seq), 0);
    assert_eq!(
        token.transfer_from(c, c, a, d, 1, seq),
        Err(TokenError::InsufficientAllowance)
    );
}

#[test]
fn insufficient_balance_fails_and_changes_nothing() {
    let admin = Address(1);
    let a = Address(2);
    let b = Address(3);
    let mut token = Token::__constructor(
        admin,
        2,
        String::from("Steady"),
        String::from("STD"),
        None,
    );
    token.mint(admin, a, 50, 10);
    assert_eq!(
        token.transfer(a, a, plain(b), 51, 10),
        Err(TokenError::InsufficientBalance)
    );
    assert_eq!(token.balance(a, 10), 50);
    assert_eq!(token.balance(b, 10), 0);
    assert_eq!(
        token.burn(a, a, 51, 10),
        Err(TokenError::InsufficientBalance)
    );
    assert_eq!(token.balance(a, 10), 50);
}

#[test]
fn burn_and_burn_from_reduce_supply() {
    let admin = Address(1);
    let a = Address(2);
    let s = Address(3);
    let mut token = Token::__constructor(
        admin,
        0,
        String::from("Burny"),
        String::from("BRN"),
        None,
    );
    token.mint(admin, a, 700, 20);
    assert_eq!(token.burn(a, a, 200, 20), Ok(()));
    assert_eq!(token.balance(a, 20), 500);
    token.approve(a, a, s, 150, 40, 20);
    assert_eq!(token.burn_from(s, s, a, 150, 20), Ok(()));
    assert_eq!(token.balance(a, 20), 350);
    assert_eq!(token.allowance(a, s, 20), 0);
    assert_eq!(
        token.burn_from(s, s, a, 1, 20),
        Err(TokenError::InsufficientAllowance)
    );
}

#[test]
fn conservation_on_a_concrete_run() {
    // Total minted 1000 + 250, burned 300; transfers move value only.
    let admin = Address(1);
    let a = Address(2);
    let b = Address(3);
    let c = Address(4);
    let mut token = Token::__constructor(
        admin,
        0,
        String::from("Conserve"),
        String::from("CSV"),
        None,
    );
    token.mint(admin, a, 1000, 5);
    token.mint(admin, b, 250, 5);
    assert_eq!(token.transfer(a, a, plain(c), 400, 5), Ok(()));
    assert_eq!(token.burn(b, b, 300, 5), Err(TokenError::InsufficientBalance));
    assert_eq!(token.burn(a, a, 300, 5), Ok(()));
    let total = token.balance(a, 5) + token.balance(b, 5) + token.balance(c, 5);
    assert_eq!(total, 1000 + 250 - 300);
}

#[test]
fn allowance_spend_then_read_is_monotonic() {
    let a = Address(2);
    let s = Address(3);
    let d = Address(4);
    let mut token = Token::__constructor(
        Address(1),
        0,
        String::from("Spend"),
        String::from("SPD"),
        None,
    );
    token.mint(Address(1), a, 1000, 30);
    token.approve(a, a, s, 500, 90, 30);
    assert_eq!(token.transfer_from(s, s, a, d, 200, 30), Ok(()));
    assert_eq!(token.allowance(a, s, 30), 300);
    assert_eq!(token.transfer_from(s, s, a, d, 300, 30), Ok(()));
    assert_eq!(token.allowance(a, s, 30), 0);
}

#[test]
fn allowance_expires_lazily() {
    let a = Address(2);
    let s = Address(3);
    let mut token = Token::__constructor(
        Address(1),
        0,
        String::from("Expiry"),
        String::from("EXP"),
        None,
    );
    token.mint(Address(1), a, 100, 40);
    token.approve(a, a, s, 80, 45, 40);
    assert_eq!(token.allowance(a, s, 45), 80);
    // Past the expiration the stored record still exists but reads as zero.
    assert_eq!(token.allowance(a, s, 46), 0);
    assert_eq!(
        token.get_allowance(a, s),
        Some(AllowanceValue { amount: 80, expiration_ledger: 45 })
    );
    assert_eq!(
        token.transfer_from(s, s, a, Address(4), 1, 46),
        Err(TokenError::InsufficientAllowance)
    );
    // A fresh approval resets both amount and expiration.
    token.approve(a, a, s, 30, 60, 46);
    assert_eq!(token.allowance(a, s, 46), 30);
    assert_eq!(
        token.get_allowance(a, s),
        Some(AllowanceValue { amount: 30, expiration_ledger: 60 })
    );
}

#[test]
fn approve_with_past_expiration_is_stored_but_inert() {
    let a = Address(2);
    let s = Address(3);
    let mut token = Token::__constructor(
        Address(1),
        0,
        String::from("Inert"),
        String::from("INR"),
        None,
    );
    token.approve(a, a, s, 70, 10, 25);
    assert_eq!(token.allowance(a, s, 25), 0);
    assert_eq!(
        token.get_allowance(a, s),
        Some(AllowanceValue { amount: 70, expiration_ledger: 10 })
    );
}

#[test]
fn set_admin_hands_over_minting() {
    let old_admin = Address(1);
    let new_admin = Address(2);
    let a = Address(3);
    let mut token = Token::__constructor(
        old_admin,
        0,
        String::from("Handover"),
        String::from("HND"),
        None,
    );
    token.set_admin(old_admin, new_admin, 12);
    token.mint(new_admin, a, 5, 12);
    assert_eq!(token.balance(a, 12), 5);
    let events = token.events();
    assert_eq!(
        events[0],
        TokenEvent::SetAdmin(SetAdmin { admin: old_admin, new_admin })
    );
}

#[test]
fn events_record_every_operation() {
    let admin = Address(1);
    let a = Address(2);
    let b = Address(3);
    let mut token = Token::__constructor(
        admin,
        0,
        String::from("Events"),
        String::from("EVT"),
        None,
    );
    token.mint(admin, a, 9, 70);
    let dest = MuxedAddress { address: b, id: Some(777) };
    assert_eq!(token.transfer(a, a, dest, 4, 70), Ok(()));
    token.approve(a, a, b, 2, 99, 70);
    assert_eq!(token.burn(a, a, 1, 70), Ok(()));
    let events = token.events();
    assert_eq!(events.len(), 4);
    assert_eq!(events[0], TokenEvent::Mint { to: a, amount: 9 });
    assert_eq!(
        events[1],
        TokenEvent::Transfer { from: a, to: b, to_muxed_id: Some(777), amount: 4 }
    );
    assert_eq!(
        events[2],
        TokenEvent::Approve { from: a, spender: b, amount: 2, expiration_ledger: 99 }
    );
    assert_eq!(events[3], TokenEvent::Burn { from: a, amount: 1 });
}

#[test]
fn failed_operations_publish_no_event() {
    let admin = Address(1);
    let a = Address(2);
    let mut token = Token::__constructor(
        admin,
        0,
        String::from("Quiet"),
        String::from("QT"),
        None,
    );
    assert_eq!(
        token.transfer(a, a, plain(Address(3)), 1, 80),
        Err(TokenError::InsufficientBalance)
    );
    assert_eq!(token.events().len(), 0);
}

#[test]
fn transfer_of_zero_and_to_self() {
    let admin = Address(1);
    let a = Address(2);
    let b = Address(3);
    let mut token = Token::__constructor(
        admin,
        0,
        String::from("Zero"),
        String::from("ZRO"),
        None,
    );
    // A zero transfer from an empty balance succeeds and moves nothing.
    assert_eq!(token.transfer(b, b, plain(a), 0, 90), Ok(()));
    assert_eq!(token.balance(b, 90), 0);
    token.mint(admin, a, 10, 90);
    assert_eq!(token.transfer(a, a, plain(a), 10, 90), Ok(()));
    assert_eq!(token.balance(a, 90), 10);
}

#[test]
fn stateful_calls_renew_the_instance_horizon() {
    let admin = Address(1);
    let mut token = Token::__constructor(
        admin,
        0,
        String::from("Lease"),
        String::from("LSE"),
        None,
    );
    assert_eq!(token.instance_live_until(), 0);
    let seq = 100_000u32;
    token.mint(admin, Address(2), 1, seq);
    assert_eq!(token.instance_live_until(), seq + INSTANCE_BUMP_AMOUNT);
    // Well within the threshold no renewal happens.
    token.mint(admin, Address(2), 1, seq + 1);
    assert_eq!(token.instance_live_until(), seq + INSTANCE_BUMP_AMOUNT);
    // Past the threshold the horizon is renewed again.
    let later = seq + 2 * INSTANCE_BUMP_AMOUNT;
    token.mint(admin, Address(2), 1, later);
    assert_eq!(token.instance_live_until(), later + INSTANCE_BUMP_AMOUNT);
    assert!(BALANCE_BUMP_AMOUNT > INSTANCE_BUMP_AMOUNT);
}

#[test]
fn nonnegative_amount_check() {
    assert!(check_nonnegative_amount(0));
    assert!(check_nonnegative_amount(i128::MAX));
    assert!(!check_nonnegative_amount(-1));
    assert!(!check_nonnegative_amount(i128::MIN));
}
