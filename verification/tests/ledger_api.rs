use ics20_ledger::amount::COMMISSION_ONE;
use ics20_ledger::error::ContractError;
use ics20_ledger::state::{
    channel_balance, get_commission, increase_channel_balance, reduce_channel_balance,
    set_commission, undo_reduce_channel_balance, ChannelState, Store, MAX_CHANNEL_ID_LEN,
};

#[test]
fn test_set_commission() {
    let mut store = Store::new();

    // Test valid commission
    let commission = cosmwasm_std::Decimal::from_ratio(1u32, 10u32);
    let res = set_commission(&mut store, commission.atomics().u128());
    assert_eq!(res, Ok(()));

    // Test invalid commission
    let invalid_commission = cosmwasm_std::Decimal::from_ratio(200u32, 100u32);
    let res = set_commission(&mut store, invalid_commission.atomics().u128());
    assert_eq!(res, Err(ContractError::InvalidCommission));
}

#[test]
fn test_set_commission_boundaries() {
    // Exactly zero and exactly one are accepted; one atomic unit above
    // one is rejected. Values below zero are unrepresentable.
    let mut store = Store::new();
    assert_eq!(set_commission(&mut store, 0), Ok(()));
    assert_eq!(get_commission(&store), Ok(0));
    assert_eq!(set_commission(&mut store, COMMISSION_ONE), Ok(()));
    assert_eq!(get_commission(&store), Ok(COMMISSION_ONE));
    assert_eq!(
        set_commission(&mut store, COMMISSION_ONE + 1),
        Err(ContractError::InvalidCommission)
    );
    // The rejected write left the stored value as it was.
    assert_eq!(get_commission(&store), Ok(COMMISSION_ONE));
}

#[test]
fn test_get_commission_unset() {
    let store = Store::new();
    assert_eq!(get_commission(&store), Err(ContractError::CommissionNotSet));
}

#[test]
fn test_increase_reduce_undo_round_trip() {
    let mut store = Store::new();
    assert_eq!(increase_channel_balance(&mut store, "A", "uusd", 100), Ok(()));
    assert_eq!(
        channel_balance(&store, "A", "uusd"),
        Some(ChannelState { outstanding: 100, total_sent: 100 })
    );

    assert_eq!(reduce_channel_balance(&mut store, "A", "uusd", 100), Ok(()));
    assert_eq!(
        channel_balance(&store, "A", "uusd"),
        Some(ChannelState { outstanding: 0, total_sent: 100 })
    );

    assert_eq!(undo_reduce_channel_balance(&mut store, "A", "uusd", 100), Ok(()));
    assert_eq!(
        channel_balance(&store, "A", "uusd"),
        Some(ChannelState { outstanding: 100, total_sent: 100 })
    );
}

#[test]
fn test_reduce_insufficient_funds() {
    let mut store = Store::new();

    // Absent entry: the reduction fails and writes nothing.
    assert_eq!(
        reduce_channel_balance(&mut store, "A", "uusd", 1),
        Err(ContractError::InsufficientFunds)
    );
    assert_eq!(channel_balance(&store, "A", "uusd"), None);

    // Existing entry with outstanding smaller than the request: the
    // reduction fails and the entry is untouched.
    assert_eq!(increase_channel_balance(&mut store, "A", "uusd", 50), Ok(()));
    assert_eq!(
        reduce_channel_balance(&mut store, "A", "uusd", 51),
        Err(ContractError::InsufficientFunds)
    );
    assert_eq!(
        channel_balance(&store, "A", "uusd"),
        Some(ChannelState { outstanding: 50, total_sent: 50 })
    );
}

#[test]
fn test_increase_overflow() {
    let mut store = Store::new();
    assert_eq!(increase_channel_balance(&mut store, "A", "uusd", u128::MAX), Ok(()));
    assert_eq!(
        increase_channel_balance(&mut store, "A", "uusd", 1),
        Err(ContractError::Overflow)
    );
    // The failed increase left the entry untouched.
    assert_eq!(
        channel_balance(&store, "A", "uusd"),
        Some(ChannelState { outstanding: u128::MAX, total_sent: u128::MAX })
    );
}

#[test]
fn test_reduce_only_touches_outstanding() {
    let mut store = Store::new();
    assert_eq!(increase_channel_balance(&mut store, "A", "uusd", 100), Ok(()));
    assert_eq!(reduce_channel_balance(&mut store, "A", "uusd", 30), Ok(()));
    assert_eq!(
        channel_balance(&store, "A", "uusd"),
        Some(ChannelState { outstanding: 70, total_sent: 100 })
    );
}

#[test]
fn test_entries_are_keyed_per_channel_and_denom() {
    let mut store = Store::new();
    assert_eq!(increase_channel_balance(&mut store, "A", "uusd", 10), Ok(()));
    assert_eq!(increase_channel_balance(&mut store, "A", "uatom", 20), Ok(()));
    assert_eq!(increase_channel_balance(&mut store, "B", "uusd", 30), Ok(()));
    assert_eq!(
        channel_balance(&store, "A", "uusd"),
        Some(ChannelState { outstanding: 10, total_sent: 10 })
    );
    assert_eq!(
        channel_balance(&store, "A", "uatom"),
        Some(ChannelState { outstanding: 20, total_sent: 20 })
    );
    assert_eq!(
        channel_balance(&store, "B", "uusd"),
        Some(ChannelState { outstanding: 30, total_sent: 30 })
    );
    assert_eq!(channel_balance(&store, "B", "uatom"), None);
}

#[test]
fn test_channel_id_at_length_limit() {
    // A channel identifier of exactly the admitted length works; the
    // denomination, as the unprefixed tail of the key, may be long too.
    let mut store = Store::new();
    let channel = "c".repeat(MAX_CHANNEL_ID_LEN);
    let denom = "d".repeat(100_000);
    assert_eq!(increase_channel_balance(&mut store, &channel, &denom, 7), Ok(()));
    assert_eq!(
        channel_balance(&store, &channel, &denom),
        Some(ChannelState { outstanding: 7, total_sent: 7 })
    );
}

#[test]
fn test_commission_and_entries_do_not_alias() {
    let mut store = Store::new();
    assert_eq!(set_commission(&mut store, COMMISSION_ONE / 2), Ok(()));
    assert_eq!(increase_channel_balance(&mut store, "A", "commission", 5), Ok(()));
    assert_eq!(get_commission(&store), Ok(COMMISSION_ONE / 2));
    assert_eq!(
        channel_balance(&store, "A", "commission"),
        Some(ChannelState { outstanding: 5, total_sent: 5 })
    );
}
