use vstd::prelude::*;

use crate::amount::COMMISSION_ONE;
use crate::error::ContractError;

verus! {

/// Balance record of one (channel, denomination) pair. `outstanding` is
/// the quantity currently in transit through the channel; `total_sent`
/// is the cumulative quantity ever sent, and never decreases.
#[derive(Debug, Clone, Copy, PartialEq, Eq, Structural)]
pub struct ChannelState {
    pub outstanding: u128,
    pub total_sent: u128,
}

/// Contract-wide configuration.
#[derive(Debug, Clone, Copy, PartialEq, Eq, Structural)]
pub struct Config {
    pub default_timeout: u64,
    pub default_gas_limit: Option<u64>,
}

/// The remote endpoint a channel connects to.
#[derive(Debug, Clone, PartialEq, Eq)]
pub struct ChannelEndpoint {
    pub port_id: String,
    pub channel_id: String,
}

/// Static description of one channel.
#[derive(Debug, Clone, PartialEq, Eq)]
pub struct ChannelInfo {
    /// id of this channel
    pub id: String,
    /// the remote channel/port we connect to
    pub counterparty_endpoint: ChannelEndpoint,
    /// the connection this channel exists on
    pub connection_id: String,
}

/// Per-token allowance entry: a tokenized contract admitted for relay,
/// possibly with a gas limit.
#[derive(Debug, Clone, Copy, PartialEq, Eq, Structural)]
pub struct AllowInfo {
    pub gas_limit: Option<u64>,
}

/// Longest channel identifier the balance map accepts, in characters.
/// The storage library length-prefixes the channel component of a
/// composite key with a two-byte length and refuses anything longer
/// than 0xFFFF bytes; a character is at most four bytes in UTF-8, so
/// this bound keeps every accepted identifier within that limit. The
/// denomination component is the unprefixed tail of the key and may
/// have any length.
pub const MAX_CHANNEL_ID_LEN: usize = 0x3FFF;

/// The durable keyed store that holds the ledger entries and the
/// configured commission. Backed by `cosmwasm_std::MemoryStorage` behind
/// `cw_storage_plus` accessors; only the accessors below touch it, each
/// under its own namespace (`"channel_state"` for balance entries, keyed
/// by the length-prefix-encoded (channel, denomination) pair, which is
/// injective; `"commission"` for the commission scalar), so the two
/// views below never alias.
#[verifier::external_body]
pub struct Store {
    storage: cosmwasm_std::MemoryStorage,
}

/// The balance entries the store holds: for each (channel identifier,
/// canonical denomination) key, the pair (outstanding, total_sent).
pub uninterp spec fn channel_entries(s: Store) -> Map<(Seq<char>, Seq<char>), (u128, u128)>;

/// The commission the store holds, in atomics of `COMMISSION_ONE`, or
/// nothing while it was never set.
pub uninterp spec fn stored_commission(s: Store) -> Option<u128>;

/// The entry at `k`, taking an absent entry as (0, 0).
pub open spec fn entry_or_default(
    m: Map<(Seq<char>, Seq<char>), (u128, u128)>,
    k: (Seq<char>, Seq<char>),
) -> (u128, u128) {
    if m.contains_key(k) {
        m[k]
    } else {
        (0, 0)
    }
}

impl Store {
    /// A store with no balance entries and no commission set.
    pub fn new() -> (s: Store)
        ensures
            channel_entries(s) =~= Map::empty(),
            stored_commission(s) is None,
    {
        empty_store()
    }
}

/// Relies on `cosmwasm_std::MemoryStorage::new`: a fresh in-memory
/// backend holds no record at all.
#[verifier::external_body]
fn empty_store() -> (s: Store)
    ensures
        channel_entries(s) =~= Map::empty(),
        stored_commission(s) is None,
{
    Store { storage: cosmwasm_std::MemoryStorage::new() }
}

/// Relies on `cw_storage_plus::Map::may_load`: reading a key of the
/// balance map returns the value last saved under that key, or nothing.
/// The channel bound keeps the encoded key within the two-byte length
/// prefix the storage library supports; past it the library aborts.
#[verifier::external_body]
fn store_get_entry(s: &Store, channel: &str, denom: &str) -> (r: Option<(u128, u128)>)
    requires
        channel@.len() <= MAX_CHANNEL_ID_LEN,
    ensures
        channel_entries(*s).contains_key((channel@, denom@)) ==> r == Some(
            channel_entries(*s)[(channel@, denom@)],
        ),
        !channel_entries(*s).contains_key((channel@, denom@)) ==> r is None,
{
    let map: cw_storage_plus::Map<(&str, &str), (cosmwasm_std::Uint128, cosmwasm_std::Uint128)> =
        cw_storage_plus::Map::new("channel_state");
    map.may_load(&s.storage, (channel, denom)).ok().flatten().map(|e| (e.0.u128(), e.1.u128()))
}

/// Relies on `cw_storage_plus::Map::save`: writing a key of the balance
/// map replaces the value under that key and touches no other record.
/// The channel bound keeps the encoded key within the two-byte length
/// prefix the storage library supports; past it the library aborts.
/// Serializing a pair of `Uint128` cannot fail.
#[verifier::external_body]
fn store_set_entry(s: &mut Store, channel: &str, denom: &str, outstanding: u128, total_sent: u128)
    requires
        channel@.len() <= MAX_CHANNEL_ID_LEN,
    ensures
        channel_entries(*final(s)) == channel_entries(*old(s)).insert(
            (channel@, denom@),
            (outstanding, total_sent),
        ),
        stored_commission(*final(s)) == stored_commission(*old(s)),
{
    let map: cw_storage_plus::Map<(&str, &str), (cosmwasm_std::Uint128, cosmwasm_std::Uint128)> =
        cw_storage_plus::Map::new("channel_state");
    map.save(
        &mut s.storage,
        (channel, denom),
        &(cosmwasm_std::Uint128::new(outstanding), cosmwasm_std::Uint128::new(total_sent)),
    ).unwrap();
}

/// Relies on `cw_storage_plus::Item::save`: writing the commission slot
/// replaces it and touches no balance entry. The value is stored as a
/// `cosmwasm_std::Decimal`, whose atomic units are those of
/// `COMMISSION_ONE`; serializing it cannot fail.
#[verifier::external_body]
fn store_set_commission(s: &mut Store, atomics: u128)
    ensures
        stored_commission(*final(s)) == Some(atomics),
        channel_entries(*final(s)) == channel_entries(*old(s)),
{
    let item: cw_storage_plus::Item<cosmwasm_std::Decimal> = cw_storage_plus::Item::new(
        "commission",
    );
    item.save(&mut s.storage, &cosmwasm_std::Decimal::raw(atomics)).unwrap();
}

/// Relies on `cw_storage_plus::Item::may_load`: reading the commission
/// slot returns the `cosmwasm_std::Decimal` last saved there (given back
/// in its atomic units), or nothing while it was never set.
#[verifier::external_body]
fn store_get_commission(s: &Store) -> (r: Option<u128>)
    ensures
        r == stored_commission(*s),
{
    let item: cw_storage_plus::Item<cosmwasm_std::Decimal> = cw_storage_plus::Item::new(
        "commission",
    );
    item.may_load(&s.storage).ok().flatten().map(|d| d.atomics().u128())
}

/// Adds `amount` to both `outstanding` and `total_sent` of the
/// (channel, denomination) entry, creating it from (0, 0) when absent.
/// Fails with `Overflow`, leaving the store unchanged, exactly when
/// either 128-bit counter would overflow. The channel identifier must
/// be within `MAX_CHANNEL_ID_LEN`, the storage library's key limit.
pub fn increase_channel_balance(
    store: &mut Store,
    channel: &str,
    denom: &str,
    amount: u128,
) -> (r: Result<(), ContractError>)
    requires
        channel@.len() <= MAX_CHANNEL_ID_LEN,
    ensures
        ({
            let k = (channel@, denom@);
            let m = channel_entries(*old(store));
            let e = entry_or_default(m, k);
            &&& (r is Ok <==> e.0 + amount <= u128::MAX && e.1 + amount <= u128::MAX)
            &&& (r is Ok ==> channel_entries(*final(store)) == m.insert(
                k,
                ((e.0 + amount) as u128, (e.1 + amount) as u128),
            ))
            &&& (r is Err ==> r == Err::<(), ContractError>(ContractError::Overflow)
                && channel_entries(*final(store)) == m)
            &&& stored_commission(*final(store)) == stored_commission(*old(store))
        }),
{
    let (o, t): (u128, u128) = match store_get_entry(store, channel, denom) {
        Some(e) => e,
        None => (0, 0),
    };
    match (o.checked_add(amount), t.checked_add(amount)) {
        (Some(new_outstanding), Some(new_total)) => {
            store_set_entry(store, channel, denom, new_outstanding, new_total);
            Ok(())
        },
        _ => Err(ContractError::Overflow),
    }
}

/// Subtracts `amount` from `outstanding` only; `total_sent` stays. Fails
/// with `InsufficientFunds`, leaving the store unchanged, exactly when
/// no entry exists for the key or its outstanding balance is smaller
/// than `amount`. The channel identifier must be within
/// `MAX_CHANNEL_ID_LEN`, the storage library's key limit.
pub fn reduce_channel_balance(
    store: &mut Store,
    channel: &str,
    denom: &str,
    amount: u128,
) -> (r: Result<(), ContractError>)
    requires
        channel@.len() <= MAX_CHANNEL_ID_LEN,
    ensures
        ({
            let k = (channel@, denom@);
            let m = channel_entries(*old(store));
            &&& (r is Ok <==> m.contains_key(k) && amount <= m[k].0)
            &&& (r is Ok ==> channel_entries(*final(store)) == m.insert(
                k,
                ((m[k].0 - amount) as u128, m[k].1),
            ))
            &&& (r is Err ==> r == Err::<(), ContractError>(ContractError::InsufficientFunds)
                && channel_entries(*final(store)) == m)
            &&& stored_commission(*final(store)) == stored_commission(*old(store))
        }),
{
    match store_get_entry(store, channel, denom) {
        None => Err(ContractError::InsufficientFunds),
        Some((o, t)) => {
            match o.checked_sub(amount) {
                None => Err(ContractError::InsufficientFunds),
                Some(new_outstanding) => {
                    store_set_entry(store, channel, denom, new_outstanding, t);
                    Ok(())
                },
            }
        },
    }
}

/// Adds `amount` back to `outstanding` only, reversing a prior
/// reduction; `total_sent` stays. Creates the entry from (0, 0) when
/// absent. Fails with `Overflow`, leaving the store unchanged, exactly
/// when the 128-bit outstanding counter would overflow. The channel
/// identifier must be within `MAX_CHANNEL_ID_LEN`, the storage
/// library's key limit.
pub fn undo_reduce_channel_balance(
    store: &mut Store,
    channel: &str,
    denom: &str,
    amount: u128,
) -> (r: Result<(), ContractError>)
    requires
        channel@.len() <= MAX_CHANNEL_ID_LEN,
    ensures
        ({
            let k = (channel@, denom@);
            let m = channel_entries(*old(store));
            let e = entry_or_default(m, k);
            &&& (r is Ok <==> e.0 + amount <= u128::MAX)
            &&& (r is Ok ==> channel_entries(*final(store)) == m.insert(
                k,
                ((e.0 + amount) as u128, e.1),
            ))
            &&& (r is Err ==> r == Err::<(), ContractError>(ContractError::Overflow)
                && channel_entries(*final(store)) == m)
            &&& stored_commission(*final(store)) == stored_commission(*old(store))
        }),
{
    let (o, t): (u128, u128) = match store_get_entry(store, channel, denom) {
        Some(e) => e,
        None => (0, 0),
    };
    match o.checked_add(amount) {
        Some(new_outstanding) => {
            store_set_entry(store, channel, denom, new_outstanding, t);
            Ok(())
        },
        None => Err(ContractError::Overflow),
    }
}

/// Overwrites the global commission. The value is a fraction in atomics
/// of `COMMISSION_ONE`; anything above one whole is rejected with
/// `InvalidCommission` and leaves the store unchanged (values below zero
/// are unrepresentable). Zero and exactly one are accepted.
pub fn set_commission(store: &mut Store, commission: u128) -> (r: Result<(), ContractError>)
    ensures
        commission <= COMMISSION_ONE ==> r is Ok && stored_commission(*final(store)) == Some(
            commission,
        ),
        commission > COMMISSION_ONE ==> r == Err::<(), ContractError>(
            ContractError::InvalidCommission,
        ) && stored_commission(*final(store)) == stored_commission(*old(store)),
        channel_entries(*final(store)) == channel_entries(*old(store)),
{
    if commission > COMMISSION_ONE {
        return Err(ContractError::InvalidCommission);
    }
    store_set_commission(store, commission);
    Ok(())
}

/// Reads the configured commission, in atomics of `COMMISSION_ONE`.
/// Fails with `CommissionNotSet` while no commission was ever stored.
pub fn get_commission(store: &Store) -> (r: Result<u128, ContractError>)
    ensures
        stored_commission(*store) matches Some(c) ==> r == Ok::<u128, ContractError>(c),
        stored_commission(*store) is None ==> r == Err::<u128, ContractError>(
            ContractError::CommissionNotSet,
        ),
{
    match store_get_commission(store) {
        Some(c) => Ok(c),
        None => Err(ContractError::CommissionNotSet),
    }
}

/// The balance entry of one (channel, denomination) pair, or nothing
/// when the pair was never touched. The channel identifier must be
/// within `MAX_CHANNEL_ID_LEN`, the storage library's key limit.
pub fn channel_balance(store: &Store, channel: &str, denom: &str) -> (r: Option<ChannelState>)
    requires
        channel@.len() <= MAX_CHANNEL_ID_LEN,
    ensures
        ({
            let k = (channel@, denom@);
            let m = channel_entries(*store);
            if m.contains_key(k) {
                r == Some(ChannelState { outstanding: m[k].0, total_sent: m[k].1 })
            } else {
                r is None
            }
        }),
{
    match store_get_entry(store, channel, denom) {
        Some((o, t)) => Some(ChannelState { outstanding: o, total_sent: t }),
        None => None,
    }
}

/// A successful reduction followed by the matching undo restores the
/// ledger exactly: after `reduce` took `q` from the entry's outstanding
/// balance, the undo of the same quantity cannot overflow, and applying
/// it yields the very map of entries the reduction started from — same
/// outstanding, and `total_sent` untouched by either step.
pub proof fn lemma_reduce_then_undo(
    m: Map<(Seq<char>, Seq<char>), (u128, u128)>,
    k: (Seq<char>, Seq<char>),
    q: u128,
)
    requires
        m.contains_key(k),
        q <= m[k].0,
    ensures
        ({
            let after_reduce = m.insert(k, ((m[k].0 - q) as u128, m[k].1));
            let e = entry_or_default(after_reduce, k);
            &&& e.0 + q <= u128::MAX
            &&& after_reduce.insert(k, ((e.0 + q) as u128, e.1)) == m
        }),
{
    let after_reduce = m.insert(k, ((m[k].0 - q) as u128, m[k].1));
    let e = entry_or_default(after_reduce, k);
    assert(after_reduce.insert(k, ((e.0 + q) as u128, e.1)) =~= m);
}

/// Correlation record written just before an outbound instruction is
/// issued, so a later failure or timeout callback can reverse the
/// ledger reduction it depended on.
#[derive(Debug, Clone, PartialEq, Eq)]
pub struct ReplyArgs {
    pub channel: String,
    pub denom: String,
    pub amount: u128,
}

} // verus!
