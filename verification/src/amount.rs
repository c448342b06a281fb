use vstd::prelude::*;
use vstd::string::*;

use cosmwasm_std::CosmosMsg;

use crate::error::ContractError;
use crate::state::Store;
use crate::state::get_commission;
use crate::state::stored_commission;

verus! {

/// Number of atomic commission units that stand for the fraction 1.0.
/// A commission value `c` in atomics denotes the fraction `c / 10^18`.
pub const COMMISSION_ONE: u128 = 1_000_000_000_000_000_000;

/// A transferable asset: either a base-layer native coin, identified by
/// its raw denomination string, or a registry-tracked tokenized asset,
/// identified by the address of its token contract. The quantity is an
/// unsigned 128-bit magnitude, so it is never negative.
#[derive(Debug, Clone, PartialEq, Eq)]
pub enum Amount {
    Native { denom: String, amount: u128 },
    Cw20 { address: String, amount: u128 },
}

/// True when `s` begins with the literal prefix `"cw20:"`.
pub open spec fn has_cw20_prefix(s: Seq<char>) -> bool {
    s.len() >= 5 && s.subrange(0, 5) == "cw20:"@
}

/// The decode rule for denomination strings: a string with the `"cw20:"`
/// prefix names the tokenized asset whose address follows the prefix;
/// any other string names a native asset.
pub open spec fn decodes_to(d: Seq<char>, q: u128, r: Amount) -> bool {
    if has_cw20_prefix(d) {
        &&& r matches Amount::Cw20 { address, amount }
        &&& address@ == d.skip(5)
        &&& amount == q
    } else {
        &&& r matches Amount::Native { denom, amount }
        &&& denom@ == d
        &&& amount == q
    }
}

impl Amount {
    /// The numeric magnitude of this amount.
    pub open spec fn spec_amount(&self) -> u128 {
        match self {
            Amount::Native { amount, .. } => *amount,
            Amount::Cw20 { amount, .. } => *amount,
        }
    }

    /// The canonical denomination: the raw string for a native asset,
    /// `"cw20:"` followed by the contract address for a tokenized one.
    pub open spec fn spec_denom(&self) -> Seq<char> {
        match self {
            Amount::Native { denom, .. } => denom@,
            Amount::Cw20 { address, .. } => "cw20:"@ + address@,
        }
    }

    /// Parses a canonical denomination string into an amount.
    pub fn from_parts(denom: String, amount: u128) -> (r: Amount)
        ensures
            decodes_to(denom@, amount, r),
            r.spec_denom() == denom@,
            r.spec_amount() == amount,
    {
        if starts_with_cw20(denom.as_str()) {
            let len = denom.as_str().unicode_len();
            let address = denom.as_str().substring_char(5, len);
            let r = Amount::Cw20 { address: String::from_str(address), amount };
            proof {
                assert(r.spec_denom() =~= denom@);
            }
            r
        } else {
            Amount::Native { denom, amount }
        }
    }

    /// A tokenized amount of `amount` units of the token contract at `addr`.
    pub fn cw20(amount: u128, addr: &str) -> (r: Amount)
        ensures
            r matches Amount::Cw20 { address, amount: a } && address@ == addr@ && a == amount,
            r.spec_amount() == amount,
            r.spec_denom() == "cw20:"@ + addr@,
    {
        Amount::Cw20 { address: String::from_str(addr), amount }
    }

    /// A native amount of `amount` units of denomination `denom`.
    pub fn native(amount: u128, denom: &str) -> (r: Amount)
        ensures
            r matches Amount::Native { denom: d, amount: a } && d@ == denom@ && a == amount,
            r.spec_amount() == amount,
            r.spec_denom() == denom@,
    {
        Amount::Native { denom: String::from_str(denom), amount }
    }

    /// The canonical denomination string.
    pub fn denom(&self) -> (r: String)
        ensures
            r@ == self.spec_denom(),
    {
        match self {
            Amount::Native { denom, .. } => denom.clone(),
            Amount::Cw20 { address, .. } => {
                let mut s = String::from_str("cw20:");
                s.append(address.as_str());
                s
            },
        }
    }

    /// The numeric magnitude.
    pub fn amount(&self) -> (r: u128)
        ensures
            r == self.spec_amount(),
    {
        match self {
            Amount::Native { amount, .. } => *amount,
            Amount::Cw20 { amount, .. } => *amount,
        }
    }

    /// Narrows the quantity to 64 bits; fails when it does not fit.
    pub fn u64_amount(&self) -> (r: Result<u64, ContractError>)
        ensures
            self.spec_amount() <= u64::MAX ==> r == Ok::<u64, ContractError>(
                self.spec_amount() as u64,
            ),
            self.spec_amount() > u64::MAX ==> r == Err::<u64, ContractError>(
                ContractError::Overflow,
            ),
    {
        let q = self.amount();
        if q <= u64::MAX as u128 {
            Ok(q as u64)
        } else {
            Err(ContractError::Overflow)
        }
    }

    /// True when the quantity is zero.
    pub fn is_empty(&self) -> (r: bool)
        ensures
            r == (self.spec_amount() == 0),
    {
        self.amount() == 0
    }
}

/// `a` with its quantity replaced by `q`: the variant and the
/// denomination or contract address stay as they are.
pub open spec fn with_quantity(a: Amount, q: u128) -> Amount {
    match a {
        Amount::Native { denom, amount } => Amount::Native { denom, amount: q },
        Amount::Cw20 { address, amount } => Amount::Cw20 { address, amount: q },
    }
}

/// The withheld portion of a quantity `q` under commission `c` (in
/// atomics of `COMMISSION_ONE`): the ceiling of `c * q / COMMISSION_ONE`,
/// written as the floor plus one whenever the division is inexact.
/// Rounding up is deliberate: the fee is never lost to rounding down.
pub open spec fn withheld_of(q: int, c: int) -> int {
    let p = c * q;
    if p % (COMMISSION_ONE as int) == 0 {
        p / (COMMISSION_ONE as int)
    } else {
        p / (COMMISSION_ONE as int) + 1
    }
}

/// The exact outcome of the fee split of `a` under commission `c` (in
/// atomics of `COMMISSION_ONE`): `NoFunds` on a zero quantity,
/// `Overflow` when the scaled product does not fit 128 bits or the
/// withheld portion would exceed the whole (a commission above one),
/// and otherwise the withheld and forwarded amounts, both of `a`'s
/// variant and denomination.
pub open spec fn lock_in_result(a: Amount, c: u128) -> Result<(Amount, Amount), ContractError> {
    let q = a.spec_amount();
    if q == 0 {
        Err(ContractError::NoFunds)
    } else if c * q > u128::MAX {
        Err(ContractError::Overflow)
    } else {
        let w = withheld_of(q as int, c as int);
        if w <= q {
            Ok((with_quantity(a, w as u128), with_quantity(a, (q - w) as u128)))
        } else {
            Err(ContractError::Overflow)
        }
    }
}

impl Amount {
    /// Splits this amount into a withheld (commission) part and a
    /// forwarded part. The commission is a fraction in atomics of
    /// `COMMISSION_ONE`; the withheld quantity is rounded up to the next
    /// whole unit, and the forwarded quantity is the exact remainder, so
    /// the two always add back up to the original quantity. Fails with
    /// `NoFunds` on a zero amount and with `Overflow` when the scaled
    /// product does not fit 128 bits or the commission exceeds one.
    pub fn compute_lock_in(&self, commission: u128) -> (r: Result<
        (Amount, Amount),
        ContractError,
    >)
        ensures
            r == lock_in_result(*self, commission),
    {
        let q = self.amount();
        if q == 0 {
            return Err(ContractError::NoFunds);
        }
        match commission.checked_mul(q) {
            None => Err(ContractError::Overflow),
            Some(prod) => {
                let d: u128 = prod / COMMISSION_ONE;
                let rem: u128 = prod % COMMISSION_ONE;
                let w: u128 = if rem == 0 {
                    d
                } else {
                    proof {
                        vstd::arithmetic::div_mod::lemma_fundamental_div_mod(
                            prod as int,
                            COMMISSION_ONE as int,
                        );
                        assert(d < prod) by (nonlinear_arith)
                            requires
                                prod as int == COMMISSION_ONE as int * (d as int) + rem as int,
                                rem >= 1,
                                d >= 0,
                        ;
                    }
                    d + 1
                };
                match q.checked_sub(w) {
                    None => Err(ContractError::Overflow),
                    Some(f) => Ok((self.replace_amount(w), self.replace_amount(f))),
                }
            },
        }
    }

    /// Builds the same variant with a new quantity.
    fn replace_amount(&self, q: u128) -> (r: Amount)
        ensures
            r == with_quantity(*self, q),
    {
        match self {
            Amount::Native { denom, .. } => Amount::Native { denom: denom.clone(), amount: q },
            Amount::Cw20 { address, .. } => Amount::Cw20 { address: address.clone(), amount: q },
        }
    }
}

/// Splits `amount` under the commission configured in `store`: the fee
/// lock-in used on every outgoing transfer. The amount must be non-zero
/// (`NoFunds` otherwise, checked first) and the commission must already
/// be configured (`CommissionNotSet` otherwise); the split itself is
/// exactly `lock_in_result` under the stored commission.
pub fn calculate_lock_in(store: &Store, amount: Amount) -> (r: Result<
    (Amount, Amount),
    ContractError,
>)
    ensures
        amount.spec_amount() == 0 ==> r == Err::<(Amount, Amount), ContractError>(
            ContractError::NoFunds,
        ),
        amount.spec_amount() > 0 && stored_commission(*store) is None ==> r == Err::<
            (Amount, Amount),
            ContractError,
        >(ContractError::CommissionNotSet),
        (stored_commission(*store) matches Some(c) ==> (amount.spec_amount() > 0 ==> r
            == lock_in_result(amount, c))),
{
    if amount.is_empty() {
        return Err(ContractError::NoFunds);
    }
    let commission = match get_commission(store) {
        Ok(c) => c,
        Err(e) => {
            return Err(e);
        },
    };
    amount.compute_lock_in(commission)
}

/// Conservation of the fee split: for every positive quantity and every
/// commission between zero and one, the withheld portion lies between
/// zero and the whole quantity, and withheld plus forwarded (the exact
/// remainder) give back the original quantity.
pub proof fn lemma_lock_in_conserves(q: int, c: int)
    requires
        0 < q,
        0 <= c <= COMMISSION_ONE as int,
    ensures
        0 <= withheld_of(q, c) <= q,
        withheld_of(q, c) + (q - withheld_of(q, c)) == q,
{
    let e: int = COMMISSION_ONE as int;
    let p = c * q;
    assert(0 <= p && p <= e * q) by (nonlinear_arith)
        requires
            0 < q,
            0 <= c <= e,
            p == c * q,
    ;
    vstd::arithmetic::div_mod::lemma_div_pos_is_pos(p, e);
    if p % e == 0 {
        vstd::arithmetic::div_mod::lemma_fundamental_div_mod_converse(e * q, e, q, 0);
        vstd::arithmetic::div_mod::lemma_div_is_ordered(p, e * q, e);
    } else {
        if p == e * q {
            vstd::arithmetic::div_mod::lemma_fundamental_div_mod_converse(e * q, e, q, 0);
        }
        assert(p < e * q);
        vstd::arithmetic::div_mod::lemma_fundamental_div_mod_converse(e * q - 1, e, q - 1, e - 1);
        vstd::arithmetic::div_mod::lemma_div_is_ordered(p, e * q - 1, e);
        assert(p / e <= q - 1);
    }
}

/// The fee split at the amount level: for a non-zero amount and a
/// commission between zero and one whose scaled product fits 128 bits,
/// the split succeeds, the withheld and forwarded quantities add back
/// up to the original quantity exactly, and both parts keep the
/// original's variant and canonical denomination.
pub proof fn lemma_lock_in_splits_amount(a: Amount, c: u128)
    requires
        a.spec_amount() > 0,
        c <= COMMISSION_ONE,
        c * a.spec_amount() <= u128::MAX,
    ensures
        (lock_in_result(a, c) matches Ok(parts) && parts.0.spec_amount() + parts.1.spec_amount()
            == a.spec_amount() && parts.0.spec_denom() == a.spec_denom() && parts.1.spec_denom()
            == a.spec_denom() && (parts.0 is Native <==> a is Native) && (parts.1 is Native <==> a
            is Native)),
{
    lemma_lock_in_conserves(a.spec_amount() as int, c as int);
}

/// True when the string begins with the literal `"cw20:"`.
fn starts_with_cw20(s: &str) -> (r: bool)
    ensures
        r == has_cw20_prefix(s@),
{
    proof {
        reveal_strlit("cw20:");
    }
    let n = s.unicode_len();
    if n < 5 {
        return false;
    }
    let r = s.get_char(0) == 'c' && s.get_char(1) == 'w' && s.get_char(2) == '2' && s.get_char(3)
        == '0' && s.get_char(4) == ':';
    proof {
        if r {
            assert(s@.subrange(0, 5) =~= "cw20:"@);
        } else {
            assert(s@.subrange(0, 5) != "cw20:"@) by {
                if s@.subrange(0, 5) == "cw20:"@ {
                    assert(s@[0] == s@.subrange(0, 5)[0]);
                    assert(s@[1] == s@.subrange(0, 5)[1]);
                    assert(s@[2] == s@.subrange(0, 5)[2]);
                    assert(s@[3] == s@.subrange(0, 5)[3]);
                    assert(s@[4] == s@.subrange(0, 5)[4]);
                }
            }
        }
    }
    r
}

#[verifier::external_type_specification]
#[verifier::external_body]
pub struct ExEmpty(cosmwasm_std::Empty);

#[verifier::external_type_specification]
#[verifier::external_body]
#[verifier::reject_recursive_types(T)]
pub struct ExCosmosMsg<T>(cosmwasm_std::CosmosMsg<T>);

/// The native balance-send instruction for recipient `to`, denomination
/// `denom` and quantity `quantity`.
pub uninterp spec fn bank_send_instruction(
    to: Seq<char>,
    denom: Seq<char>,
    quantity: u128,
) -> CosmosMsg;

/// The tokenized transfer call telling token contract `contract` to move
/// `quantity` units to `recipient`.
pub uninterp spec fn cw20_transfer_instruction(
    contract: Seq<char>,
    recipient: Seq<char>,
    quantity: u128,
) -> CosmosMsg;

/// Relies on `cosmwasm_std::BankMsg::Send`: the native balance-send
/// instruction is built from the recipient address, the denomination
/// and the quantity alone.
#[verifier::external_body]
fn make_bank_send(to: &str, denom: &str, quantity: u128) -> (r: CosmosMsg)
    ensures
        r == bank_send_instruction(to@, denom@, quantity),
{
    cosmwasm_std::CosmosMsg::Bank(
        cosmwasm_std::BankMsg::Send {
            to_address: to.to_string(),
            amount: vec![
                cosmwasm_std::Coin {
                    denom: denom.to_string(),
                    amount: cosmwasm_std::Uint128::new(quantity),
                },
            ],
        },
    )
}

/// Relies on `cosmwasm_std::WasmMsg::Execute` and
/// `cosmwasm_std::to_binary`: the tokenized transfer call is built from
/// the token contract address, the recipient and the quantity alone.
/// `to_binary` serializes the `cw20::Cw20ExecuteMsg::Transfer` payload
/// deterministically and cannot refuse it: the serializer writes into a
/// growable buffer and the payload is one struct variant holding a
/// string and a string-encoded integer, so no error path is reachable.
#[verifier::external_body]
fn make_cw20_transfer(contract: &str, recipient: &str, quantity: u128) -> (r: CosmosMsg)
    ensures
        r == cw20_transfer_instruction(contract@, recipient@, quantity),
{
    let payload = cw20::Cw20ExecuteMsg::Transfer {
        recipient: recipient.to_string(),
        amount: cosmwasm_std::Uint128::new(quantity),
    };
    cosmwasm_std::CosmosMsg::Wasm(cosmwasm_std::WasmMsg::Execute {
        contract_addr: contract.to_string(),
        msg: cosmwasm_std::to_binary(&payload).unwrap(),
        funds: vec![],
    })
}

impl Amount {
    /// Turns this amount into the value-transfer instruction that moves
    /// it to `addr`: none at all for a zero quantity (a zero-value
    /// transfer is a no-op, not an error), a native balance-send for a
    /// native amount, and a tokenized transfer call for a tokenized one.
    pub fn into_cosmos_msg(&self, addr: &str) -> (r: Result<Option<CosmosMsg>, ContractError>)
        ensures
            (self.spec_amount() == 0 ==> r == Ok::<Option<CosmosMsg>, ContractError>(None)),
            (self matches Amount::Native { denom, amount } ==> (amount > 0 ==> r == Ok::<
                Option<CosmosMsg>,
                ContractError,
            >(Some(bank_send_instruction(addr@, denom@, *amount))))),
            (self matches Amount::Cw20 { address, amount } ==> (amount > 0 ==> r == Ok::<
                Option<CosmosMsg>,
                ContractError,
            >(Some(cw20_transfer_instruction(address@, addr@, *amount))))),
    {
        if self.is_empty() {
            return Ok(None);
        }
        match self {
            Amount::Native { denom, amount } => Ok(
                Some(make_bank_send(addr, denom.as_str(), *amount)),
            ),
            Amount::Cw20 { address, amount } => Ok(
                Some(make_cw20_transfer(address.as_str(), addr, *amount)),
            ),
        }
    }
}

/// Encoding then decoding a denomination is the identity on the amount's
/// observable parts: any `r` that the decode rule admits for the canonical
/// denomination and quantity of `a` has `a`'s variant, denomination and
/// quantity. A native amount whose raw denomination itself carries the
/// `"cw20:"` prefix is excluded: such a string decodes as tokenized.
pub proof fn lemma_encode_then_decode(a: Amount, r: Amount)
    requires
        a matches Amount::Native { denom, .. } ==> !has_cw20_prefix(denom@),
        decodes_to(a.spec_denom(), a.spec_amount(), r),
    ensures
        r is Native <==> a is Native,
        r.spec_denom() == a.spec_denom(),
        r.spec_amount() == a.spec_amount(),
{
    reveal_strlit("cw20:");
    match a {
        Amount::Native { denom, amount } => {
        },
        Amount::Cw20 { address, amount } => {
            assert(("cw20:"@ + address@).subrange(0, 5) =~= "cw20:"@);
            assert(has_cw20_prefix(a.spec_denom()));
            assert(("cw20:"@ + address@).skip(5) =~= address@);
            assert(r.spec_denom() =~= a.spec_denom());
        },
    }
}

} // verus!
