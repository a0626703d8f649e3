//! The marginfi adapter's arithmetic: conversions between atoms and
//! fixed-point shares at a bank's share value, the pre-CPI sizing of
//! withdraw / repay calls, and the post-CPI checks on realized deltas.

use vstd::prelude::*;

use crate::error::{AdapterError, Error};
use crate::math::{
    ceil_scaled, div_scale, div_scale_spec, from_scaled_ceil, from_scaled_floor, mul_scale,
    mul_scale_spec, scale, to_scaled,
};
use crate::protocol::marginfi_rate_calc::{
    calc_projected_asset_share_value_fp48, calc_projected_liability_share_value_fp48,
    elapsed_in_range, projected_share_value_result,
};
use crate::protocol::ProtocolId;

verus! {

/// Stateless adapter for marginfi; every call takes the bank values it needs.
#[derive(Debug, Default, Clone, Copy)]
pub struct MarginfiV18Adapter;

/// The SPL token program id.
pub const SPL_TOKEN_PROGRAM_ID: [u8; 32] = [
    6, 221, 246, 225, 215, 101, 161, 147, 217, 203, 225, 70, 206, 235, 121, 172, 28, 180, 133, 237,
    95, 91, 55, 145, 58, 140, 245, 133, 126, 255, 0, 169,
];

/// The SPL token-2022 program id.
pub const SPL_TOKEN_2022_PROGRAM_ID: [u8; 32] = [
    6, 221, 246, 225, 238, 117, 143, 222, 24, 66, 93, 188, 228, 108, 205, 218, 182, 26, 252, 77,
    131, 185, 13, 39, 254, 189, 249, 40, 216, 161, 139, 252,
];

/// Reinterprets the bit pattern of a signed 80.48 fixed-point value as the
/// program's unsigned 48-bit fixed point. Negative patterns are refused.
pub fn wrapped_i80f48_to_u128(bits: i128) -> (res: Result<u128, Error>)
    ensures
        res is Ok <==> bits >= 0,
        res matches Ok(v) ==> v == bits,
        res matches Err(e) ==> e == Error::Adapter(AdapterError::InvalidIntegrationAccount),
{
    if bits < 0 {
        return Err(Error::Adapter(AdapterError::InvalidIntegrationAccount));
    }
    Ok(bits as u128)
}

/// Bit pattern of the signed 80.48 fixed-point value equal to `scaled`.
pub fn u128_to_wrapped_i80f48(scaled: u128) -> (res: i128)
    ensures
        res == scaled as i128,
        scaled <= i128::MAX ==> res == scaled,
{
    scaled as i128
}

/// Converting a non-negative bit pattern to unsigned and back gives the same bits.
pub proof fn lemma_wrapped_round_trip(bits: i128)
    requires
        bits >= 0,
    ensures
        ((bits as u128) as i128) == bits,
{
}

/// Converting an unsigned value that fits an `i128` to bits and back gives the same value.
pub proof fn lemma_scaled_round_trip(scaled: u128)
    requires
        scaled <= i128::MAX,
    ensures
        (scaled as i128) >= 0,
        ((scaled as i128) as u128) == scaled,
{
}

/// Atoms worth `shares` at share value `sv`, floored.
pub open spec fn shares_to_atoms_floor(shares: int, sv: int) -> int {
    mul_scale_spec(shares, sv) / scale()
}

/// Atoms worth `shares` at share value `sv`, rounded up.
pub open spec fn shares_to_atoms_ceil(shares: int, sv: int) -> int {
    ceil_scaled(mul_scale_spec(shares, sv))
}

/// Shares worth `atoms` at share value `sv`, floored.
pub open spec fn atoms_to_shares_floor(atoms: int, sv: int) -> int {
    div_scale_spec(atoms * scale(), sv)
}

/// Outcome of converting `atoms` to asset shares at share value `sv`, floored.
pub open spec fn asset_shares_result(sv: u128, atoms: u64) -> Result<u128, Error> {
    if sv != 0 && atoms_to_shares_floor(atoms as int, sv as int) <= u128::MAX {
        Ok(atoms_to_shares_floor(atoms as int, sv as int) as u128)
    } else {
        Err(Error::ArithmeticOverflow)
    }
}

/// Whether [`MarginfiV18Adapter::amount_to_asset_shares_ceil`] succeeds on
/// `atoms` at share value `sv`.
pub open spec fn asset_shares_ceil_ok(sv: u128, atoms: u64) -> bool {
    let floor = atoms_to_shares_floor(atoms as int, sv as int);
    &&& sv != 0
    &&& floor <= u128::MAX
    &&& mul_scale_spec(floor, sv as int) <= u128::MAX
    &&& (shares_to_atoms_floor(floor, sv as int) >= atoms || floor + 1 <= u128::MAX)
}

/// One share more than the floored share count of `amount` always converts
/// back to at least `amount` atoms.
pub proof fn lemma_asset_shares_ceil_covers(amount: nat, sv: int)
    requires
        sv > 0,
    ensures
        shares_to_atoms_floor(atoms_to_shares_floor(amount as int, sv) + 1, sv) >= amount,
{
    let x = amount * scale();
    let f = (x * scale()) / sv;
    vstd::arithmetic::div_mod::lemma_fundamental_div_mod(x * scale(), sv);
    assert((f + 1) * sv >= x * scale()) by (nonlinear_arith)
        requires
            x * scale() == sv * f + (x * scale()) % sv,
            0 <= (x * scale()) % sv < sv,
    ;
    assert(x >= 0) by (nonlinear_arith)
        requires
            x == amount * scale(),
    ;
    crate::math::lemma_div_at_least((f + 1) * sv, scale(), x);
    assert(((f + 1) * sv) / scale() >= scale() * amount);
    crate::math::lemma_div_at_least(((f + 1) * sv) / scale(), scale(), amount as int);
}

/// Floored and ceiled conversions of the same shares differ by at most one atom.
pub proof fn lemma_floor_ceil_atoms(shares: nat, sv: nat)
    ensures
        shares_to_atoms_floor(shares as int, sv as int) <= shares_to_atoms_ceil(
            shares as int,
            sv as int,
        ) <= shares_to_atoms_floor(shares as int, sv as int) + 1,
{
    assert(shares * sv >= 0) by (nonlinear_arith);
    vstd::arithmetic::div_mod::lemma_div_pos_is_pos((shares * sv) as int, scale());
}

/// At a share value of exactly 1.0, converting atoms to shares and back is lossless.
pub proof fn lemma_unit_price_round_trip(atoms: nat)
    ensures
        atoms_to_shares_floor(atoms as int, scale()) == atoms * scale(),
        shares_to_atoms_floor(atoms * scale(), scale()) == atoms,
{
    vstd::arithmetic::div_mod::lemma_div_by_multiple(atoms * scale(), scale());
    vstd::arithmetic::div_mod::lemma_div_by_multiple(atoms as int, scale());
    assert((atoms * scale()) * scale() / scale() == atoms * scale());
}

/// Atoms worth `shares` at `sv`, floored, as a `u64`; fails with
/// `ArithmeticOverflow` when an intermediate or the result overflows.
fn shares_value_floor_u64(shares: u128, sv: u128) -> (res: Result<u64, Error>)
    ensures
        res is Ok <==> (mul_scale_spec(shares as int, sv as int) <= u128::MAX
            && shares_to_atoms_floor(shares as int, sv as int) <= u64::MAX),
        res matches Ok(v) ==> v == shares_to_atoms_floor(shares as int, sv as int),
        res matches Err(e) ==> e == Error::ArithmeticOverflow,
{
    let atoms_fp48 = mul_scale(shares, sv)?;
    let atoms = from_scaled_floor(atoms_fp48);
    if atoms > 0xFFFF_FFFF_FFFF_FFFFu128 {
        return Err(Error::ArithmeticOverflow);
    }
    Ok(atoms as u64)
}

/// Atoms worth `shares` at `sv`, rounded up, as a `u64`.
fn shares_value_ceil_u64(shares: u128, sv: u128) -> (res: Result<u64, Error>)
    ensures
        res is Ok <==> (mul_scale_spec(shares as int, sv as int) <= u128::MAX
            && shares_to_atoms_ceil(shares as int, sv as int) <= u64::MAX),
        res matches Ok(v) ==> v == shares_to_atoms_ceil(shares as int, sv as int),
        res matches Err(e) ==> e == Error::ArithmeticOverflow,
{
    let atoms_fp48 = mul_scale(shares, sv)?;
    let atoms = match from_scaled_ceil(atoms_fp48) {
        Ok(v) => v,
        Err(e) => {
            return Err(e);
        },
    };
    if atoms > 0xFFFF_FFFF_FFFF_FFFFu128 {
        return Err(Error::ArithmeticOverflow);
    }
    Ok(atoms as u64)
}

/// Shares worth `atoms` at `sv`, floored.
fn atoms_value_floor(atoms: u64, sv: u128) -> (res: Result<u128, Error>)
    ensures
        res is Ok <==> (sv != 0 && atoms_to_shares_floor(atoms as int, sv as int) <= u128::MAX),
        res matches Ok(v) ==> v == atoms_to_shares_floor(atoms as int, sv as int),
        res matches Err(e) ==> e == Error::ArithmeticOverflow,
{
    assert(atoms * scale() <= u128::MAX) by (nonlinear_arith)
        requires
            atoms <= u64::MAX,
    ;
    let amount_fp48 = to_scaled(atoms as u128)?;
    div_scale(amount_fp48, sv)
}

impl MarginfiV18Adapter {
    /// The protocol this adapter wraps.
    pub fn id(&self) -> (res: ProtocolId)
        ensures
            res == ProtocolId::Marginfi,
    {
        ProtocolId::Marginfi
    }

    /// Converts fixed-point asset `shares` to atoms at the bank's asset share
    /// value, floored.
    pub fn shares_to_amount(&self, asset_share_value_fp48: u128, shares: u128) -> (res: Result<
        u64,
        Error,
    >)
        ensures
            res is Ok <==> (mul_scale_spec(shares as int, asset_share_value_fp48 as int)
                <= u128::MAX && shares_to_atoms_floor(shares as int, asset_share_value_fp48 as int)
                <= u64::MAX),
            res matches Ok(v) ==> v == shares_to_atoms_floor(
                shares as int,
                asset_share_value_fp48 as int,
            ),
            res matches Err(e) ==> e == Error::ArithmeticOverflow,
    {
        shares_value_floor_u64(shares, asset_share_value_fp48)
    }

    /// Converts `amount_atoms` to fixed-point asset shares at the bank's asset
    /// share value, floored.
    pub fn amount_to_asset_shares(&self, asset_share_value_fp48: u128, amount_atoms: u64) -> (res:
        Result<u128, Error>)
        ensures
            res is Ok <==> (asset_share_value_fp48 != 0 && atoms_to_shares_floor(
                amount_atoms as int,
                asset_share_value_fp48 as int,
            ) <= u128::MAX),
            res matches Ok(v) ==> v == atoms_to_shares_floor(
                amount_atoms as int,
                asset_share_value_fp48 as int,
            ),
            res matches Err(e) ==> e == Error::ArithmeticOverflow,
            res == asset_shares_result(asset_share_value_fp48, amount_atoms),
    {
        atoms_value_floor(amount_atoms, asset_share_value_fp48)
    }

    /// Converts `amount_atoms` to fixed-point liability shares at the bank's
    /// liability share value, floored.
    pub fn amount_to_liability_shares(
        &self,
        liability_share_value_fp48: u128,
        amount_atoms: u64,
    ) -> (res: Result<u128, Error>)
        ensures
            res is Ok <==> (liability_share_value_fp48 != 0 && atoms_to_shares_floor(
                amount_atoms as int,
                liability_share_value_fp48 as int,
            ) <= u128::MAX),
            res matches Ok(v) ==> v == atoms_to_shares_floor(
                amount_atoms as int,
                liability_share_value_fp48 as int,
            ),
            res matches Err(e) ==> e == Error::ArithmeticOverflow,
    {
        atoms_value_floor(amount_atoms, liability_share_value_fp48)
    }

    /// Asset shares that cover `amount_atoms`: the floored share count, plus
    /// one when converting it back to atoms falls short of `amount_atoms`.
    pub fn amount_to_asset_shares_ceil(&self, asset_share_value_fp48: u128, amount_atoms: u64) -> (res:
        Result<u128, Error>)
        ensures
            res is Ok <==> asset_shares_ceil_ok(asset_share_value_fp48, amount_atoms),
            res matches Ok(v) ==> {
                let floor = atoms_to_shares_floor(amount_atoms as int, asset_share_value_fp48 as int);
                &&& (v == floor || v == floor + 1)
                &&& v == floor <==> shares_to_atoms_floor(floor, asset_share_value_fp48 as int)
                    >= amount_atoms
                &&& shares_to_atoms_floor(v as int, asset_share_value_fp48 as int) >= amount_atoms
            },
            asset_share_value_fp48 == 0 ==> res is Err,
            res is Err ==> (asset_share_value_fp48 == 0 || atoms_to_shares_floor(
                amount_atoms as int,
                asset_share_value_fp48 as int,
            ) + 1 > u128::MAX || mul_scale_spec(
                atoms_to_shares_floor(amount_atoms as int, asset_share_value_fp48 as int),
                asset_share_value_fp48 as int,
            ) > u128::MAX),
            res matches Err(e) ==> e == Error::ArithmeticOverflow,
    {
        let shares_floor = atoms_value_floor(amount_atoms, asset_share_value_fp48)?;
        proof {
            lemma_asset_shares_ceil_covers(amount_atoms as nat, asset_share_value_fp48 as int);
        }
        let atoms_back = from_scaled_floor(mul_scale(shares_floor, asset_share_value_fp48)?);
        if atoms_back < amount_atoms as u128 {
            match shares_floor.checked_add(1) {
                Some(v) => Ok(v),
                None => Err(Error::ArithmeticOverflow),
            }
        } else {
            Ok(shares_floor)
        }
    }

    /// Converts fixed-point liability `shares` to atoms at the bank's
    /// liability share value, floored.
    pub fn liability_shares_to_atoms_floor(&self, liability_share_value_fp48: u128, shares: u128) -> (res:
        Result<u64, Error>)
        ensures
            res is Ok <==> (mul_scale_spec(shares as int, liability_share_value_fp48 as int)
                <= u128::MAX && shares_to_atoms_floor(
                shares as int,
                liability_share_value_fp48 as int,
            ) <= u64::MAX),
            res matches Ok(v) ==> v == shares_to_atoms_floor(
                shares as int,
                liability_share_value_fp48 as int,
            ),
            res matches Err(e) ==> e == Error::ArithmeticOverflow,
    {
        shares_value_floor_u64(shares, liability_share_value_fp48)
    }

    /// `shares_fp48 * lsv_fp48 / 2^48`, rounded up to whole atoms: the exact
    /// liability of `shares_fp48` at a projected liability share value.
    pub fn liability_shares_to_atoms_ceil_at_lsv(&self, shares_fp48: u128, lsv_fp48: u128) -> (res:
        Result<u64, Error>)
        ensures
            res is Ok <==> (mul_scale_spec(shares_fp48 as int, lsv_fp48 as int) <= u128::MAX
                && shares_to_atoms_ceil(shares_fp48 as int, lsv_fp48 as int) <= u64::MAX),
            res matches Ok(v) ==> v == shares_to_atoms_ceil(shares_fp48 as int, lsv_fp48 as int),
            res matches Err(e) ==> e == Error::ArithmeticOverflow,
    {
        shares_value_ceil_u64(shares_fp48, lsv_fp48)
    }

    /// Projected liability share value of the bank at `now_unix`.
    pub fn calc_projected_liability_share_value_fp48(
        &self,
        bank: &[u8],
        group: &[u8],
        now_unix: i64,
    ) -> (res: Result<u128, Error>)
        requires
            elapsed_in_range(bank@, now_unix),
        ensures
            res == projected_share_value_result(bank@, group@, now_unix, true),
    {
        calc_projected_liability_share_value_fp48(bank, group, now_unix)
    }

    /// Projected asset share value of the bank at `now_unix`.
    pub fn calc_projected_asset_share_value_fp48(&self, bank: &[u8], group: &[u8], now_unix: i64) -> (res:
        Result<u128, Error>)
        requires
            elapsed_in_range(bank@, now_unix),
        ensures
            res == projected_share_value_result(bank@, group@, now_unix, false),
    {
        calc_projected_asset_share_value_fp48(bank, group, now_unix)
    }

    /// Post-accrue atom liability of `shares_fp48` at `now_unix`: the
    /// projected liability share value, then a ceiled conversion. Zero
    /// shares short-circuit to zero atoms.
    pub fn get_projected_liability_atoms_ceil(
        &self,
        bank: &[u8],
        group: &[u8],
        shares_fp48: u128,
        now_unix: i64,
    ) -> (res: Result<u64, Error>)
        requires
            elapsed_in_range(bank@, now_unix),
        ensures
            shares_fp48 == 0 ==> res == Ok::<u64, Error>(0),
            shares_fp48 != 0 ==> match projected_share_value_result(bank@, group@, now_unix, true) {
                Err(e) => res == Err::<u64, Error>(e),
                Ok(lsv) => {
                    &&& res is Ok <==> (mul_scale_spec(shares_fp48 as int, lsv as int)
                        <= u128::MAX && shares_to_atoms_ceil(shares_fp48 as int, lsv as int)
                        <= u64::MAX)
                    &&& res matches Ok(v) ==> v == shares_to_atoms_ceil(
                        shares_fp48 as int,
                        lsv as int,
                    )
                    &&& res matches Err(e) ==> e == Error::ArithmeticOverflow
                },
            },
    {
        if shares_fp48 == 0 {
            return Ok(0);
        }
        let new_lsv_fp48 = self.calc_projected_liability_share_value_fp48(bank, group, now_unix)?;
        self.liability_shares_to_atoms_ceil_at_lsv(shares_fp48, new_lsv_fp48)
    }

    /// Atoms a withdraw of `shares` should deliver at the bank's asset share
    /// value (floored); the CPI is then sized by this amount.
    pub fn expected_withdraw_atoms(&self, asset_share_value_fp48: u128, shares: u128) -> (res: Result<
        u64,
        Error,
    >)
        ensures
            res is Ok <==> (mul_scale_spec(shares as int, asset_share_value_fp48 as int)
                <= u128::MAX && shares_to_atoms_floor(shares as int, asset_share_value_fp48 as int)
                <= u64::MAX),
            res matches Ok(v) ==> v == shares_to_atoms_floor(
                shares as int,
                asset_share_value_fp48 as int,
            ),
            res matches Err(e) ==> e == Error::ArithmeticOverflow,
    {
        shares_value_floor_u64(shares, asset_share_value_fp48)
    }

    /// Atoms a repay of `shares` must pay at the bank's liability share value
    /// (rounded up); the CPI is then sized by this amount.
    pub fn expected_repay_atoms(&self, liability_share_value_fp48: u128, shares: u128) -> (res:
        Result<u64, Error>)
        ensures
            res is Ok <==> (mul_scale_spec(shares as int, liability_share_value_fp48 as int)
                <= u128::MAX && shares_to_atoms_ceil(shares as int, liability_share_value_fp48 as int)
                <= u64::MAX),
            res matches Ok(v) ==> v == shares_to_atoms_ceil(
                shares as int,
                liability_share_value_fp48 as int,
            ),
            res matches Err(e) ==> e == Error::ArithmeticOverflow,
    {
        shares_value_ceil_u64(shares, liability_share_value_fp48)
    }
}

/// Refuses a realized atom delta that differs from the predicted one by more
/// than one atom.
pub fn check_atom_delta(actual_atoms: u64, expected_atoms: u64) -> (res: Result<(), Error>)
    ensures
        res is Ok <==> (actual_atoms - expected_atoms <= 1 && expected_atoms - actual_atoms <= 1),
        res matches Err(e) ==> e == Error::Adapter(AdapterError::UnexpectedAtomDelta),
{
    let diff = if actual_atoms >= expected_atoms {
        actual_atoms - expected_atoms
    } else {
        expected_atoms - actual_atoms
    };
    if diff > 1 {
        return Err(Error::Adapter(AdapterError::UnexpectedAtomDelta));
    }
    Ok(())
}

/// Liability shares a repay burned, read from the account before and after
/// the CPI. A liability that grew is refused rather than masked.
pub fn realized_liability_shares_burned(pre_liability: u128, post_liability: u128) -> (res: Result<
    u128,
    Error,
>)
    ensures
        res is Ok <==> post_liability <= pre_liability,
        res matches Ok(v) ==> v == pre_liability - post_liability,
        res matches Err(e) ==> e == Error::Adapter(AdapterError::InvalidIntegrationAccount),
{
    match pre_liability.checked_sub(post_liability) {
        Some(v) => Ok(v),
        None => Err(Error::Adapter(AdapterError::InvalidIntegrationAccount)),
    }
}

/// Token balance of an SPL token account: the little-endian `u64` at bytes
/// 64..72 of its data. Refuses accounts not owned by either token program
/// and data shorter than 72 bytes.
pub fn token_balance_of(owner: &[u8; 32], data: &[u8]) -> (res: Result<u64, Error>)
    ensures
        res is Ok <==> ((owner@ == SPL_TOKEN_PROGRAM_ID@ || owner@ == SPL_TOKEN_2022_PROGRAM_ID@)
            && data@.len() >= 72),
        res matches Ok(v) ==> v == crate::bytes::le_value(data@, 64, 8),
        res matches Err(e) ==> e == Error::Adapter(AdapterError::InvalidIntegrationAccount),
{
    if !crate::token::is_token_program(owner) {
        return Err(Error::Adapter(AdapterError::InvalidIntegrationAccount));
    }
    if data.len() < 72 {
        return Err(Error::Adapter(AdapterError::InvalidIntegrationAccount));
    }
    proof {
        crate::bytes::lemma_le_value_bound(data@, 64, 8);
        crate::bytes::lemma_byte_base_values();
    }
    Ok(crate::bytes::read_le(data, 64, 8) as u64)
}

} // verus!
