//! Share accounting of the global vault's sub-vaults: minting shares on a
//! deposit, paying out principal on a withdrawal, reconciling a lender's
//! book when one of its loans closes, and validating risk parameters.

use vstd::prelude::*;

use crate::error::{Error, YdeltaError};
use crate::math::{mul_div, mul_div_result, mul_div_spec};
use crate::pubkey::keys_equal;

verus! {

/// One whole, in basis points.
pub const BPS_PER_UNIT: u64 = 10_000;

/// The share ledger of a sub-vault.
#[derive(Debug, Clone, Copy, PartialEq, Eq, Structural)]
pub struct VaultShareBook {
    /// Shares outstanding.
    pub total_shares: u128,
    /// Marked-to-market assets backing the shares (atoms).
    pub total_assets_atoms: u64,
    /// Cost basis of the shares (atoms).
    pub total_principal_atoms: u64,
    /// Principal lent out in open loans (atoms).
    pub deployed_principal_atoms: u64,
    /// Principal reserved by resting orders (atoms).
    pub encumbered_in_orders_atoms: u64,
}

/// Shares a deposit of `credited` atoms mints: one share per atom into an
/// empty vault, otherwise `credited * total_shares / total_assets`, floored.
pub open spec fn deposit_shares(credited: u64, b: VaultShareBook) -> int {
    if b.total_shares == 0 {
        credited as int
    } else {
        mul_div_spec(credited as int, b.total_shares as int, b.total_assets_atoms as int, false)
    }
}

/// The book after a deposit of `credited` atoms that minted shares.
pub open spec fn deposited_book(b: VaultShareBook, credited: u64) -> VaultShareBook {
    VaultShareBook {
        total_shares: (b.total_shares + deposit_shares(credited, b)) as u128,
        total_assets_atoms: ((if b.total_shares == 0 {
            0
        } else {
            b.total_assets_atoms as int
        }) + credited) as u64,
        total_principal_atoms: (b.total_principal_atoms + credited) as u64,
        deployed_principal_atoms: b.deployed_principal_atoms,
        encumbered_in_orders_atoms: b.encumbered_in_orders_atoms,
    }
}

/// Mints shares for a deposit of `credited_atoms` into a sub-vault and
/// books the atoms as both assets and principal. An empty vault restarts
/// at one share per atom; a vault with shares but no assets is refused, as
/// is a deposit too small to mint a share. On error the book is untouched.
pub fn apply_vault_deposit(book: &mut VaultShareBook, credited_atoms: u64) -> (res: Result<
    u128,
    Error,
>)
    ensures
        (old(book).total_shares != 0 && old(book).total_assets_atoms == 0) ==> res == Err::<
            u128,
            Error,
        >(Error::Ydelta(YdeltaError::InvalidArgument)),
        res matches Ok(shares) ==> {
            let o = *old(book);
            let n = *final(book);
            let base_assets: int = if o.total_shares == 0 {
                0
            } else {
                o.total_assets_atoms as int
            };
            &&& shares == deposit_shares(credited_atoms, o)
            &&& shares > 0
            &&& n.total_shares == o.total_shares + shares
            &&& n.total_assets_atoms == base_assets + credited_atoms
            &&& n.total_principal_atoms == o.total_principal_atoms + credited_atoms
            &&& n.deployed_principal_atoms == o.deployed_principal_atoms
            &&& n.encumbered_in_orders_atoms == o.encumbered_in_orders_atoms
        },
        res is Ok ==> *final(book) == deposited_book(*old(book), credited_atoms),
        res is Err ==> *final(book) == *old(book),
        res matches Err(e) ==> (e == Error::Ydelta(YdeltaError::InvalidArgument) || e
            == Error::ArithmeticOverflow),
        (res is Err && !(old(book).total_shares != 0 && old(book).total_assets_atoms == 0))
            ==> (deposit_shares(credited_atoms, *old(book)) == 0 || deposit_shares(
            credited_atoms,
            *old(book),
        ) > u128::MAX || old(book).total_shares + deposit_shares(credited_atoms, *old(book))
            > u128::MAX || old(book).total_principal_atoms + credited_atoms > u64::MAX || (if old(
            book,
        ).total_shares == 0 {
            0
        } else {
            old(book).total_assets_atoms as int
        }) + credited_atoms > u64::MAX),
{
    let empty = book.total_shares == 0;
    let base_assets: u64 = if empty {
        0
    } else {
        book.total_assets_atoms
    };
    let shares: u128 = if empty {
        credited_atoms as u128
    } else {
        if book.total_assets_atoms == 0 {
            return Err(Error::Ydelta(YdeltaError::InvalidArgument));
        }
        mul_div(credited_atoms as u128, book.total_shares, book.total_assets_atoms as u128, false)?
    };
    if shares == 0 {
        return Err(Error::Ydelta(YdeltaError::InvalidArgument));
    }
    let total_shares = match book.total_shares.checked_add(shares) {
        Some(v) => v,
        None => {
            return Err(Error::ArithmeticOverflow);
        },
    };
    let total_principal = match book.total_principal_atoms.checked_add(credited_atoms) {
        Some(v) => v,
        None => {
            return Err(Error::ArithmeticOverflow);
        },
    };
    let total_assets = match base_assets.checked_add(credited_atoms) {
        Some(v) => v,
        None => {
            return Err(Error::ArithmeticOverflow);
        },
    };
    book.total_shares = total_shares;
    book.total_principal_atoms = total_principal;
    book.total_assets_atoms = total_assets;
    Ok(shares)
}

/// A deposit never lowers the assets backing each existing share: with
/// shares and assets before the deposit, the assets per share after it are
/// at least what they were.
pub proof fn lemma_deposit_does_not_dilute(credited: u64, b: VaultShareBook)
    requires
        b.total_shares > 0,
        b.total_assets_atoms > 0,
    ensures
        deposit_shares(credited, b) * b.total_assets_atoms <= credited * b.total_shares,
        (b.total_assets_atoms + credited) * b.total_shares >= b.total_assets_atoms * (
        b.total_shares + deposit_shares(credited, b)),
{
    let x = credited * b.total_shares;
    let a = b.total_assets_atoms as int;
    vstd::arithmetic::div_mod::lemma_fundamental_div_mod(x, a);
    let s = x / a;
    assert(s * a <= x) by (nonlinear_arith)
        requires
            x == a * s + x % a,
            0 <= x % a,
    ;
    assert((a + credited) * b.total_shares >= a * (b.total_shares + s)) by (nonlinear_arith)
        requires
            s * a <= credited * b.total_shares,
    ;
}

/// A deposit followed at once by the burn of the shares it minted never
/// redeems more principal than was deposited, provided the book's principal
/// does not exceed its assets (or the vault was empty, with no principal
/// left over).
pub proof fn lemma_deposit_then_withdraw_returns_at_most_deposit(b: VaultShareBook, credited: u64)
    requires
        (b.total_shares == 0 && b.total_principal_atoms == 0) || (b.total_shares > 0
            && b.total_assets_atoms > 0 && b.total_principal_atoms <= b.total_assets_atoms),
        0 < deposit_shares(credited, b) <= u128::MAX,
        b.total_shares + deposit_shares(credited, b) <= u128::MAX,
        b.total_principal_atoms + credited <= u64::MAX,
    ensures
        principal_decrement(deposit_shares(credited, b) as u128, deposited_book(b, credited))
            <= credited,
{
    let s = deposit_shares(credited, b);
    let n = deposited_book(b, credited);
    let c = credited as int;
    let big_s = b.total_shares as int;
    let p = b.total_principal_atoms as int;
    assert(n.total_shares == big_s + s);
    assert(n.total_principal_atoms == p + c);
    if b.total_shares == 0 {
        assert(s == c);
        assert(principal_decrement(s as u128, n) == (s * (p + c)) / (big_s + s));
        assert(p == 0);
        assert((c * c) / c == c) by (nonlinear_arith)
            requires
                c > 0,
        ;
    } else {
        let a = b.total_assets_atoms as int;
        vstd::arithmetic::div_mod::lemma_fundamental_div_mod(c * big_s, a);
        assert(s == (c * big_s) / a);
        assert(s * a <= c * big_s) by (nonlinear_arith)
            requires
                s == (c * big_s) / a,
                c * big_s == a * ((c * big_s) / a) + (c * big_s) % a,
                0 <= (c * big_s) % a,
        ;
        assert(s * (p + c) <= c * (big_s + s)) by (nonlinear_arith)
            requires
                s * a <= c * big_s,
                0 <= p <= a,
                s >= 0,
                c >= 0,
        ;
        assert(principal_decrement(s as u128, n) == (s * (p + c)) / (big_s + s));
        vstd::arithmetic::div_mod::lemma_div_is_ordered(s * (p + c), c * (big_s + s), big_s + s);
        vstd::arithmetic::div_mod::lemma_div_by_multiple(c, big_s + s);
        assert((c * (big_s + s)) / (big_s + s) == c) by (nonlinear_arith)
            requires
                big_s + s > 0,
                (c * (big_s + s)) / (big_s + s) == c,
        ;
    }
}

/// Principal the burn of `shares` redeems: `shares * total_principal /
/// total_shares`, floored.
pub open spec fn principal_decrement(shares: u128, b: VaultShareBook) -> int {
    mul_div_spec(shares as int, b.total_principal_atoms as int, b.total_shares as int, false)
}

/// Idle principal of a sub-vault: principal not deployed nor encumbered
/// (each subtraction floored at zero).
pub open spec fn idle_principal(b: VaultShareBook) -> int {
    let after_deployed: int = if b.total_principal_atoms >= b.deployed_principal_atoms {
        b.total_principal_atoms - b.deployed_principal_atoms
    } else {
        0
    };
    if after_deployed >= b.encumbered_in_orders_atoms {
        after_deployed - b.encumbered_in_orders_atoms
    } else {
        0
    }
}

/// Atoms a burn of `shares` pays out: the principal decrement, capped at the
/// marginfi balance when the burn takes the last shares.
pub open spec fn withdraw_payout(shares: u128, b: VaultShareBook, mfi_atoms: u64) -> int {
    let pd = principal_decrement(shares, b);
    if b.total_shares == shares && mfi_atoms < pd {
        mfi_atoms as int
    } else {
        pd
    }
}

/// Whether a burn of `shares` is permitted.
pub open spec fn withdraw_allowed(shares: u128, b: VaultShareBook, mfi_atoms: u64) -> bool {
    let pd = principal_decrement(shares, b);
    let out = withdraw_payout(shares, b, mfi_atoms);
    &&& b.total_shares != 0
    &&& pd <= u64::MAX
    &&& (pd > 0 || b.total_assets_atoms == 0)
    &&& idle_principal(b) >= out
    &&& mfi_atoms >= out
    &&& b.total_shares == shares ==> (b.deployed_principal_atoms == 0
        && b.encumbered_in_orders_atoms == 0)
    &&& shares <= b.total_shares
    &&& out <= b.total_assets_atoms
    &&& out <= b.total_principal_atoms
}

/// The error a refused burn of `shares` returns, by the first check that
/// fails: a zero share supply or a principal decrement past `u128` is an
/// arithmetic overflow, a decrement past `u64` is `MathOverflow`, a burn that
/// redeems nothing from a vault with assets is `InvalidArgument`, a payout
/// not covered by idle principal or by the marginfi balance, and a burn of
/// the last shares while capital is deployed or encumbered, are
/// `VaultInsufficientIdleAtoms`; anything else (burning more shares, assets
/// or principal than the book holds) is an arithmetic overflow.
pub open spec fn withdraw_refusal(shares: u128, b: VaultShareBook, mfi_atoms: u64) -> Error {
    let pd = principal_decrement(shares, b);
    let out = withdraw_payout(shares, b, mfi_atoms);
    if b.total_shares == 0 || pd > u128::MAX {
        Error::ArithmeticOverflow
    } else if pd > u64::MAX {
        Error::Ydelta(YdeltaError::MathOverflow)
    } else if !(pd > 0 || b.total_assets_atoms == 0) {
        Error::Ydelta(YdeltaError::InvalidArgument)
    } else if idle_principal(b) < out || mfi_atoms < out || (b.total_shares == shares && (
    b.deployed_principal_atoms != 0 || b.encumbered_in_orders_atoms != 0)) {
        Error::Ydelta(YdeltaError::VaultInsufficientIdleAtoms)
    } else {
        Error::ArithmeticOverflow
    }
}

/// Burns `shares_to_burn` and pays out their share of the sub-vault's
/// principal. The payout must be covered by idle principal and by the
/// vault's marginfi balance; the last shares may only be burned once no
/// capital is deployed or encumbered. A burn that redeems nothing from a
/// vault with assets is refused. On error the book is untouched.
pub fn apply_vault_withdraw(book: &mut VaultShareBook, shares_to_burn: u128, mfi_atoms: u64) -> (res:
    Result<u64, Error>)
    ensures
        res is Ok <==> withdraw_allowed(shares_to_burn, *old(book), mfi_atoms),
        res matches Ok(out) ==> {
            let o = *old(book);
            let n = *final(book);
            &&& out == withdraw_payout(shares_to_burn, o, mfi_atoms)
            &&& n.total_shares == o.total_shares - shares_to_burn
            &&& n.total_assets_atoms == o.total_assets_atoms - out
            &&& n.total_principal_atoms == o.total_principal_atoms - out
            &&& n.deployed_principal_atoms == o.deployed_principal_atoms
            &&& n.encumbered_in_orders_atoms == o.encumbered_in_orders_atoms
            &&& out * o.total_shares <= shares_to_burn * o.total_principal_atoms
            &&& out == 0 || out + o.deployed_principal_atoms + o.encumbered_in_orders_atoms
                <= o.total_principal_atoms
        },
        res matches Err(e) ==> e == withdraw_refusal(shares_to_burn, *old(book), mfi_atoms),
        res is Err ==> *final(book) == *old(book),
{
    let pd_wide = mul_div(shares_to_burn, book.total_principal_atoms as u128, book.total_shares, false)?;
    if pd_wide > 0xFFFF_FFFF_FFFF_FFFFu128 {
        return Err(Error::Ydelta(YdeltaError::MathOverflow));
    }
    let principal_decrement = pd_wide as u64;
    if !(principal_decrement > 0 || book.total_assets_atoms == 0) {
        return Err(Error::Ydelta(YdeltaError::InvalidArgument));
    }
    let burns_last_share = book.total_shares == shares_to_burn;
    let atoms_out: u64 = if burns_last_share && mfi_atoms < principal_decrement {
        mfi_atoms
    } else {
        principal_decrement
    };
    let profile_idle: u64 = book.total_principal_atoms.saturating_sub(
        book.deployed_principal_atoms,
    ).saturating_sub(book.encumbered_in_orders_atoms);
    if profile_idle < atoms_out {
        return Err(Error::Ydelta(YdeltaError::VaultInsufficientIdleAtoms));
    }
    if mfi_atoms < atoms_out {
        return Err(Error::Ydelta(YdeltaError::VaultInsufficientIdleAtoms));
    }
    if burns_last_share {
        if !(book.deployed_principal_atoms == 0 && book.encumbered_in_orders_atoms == 0) {
            return Err(Error::Ydelta(YdeltaError::VaultInsufficientIdleAtoms));
        }
    }
    let total_shares = match book.total_shares.checked_sub(shares_to_burn) {
        Some(v) => v,
        None => {
            return Err(Error::ArithmeticOverflow);
        },
    };
    let total_assets = match book.total_assets_atoms.checked_sub(atoms_out) {
        Some(v) => v,
        None => {
            return Err(Error::ArithmeticOverflow);
        },
    };
    let total_principal = match book.total_principal_atoms.checked_sub(atoms_out) {
        Some(v) => v,
        None => {
            return Err(Error::ArithmeticOverflow);
        },
    };
    proof {
        let x = shares_to_burn * book.total_principal_atoms;
        let t = book.total_shares as int;
        vstd::arithmetic::div_mod::lemma_fundamental_div_mod(x, t);
        assert(principal_decrement * t <= x) by (nonlinear_arith)
            requires
                principal_decrement == x / t,
                x == t * (x / t) + x % t,
                0 <= x % t,
        ;
        assert(atoms_out * t <= principal_decrement * t) by (nonlinear_arith)
            requires
                atoms_out <= principal_decrement,
                t >= 0,
        ;
    }
    book.total_shares = total_shares;
    book.total_assets_atoms = total_assets;
    book.total_principal_atoms = total_principal;
    Ok(atoms_out)
}

/// Checks a depositor's request before any atoms move: the deposit must be
/// positive, the staging vault must have received atoms, marginfi must have
/// credited atoms after share rounding, and the sub-vault must not be
/// winding down.
pub fn check_vault_deposit(amount_atoms: u64, received_atoms: u64, credited_atoms: u64, is_sunset: bool) -> (res:
    Result<(), Error>)
    ensures
        res is Ok <==> (amount_atoms > 0 && received_atoms > 0 && credited_atoms > 0 && !is_sunset),
        (amount_atoms == 0 || received_atoms == 0 || credited_atoms == 0) ==> res == Err::<(), Error>(
            Error::Ydelta(YdeltaError::InvalidArgument),
        ),
        (amount_atoms > 0 && received_atoms > 0 && credited_atoms > 0 && is_sunset) ==> res
            == Err::<(), Error>(Error::Ydelta(YdeltaError::SubVaultSunset)),
{
    if amount_atoms == 0 || received_atoms == 0 || credited_atoms == 0 {
        return Err(Error::Ydelta(YdeltaError::InvalidArgument));
    }
    if is_sunset {
        return Err(Error::Ydelta(YdeltaError::SubVaultSunset));
    }
    Ok(())
}

/// Checks a depositor's burn request: it must burn something, within the
/// depositor's seat, and a private sub-vault pays out only to its owner.
pub fn check_vault_burn(
    shares_to_burn: u128,
    seat_shares: u128,
    is_private: bool,
    curator: &[u8; 32],
    signer: &[u8; 32],
) -> (res: Result<(), Error>)
    ensures
        res is Ok <==> (0 < shares_to_burn <= seat_shares && (is_private ==> signer@ == curator@)),
        !(0 < shares_to_burn <= seat_shares) ==> res == Err::<(), Error>(
            Error::Ydelta(YdeltaError::InvalidArgument),
        ),
        (0 < shares_to_burn <= seat_shares && is_private && signer@ != curator@) ==> res == Err::<
            (),
            Error,
        >(Error::Ydelta(YdeltaError::VaultCuratorRequired)),
{
    if shares_to_burn == 0 || seat_shares < shares_to_burn {
        return Err(Error::Ydelta(YdeltaError::InvalidArgument));
    }
    if is_private && !keys_equal(signer, curator) {
        return Err(Error::Ydelta(YdeltaError::VaultCuratorRequired));
    }
    Ok(())
}

/// Where the atoms a burn withdrew from marginfi go.
#[derive(Debug, Clone, Copy, PartialEq, Eq, Structural)]
pub struct WithdrawProceeds {
    /// Atoms paid to the depositor: at most the payout the burn redeems.
    pub payout_atoms: u64,
    /// Atoms withdrawn beyond the payout, deposited back into the vault.
    pub surplus_atoms: u64,
}

/// Splits the atoms marginfi returned for a burn: the depositor gets up to
/// the redeemed payout, the rest goes back into the vault. Nothing is lost
/// or created.
pub fn split_withdraw_proceeds(actual_atoms: u64, atoms_out: u64) -> (res: WithdrawProceeds)
    ensures
        res.payout_atoms == (if actual_atoms <= atoms_out {
            actual_atoms
        } else {
            atoms_out
        }),
        res.payout_atoms + res.surplus_atoms == actual_atoms,
        res.payout_atoms <= atoms_out,
{
    let payout_atoms: u64 = if actual_atoms <= atoms_out {
        actual_atoms
    } else {
        atoms_out
    };
    WithdrawProceeds { payout_atoms, surplus_atoms: actual_atoms - payout_atoms }
}

/// Once the last share is burned, whatever assets and principal the book
/// still carries are written off, so an emptied sub-vault restarts clean.
pub fn write_off_emptied_vault(book: &mut VaultShareBook)
    ensures
        old(book).total_shares == 0 ==> *final(book) == (VaultShareBook {
            total_assets_atoms: 0,
            total_principal_atoms: 0,
            ..*old(book)
        }),
        old(book).total_shares != 0 ==> *final(book) == *old(book),
{
    if book.total_shares == 0 {
        book.total_assets_atoms = 0;
        book.total_principal_atoms = 0;
    }
}

/// A lender's book of open fixed-rate loans (a sub-vault or a risk profile).
#[derive(Debug, Clone, Copy, PartialEq, Eq, Structural)]
pub struct LenderBook {
    /// Sum of principal × gross rate (bps) over open loans.
    pub total_weighted_rate_bps: u128,
    /// Sum of principal × net rate (bps, after the curator fee) over open loans.
    pub total_weighted_net_rate_bps: u128,
    /// Principal lent out in open loans (atoms).
    pub deployed_principal_atoms: u64,
    /// Cost basis (atoms).
    pub total_principal_atoms: u64,
    /// Marked-to-market assets (atoms).
    pub total_assets_atoms: u64,
    /// Repaid atoms not yet swept into the vault (atoms).
    pub pending_claim_atoms: u64,
    /// Atoms earmarked for the curator.
    pub accumulated_curator_fee_atoms: u64,
    /// Principal reserved by resting orders (atoms).
    pub encumbered_in_orders_atoms: u64,
}

/// What a closing fixed-rate loan tells its lender's book.
#[derive(Debug, Clone, Copy, PartialEq, Eq, Structural)]
pub struct ClosedLoanFacts {
    pub principal_debt_atoms: u64,
    pub lender_rate_bps: u16,
    pub curator_fee_bps: u16,
    pub started_at_unix: i64,
    pub lender_claimable_atoms: u64,
    pub accumulated_curator_fee_atoms: u64,
}

/// `principal * rate`: a loan's weight in the gross-rate accumulator.
pub open spec fn gross_weight(principal_atoms: u64, rate_bps: u16) -> int {
    principal_atoms * rate_bps
}

/// A loan's weight in the net-rate accumulator: the gross weight after the
/// curator fee, floored.
pub open spec fn net_weight(principal_atoms: u64, rate_bps: u16, curator_fee_bps: u16) -> int {
    mul_div_spec(
        gross_weight(principal_atoms, rate_bps),
        BPS_PER_UNIT - curator_fee_bps,
        BPS_PER_UNIT as int,
        false,
    )
}

/// The closing loan's weight in the gross-rate accumulator.
pub open spec fn weighted_delta(l: ClosedLoanFacts) -> int {
    gross_weight(l.principal_debt_atoms, l.lender_rate_bps)
}

/// The closing loan's weight in the net-rate accumulator.
pub open spec fn net_weighted_delta(l: ClosedLoanFacts) -> int {
    net_weight(l.principal_debt_atoms, l.lender_rate_bps, l.curator_fee_bps)
}

/// Whether booking a new loan of `principal_atoms` at `rate_bps` keeps every
/// counter in range.
pub open spec fn open_fits(b: LenderBook, principal_atoms: u64, rate_bps: u16, curator_fee_bps: u16) -> bool {
    &&& b.deployed_principal_atoms + principal_atoms <= u64::MAX
    &&& b.total_weighted_rate_bps + gross_weight(principal_atoms, rate_bps) <= u128::MAX
    &&& b.total_weighted_net_rate_bps + net_weight(principal_atoms, rate_bps, curator_fee_bps)
        <= u128::MAX
}

/// The book after a new loan is funded: its principal is deployed, its
/// weights join the rate accumulators, and the principal leaves the
/// order reservation (floored at zero).
pub open spec fn opened_book(b: LenderBook, principal_atoms: u64, rate_bps: u16, curator_fee_bps: u16) -> LenderBook {
    LenderBook {
        total_weighted_rate_bps: (b.total_weighted_rate_bps + gross_weight(principal_atoms, rate_bps)) as u128,
        total_weighted_net_rate_bps: (b.total_weighted_net_rate_bps + net_weight(
            principal_atoms,
            rate_bps,
            curator_fee_bps,
        )) as u128,
        deployed_principal_atoms: (b.deployed_principal_atoms + principal_atoms) as u64,
        total_principal_atoms: b.total_principal_atoms,
        total_assets_atoms: b.total_assets_atoms,
        pending_claim_atoms: b.pending_claim_atoms,
        accumulated_curator_fee_atoms: b.accumulated_curator_fee_atoms,
        encumbered_in_orders_atoms: (if b.encumbered_in_orders_atoms >= principal_atoms {
            b.encumbered_in_orders_atoms - principal_atoms
        } else {
            0
        }) as u64,
    }
}

/// Books a newly funded fixed-rate loan in its lender's book (after the
/// caller has accrued the book): deploys the principal, adds the loan's
/// gross and net weights, and releases the principal from the order
/// reservation. On error the book is untouched.
pub fn open_loan_in_lender_book(
    book: &mut LenderBook,
    principal_atoms: u64,
    lender_rate_bps: u16,
    curator_fee_bps: u16,
) -> (res: Result<(), Error>)
    requires
        curator_fee_bps <= BPS_PER_UNIT,
    ensures
        res is Ok <==> open_fits(*old(book), principal_atoms, lender_rate_bps, curator_fee_bps),
        res is Ok ==> *final(book) == opened_book(
            *old(book),
            principal_atoms,
            lender_rate_bps,
            curator_fee_bps,
        ),
        res is Err ==> *final(book) == *old(book),
        res matches Err(e) ==> e == Error::ArithmeticOverflow,
{
    let deployed = match book.deployed_principal_atoms.checked_add(principal_atoms) {
        Some(v) => v,
        None => {
            return Err(Error::ArithmeticOverflow);
        },
    };
    assert((principal_atoms as u128) * (lender_rate_bps as u128) <= u128::MAX)
        by (nonlinear_arith)
        requires
            principal_atoms <= u64::MAX,
            lender_rate_bps <= u16::MAX,
    ;
    let weighted: u128 = (principal_atoms as u128) * (lender_rate_bps as u128);
    let total_weighted = match book.total_weighted_rate_bps.checked_add(weighted) {
        Some(v) => v,
        None => {
            return Err(Error::ArithmeticOverflow);
        },
    };
    proof {
        lemma_net_weight_fits(principal_atoms, lender_rate_bps, curator_fee_bps);
    }
    let net = mul_div(
        weighted,
        (BPS_PER_UNIT as u128) - curator_fee_bps as u128,
        BPS_PER_UNIT as u128,
        false,
    )?;
    let total_net = match book.total_weighted_net_rate_bps.checked_add(net) {
        Some(v) => v,
        None => {
            return Err(Error::ArithmeticOverflow);
        },
    };
    book.deployed_principal_atoms = deployed;
    book.total_weighted_rate_bps = total_weighted;
    book.total_weighted_net_rate_bps = total_net;
    book.encumbered_in_orders_atoms = book.encumbered_in_orders_atoms.saturating_sub(
        principal_atoms,
    );
    Ok(())
}

/// The net weight never exceeds the gross weight, so it fits wherever the
/// gross weight does.
pub proof fn lemma_net_weight_fits(principal_atoms: u64, rate_bps: u16, curator_fee_bps: u16)
    requires
        curator_fee_bps <= BPS_PER_UNIT,
    ensures
        0 <= net_weight(principal_atoms, rate_bps, curator_fee_bps) <= gross_weight(
            principal_atoms,
            rate_bps,
        ),
{
    let w = gross_weight(principal_atoms, rate_bps);
    let k = BPS_PER_UNIT - curator_fee_bps;
    assert(w >= 0) by (nonlinear_arith)
        requires
            w == principal_atoms * rate_bps,
            principal_atoms >= 0,
            rate_bps >= 0,
    ;
    assert(w * k <= w * 10_000) by (nonlinear_arith)
        requires
            0 <= k <= 10_000,
            w >= 0,
    ;
    assert(w * k >= 0) by (nonlinear_arith)
        requires
            0 <= k,
            w >= 0,
    ;
    vstd::arithmetic::div_mod::lemma_div_is_ordered(w * k, w * 10_000, 10_000);
    vstd::arithmetic::div_mod::lemma_div_by_multiple(w, 10_000);
    vstd::arithmetic::div_mod::lemma_div_pos_is_pos(w * k, 10_000);
}

/// Seconds the loan was open (zero when it started in the future, capped at
/// `i64::MAX`).
pub open spec fn loan_lifetime(l: ClosedLoanFacts, now: i64) -> int {
    if now - l.started_at_unix > i64::MAX {
        i64::MAX as int
    } else if now - l.started_at_unix > 0 {
        now - l.started_at_unix
    } else {
        0
    }
}

/// Net interest the book estimated for the loan while it was open.
pub open spec fn estimated_accrued(l: ClosedLoanFacts, now: i64, seconds_per_year: u64) -> int {
    mul_div_spec(
        net_weighted_delta(l),
        loan_lifetime(l, now),
        BPS_PER_UNIT * seconds_per_year,
        false,
    )
}

/// Realized net result of the loan for the lender: what it receives minus principal.
pub open spec fn realized_net(l: ClosedLoanFacts) -> int {
    l.lender_claimable_atoms - l.principal_debt_atoms
}

/// `v` moved by the signed `delta`: an increase by `delta as u64`
/// (truncated), or a decrease by `(-delta) as u64` floored at zero.
pub open spec fn moved_by(v: u64, delta: int) -> int {
    if delta >= 0 {
        v + ((delta as i128) as u64)
    } else {
        let d = ((-delta) as i128) as u64;
        if v >= d {
            v - d
        } else {
            0
        }
    }
}

/// Closing a loan undoes what opening it did to the open-loan
/// accumulators: with the same principal, rate and curator fee, the close's
/// subtractions are covered, and the gross and net rate accumulators and the
/// deployed principal return to their values from before the loan opened.
pub proof fn lemma_close_undoes_open(b: LenderBook, l: ClosedLoanFacts, now: i64, seconds_per_year: u64)
    requires
        l.curator_fee_bps <= BPS_PER_UNIT,
        open_fits(b, l.principal_debt_atoms, l.lender_rate_bps, l.curator_fee_bps),
    ensures
        ({
            let o = opened_book(b, l.principal_debt_atoms, l.lender_rate_bps, l.curator_fee_bps);
            let c = closed_book(o, l, now, seconds_per_year);
            &&& weighted_delta(l) <= o.total_weighted_rate_bps
            &&& net_weighted_delta(l) <= o.total_weighted_net_rate_bps
            &&& l.principal_debt_atoms <= o.deployed_principal_atoms
            &&& c.total_weighted_rate_bps == b.total_weighted_rate_bps
            &&& c.total_weighted_net_rate_bps == b.total_weighted_net_rate_bps
            &&& c.deployed_principal_atoms == b.deployed_principal_atoms
        }),
{
    lemma_net_weight_fits(l.principal_debt_atoms, l.lender_rate_bps, l.curator_fee_bps);
}

/// The estimated interest as the signed value the book subtracts: its
/// `u128` value reinterpreted as an `i128`.
pub open spec fn estimated_signed(l: ClosedLoanFacts, now: i64, seconds_per_year: u64) -> i128 {
    #[verifier::truncate] ((estimated_accrued(l, now, seconds_per_year) as u128) as i128)
}

/// How the marked assets move when the loan closes: the realized result
/// replaces the estimated interest.
pub open spec fn assets_delta(l: ClosedLoanFacts, now: i64, seconds_per_year: u64) -> int {
    realized_net(l) - estimated_signed(l, now, seconds_per_year)
}

/// Whether `v` moved up by the non-negative `delta` (truncated to `u64`)
/// stays within `u64`; a decrease always does.
pub open spec fn move_fits(v: u64, delta: int) -> bool {
    delta >= 0 ==> v + ((delta as i128) as u64) <= u64::MAX
}

/// Whether closing `l` in `b` keeps every counter in range.
pub open spec fn close_fits(b: LenderBook, l: ClosedLoanFacts, now: i64, seconds_per_year: u64) -> bool {
    &&& weighted_delta(l) <= b.total_weighted_rate_bps
    &&& net_weighted_delta(l) <= b.total_weighted_net_rate_bps
    &&& l.principal_debt_atoms <= b.deployed_principal_atoms
    &&& seconds_per_year > 0
    &&& estimated_accrued(l, now, seconds_per_year) <= u128::MAX
    &&& move_fits(b.total_principal_atoms, realized_net(l))
    &&& move_fits(b.total_assets_atoms, assets_delta(l, now, seconds_per_year))
    &&& b.pending_claim_atoms + l.lender_claimable_atoms <= u64::MAX
    &&& b.accumulated_curator_fee_atoms + l.accumulated_curator_fee_atoms <= u64::MAX
}

/// The book after `l` closes: the loan's weights and principal leave the
/// open-loan accumulators, the cost basis moves by the realized result,
/// the marked assets replace the estimated interest by the realized
/// result, and the repaid atoms and curator fees are booked.
pub open spec fn closed_book(b: LenderBook, l: ClosedLoanFacts, now: i64, seconds_per_year: u64) -> LenderBook {
    LenderBook {
        total_weighted_rate_bps: (b.total_weighted_rate_bps - weighted_delta(l)) as u128,
        total_weighted_net_rate_bps: (b.total_weighted_net_rate_bps - net_weighted_delta(l)) as u128,
        deployed_principal_atoms: (b.deployed_principal_atoms - l.principal_debt_atoms) as u64,
        total_principal_atoms: moved_by(b.total_principal_atoms, realized_net(l)) as u64,
        total_assets_atoms: moved_by(b.total_assets_atoms, assets_delta(l, now, seconds_per_year))
            as u64,
        pending_claim_atoms: (b.pending_claim_atoms + l.lender_claimable_atoms) as u64,
        accumulated_curator_fee_atoms: (b.accumulated_curator_fee_atoms
            + l.accumulated_curator_fee_atoms) as u64,
        encumbered_in_orders_atoms: b.encumbered_in_orders_atoms,
    }
}

/// Closes a fixed-rate loan in its lender's book: removes the loan's gross
/// and net weights and principal from the open-loan accumulators, replaces
/// the estimated interest in the marked assets by the realized result,
/// moves the cost basis by the realized result, and books the repaid atoms
/// as pending claim and the loan's curator fees. The estimated interest is
/// subtracted after a wrapping conversion to `i128`, and the signed deltas
/// are applied after truncation to `u64`. The caller then restores
/// the book's assets/principal invariant. On error the book is untouched.
pub fn reconcile_lender_book_on_close(
    book: &mut LenderBook,
    loan: &ClosedLoanFacts,
    now_unix: i64,
    seconds_per_year: u64,
) -> (res: Result<(), Error>)
    requires
        loan.curator_fee_bps <= BPS_PER_UNIT,
        seconds_per_year > 0 && estimated_accrued(*loan, now_unix, seconds_per_year) <= u128::MAX
            ==> i128::MIN < assets_delta(*loan, now_unix, seconds_per_year) <= i128::MAX,
    ensures
        res is Ok <==> close_fits(*old(book), *loan, now_unix, seconds_per_year),
        res is Ok ==> *final(book) == closed_book(*old(book), *loan, now_unix, seconds_per_year),
        res is Err ==> *final(book) == *old(book),
        res matches Err(e) ==> e == Error::ArithmeticOverflow,
{
    assert((loan.principal_debt_atoms as u128) * (loan.lender_rate_bps as u128) <= u128::MAX)
        by (nonlinear_arith)
        requires
            loan.principal_debt_atoms <= u64::MAX,
            loan.lender_rate_bps <= u16::MAX,
    ;
    let weighted: u128 = (loan.principal_debt_atoms as u128) * (loan.lender_rate_bps as u128);
    let total_weighted_rate_bps = match book.total_weighted_rate_bps.checked_sub(weighted) {
        Some(v) => v,
        None => {
            return Err(Error::ArithmeticOverflow);
        },
    };
    let net_weighted = mul_div(
        weighted,
        (BPS_PER_UNIT as u128) - loan.curator_fee_bps as u128,
        BPS_PER_UNIT as u128,
        false,
    )?;
    let total_weighted_net_rate_bps = match book.total_weighted_net_rate_bps.checked_sub(
        net_weighted,
    ) {
        Some(v) => v,
        None => {
            return Err(Error::ArithmeticOverflow);
        },
    };
    let deployed = match book.deployed_principal_atoms.checked_sub(loan.principal_debt_atoms) {
        Some(v) => v,
        None => {
            return Err(Error::ArithmeticOverflow);
        },
    };
    let elapsed: i128 = (now_unix as i128) - (loan.started_at_unix as i128);
    let lifetime: u128 = if elapsed > 0x7FFF_FFFF_FFFF_FFFFi128 {
        0x7FFF_FFFF_FFFF_FFFFu128
    } else if elapsed > 0 {
        elapsed as u128
    } else {
        0
    };
    let yield_denom: u128 = (BPS_PER_UNIT as u128) * (seconds_per_year as u128);
    let estimated = mul_div(net_weighted, lifetime, yield_denom, false)?;
    let realized: i128 = (loan.lender_claimable_atoms as i128) - (loan.principal_debt_atoms as i128);
    let total_principal: u64 = if realized >= 0 {
        match book.total_principal_atoms.checked_add(realized as u64) {
            Some(v) => v,
            None => {
                return Err(Error::ArithmeticOverflow);
            },
        }
    } else {
        book.total_principal_atoms.saturating_sub((-realized) as u64)
    };
    let assets_delta: i128 = realized - (#[verifier::truncate] (estimated as i128));
    let total_assets: u64 = if assets_delta >= 0 {
        match book.total_assets_atoms.checked_add(assets_delta as u64) {
            Some(v) => v,
            None => {
                return Err(Error::ArithmeticOverflow);
            },
        }
    } else {
        book.total_assets_atoms.saturating_sub((-assets_delta) as u64)
    };
    let pending = match book.pending_claim_atoms.checked_add(loan.lender_claimable_atoms) {
        Some(v) => v,
        None => {
            return Err(Error::ArithmeticOverflow);
        },
    };
    let curator = match book.accumulated_curator_fee_atoms.checked_add(
        loan.accumulated_curator_fee_atoms,
    ) {
        Some(v) => v,
        None => {
            return Err(Error::ArithmeticOverflow);
        },
    };
    book.total_weighted_rate_bps = total_weighted_rate_bps;
    book.total_weighted_net_rate_bps = total_weighted_net_rate_bps;
    book.deployed_principal_atoms = deployed;
    book.total_principal_atoms = total_principal;
    book.total_assets_atoms = total_assets;
    book.pending_claim_atoms = pending;
    book.accumulated_curator_fee_atoms = curator;
    Ok(())
}

/// A depositor's holding in one sub-vault: the shares on the depositor's
/// seat in the vault, and when it was last touched.
#[derive(Debug, Clone, Copy, PartialEq, Eq, Structural)]
pub struct DepositorSeat {
    pub shares: u128,
    pub last_updated_unix: i64,
}

/// Credits the shares a deposit minted to the depositor's seat and to the
/// vault position on the depositor's account (both created empty by the
/// caller when missing), stamping the seat with `now`. A credit that
/// overflows either is refused with `ArithmeticOverflow`, and neither
/// changes.
pub fn credit_depositor(
    seat: &mut DepositorSeat,
    position_shares: &mut u128,
    minted_shares: u128,
    now: i64,
) -> (res: Result<(), Error>)
    ensures
        res is Ok <==> (old(seat).shares + minted_shares <= u128::MAX && *old(position_shares)
            + minted_shares <= u128::MAX),
        res is Ok ==> final(seat).shares == old(seat).shares + minted_shares
            && final(seat).last_updated_unix == now && *final(position_shares) == *old(
            position_shares,
        ) + minted_shares,
        res matches Err(e) ==> e == Error::ArithmeticOverflow && *final(seat) == *old(seat)
            && *final(position_shares) == *old(position_shares),
{
    let seat_shares = match seat.shares.checked_add(minted_shares) {
        Some(v) => v,
        None => {
            return Err(Error::ArithmeticOverflow);
        },
    };
    let position = match position_shares.checked_add(minted_shares) {
        Some(v) => v,
        None => {
            return Err(Error::ArithmeticOverflow);
        },
    };
    seat.shares = seat_shares;
    seat.last_updated_unix = now;
    *position_shares = position;
    Ok(())
}

/// Debits burned shares from the depositor's seat and, when the depositor's
/// account holds a vault position, from it too, stamping the seat with
/// `now`. Returns whether the seat is now empty, in which case the caller
/// removes the seat and the position. A burn past either balance is refused
/// with `ArithmeticOverflow`, and neither changes.
pub fn debit_depositor(
    seat: &mut DepositorSeat,
    position_shares: &mut Option<u128>,
    burned_shares: u128,
    now: i64,
) -> (res: Result<bool, Error>)
    ensures
        res is Ok <==> (burned_shares <= old(seat).shares && (*old(position_shares) matches Some(
            p,
        ) ==> burned_shares <= p)),
        res matches Ok(emptied) ==> {
            &&& final(seat).shares == old(seat).shares - burned_shares
            &&& final(seat).last_updated_unix == now
            &&& emptied == (final(seat).shares == 0)
            &&& *final(position_shares) == (match *old(position_shares) {
                Some(p) => Some((p - burned_shares) as u128),
                None => None,
            })
        },
        res matches Err(e) ==> e == Error::ArithmeticOverflow && *final(seat) == *old(seat)
            && *final(position_shares) == *old(position_shares),
{
    let seat_shares = match seat.shares.checked_sub(burned_shares) {
        Some(v) => v,
        None => {
            return Err(Error::ArithmeticOverflow);
        },
    };
    let position: Option<u128> = match *position_shares {
        Some(p) => match p.checked_sub(burned_shares) {
            Some(v) => Some(v),
            None => {
                return Err(Error::ArithmeticOverflow);
            },
        },
        None => None,
    };
    seat.shares = seat_shares;
    seat.last_updated_unix = now;
    *position_shares = position;
    Ok(seat_shares == 0)
}

/// Total shares on a list of depositor seats.
pub open spec fn seat_total(seats: Seq<u128>) -> int
    decreases seats.len(),
{
    if seats.len() == 0 {
        0
    } else {
        seat_total(seats.drop_last()) + seats.last()
    }
}

/// Changing one seat changes the total by the same amount.
proof fn lemma_seat_total_update(seats: Seq<u128>, i: int, v: u128)
    requires
        0 <= i < seats.len(),
    ensures
        seat_total(seats.update(i, v)) == seat_total(seats) - seats[i] + v,
    decreases seats.len(),
{
    let u = seats.update(i, v);
    if i == seats.len() - 1 {
        assert(u.drop_last() =~= seats.drop_last());
    } else {
        lemma_seat_total_update(seats.drop_last(), i, v);
        assert(u.drop_last() =~= seats.drop_last().update(i, v));
    }
}

/// Depositor seats stay in step with the vault's share supply: when the
/// seats add up to the supply, crediting a deposit's minted shares to the
/// depositor's seat keeps them adding up to the supply after the deposit,
/// and debiting a burn from the burner's seat keeps them adding up to the
/// supply after the burn.
pub proof fn lemma_seats_track_supply(
    b: VaultShareBook,
    seats: Seq<u128>,
    i: int,
    credited: u64,
    burned: u128,
)
    requires
        0 <= i < seats.len(),
        seat_total(seats) == b.total_shares,
    ensures
        seats[i] + deposit_shares(credited, b) <= u128::MAX && b.total_shares + deposit_shares(
            credited,
            b,
        ) <= u128::MAX && deposit_shares(credited, b) >= 0 ==> seat_total(
            seats.update(i, (seats[i] + deposit_shares(credited, b)) as u128),
        ) == deposited_book(b, credited).total_shares,
        burned <= seats[i] ==> seat_total(seats.update(i, (seats[i] - burned) as u128))
            == b.total_shares - burned,
{
    if seats[i] + deposit_shares(credited, b) <= u128::MAX && deposit_shares(credited, b) >= 0 {
        lemma_seat_total_update(seats, i, (seats[i] + deposit_shares(credited, b)) as u128);
    }
    if burned <= seats[i] {
        lemma_seat_total_update(seats, i, (seats[i] - burned) as u128);
    }
}

/// A burn only ever pays out idle principal: what a permitted burn pays,
/// added to the principal lent out and the principal reserved by resting
/// orders, never exceeds the book's principal. Capital that is deployed or
/// reserved stays in the vault.
pub proof fn lemma_withdraw_pays_only_idle(b: VaultShareBook, shares: u128, mfi_atoms: u64)
    requires
        withdraw_allowed(shares, b, mfi_atoms),
    ensures
        withdraw_payout(shares, b, mfi_atoms) == 0 || withdraw_payout(shares, b, mfi_atoms)
            + b.deployed_principal_atoms + b.encumbered_in_orders_atoms <= b.total_principal_atoms,
        withdraw_payout(shares, b, mfi_atoms) <= b.total_principal_atoms,
{
}

/// Closing a loan depends on how long it was open, not on the calendar:
/// moving both the loan's start and the closing time by the same amount
/// leaves whether the close fits, and the book it leaves, unchanged.
pub proof fn lemma_close_depends_only_on_elapsed(
    b: LenderBook,
    l: ClosedLoanFacts,
    now: i64,
    seconds_per_year: u64,
    shift: i64,
)
    requires
        i64::MIN <= l.started_at_unix + shift <= i64::MAX,
        i64::MIN <= now + shift <= i64::MAX,
    ensures
        ({
            let moved = ClosedLoanFacts { started_at_unix: (l.started_at_unix + shift) as i64, ..l };
            let later = (now + shift) as i64;
            &&& close_fits(b, moved, later, seconds_per_year) == close_fits(
                b,
                l,
                now,
                seconds_per_year,
            )
            &&& closed_book(b, moved, later, seconds_per_year) == closed_book(
                b,
                l,
                now,
                seconds_per_year,
            )
        }),
{
    let moved = ClosedLoanFacts { started_at_unix: (l.started_at_unix + shift) as i64, ..l };
    let later = (now + shift) as i64;
    assert(later - moved.started_at_unix == now - l.started_at_unix);
    assert(loan_lifetime(moved, later) == loan_lifetime(l, now));
    assert(net_weighted_delta(moved) == net_weighted_delta(l));
    assert(realized_net(moved) == realized_net(l));
    assert(weighted_delta(moved) == weighted_delta(l));
}

/// The interest estimate a close takes out of the marked assets is the
/// loan's net rate weight times the seconds since the loan started (none
/// before it started), over 10_000 bps times the seconds in a year,
/// floored.
pub proof fn lemma_close_estimate_is_elapsed_interest(
    l: ClosedLoanFacts,
    now: i64,
    seconds_per_year: u64,
)
    requires
        seconds_per_year > 0,
        now - l.started_at_unix <= i64::MAX,
    ensures
        estimated_accrued(l, now, seconds_per_year) == (net_weighted_delta(l) * (if now
            > l.started_at_unix {
            now - l.started_at_unix
        } else {
            0
        })) / (10_000 * seconds_per_year),
{
}

} // verus!
