//! Two-step role handoffs (market admin, global-vault admin, risk-profile
//! curator, protocol admin) and the role-gated pause switches. A handoff is
//! proposed by the current holder and completed by the proposed key; the
//! all-zero key can never complete one.

use vstd::prelude::*;

use crate::error::{Error, YdeltaError};
use crate::pubkey::keys_equal;

verus! {

/// A role that is handed over in two steps.
#[derive(Debug, Clone, Copy, PartialEq, Eq, Structural)]
pub enum Role {
    MarketAdmin,
    GlobalVaultAdmin,
    Curator,
    ProtocolAdmin,
}

/// Error reported when the signer does not hold `role`.
pub open spec fn holder_required(role: Role) -> YdeltaError {
    match role {
        Role::MarketAdmin => YdeltaError::MarketAdminRequired,
        Role::GlobalVaultAdmin => YdeltaError::VaultAdminRequired,
        Role::Curator => YdeltaError::VaultCuratorRequired,
        Role::ProtocolAdmin => YdeltaError::ProtocolAdminRequired,
    }
}

impl Role {
    /// The error reported when the signer does not hold this role.
    pub fn holder_required_error(&self) -> (e: YdeltaError)
        ensures
            e == holder_required(*self),
    {
        match self {
            Role::MarketAdmin => YdeltaError::MarketAdminRequired,
            Role::GlobalVaultAdmin => YdeltaError::VaultAdminRequired,
            Role::Curator => YdeltaError::VaultCuratorRequired,
            Role::ProtocolAdmin => YdeltaError::ProtocolAdminRequired,
        }
    }
}

/// The current holder of a role and the key proposed to take it over (all
/// zeros when none is).
#[derive(Debug, Clone, Copy, PartialEq, Eq)]
pub struct RoleHandoff {
    pub holder: [u8; 32],
    pub pending: [u8; 32],
}

/// Whether every byte of `k` is zero.
pub open spec fn is_zero(k: [u8; 32]) -> bool {
    forall|i: int| 0 <= i < 32 ==> #[trigger] k@[i] == 0
}

/// Whether `k` is the all-zero key.
pub fn is_zero_key(k: &[u8; 32]) -> (res: bool)
    ensures
        res == is_zero(*k),
{
    let mut i: usize = 0;
    while i < 32
        invariant
            0 <= i <= 32,
            k@.len() == 32,
            forall|j: int| 0 <= j < i ==> #[trigger] k@[j] == 0,
        decreases 32 - i,
    {
        if k[i] != 0 {
            return false;
        }
        i = i + 1;
    }
    true
}

/// The handoff after `signer` proposes `new_holder`, or `None` when the
/// signer does not hold the role.
pub open spec fn proposed(h: RoleHandoff, signer: [u8; 32], new_holder: [u8; 32]) -> Option<
    RoleHandoff,
> {
    if signer@ == h.holder@ {
        Some(RoleHandoff { holder: h.holder, pending: new_holder })
    } else {
        None
    }
}

/// The handoff after `signer` accepts, or `None` when the signer is not the
/// pending key or no key is pending. On success the pending key becomes the
/// holder and the pending slot is cleared.
pub open spec fn accepted(h: RoleHandoff, signer: [u8; 32]) -> Option<RoleHandoff> {
    if signer@ == h.pending@ && !is_zero(h.pending) {
        Some(RoleHandoff { holder: h.pending, pending: [0u8; 32usize] })
    } else {
        None
    }
}

/// Proposes `new_holder` as the next holder of `role`. Only the current
/// holder may propose; a refused proposal leaves the handoff untouched.
pub fn propose_role_transfer(
    handoff: &mut RoleHandoff,
    role: Role,
    signer: &[u8; 32],
    new_holder: &[u8; 32],
) -> (res: Result<(), Error>)
    ensures
        res is Ok <==> proposed(*old(handoff), *signer, *new_holder) is Some,
        res is Ok ==> Some(*final(handoff)) == proposed(*old(handoff), *signer, *new_holder),
        res is Err ==> *final(handoff) == *old(handoff),
        res matches Err(e) ==> e == Error::Ydelta(holder_required(role)),
{
    if !keys_equal(signer, &handoff.holder) {
        return Err(Error::Ydelta(role.holder_required_error()));
    }
    handoff.pending = *new_holder;
    Ok(())
}

/// Completes a handoff: the signer must be the pending key, which must not
/// be all zeros; it becomes the holder and the pending slot is cleared. A
/// refused acceptance leaves the handoff untouched.
pub fn accept_role_transfer(handoff: &mut RoleHandoff, signer: &[u8; 32]) -> (res: Result<
    (),
    Error,
>)
    ensures
        res is Ok <==> accepted(*old(handoff), *signer) is Some,
        res is Ok ==> Some(*final(handoff)) == accepted(*old(handoff), *signer),
        res is Err ==> *final(handoff) == *old(handoff),
        res matches Err(e) ==> e == Error::Ydelta(YdeltaError::PendingAdminMismatch),
{
    if !keys_equal(&handoff.pending, signer) {
        return Err(Error::Ydelta(YdeltaError::PendingAdminMismatch));
    }
    if is_zero_key(&handoff.pending) {
        return Err(Error::Ydelta(YdeltaError::PendingAdminMismatch));
    }
    handoff.holder = handoff.pending;
    handoff.pending = [0u8; 32];
    Ok(())
}

/// A proposal by the holder followed by an acceptance by the proposed
/// (non-zero) key makes that key the holder and leaves nothing pending.
pub proof fn lemma_propose_then_accept(h: RoleHandoff, signer: [u8; 32], new_holder: [u8; 32])
    requires
        signer@ == h.holder@,
        !is_zero(new_holder),
    ensures
        proposed(h, signer, new_holder) is Some,
        accepted(proposed(h, signer, new_holder)->0, new_holder) == Some(
            RoleHandoff { holder: new_holder, pending: [0u8; 32usize] },
        ),
{
}

/// The all-zero key can never complete a handoff.
pub proof fn lemma_zero_key_never_accepts(h: RoleHandoff, signer: [u8; 32])
    requires
        is_zero(signer),
    ensures
        accepted(h, signer) is None,
{
    if signer@ == h.pending@ {
        assert forall|i: int| 0 <= i < 32 implies #[trigger] h.pending@[i] == 0 by {
            assert(signer@[i] == 0);
        }
    }
}

/// After an acceptance, nothing is pending, so a second acceptance is refused.
pub proof fn lemma_accept_clears_pending(h: RoleHandoff, signer: [u8; 32], again: [u8; 32])
    requires
        accepted(h, signer) is Some,
    ensures
        accepted(accepted(h, signer)->0, again) is None,
{
    let z: [u8; 32] = [0u8; 32usize];
    assert(is_zero(z));
}

/// Only the holder can name a successor: a proposal by any other key is refused.
pub proof fn lemma_only_holder_proposes(h: RoleHandoff, signer: [u8; 32], new_holder: [u8; 32])
    requires
        signer@ != h.holder@,
    ensures
        proposed(h, signer, new_holder) is None,
{
}

/// Sets a pause flag gated by `role`: the signer must hold it; any non-zero
/// `paused` stores 1, zero stores 0.
pub fn set_pause_flag(holder: &[u8; 32], role: Role, signer: &[u8; 32], paused: u8) -> (res:
    Result<u8, Error>)
    ensures
        res is Ok <==> signer@ == holder@,
        res matches Ok(v) ==> v == (if paused != 0 {
            1u8
        } else {
            0u8
        }),
        res matches Err(e) ==> e == Error::Ydelta(holder_required(role)),
{
    if !keys_equal(signer, holder) {
        return Err(Error::Ydelta(role.holder_required_error()));
    }
    if paused != 0 {
        Ok(1)
    } else {
        Ok(0)
    }
}

} // verus!
