//! The SPL token programs: their ids, which of them a transfer goes
//! through, and which Token-2022 mint extensions a market accepts.

use vstd::prelude::*;

use spl_token_2022::extension::BaseStateWithExtensions;

use crate::error::{Error, YdeltaError};
use crate::protocol::marginfi::{SPL_TOKEN_2022_PROGRAM_ID, SPL_TOKEN_PROGRAM_ID};
use crate::pubkey::keys_equal;

verus! {

/// The id of the SPL token program, as `spl_token::id()` declares it.
#[verifier::external_body]
pub(crate) fn spl_token_program_id() -> (id: [u8; 32])
    ensures
        id == SPL_TOKEN_PROGRAM_ID,
{
    spl_token::id().to_bytes()
}

/// The id of the SPL Token-2022 program, as `spl_token_2022::id()` declares it.
#[verifier::external_body]
pub(crate) fn spl_token_2022_program_id() -> (id: [u8; 32])
    ensures
        id == SPL_TOKEN_2022_PROGRAM_ID,
{
    spl_token_2022::id().to_bytes()
}

/// Whether `owner` is one of the two SPL token programs.
pub fn is_token_program(owner: &[u8; 32]) -> (res: bool)
    ensures
        res == (owner@ == SPL_TOKEN_PROGRAM_ID@ || owner@ == SPL_TOKEN_2022_PROGRAM_ID@),
{
    let classic = spl_token_program_id();
    let t22 = spl_token_2022_program_id();
    keys_equal(owner, &classic) || keys_equal(owner, &t22)
}

/// Whether `token_program` is the Token-2022 program. Transfers through it
/// must be checked transfers (naming the mint and its decimals); the
/// classic program takes plain transfers.
pub fn is_token_2022_program(token_program: &[u8; 32]) -> (res: bool)
    ensures
        res == (token_program@ == SPL_TOKEN_2022_PROGRAM_ID@),
{
    let t22 = spl_token_2022_program_id();
    keys_equal(token_program, &t22)
}

/// A Token-2022 mint extension, as far as the market cares.
#[derive(Debug, Clone, Copy, PartialEq, Eq, Structural)]
pub enum MintExtension {
    /// A pointer to the mint's metadata; harmless.
    MetadataPointer,
    /// Any other extension.
    Other,
}

/// The extensions of a Token-2022 mint account, in the order its data lists
/// them, or the Solana error code with which spl-token-2022 refuses the data
/// (not an initialized mint, a malformed extension area).
pub uninterp spec fn token_2022_mint_extensions(data: Seq<u8>) -> Result<Seq<MintExtension>, u64>;

/// Lists the extensions of a Token-2022 mint through
/// `StateWithExtensions::<Mint>::unpack` and `get_extension_types`, or
/// returns the `ProgramError` either of them raises, as its `u64` code. The
/// result is whatever spl-token-2022's parser makes of the bytes, named
/// [`token_2022_mint_extensions`].
#[verifier::external_body]
fn read_mint_extensions(data: &[u8]) -> (res: Result<Vec<MintExtension>, u64>)
    ensures
        res is Ok <==> token_2022_mint_extensions(data@) is Ok,
        res matches Ok(v) ==> (token_2022_mint_extensions(data@) matches Ok(s) && s == v@),
        res matches Err(c) ==> (token_2022_mint_extensions(data@) matches Err(d) && d == c),
{
    let state = spl_token_2022::extension::StateWithExtensions::<
        spl_token_2022::state::Mint,
    >::unpack(data).map_err(u64::from)?;
    let types = state.get_extension_types().map_err(u64::from)?;
    Ok(types.into_iter().map(|t| match t {
        spl_token_2022::extension::ExtensionType::MetadataPointer => MintExtension::MetadataPointer,
        _ => MintExtension::Other,
    }).collect())
}

/// Whether every extension is one the market accepts.
pub open spec fn extensions_supported(exts: Seq<MintExtension>) -> bool {
    forall|i: int| 0 <= i < exts.len() ==> #[trigger] exts[i] == MintExtension::MetadataPointer
}

/// Accepts a mint's extensions only when each is a metadata pointer; any
/// other extension (transfer fees, hooks, confidential transfers, a
/// permanent delegate, a close authority, ...) would let the mint move or
/// skim a market's funds and is refused.
pub fn check_mint_extensions(exts: &[MintExtension]) -> (res: Result<(), Error>)
    ensures
        res is Ok <==> extensions_supported(exts@),
        res matches Err(e) ==> e == Error::Ydelta(YdeltaError::Token2022UnsupportedExtension),
{
    let mut i: usize = 0;
    while i < exts.len()
        invariant
            0 <= i <= exts@.len(),
            forall|j: int| 0 <= j < i ==> #[trigger] exts@[j] == MintExtension::MetadataPointer,
        decreases exts@.len() - i,
    {
        if exts[i] != MintExtension::MetadataPointer {
            return Err(Error::Ydelta(YdeltaError::Token2022UnsupportedExtension));
        }
        i = i + 1;
    }
    Ok(())
}

/// Accepts a market mint: a classic SPL mint always; a Token-2022 mint only
/// when its data parses and every extension it carries is supported. Data
/// spl-token-2022 refuses fails with the error it raised.
pub fn assert_supported_mint_extensions(owner: &[u8; 32], data: &[u8]) -> (res: Result<(), Error>)
    ensures
        owner@ != SPL_TOKEN_2022_PROGRAM_ID@ ==> res is Ok,
        owner@ == SPL_TOKEN_2022_PROGRAM_ID@ ==> match token_2022_mint_extensions(data@) {
            Err(code) => res == Err::<(), Error>(Error::Program(code)),
            Ok(exts) => (res is Ok <==> extensions_supported(exts)) && (res is Err ==> res
                == Err::<(), Error>(Error::Ydelta(YdeltaError::Token2022UnsupportedExtension))),
        },
{
    if !is_token_2022_program(owner) {
        return Ok(());
    }
    match read_mint_extensions(data) {
        Err(code) => Err(Error::Program(code)),
        Ok(exts) => check_mint_extensions(exts.as_slice()),
    }
}

} // verus!
