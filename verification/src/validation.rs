//! Stateless predicate checks over external inputs.
//!
//! Each check either passes or fails the whole operation with one specific
//! error; none mutates anything.

use vstd::prelude::*;
use crate::account::AccountView;
use crate::codec::Identity;
use crate::error::NFTStakingContractError;
use crate::token::{
    spec_spl_token_id, spec_token_account_of, spl_account_bytes_wf, spl_mint_bytes_wf,
    spl_token_program_id, unpack_token_account, unpack_token_mint, TokenAccountView,
};

verus! {

/// The administrator identity fixed at deployment.
pub open spec fn spec_admin_id() -> Identity {
    Identity {
        w0: 12365654393041332990,
        w1: 16085102289997389298,
        w2: 15618622518213819474,
        w3: 1608400064555036638,
    }
}

/// The administrator identity fixed at deployment.
pub fn admin_id() -> (r: Identity)
    ensures
        r == spec_admin_id(),
{
    Identity {
        w0: 12365654393041332990,
        w1: 16085102289997389298,
        w2: 15618622518213819474,
        w3: 1608400064555036638,
    }
}

/// The reward asset identity fixed at deployment.
pub open spec fn spec_reward_mint_id() -> Identity {
    Identity {
        w0: 3616587822200545308,
        w1: 10485067447784955617,
        w2: 1559386045301195988,
        w3: 10123403596266246922,
    }
}

/// The reward asset identity fixed at deployment.
pub fn reward_mint_id() -> (r: Identity)
    ensures
        r == spec_reward_mint_id(),
{
    Identity {
        w0: 3616587822200545308,
        w1: 10485067447784955617,
        w2: 1559386045301195988,
        w3: 10123403596266246922,
    }
}

/// Whether a token-account image parses as an initialized account.
pub open spec fn token_account_parses(d: Seq<u8>) -> bool {
    spl_account_bytes_wf(d) && d[108] != 0
}

/// Whether a mint image parses as an initialized mint.
pub open spec fn token_mint_parses(d: Seq<u8>) -> bool {
    spl_mint_bytes_wf(d) && d[45] == 1
}

/// What checking that the request is signed yields.
pub open spec fn validate_is_signer_spec(signer: AccountView) -> Result<
    (),
    NFTStakingContractError,
> {
    if !signer.is_signer {
        Err(NFTStakingContractError::UserNotSigner)
    } else {
        Ok(())
    }
}

/// What checking the administrator yields.
pub open spec fn validate_admin_spec(admin: AccountView) -> Result<(), NFTStakingContractError> {
    if !admin.is_signer || admin.key != spec_admin_id() {
        Err(NFTStakingContractError::NotAdmin)
    } else {
        Ok(())
    }
}

/// What checking a token account's holder yields.
pub open spec fn validate_token_owner_spec(token_ata: AccountView, user: AccountView) -> Result<
    (),
    NFTStakingContractError,
> {
    if !token_account_parses(token_ata.data@) {
        Err(NFTStakingContractError::InvalidTokenATA)
    } else if spec_token_account_of(token_ata.data@).owner != user.key {
        Err(NFTStakingContractError::IncorrectATAOwner)
    } else {
        Ok(())
    }
}

/// What checking a reward token account's binding yields.
pub open spec fn validate_token_ata_spec(token_ata: AccountView, token_mint: AccountView) -> Result<
    (),
    NFTStakingContractError,
> {
    if !token_account_parses(token_ata.data@) {
        Err(NFTStakingContractError::InvalidTokenATA)
    } else if !token_mint_parses(token_mint.data@) {
        Err(NFTStakingContractError::InvalidTokenATA)
    } else if token_mint.data@[44] != 8 || spec_token_account_of(token_ata.data@).mint
        != spec_reward_mint_id() || token_ata.owner != spec_spl_token_id() {
        Err(NFTStakingContractError::InvalidTokenATA)
    } else {
        Ok(())
    }
}

/// What checking a collateral item's token account yields.
pub open spec fn validate_nft_ata_spec(token_ata: AccountView, token_mint: AccountView) -> Result<
    (),
    NFTStakingContractError,
> {
    if !token_account_parses(token_ata.data@) {
        Err(NFTStakingContractError::InvalidTokenATA)
    } else if !token_mint_parses(token_mint.data@) {
        Err(NFTStakingContractError::InvalidTokenATA)
    } else if spec_token_account_of(token_ata.data@).amount != 1 || token_mint.data@[44] != 0
        || spec_token_account_of(token_ata.data@).mint != token_mint.key || token_ata.owner
        != spec_spl_token_id() {
        Err(NFTStakingContractError::InvalidTokenATA)
    } else {
        Ok(())
    }
}

/// What checking two identities for equality yields.
pub open spec fn validate_equality_spec(lt: Identity, rt: Identity) -> Result<
    (),
    NFTStakingContractError,
> {
    if lt != rt {
        Err(NFTStakingContractError::EqualityMismatch)
    } else {
        Ok(())
    }
}

/// What checking two booleans for equality yields.
pub open spec fn validate_bool_spec(lt: bool, rt: bool) -> Result<(), NFTStakingContractError> {
    if lt != rt {
        Err(NFTStakingContractError::BoolEqualityMismatch)
    } else {
        Ok(())
    }
}

/// What checking a persistent record account yields.
pub open spec fn validate_state_account_spec(
    state_account: AccountView,
    program_id: Identity,
) -> Result<(), NFTStakingContractError> {
    if state_account.owner != program_id || state_account.spec_data_is_empty() {
        Err(NFTStakingContractError::InvalidStateAccount)
    } else {
        Ok(())
    }
}

/// The stateless validation layer.
pub struct Validator;

impl Validator {
    /// Fails unless the account's holder signed the request.
    pub fn validate_is_signer(signer: &AccountView) -> (r: Result<(), NFTStakingContractError>)
        ensures
            r == validate_is_signer_spec(*signer),
    {
        if !signer.is_signer {
            return Err(NFTStakingContractError::UserNotSigner);
        }
        Ok(())
    }

    /// Fails unless the account is the signing administrator.
    pub fn validate_admin(admin: &AccountView) -> (r: Result<(), NFTStakingContractError>)
        ensures
            r == validate_admin_spec(*admin),
    {
        if !admin.is_signer || admin.key != admin_id() {
            return Err(NFTStakingContractError::NotAdmin);
        }
        Ok(())
    }

    /// Fails unless `token_ata` parses as a token account held by `user`.
    pub fn validate_token_owner(token_ata: &AccountView, user: &AccountView) -> (r: Result<
        (),
        NFTStakingContractError,
    >)
        ensures
            r == validate_token_owner_spec(*token_ata, *user),
    {
        let unpacked = match unpack_token_account(&token_ata.data) {
            Some(a) => a,
            None => {
                return Err(NFTStakingContractError::InvalidTokenATA);
            },
        };
        if unpacked.owner != user.key {
            return Err(NFTStakingContractError::IncorrectATAOwner);
        }
        Ok(())
    }

    /// Fails unless `token_ata` is a token-program account for the fixed
    /// reward mint, whose mint record carries eight decimals.
    pub fn validate_token_ata(token_ata: &AccountView, token_mint: &AccountView) -> (r: Result<
        (),
        NFTStakingContractError,
    >)
        ensures
            r == validate_token_ata_spec(*token_ata, *token_mint),
    {
        let ata = match unpack_token_account(&token_ata.data) {
            Some(a) => a,
            None => {
                return Err(NFTStakingContractError::InvalidTokenATA);
            },
        };
        let decimals = match unpack_token_mint(&token_mint.data) {
            Some(d) => d,
            None => {
                return Err(NFTStakingContractError::InvalidTokenATA);
            },
        };
        if decimals != 8 || ata.mint != reward_mint_id() || token_ata.owner
            != spl_token_program_id() {
            return Err(NFTStakingContractError::InvalidTokenATA);
        }
        Ok(())
    }

    /// Fails unless `token_ata` holds exactly one unit of the zero-decimal
    /// collateral mint `token_mint`.
    pub fn validate_nft_ata(token_ata: &AccountView, token_mint: &AccountView) -> (r: Result<
        (),
        NFTStakingContractError,
    >)
        ensures
            r == validate_nft_ata_spec(*token_ata, *token_mint),
    {
        let ata = match unpack_token_account(&token_ata.data) {
            Some(a) => a,
            None => {
                return Err(NFTStakingContractError::InvalidTokenATA);
            },
        };
        let decimals = match unpack_token_mint(&token_mint.data) {
            Some(d) => d,
            None => {
                return Err(NFTStakingContractError::InvalidTokenATA);
            },
        };
        if ata.amount != 1 || decimals != 0 || ata.mint != token_mint.key || token_ata.owner
            != spl_token_program_id() {
            return Err(NFTStakingContractError::InvalidTokenATA);
        }
        Ok(())
    }

    /// Fails unless the two identities are equal.
    pub fn validate_equality(lt: Identity, rt: Identity) -> (r: Result<
        (),
        NFTStakingContractError,
    >)
        ensures
            r == validate_equality_spec(lt, rt),
    {
        if lt != rt {
            return Err(NFTStakingContractError::EqualityMismatch);
        }
        Ok(())
    }

    /// Fails unless the two booleans are equal.
    pub fn validate_bool(lt: bool, rt: bool) -> (r: Result<(), NFTStakingContractError>)
        ensures
            r == validate_bool_spec(lt, rt),
    {
        if lt != rt {
            return Err(NFTStakingContractError::BoolEqualityMismatch);
        }
        Ok(())
    }

    /// Fails unless the account is owned by this program and holds data.
    pub fn validate_state_account(state_account: &AccountView, program_id: Identity) -> (r: Result<
        (),
        NFTStakingContractError,
    >)
        ensures
            r == validate_state_account_spec(*state_account, program_id),
    {
        if state_account.owner != program_id || state_account.data_is_empty() {
            return Err(NFTStakingContractError::InvalidStateAccount);
        }
        Ok(())
    }
}

} // verus!
