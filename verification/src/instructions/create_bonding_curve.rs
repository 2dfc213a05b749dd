use vstd::prelude::*;

use crate::errors::ContractError;
use crate::pubkey::{program_address, try_find_program_address, Pubkey};

verus! {

/// What the launch of a token reads of the program's global settings.
#[derive(Clone, Copy, Debug)]
pub struct GlobalFlags {
    pub initialized: bool,
    /// The program's status is `Running`.
    pub running: bool,
    pub whitelist_enabled: bool,
}

/// The name, symbol and metadata URI of a new token.
#[derive(Clone, Debug)]
pub struct TokenMetadata {
    pub name: String,
    pub symbol: String,
    pub uri: String,
}

/// One step of a token launch, in the order the runtime performs them.
#[derive(Clone, Debug)]
pub enum LaunchStep {
    /// Create the bonding curve's associated token account for the mint.
    CreateCurveTokenAccount,
    /// Create the token's metadata account, with the bonding curve as update
    /// and mint authority.
    CreateMetadata {
        name: String,
        symbol: String,
        uri: String,
        seller_fee_basis_points: u16,
        is_mutable: bool,
        update_authority_is_signer: bool,
    },
    /// Mint the whole supply into the bonding curve's token account.
    MintSupply { amount: u64 },
    /// Revoke the mint authority for good.
    RevokeMintAuthority,
    /// Freeze the bonding curve's token account.
    FreezeCurveTokenAccount,
}

/// What the launch of a token reads: the signing creator, the new mint, the
/// global settings, the whitelist account (its address and whether it holds
/// data), the seed prefix of whitelist addresses, the program's id and the
/// supply that the bonding curve holds.
#[derive(Clone, Debug)]
pub struct CreateBondingCurve {
    pub creator: Pubkey,
    pub mint: Pubkey,
    pub global: GlobalFlags,
    pub whitelist: Pubkey,
    pub whitelist_data_empty: bool,
    pub whitelist_seed_prefix: Vec<u8>,
    pub program_id: Pubkey,
    pub token_total_supply: u64,
}

impl CreateBondingCurve {
    /// The address at which the creator's whitelist entry must live, or `None`
    /// where no address can be derived from the creator.
    pub open spec fn expected_whitelist(self) -> Option<Seq<u8>> {
        match program_address(seq![self.whitelist_seed_prefix@, self.creator@], self.program_id@) {
            Some(found) => Some(found.0),
            None => None,
        }
    }

    /// The outcome of the launch checks, given the whitelist address that the
    /// creator's entry must have (`None`: there is no such address, so no
    /// entry can exist).
    pub open spec fn launch_check(self, expected_whitelist: Option<Seq<u8>>) -> Result<
        (),
        ContractError,
    > {
        if !self.global.initialized {
            Err(ContractError::NotInitialized)
        } else if !self.global.running {
            Err(ContractError::ProgramNotRunning)
        } else if self.global.whitelist_enabled && !(expected_whitelist == Some(self.whitelist@)) {
            Err(ContractError::NotWhiteList)
        } else if self.global.whitelist_enabled && self.whitelist_data_empty {
            Err(ContractError::NotWhiteList)
        } else {
            Ok(())
        }
    }

    /// The steps of a launch with `metadata`.
    pub open spec fn steps(self, metadata: TokenMetadata) -> Seq<LaunchStep> {
        seq![
            LaunchStep::CreateCurveTokenAccount,
            LaunchStep::CreateMetadata {
                name: metadata.name,
                symbol: metadata.symbol,
                uri: metadata.uri,
                seller_fee_basis_points: 0,
                is_mutable: false,
                update_authority_is_signer: true,
            },
            LaunchStep::MintSupply { amount: self.token_total_supply },
            LaunchStep::RevokeMintAuthority,
            LaunchStep::FreezeCurveTokenAccount,
        ]
    }

    /// Launch parameters need no check of their own: a start time in the past
    /// or the future is the creator's choice.
    pub fn validate(&self, _params: &TokenMetadata) -> (r: Result<(), ContractError>)
        ensures
            r == Ok::<(), ContractError>(()),
    {
        Ok(())
    }

    /// The launch checks against the address `expected_whitelist` at which the
    /// creator's whitelist entry must live (`None`: no address can be derived).
    pub fn check_launch(&self, expected_whitelist: Option<Pubkey>) -> (r: Result<(), ContractError>)
        ensures
            r == self.launch_check(
                match expected_whitelist {
                    Some(k) => Some(k@),
                    None => None,
                },
            ),
    {
        if !self.global.initialized {
            return Err(ContractError::NotInitialized);
        }
        if !self.global.running {
            return Err(ContractError::ProgramNotRunning);
        }
        if self.global.whitelist_enabled {
            match expected_whitelist {
                Some(expected) => {
                    if !(self.whitelist == expected) {
                        return Err(ContractError::NotWhiteList);
                    }
                },
                None => return Err(ContractError::NotWhiteList),
            }
            if self.whitelist_data_empty {
                return Err(ContractError::NotWhiteList);
            }
        }
        Ok(())
    }

    /// The steps of a launch with `metadata`, in order.
    pub fn launch_steps(&self, metadata: &TokenMetadata) -> (r: Vec<LaunchStep>)
        ensures
            r@ == self.steps(*metadata),
    {
        let mut steps: Vec<LaunchStep> = Vec::new();
        steps.push(LaunchStep::CreateCurveTokenAccount);
        steps.push(
            LaunchStep::CreateMetadata {
                name: metadata.name.clone(),
                symbol: metadata.symbol.clone(),
                uri: metadata.uri.clone(),
                seller_fee_basis_points: 0,
                is_mutable: false,
                update_authority_is_signer: true,
            },
        );
        steps.push(LaunchStep::MintSupply { amount: self.token_total_supply });
        steps.push(LaunchStep::RevokeMintAuthority);
        steps.push(LaunchStep::FreezeCurveTokenAccount);
        assert(steps@ =~= self.steps(*metadata));
        steps
    }

    /// Checks a launch and returns its steps. The whitelist address is derived
    /// only when the whitelist is enabled and the program is initialized and
    /// running; where none can be derived the creator is not whitelisted.
    pub fn handler(&self, metadata: &TokenMetadata) -> (r: Result<Vec<LaunchStep>, ContractError>)
        ensures
            match self.launch_check(self.expected_whitelist()) {
                Ok(_) => r is Ok && r->Ok_0@ == self.steps(*metadata),
                Err(e) => r == Err::<Vec<LaunchStep>, ContractError>(e),
            },
    {
        if !self.global.initialized {
            return Err(ContractError::NotInitialized);
        }
        if !self.global.running {
            return Err(ContractError::ProgramNotRunning);
        }
        if self.global.whitelist_enabled {
            let found = try_find_program_address(
                self.whitelist_seed_prefix.as_slice(),
                &self.creator,
                &self.program_id,
            );
            let expected: Option<Pubkey> = match found {
                Some((address, _bump)) => Some(address),
                None => None,
            };
            match self.check_launch(expected) {
                Ok(()) => {},
                Err(e) => return Err(e),
            }
        }
        Ok(self.launch_steps(metadata))
    }
}

} // verus!
