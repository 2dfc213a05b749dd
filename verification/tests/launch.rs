use reelfun_contract::errors::ContractError;
use reelfun_contract::instructions::create_bonding_curve::{
    CreateBondingCurve, GlobalFlags, LaunchStep, TokenMetadata,
};
use reelfun_contract::pubkey::Pubkey;

fn key(b: u8) -> Pubkey {
    Pubkey::new_from_array([b; 32])
}

const PREFIX: &[u8] = b"whitelist";

fn pda(prefix: &[u8], creator: &Pubkey, program: &Pubkey) -> Pubkey {
    let (address, _) = anchor_lang::prelude::Pubkey::find_program_address(
        &[prefix, &creator.bytes],
        &anchor_lang::prelude::Pubkey::new_from_array(program.bytes),
    );
    Pubkey::new_from_array(address.to_bytes())
}

fn ctx(initialized: bool, running: bool, whitelist_enabled: bool, whitelist: Pubkey, empty: bool) -> CreateBondingCurve {
    CreateBondingCurve {
        creator: key(5),
        mint: key(6),
        global: GlobalFlags { initialized, running, whitelist_enabled },
        whitelist,
        whitelist_data_empty: empty,
        whitelist_seed_prefix: PREFIX.to_vec(),
        program_id: key(1),
        token_total_supply: 1_000_000_000,
    }
}

fn metadata() -> TokenMetadata {
    TokenMetadata { name: "Reel".to_string(), symbol: "REEL".to_string(), uri: "https://x/y.json".to_string() }
}

#[test]
fn launch_steps_in_order() {
    let steps = ctx(true, true, false, key(0), true).handler(&metadata()).unwrap();
    assert_eq!(steps.len(), 5);
    assert!(matches!(steps[0], LaunchStep::CreateCurveTokenAccount));
    match &steps[1] {
        LaunchStep::CreateMetadata { name, symbol, uri, seller_fee_basis_points, is_mutable, update_authority_is_signer } => {
            assert_eq!(name, "Reel");
            assert_eq!(symbol, "REEL");
            assert_eq!(uri, "https://x/y.json");
            assert_eq!(*seller_fee_basis_points, 0);
            assert!(!*is_mutable);
            assert!(*update_authority_is_signer);
        }
        _ => panic!("metadata step expected"),
    }
    assert!(matches!(steps[2], LaunchStep::MintSupply { amount: 1_000_000_000 }));
    assert!(matches!(steps[3], LaunchStep::RevokeMintAuthority));
    assert!(matches!(steps[4], LaunchStep::FreezeCurveTokenAccount));
}

#[test]
fn launch_needs_initialized_running_program() {
    assert_eq!(ctx(false, false, true, key(0), true).handler(&metadata()).unwrap_err(), ContractError::NotInitialized);
    assert_eq!(ctx(true, false, true, key(0), true).handler(&metadata()).unwrap_err(), ContractError::ProgramNotRunning);
}

#[test]
fn launch_with_whitelist_needs_derived_address() {
    let creator = key(5);
    let expected = pda(PREFIX, &creator, &key(1));
    // the derived address is neither the creator nor the program
    assert_ne!(expected, creator);
    assert_ne!(expected, key(1));
    assert!(ctx(true, true, true, expected, false).handler(&metadata()).is_ok());
    assert_eq!(ctx(true, true, true, creator, false).handler(&metadata()).unwrap_err(), ContractError::NotWhiteList);
    assert_eq!(ctx(true, true, true, key(1), false).handler(&metadata()).unwrap_err(), ContractError::NotWhiteList);
    assert_eq!(ctx(true, true, true, expected, true).handler(&metadata()).unwrap_err(), ContractError::NotWhiteList);
}

#[test]
fn check_launch_takes_the_derived_address() {
    let c = ctx(true, true, true, key(40), false);
    assert_eq!(c.check_launch(Some(key(40))), Ok(()));
    assert_eq!(c.check_launch(Some(key(41))), Err(ContractError::NotWhiteList));
    assert_eq!(c.check_launch(None), Err(ContractError::NotWhiteList));
    let c = ctx(true, true, false, key(40), true);
    assert_eq!(c.check_launch(None), Ok(()));
    assert_eq!(c.check_launch(Some(key(41))), Ok(()));
}

#[test]
fn validate_accepts_any_parameters() {
    assert_eq!(ctx(false, false, false, key(0), true).validate(&metadata()), Ok(()));
}

#[test]
fn launch_with_underivable_whitelist_address_is_refused() {
    // a seed longer than 32 bytes yields no address, so no entry can exist
    let mut c = ctx(true, true, true, key(0), false);
    c.whitelist_seed_prefix = vec![7u8; 33];
    assert_eq!(c.handler(&metadata()).unwrap_err(), ContractError::NotWhiteList);
    // without the whitelist the prefix is never used
    c.global.whitelist_enabled = false;
    assert!(c.handler(&metadata()).is_ok());
}
