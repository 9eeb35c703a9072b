use instapump::{
    initialize, set_params, Event, EventLog, Global, Initialize, ProgramError, Pubkey, SetParams,
    SetParamsEvent,
};

fn key(n: u8) -> Pubkey {
    Pubkey::new_from_array([n; 32])
}

fn claimed_by(authority: Pubkey) -> Global {
    Global { initialized: true, authority, ..Global::default() }
}

fn change_everything(accounts: &mut SetParams, log: &mut EventLog) -> Result<(), ProgramError> {
    set_params(
        accounts,
        log,
        key(11),
        key(12),
        key(13),
        1_073_000_000_000000,
        30_000_000000,
        793_100_000_000000,
        1_000_000_000_000000,
        100,
        20_000_000,
        50,
        500,
        1_000_000,
        2_000_000,
    )
}

#[test]
fn the_blank_configuration_is_unclaimed() {
    let global = Global::default();
    assert!(!global.initialized);
    assert_eq!(global.authority, Pubkey::default());
    assert_eq!(global.withdraw_authority, Pubkey::default());
    assert_eq!(global.fee_recipient, Pubkey::default());
    assert_eq!(global.initial_virtual_token_reserves, 0);
    assert_eq!(global.initial_virtual_sol_reserves, 0);
    assert_eq!(global.initial_real_token_reserves, 0);
    assert_eq!(global.token_total_supply, 0);
    assert_eq!(global.fee_basis_points, 0);
    assert_eq!(global.mint_fee_sol, 0);
    assert_eq!(global.trading_fee_creator_percent_sol, 0);
    assert_eq!(global.token_share_creator_percent, 0);
    assert_eq!(global.sol_share_first_buyer_after_raydium, 0);
    assert_eq!(global.sol_share_instapump_after_raydium, 0);
}

#[test]
fn the_stored_configuration_has_the_reserved_length() {
    assert_eq!(Global::LEN, 177);
}

#[test]
fn initialize_claims_the_configuration_for_the_caller() {
    let mut accounts = Initialize { global: Global::default(), user: key(1) };
    assert_eq!(initialize(&mut accounts), Ok(()));
    assert_eq!(accounts.global, claimed_by(key(1)));
    assert_eq!(accounts.user, key(1));
}

#[test]
fn initialize_keeps_what_else_the_record_holds() {
    let before = Global { fee_basis_points: 7, mint_fee_sol: 9, ..Global::default() };
    let mut accounts = Initialize { global: before, user: key(1) };
    assert_eq!(initialize(&mut accounts), Ok(()));
    assert_eq!(accounts.global, Global { initialized: true, authority: key(1), ..before });
}

#[test]
fn initialize_twice_is_refused() {
    let mut accounts = Initialize { global: Global::default(), user: key(1) };
    initialize(&mut accounts).unwrap();

    let mut again = Initialize { global: accounts.global, user: key(2) };
    assert_eq!(initialize(&mut again), Err(ProgramError::AlreadyInitialized));
    assert_eq!(again.global, claimed_by(key(1)));
    assert_eq!(again.user, key(2));

    let mut same = Initialize { global: accounts.global, user: key(1) };
    assert_eq!(initialize(&mut same), Err(ProgramError::AlreadyInitialized));
    assert_eq!(same.global, claimed_by(key(1)));
}

#[test]
fn set_params_by_the_authority_replaces_every_parameter() {
    let mut accounts = SetParams { global: claimed_by(key(1)), user: key(1) };
    let mut log = EventLog::new();
    assert_eq!(change_everything(&mut accounts, &mut log), Ok(()));
    assert_eq!(
        accounts.global,
        Global {
            initialized: true,
            authority: key(11),
            withdraw_authority: key(12),
            fee_recipient: key(13),
            initial_virtual_token_reserves: 1_073_000_000_000000,
            initial_virtual_sol_reserves: 30_000_000000,
            initial_real_token_reserves: 793_100_000_000000,
            token_total_supply: 1_000_000_000_000000,
            fee_basis_points: 100,
            mint_fee_sol: 20_000_000,
            trading_fee_creator_percent_sol: 50,
            token_share_creator_percent: 500,
            sol_share_first_buyer_after_raydium: 1_000_000,
            sol_share_instapump_after_raydium: 2_000_000,
        }
    );
    assert_eq!(accounts.user, key(1));
}

#[test]
fn set_params_records_the_change() {
    let mut accounts = SetParams { global: claimed_by(key(1)), user: key(1) };
    let mut log = EventLog::new();
    change_everything(&mut accounts, &mut log).unwrap();
    assert_eq!(
        log.entries(),
        &vec![Event::SetParams(SetParamsEvent {
            withdraw_authority: key(12),
            fee_recipient: key(13),
            initial_virtual_token_reserves: 1_073_000_000_000000,
            initial_virtual_sol_reserves: 30_000_000000,
            initial_real_token_reserves: 793_100_000_000000,
            token_total_supply: 1_000_000_000_000000,
            fee_basis_points: 100,
            mint_fee_sol: 20_000_000,
        })]
    );
}

#[test]
fn set_params_by_another_caller_is_refused() {
    let before = Global { fee_basis_points: 7, ..claimed_by(key(1)) };
    let mut accounts = SetParams { global: before, user: key(2) };
    let mut log = EventLog::new();
    assert_eq!(change_everything(&mut accounts, &mut log), Err(ProgramError::NotAuthorized));
    assert_eq!(accounts.global, before);
    assert_eq!(accounts.user, key(2));
    assert!(log.is_empty());
}

#[test]
fn set_params_by_a_caller_that_differs_in_one_byte_is_refused() {
    let mut bytes = [1u8; 32];
    bytes[31] = 2;
    let mut accounts = SetParams { global: claimed_by(key(1)), user: Pubkey::new_from_array(bytes) };
    let mut log = EventLog::new();
    assert_eq!(change_everything(&mut accounts, &mut log), Err(ProgramError::NotAuthorized));
    assert_eq!(accounts.global, claimed_by(key(1)));
}

#[test]
fn set_params_hands_the_authority_over() {
    let mut accounts = SetParams { global: claimed_by(key(1)), user: key(1) };
    let mut log = EventLog::new();
    change_everything(&mut accounts, &mut log).unwrap();

    let mut old_authority = SetParams { global: accounts.global, user: key(1) };
    assert_eq!(change_everything(&mut old_authority, &mut log), Err(ProgramError::NotAuthorized));
    let mut new_authority = SetParams { global: accounts.global, user: key(11) };
    assert_eq!(change_everything(&mut new_authority, &mut log), Ok(()));
    assert_eq!(log.len(), 2);
}

#[test]
fn set_params_on_an_unclaimed_configuration_is_refused() {
    let mut accounts = SetParams { global: Global::default(), user: Pubkey::default() };
    let mut log = EventLog::new();
    assert_eq!(change_everything(&mut accounts, &mut log), Err(ProgramError::NotInitialized));
    assert_eq!(accounts.global, Global::default());
    assert!(log.is_empty());

    let mut stranger = SetParams { global: Global::default(), user: key(1) };
    assert_eq!(change_everything(&mut stranger, &mut log), Err(ProgramError::NotAuthorized));
    assert_eq!(stranger.global, Global::default());
}

#[test]
fn set_params_works_once_the_configuration_is_claimed() {
    let mut claiming = Initialize { global: Global::default(), user: key(1) };
    initialize(&mut claiming).unwrap();
    let mut accounts = SetParams { global: claiming.global, user: key(1) };
    let mut log = EventLog::new();
    assert_eq!(change_everything(&mut accounts, &mut log), Ok(()));
    assert!(accounts.global.initialized);
}

#[test]
fn set_params_adds_to_the_end_of_the_trail() {
    let mut accounts = SetParams { global: claimed_by(key(1)), user: key(1) };
    let mut log = EventLog::new();
    set_params(&mut accounts, &mut log, key(1), key(2), key(3), 1, 2, 3, 4, 5, 6, 7, 8, 9, 10).unwrap();
    let first = log.get(0).cloned();
    set_params(&mut accounts, &mut log, key(1), key(2), key(3), 10, 20, 30, 40, 50, 60, 70, 80, 90, 100)
        .unwrap();
    assert_eq!(log.len(), 2);
    assert_eq!(log.get(0).cloned(), first);
    assert_eq!(
        log.get(1),
        Some(&Event::SetParams(SetParamsEvent {
            withdraw_authority: key(2),
            fee_recipient: key(3),
            initial_virtual_token_reserves: 10,
            initial_virtual_sol_reserves: 20,
            initial_real_token_reserves: 30,
            token_total_supply: 40,
            fee_basis_points: 50,
            mint_fee_sol: 60,
        }))
    );
    assert_eq!(accounts.global.trading_fee_creator_percent_sol, 70);
    assert_eq!(accounts.global.token_share_creator_percent, 80);
    assert_eq!(accounts.global.sol_share_first_buyer_after_raydium, 90);
    assert_eq!(accounts.global.sol_share_instapump_after_raydium, 100);
}
