use casino::address::{find_address, honeypot_seeds, keys_equal, u64_le_bytes, verify_address};
use casino::error::{ProcessError, RouletteError, UtilError};
use casino::processor::Processor;
use casino::state::{is_red, Guess, Honeypot, LockedGuess, RouletteGuess, Version, RNG};
use solana_program::pubkey::Pubkey;

fn honeypot(tick_size: u64, max_amount: u64, minimum_bank_size: u64) -> Honeypot {
    Honeypot {
        version: Version::HoneypotV1,
        honeypot_bump_seed: 255,
        vault_bump_seed: 255,
        owner: [7u8; 32],
        mint: [9u8; 32],
        tick_size,
        max_amount,
        minimum_bank_size,
    }
}

fn idle_record() -> LockedGuess {
    LockedGuess {
        version: Version::LockedGuessV1,
        bump_seed: 254,
        owner: [1u8; 32],
        vault: [2u8; 32],
        slot: 0,
        active: false,
        active_size: 0,
        guesses: [0u64; 64],
    }
}

fn stake(guess: Guess, amount: u64) -> RouletteGuess {
    RouletteGuess { guess, amount }
}

fn roulette_err(e: RouletteError) -> ProcessError {
    ProcessError::Roulette(e)
}

#[test]
fn commit_red_stake_debits_player() {
    let hp = honeypot(1, 1000, 10);
    let mut rec = idle_record();
    let r = rec.commit(&hp, &vec![stake(Guess::Red, 100)], 500, 42);
    assert_eq!(r, Ok(100));
    assert!(rec.active);
    assert_eq!(rec.active_size, 100);
    assert_eq!(rec.slot, 42);
    assert_eq!(rec.guesses[38], 100);
}

#[test]
fn resolve_red_win_pays_double() {
    let hp = honeypot(1, 1000, 10);
    let mut rec = idle_record();
    assert_eq!(rec.commit(&hp, &vec![stake(Guess::Red, 100)], 500, 42), Ok(100));
    let r = rec.resolve(hp.tick_size, 5, 43, 10);
    assert_eq!(r, Ok(200));
    assert!(!rec.active);
    assert_eq!(rec.active_size, 0);
    assert!(rec.guesses.iter().all(|&g| g == 0));
}

#[test]
fn resolve_zero_outcome_pays_nothing() {
    let hp = honeypot(1, 1000, 10);
    let mut rec = idle_record();
    assert_eq!(rec.commit(&hp, &vec![stake(Guess::Red, 100)], 500, 42), Ok(100));
    assert_eq!(rec.resolve(hp.tick_size, 0, 43, 10), Ok(0));
    assert!(!rec.active);
    assert_eq!(rec.active_size, 0);
    assert!(rec.guesses.iter().all(|&g| g == 0));
}

#[test]
fn resolve_sample_is_taken_modulo_38() {
    let hp = honeypot(3, 100_000, 10);
    let mut rec = idle_record();
    assert_eq!(rec.commit(&hp, &vec![stake(Guess::R5, 10), stake(Guess::Odd, 4)], 500, 1), Ok(42));
    // 38 * 7 + 5 lands on pocket 5: straight up and odd both win.
    assert_eq!(rec.resolve(hp.tick_size, 38 * 7 + 5, 2, 5), Ok((10 * 36 + 4 * 2) * 3));
}

#[test]
fn commit_over_cap_is_refused() {
    let hp = honeypot(1, 1000, 10);
    let mut rec = idle_record();
    let before = rec;
    let r = rec.commit(&hp, &vec![stake(Guess::Red, 700), stake(Guess::Black, 500)], 5000, 42);
    assert_eq!(r, Err(roulette_err(RouletteError::AmountTooLarge)));
    assert!(!rec.active);
    assert_eq!(rec.guesses, before.guesses);
}

#[test]
fn commit_tick_size_scales_the_cap() {
    let hp = honeypot(10, 1000, 10);
    let mut rec = idle_record();
    assert_eq!(
        rec.commit(&hp, &vec![stake(Guess::Low, 101)], 5000, 1),
        Err(roulette_err(RouletteError::AmountTooLarge))
    );
    assert_eq!(rec.commit(&hp, &vec![stake(Guess::Low, 100)], 5000, 1), Ok(1000));
    assert_eq!(rec.active_size, 1000);
}

#[test]
fn commit_against_drained_vault_is_refused() {
    let hp = honeypot(1, 1000, 10);
    let mut rec = idle_record();
    assert_eq!(
        rec.commit(&hp, &vec![stake(Guess::Red, 100)], 10, 42),
        Err(ProcessError::InsufficientFunds)
    );
    assert!(!rec.active);
    assert_eq!(rec.commit(&hp, &vec![stake(Guess::Red, 100)], 11, 42), Ok(100));
}

#[test]
fn commit_while_active_is_refused() {
    let hp = honeypot(1, 1000, 10);
    let mut rec = idle_record();
    assert_eq!(rec.commit(&hp, &vec![stake(Guess::Even, 5)], 500, 1), Ok(5));
    assert_eq!(
        rec.commit(&hp, &vec![stake(Guess::Odd, 5)], 500, 2),
        Err(roulette_err(RouletteError::ActiveSpin))
    );
    assert_eq!(rec.guesses[40], 5);
    assert_eq!(rec.guesses[41], 0);
}

#[test]
fn commit_overflowing_sum_is_refused() {
    let hp = honeypot(1, u64::MAX, 0);
    let mut rec = idle_record();
    assert_eq!(
        rec.commit(&hp, &vec![stake(Guess::Red, u64::MAX), stake(Guess::Black, 1)], 500, 1),
        Err(roulette_err(RouletteError::NumericalOverflow))
    );
    let hp2 = honeypot(2, u64::MAX, 0);
    assert_eq!(
        rec.commit(&hp2, &vec![stake(Guess::Red, u64::MAX / 2 + 1)], 500, 1),
        Err(roulette_err(RouletteError::NumericalOverflow))
    );
    assert!(!rec.active);
}

#[test]
fn commit_repeated_category_adds_up() {
    let hp = honeypot(1, 1000, 10);
    let mut rec = idle_record();
    assert_eq!(rec.commit(&hp, &vec![stake(Guess::Col2, 3), stake(Guess::Col2, 4)], 500, 1), Ok(7));
    assert_eq!(rec.guesses[43], 7);
    assert_eq!(rec.active_size, rec.guesses.iter().sum::<u64>() * hp.tick_size);
}

#[test]
fn repeated_red_stakes_all_count_at_resolution() {
    let hp = honeypot(1, 1000, 10);
    let mut rec = idle_record();
    assert_eq!(rec.commit(&hp, &vec![stake(Guess::Red, 1), stake(Guess::Red, 1)], 500, 1), Ok(2));
    assert_eq!(rec.guesses[38], 2);
    assert_eq!(rec.active_size, 2);
    assert_eq!(rec.resolve(hp.tick_size, 5, 2, 5), Ok(4));
}

#[test]
fn commit_starts_from_an_empty_table() {
    let hp = honeypot(2, 1000, 10);
    let mut rec = idle_record();
    rec.guesses[0] = 9;
    assert_eq!(rec.commit(&hp, &vec![stake(Guess::High, 5)], 500, 1), Ok(10));
    assert_eq!(rec.guesses[0], 0);
    assert_eq!(rec.guesses[49], 5);
    assert_eq!(rec.active_size, rec.guesses.iter().sum::<u64>() * hp.tick_size);
}

#[test]
fn resolve_window_bounds() {
    let hp = honeypot(1, 1000, 10);
    let mut rec = idle_record();
    assert_eq!(rec.commit(&hp, &vec![stake(Guess::Red, 1)], 500, 100), Ok(1));
    let committed = rec;
    assert_eq!(rec.resolve(1, 5, 100, 10), Err(roulette_err(RouletteError::InvalidSlot)));
    assert_eq!(rec.resolve(1, 5, 99, 10), Err(roulette_err(RouletteError::InvalidSlot)));
    assert_eq!(rec.resolve(1, 5, 111, 10), Err(roulette_err(RouletteError::InvalidSlot)));
    assert!(rec.active);
    assert_eq!(rec.guesses, committed.guesses);
    assert_eq!(rec.resolve(1, 5, 110, 10), Ok(2));
}

#[test]
fn resolve_deadline_overflow_is_refused() {
    let hp = honeypot(1, 1000, 10);
    let mut rec = idle_record();
    assert_eq!(rec.commit(&hp, &vec![stake(Guess::Red, 1)], 500, 100), Ok(1));
    assert_eq!(
        rec.resolve(1, 5, 101, u64::MAX),
        Err(roulette_err(RouletteError::NumericalOverflow))
    );
}

#[test]
fn resolve_idle_record_is_refused() {
    let mut rec = idle_record();
    assert_eq!(rec.resolve(1, 5, 101, 10), Err(roulette_err(RouletteError::Inactive)));
}

#[test]
fn resolve_reward_overflow_is_refused() {
    let hp = honeypot(1, u64::MAX, 0);
    let mut rec = idle_record();
    assert_eq!(rec.commit(&hp, &vec![stake(Guess::R5, u64::MAX / 10)], 500, 1), Ok(u64::MAX / 10));
    assert_eq!(rec.resolve(1, 5, 2, 5), Err(roulette_err(RouletteError::NumericalOverflow)));
    assert!(rec.active);
}

#[test]
fn resolve_stake_outside_categories_is_refused() {
    let mut rec = idle_record();
    rec.active = true;
    rec.active_size = 1;
    rec.slot = 1;
    rec.guesses[55] = 1;
    assert_eq!(rec.resolve(1, 5, 2, 5), Err(ProcessError::InvalidAccountData));
}

#[test]
fn cancel_idle_record_changes_nothing() {
    let mut rec = idle_record();
    let before = rec;
    assert_eq!(rec.cancel(), None);
    assert_eq!(rec.active, before.active);
    assert_eq!(rec.active_size, before.active_size);
    assert_eq!(rec.slot, before.slot);
    assert_eq!(rec.guesses, before.guesses);
}

#[test]
fn cancel_refunds_committed_stake() {
    let hp = honeypot(2, 1000, 10);
    let mut rec = idle_record();
    assert_eq!(rec.commit(&hp, &vec![stake(Guess::Dozen3, 50)], 500, 7), Ok(100));
    assert_eq!(rec.cancel(), Some(100));
    assert!(!rec.active);
    assert_eq!(rec.active_size, 0);
    assert!(rec.guesses.iter().all(|&g| g == 0));
}

#[test]
fn straight_up_pays_only_its_pocket() {
    for i in 0u8..38 {
        let g = Guess::from_index(i).unwrap();
        let pocket = if i == 0 { 0 } else if i == 1 { 37 } else { (i - 1) as u64 };
        for outcome in 0u64..38 {
            let expected = if outcome == pocket { 36 * 5 } else { 0 };
            assert_eq!(stake(g, 5).get_payout(outcome), expected);
        }
    }
}

#[test]
fn red_and_black_payouts() {
    let reds = [1u64, 3, 5, 7, 9, 12, 14, 16, 18, 19, 21, 23, 25, 27, 30, 32, 34, 36];
    for outcome in 0u64..38 {
        let red = reds.contains(&outcome);
        assert_eq!(is_red(outcome), red);
        let zero = outcome == 0 || outcome == 37;
        assert_eq!(stake(Guess::Red, 10).get_payout(outcome), if red && !zero { 20 } else { 0 });
        assert_eq!(stake(Guess::Black, 10).get_payout(outcome), if !red && !zero { 20 } else { 0 });
    }
}

#[test]
fn even_odd_payouts() {
    assert_eq!(stake(Guess::Even, 10).get_payout(0), 0);
    assert_eq!(stake(Guess::Even, 10).get_payout(2), 20);
    assert_eq!(stake(Guess::Even, 10).get_payout(3), 0);
    assert_eq!(stake(Guess::Odd, 10).get_payout(37), 0);
    assert_eq!(stake(Guess::Odd, 10).get_payout(35), 20);
    assert_eq!(stake(Guess::Odd, 10).get_payout(36), 0);
}

#[test]
fn column_payouts_keep_their_edge_cases() {
    assert_eq!(stake(Guess::Col1, 10).get_payout(1), 30);
    assert_eq!(stake(Guess::Col1, 10).get_payout(37), 0);
    assert_eq!(stake(Guess::Col1, 10).get_payout(0), 0);
    assert_eq!(stake(Guess::Col2, 10).get_payout(2), 30);
    assert_eq!(stake(Guess::Col2, 10).get_payout(35), 30);
    assert_eq!(stake(Guess::Col3, 10).get_payout(0), 0);
    assert_eq!(stake(Guess::Col3, 10).get_payout(36), 30);
}

#[test]
fn dozen_and_half_payouts() {
    assert_eq!(stake(Guess::Dozen1, 10).get_payout(0), 0);
    assert_eq!(stake(Guess::Dozen1, 10).get_payout(12), 30);
    assert_eq!(stake(Guess::Dozen2, 10).get_payout(13), 30);
    assert_eq!(stake(Guess::Dozen2, 10).get_payout(25), 0);
    assert_eq!(stake(Guess::Dozen3, 10).get_payout(36), 30);
    assert_eq!(stake(Guess::Dozen3, 10).get_payout(37), 0);
    assert_eq!(stake(Guess::Low, 10).get_payout(18), 20);
    assert_eq!(stake(Guess::Low, 10).get_payout(0), 0);
    assert_eq!(stake(Guess::High, 10).get_payout(19), 20);
    assert_eq!(stake(Guess::High, 10).get_payout(37), 0);
}

#[test]
fn checked_payout_reports_overflow() {
    assert_eq!(stake(Guess::Zero, u64::MAX).checked_payout(0), None);
    assert_eq!(stake(Guess::Zero, u64::MAX).checked_payout(1), Some(0));
    assert_eq!(stake(Guess::High, 4).checked_payout(20), Some(8));
}

#[test]
fn category_ordinals_round_trip() {
    for i in 0u8..50 {
        assert_eq!(Guess::from_index(i).unwrap().index(), i);
    }
    assert_eq!(Guess::from_index(50), None);
    assert_eq!(Guess::Red.index(), 38);
    assert_eq!(Guess::High.index(), 49);
}

#[test]
fn little_endian_bytes() {
    assert_eq!(u64_le_bytes(0x0102030405060708), vec![8, 7, 6, 5, 4, 3, 2, 1]);
    assert_eq!(u64_le_bytes(1), 1u64.to_le_bytes().to_vec());
}

#[test]
fn keys_compare_bytewise() {
    let mut b = [3u8; 32];
    assert!(keys_equal(&[3u8; 32], &b));
    b[31] = 4;
    assert!(!keys_equal(&[3u8; 32], &b));
    assert_eq!(Processor::assert_keys_equal(&[3u8; 32], &b), Err(UtilError::PublicKeyMismatch));
}

fn program_id() -> [u8; 32] {
    [17u8; 32]
}

fn pool_keys(mint: &[u8; 32], tick: u64, max: u64, min: u64) -> ([u8; 32], [u8; 32]) {
    let pid = Pubkey::new_from_array(program_id());
    let m = Pubkey::new_from_array(*mint);
    let (hk, _) = Pubkey::find_program_address(
        &[b"honeypot", m.as_ref(), &tick.to_le_bytes(), &max.to_le_bytes(), &min.to_le_bytes()],
        &pid,
    );
    let (vk, _) = Pubkey::find_program_address(
        &[b"vault", m.as_ref(), &tick.to_le_bytes(), &max.to_le_bytes(), &min.to_le_bytes()],
        &pid,
    );
    (hk.to_bytes(), vk.to_bytes())
}

#[test]
fn derivation_matches_solana() {
    let mint = [9u8; 32];
    let (hk, _) = pool_keys(&mint, 1, 1000, 10);
    let seeds = honeypot_seeds(&mint, 1, 1000, 10);
    let (k, b) = find_address(&seeds, &program_id()).unwrap();
    assert_eq!(k, hk);
    assert_ne!(k, program_id());
    assert!(verify_address(seeds.clone(), b, &program_id(), &hk));
    assert!(!verify_address(seeds, b, &program_id(), &mint));
}

#[test]
fn honeypot_lifecycle_through_processor() {
    let mint = [9u8; 32];
    let owner = [7u8; 32];
    let gambler = [5u8; 32];
    let (hk, vk) = pool_keys(&mint, 1, 1000, 10);
    let hp = Processor::initialize_honeypot(&program_id(), &mint, &owner, &hk, &vk, 1, 1000, 10)
        .unwrap();
    assert_eq!(hp.version, Version::HoneypotV1);
    assert_eq!(hp.owner, owner);
    assert_eq!(Processor::check_pool(&program_id(), &hp, &mint, &hk, &vk), Ok(()));
    assert_eq!(
        Processor::initialize_honeypot(&program_id(), &mint, &owner, &vk, &hk, 1, 1000, 10).err(),
        Some(ProcessError::Util(UtilError::PublicKeyMismatch))
    );
    let (gk, _) = Pubkey::find_program_address(
        &[b"guess_account", &gambler, &vk],
        &Pubkey::new_from_array(program_id()),
    );
    let gk = gk.to_bytes();
    let mut rec =
        Processor::initialize_guess_account(&program_id(), &hp, &mint, &gambler, &hk, &vk, &gk)
            .unwrap();
    assert!(!rec.active);
    assert_eq!(rec.vault, vk);
    let r = Processor::place_guesses(
        &program_id(), &hp, &mint, &hk, &vk, &mut rec, &vec![stake(Guess::Red, 100)], 500, 3,
    );
    assert_eq!(r, Ok(100));
    let mut rng = RNG { version: Version::Uninitalized, value: 0, slot: 0 };
    let bundled = Processor::spin(
        &program_id(), &hp, &mint, &gambler, &hk, &vk, &gk, &mut rec, &mut rng, 5, 4, 10, 0, 0,
    );
    assert_eq!(bundled, Err(ProcessError::Roulette(RouletteError::SuspiciousTransaction)));
    assert!(rec.active);
    let won = Processor::spin(
        &program_id(), &hp, &mint, &gambler, &hk, &vk, &gk, &mut rec, &mut rng, 5, 4, 10, 0, 1,
    );
    assert_eq!(won, Ok(200));
    assert_eq!(rng.version, Version::RNGV1);
    assert_eq!(rng.value, 5);
    assert_eq!(rng.slot, 4);
    assert_eq!(
        Processor::try_cancel(&program_id(), &hp, &mint, &gambler, &hk, &vk, &gk, &mut rec),
        Ok(None)
    );
    assert_eq!(
        Processor::withdraw_from_honeypot(&program_id(), &hp, &mint, &owner, true, &hk, &vk, 50),
        Ok(50)
    );
    assert_eq!(
        Processor::withdraw_from_honeypot(&program_id(), &hp, &mint, &owner, false, &hk, &vk, 50),
        Err(ProcessError::MissingRequiredSignature)
    );
    assert_eq!(
        Processor::withdraw_from_honeypot(&program_id(), &hp, &mint, &gambler, true, &hk, &vk, 50),
        Err(ProcessError::Util(UtilError::PublicKeyMismatch))
    );
}

#[test]
fn place_guesses_on_wrong_vault_is_refused() {
    let mint = [9u8; 32];
    let (hk, vk) = pool_keys(&mint, 1, 1000, 10);
    let hp = Processor::initialize_honeypot(&program_id(), &mint, &[7u8; 32], &hk, &vk, 1, 1000, 10)
        .unwrap();
    let mut rec = idle_record();
    let r = Processor::place_guesses(
        &program_id(), &hp, &mint, &hk, &vk, &mut rec, &vec![stake(Guess::Red, 1)], 500, 3,
    );
    assert_eq!(r, Err(ProcessError::Util(UtilError::PublicKeyMismatch)));
    assert!(!rec.active);
}

#[test]
fn cancel_through_processor_refunds() {
    let mint = [9u8; 32];
    let gambler = [5u8; 32];
    let (hk, vk) = pool_keys(&mint, 2, 1000, 10);
    let hp = Processor::initialize_honeypot(&program_id(), &mint, &[7u8; 32], &hk, &vk, 2, 1000, 10)
        .unwrap();
    let (gk, _) = Pubkey::find_program_address(
        &[b"guess_account", &gambler, &vk],
        &Pubkey::new_from_array(program_id()),
    );
    let gk = gk.to_bytes();
    let mut rec =
        Processor::initialize_guess_account(&program_id(), &hp, &mint, &gambler, &hk, &vk, &gk)
            .unwrap();
    let r = Processor::place_guesses(
        &program_id(), &hp, &mint, &hk, &vk, &mut rec, &vec![stake(Guess::Zero, 4)], 500, 3,
    );
    assert_eq!(r, Ok(8));
    assert_eq!(
        Processor::try_cancel(&program_id(), &hp, &mint, &gambler, &hk, &hk, &gk, &mut rec),
        Err(ProcessError::Util(UtilError::PublicKeyMismatch))
    );
    assert_eq!(
        Processor::try_cancel(&program_id(), &hp, &mint, &gambler, &hk, &vk, &gk, &mut rec),
        Ok(Some(8))
    );
    assert!(!rec.active);
}

#[test]
fn sample_cache_initialization() {
    let payer = [4u8; 32];
    let (k, b) = Pubkey::find_program_address(
        &[b"random", &payer, &program_id()],
        &Pubkey::new_from_array(program_id()),
    );
    let seeds = Processor::initialize(&program_id(), &payer, &k.to_bytes(), true).unwrap();
    assert_eq!(seeds.len(), 4);
    assert_eq!(seeds[0], b"random".to_vec());
    assert_eq!(seeds[3], vec![b]);
    assert_eq!(
        Processor::initialize(&program_id(), &payer, &k.to_bytes(), false),
        Err(ProcessError::AccountAlreadyInitialized)
    );
    assert_eq!(
        Processor::initialize(&program_id(), &payer, &payer, true),
        Err(ProcessError::InvalidArgument)
    );
    let mut rng = RNG { version: Version::RNGV1, value: 1, slot: 1 };
    Processor::sample(&mut rng, 99, 12);
    assert_eq!(rng.version, Version::RNGV1);
    assert_eq!(rng.value, 99);
    assert_eq!(rng.slot, 12);
}

#[test]
fn signer_seeds_end_with_the_nonce() {
    let hp = honeypot(1, 1000, 10);
    let s = Processor::honeypot_signer_seeds(&hp);
    assert_eq!(s.len(), 6);
    assert_eq!(s[0], b"honeypot".to_vec());
    assert_eq!(s[2], 1u64.to_le_bytes().to_vec());
    assert_eq!(s[5], vec![255]);
    let v = Processor::vault_signer_seeds(&hp);
    assert_eq!(v[0], b"vault".to_vec());
    let g = Processor::guess_account_signer_seeds(&[1u8; 32], &[2u8; 32], 9);
    assert_eq!(g, vec![b"guess_account".to_vec(), vec![1u8; 32], vec![2u8; 32], vec![9]]);
}
