use crate::address::{
    find_address, guess_account_seed_seq, guess_account_seeds, honeypot_seeds, honeypot_tag,
    keys_equal, pool_seed_seq, program_address, found_program_address, rng_seed_seq, rng_seeds,
    signer_seeds, vault_seeds, vault_tag, verify_address, with_bump,
};
use crate::error::{ProcessError, RouletteError, UtilError};
use crate::state::{Honeypot, LockedGuess, RouletteGuess, Version, RNG};
use crate::wager::{committed, lemma_table_sum_zero, resolved};
use vstd::prelude::*;

verus! {

/// The decisions of each instruction of the program, on plain values: the
/// caller reads the accounts, hands over what they hold, and performs the
/// transfer or write that the result names.
pub struct Processor;

/// The canonical derivation from `seeds` exists and is `key`.
pub open spec fn derives_to(seeds: Seq<Seq<u8>>, program_id: Seq<u8>, key: Seq<u8>) -> bool {
    match found_program_address(seeds, program_id) {
        Some((k, _)) => k == key,
        None => false,
    }
}

/// The nonce of the canonical derivation from `seeds`, when it exists.
pub open spec fn canonical_bump(seeds: Seq<Seq<u8>>, program_id: Seq<u8>) -> Option<u8> {
    match found_program_address(seeds, program_id) {
        Some((_, b)) => Some(b),
        None => None,
    }
}

/// The seeds of a reserve's configuration record.
pub open spec fn honeypot_seed_seq(hp: Honeypot, mint: Seq<u8>) -> Seq<Seq<u8>> {
    pool_seed_seq(honeypot_tag(), mint, hp.tick_size, hp.max_amount, hp.minimum_bank_size)
}

/// The seeds of a reserve's vault.
pub open spec fn vault_seed_seq(hp: Honeypot, mint: Seq<u8>) -> Seq<Seq<u8>> {
    pool_seed_seq(vault_tag(), mint, hp.tick_size, hp.max_amount, hp.minimum_bank_size)
}

/// Both of the reserve's addresses re-derive from its configuration and
/// nonces.
pub open spec fn pool_verified(
    program_id: Seq<u8>,
    hp: Honeypot,
    mint: Seq<u8>,
    honeypot_key: Seq<u8>,
    vault_key: Seq<u8>,
) -> bool {
    &&& program_address(with_bump(honeypot_seed_seq(hp, mint), hp.honeypot_bump_seed), program_id)
        == Some(honeypot_key)
    &&& program_address(with_bump(vault_seed_seq(hp, mint), hp.vault_bump_seed), program_id)
        == Some(vault_key)
}

/// The wager record names the vault and sits at the address derived for
/// the player on that vault.
pub open spec fn record_verified(
    program_id: Seq<u8>,
    rec: LockedGuess,
    gambler: Seq<u8>,
    vault_key: Seq<u8>,
    guess_key: Seq<u8>,
) -> bool {
    &&& rec.vault@ == vault_key
    &&& program_address(
        with_bump(guess_account_seed_seq(gambler, vault_key), rec.bump_seed),
        program_id,
    ) == Some(guess_key)
}

/// The bundling guard as the program states it: the current index is below
/// the instruction count minus one (wrapping), and the count is zero.
pub open spec fn bundling_rejected(current: u16, count: u16) -> bool {
    count == 0 && current < u16::MAX
}

/// A cache after recording `value` sampled at `slot`.
pub open spec fn sampled(old_rng: RNG, new_rng: RNG, value: u64, slot: u64) -> bool {
    &&& new_rng.version == (if old_rng.version == Version::Uninitalized {
        Version::RNGV1
    } else {
        old_rng.version
    })
    &&& new_rng.value == value
    &&& new_rng.slot == slot
}

impl Processor {
    /// Whether two addresses are the same, as an account check.
    pub fn assert_keys_equal(a: &[u8; 32], b: &[u8; 32]) -> (r: Result<(), UtilError>)
        ensures
            r is Ok <==> a@ == b@,
            r is Err ==> r == Err::<(), UtilError>(UtilError::PublicKeyMismatch),
    {
        if keys_equal(a, b) {
            Ok(())
        } else {
            Err(UtilError::PublicKeyMismatch)
        }
    }

    /// The reserve's two addresses re-derive from its configuration.
    pub fn check_pool(
        program_id: &[u8; 32],
        honeypot: &Honeypot,
        mint: &[u8; 32],
        honeypot_key: &[u8; 32],
        vault_key: &[u8; 32],
    ) -> (r: Result<(), ProcessError>)
        ensures
            r is Ok <==> pool_verified(program_id@, *honeypot, mint@, honeypot_key@, vault_key@),
            r is Err ==> r == Err::<(), ProcessError>(ProcessError::Util(UtilError::PublicKeyMismatch)),
    {
        let hs = honeypot_seeds(
            mint,
            honeypot.tick_size,
            honeypot.max_amount,
            honeypot.minimum_bank_size,
        );
        if !verify_address(hs, honeypot.honeypot_bump_seed, program_id, honeypot_key) {
            return Err(ProcessError::Util(UtilError::PublicKeyMismatch));
        }
        let vs = vault_seeds(mint, honeypot.tick_size, honeypot.max_amount, honeypot.minimum_bank_size);
        if !verify_address(vs, honeypot.vault_bump_seed, program_id, vault_key) {
            return Err(ProcessError::Util(UtilError::PublicKeyMismatch));
        }
        Ok(())
    }

    /// The wager record names the vault and sits at its derived address.
    pub fn check_record(
        program_id: &[u8; 32],
        record: &LockedGuess,
        gambler: &[u8; 32],
        vault_key: &[u8; 32],
        guess_key: &[u8; 32],
    ) -> (r: Result<(), ProcessError>)
        ensures
            r is Ok <==> record_verified(program_id@, *record, gambler@, vault_key@, guess_key@),
            r is Err ==> r == Err::<(), ProcessError>(ProcessError::Util(UtilError::PublicKeyMismatch)),
    {
        if !keys_equal(&record.vault, vault_key) {
            return Err(ProcessError::Util(UtilError::PublicKeyMismatch));
        }
        let gs = guess_account_seeds(gambler, vault_key);
        if !verify_address(gs, record.bump_seed, program_id, guess_key) {
            return Err(ProcessError::Util(UtilError::PublicKeyMismatch));
        }
        Ok(())
    }

    /// Creation of a requester's sample cache: the account must be empty and
    /// sit at the address derived for the payer; returns the seeds that sign
    /// for it.
    pub fn initialize(
        program_id: &[u8; 32],
        payer: &[u8; 32],
        rng_key: &[u8; 32],
        data_is_empty: bool,
    ) -> (r: Result<Vec<Vec<u8>>, ProcessError>)
        ensures
            !data_is_empty ==> r == Err::<Vec<Vec<u8>>, ProcessError>(
                ProcessError::AccountAlreadyInitialized,
            ),
            data_is_empty ==> (r is Ok <==> derives_to(
                rng_seed_seq(payer@, program_id@),
                program_id@,
                rng_key@,
            )),
            data_is_empty && r is Err ==> r == Err::<Vec<Vec<u8>>, ProcessError>(
                ProcessError::InvalidArgument,
            ),
            r matches Ok(s) ==> canonical_bump(rng_seed_seq(payer@, program_id@), program_id@)
                matches Some(b) ==> s.deep_view() == with_bump(rng_seed_seq(payer@, program_id@), b),
    {
        if !data_is_empty {
            return Err(ProcessError::AccountAlreadyInitialized);
        }
        let seeds = rng_seeds(payer, program_id);
        match find_address(&seeds, program_id) {
            Some((k, b)) => {
                if keys_equal(&k, rng_key) {
                    Ok(signer_seeds(seeds, b))
                } else {
                    Err(ProcessError::InvalidArgument)
                }
            },
            None => Err(ProcessError::InvalidArgument),
        }
    }

    /// Records a sampled value and its step in a sample cache.
    pub fn sample(rng: &mut RNG, value: u64, slot: u64)
        ensures
            sampled(*old(rng), *final(rng), value, slot),
    {
        if rng.version == Version::Uninitalized {
            rng.version = Version::RNGV1;
        }
        rng.value = value;
        rng.slot = slot;
    }

    /// Creation of a reserve: both supplied addresses must be the canonical
    /// derivations from the configuration; returns the configuration record.
    pub fn initialize_honeypot(
        program_id: &[u8; 32],
        mint: &[u8; 32],
        owner: &[u8; 32],
        honeypot_key: &[u8; 32],
        vault_key: &[u8; 32],
        tick_size: u64,
        max_amount: u64,
        minimum_bank_size: u64,
    ) -> (r: Result<Honeypot, ProcessError>)
        ensures
            r is Ok <==> {
                &&& derives_to(
                    pool_seed_seq(honeypot_tag(), mint@, tick_size, max_amount, minimum_bank_size),
                    program_id@,
                    honeypot_key@,
                )
                &&& derives_to(
                    pool_seed_seq(vault_tag(), mint@, tick_size, max_amount, minimum_bank_size),
                    program_id@,
                    vault_key@,
                )
            },
            r is Err ==> r == Err::<Honeypot, ProcessError>(ProcessError::Util(UtilError::PublicKeyMismatch)),
            r matches Ok(h) ==> {
                &&& canonical_bump(
                    pool_seed_seq(honeypot_tag(), mint@, tick_size, max_amount, minimum_bank_size),
                    program_id@,
                ) == Some(h.honeypot_bump_seed)
                &&& canonical_bump(
                    pool_seed_seq(vault_tag(), mint@, tick_size, max_amount, minimum_bank_size),
                    program_id@,
                ) == Some(h.vault_bump_seed)
                &&& h.version == Version::HoneypotV1
                &&& h.owner == *owner
                &&& h.mint == *mint
                &&& h.tick_size == tick_size
                &&& h.max_amount == max_amount
                &&& h.minimum_bank_size == minimum_bank_size
                &&& pool_verified(program_id@, h, mint@, honeypot_key@, vault_key@)
            },
    {
        let hs = honeypot_seeds(mint, tick_size, max_amount, minimum_bank_size);
        let (hk, hb) = match find_address(&hs, program_id) {
            Some(found) => found,
            None => {
                return Err(ProcessError::Util(UtilError::PublicKeyMismatch));
            },
        };
        let vs = vault_seeds(mint, tick_size, max_amount, minimum_bank_size);
        let (vk, vb) = match find_address(&vs, program_id) {
            Some(found) => found,
            None => {
                return Err(ProcessError::Util(UtilError::PublicKeyMismatch));
            },
        };
        if !keys_equal(&hk, honeypot_key) || !keys_equal(&vk, vault_key) {
            return Err(ProcessError::Util(UtilError::PublicKeyMismatch));
        }
        Ok(
            Honeypot {
                version: Version::HoneypotV1,
                honeypot_bump_seed: hb,
                vault_bump_seed: vb,
                owner: *owner,
                mint: *mint,
                tick_size,
                max_amount,
                minimum_bank_size,
            },
        )
    }

    /// The seeds that sign for a reserve's configuration address, which holds
    /// the authority over its vault.
    pub fn honeypot_signer_seeds(honeypot: &Honeypot) -> (r: Vec<Vec<u8>>)
        ensures
            r.deep_view() == with_bump(
                honeypot_seed_seq(*honeypot, honeypot.mint@),
                honeypot.honeypot_bump_seed,
            ),
    {
        let hs = honeypot_seeds(
            &honeypot.mint,
            honeypot.tick_size,
            honeypot.max_amount,
            honeypot.minimum_bank_size,
        );
        signer_seeds(hs, honeypot.honeypot_bump_seed)
    }

    /// The seeds that sign for a reserve's vault address.
    pub fn vault_signer_seeds(honeypot: &Honeypot) -> (r: Vec<Vec<u8>>)
        ensures
            r.deep_view() == with_bump(
                vault_seed_seq(*honeypot, honeypot.mint@),
                honeypot.vault_bump_seed,
            ),
    {
        let vs = vault_seeds(
            &honeypot.mint,
            honeypot.tick_size,
            honeypot.max_amount,
            honeypot.minimum_bank_size,
        );
        signer_seeds(vs, honeypot.vault_bump_seed)
    }

    /// The seeds that sign for a player's wager record.
    pub fn guess_account_signer_seeds(gambler: &[u8; 32], vault: &[u8; 32], bump: u8) -> (r: Vec<
        Vec<u8>,
    >)
        ensures
            r.deep_view() == with_bump(guess_account_seed_seq(gambler@, vault@), bump),
    {
        signer_seeds(guess_account_seeds(gambler, vault), bump)
    }

    /// A withdrawal by the reserve's owner: it must sign, be the configured
    /// owner, name the configured denomination, and both reserve addresses
    /// must re-derive; returns the amount to move from the vault to the owner.
    pub fn withdraw_from_honeypot(
        program_id: &[u8; 32],
        honeypot: &Honeypot,
        mint: &[u8; 32],
        owner: &[u8; 32],
        owner_is_signer: bool,
        honeypot_key: &[u8; 32],
        vault_key: &[u8; 32],
        amount_to_withdraw: u64,
    ) -> (r: Result<u64, ProcessError>)
        ensures
            !owner_is_signer ==> r == Err::<u64, ProcessError>(
                ProcessError::MissingRequiredSignature,
            ),
            owner_is_signer ==> (r is Ok <==> honeypot.owner@ == owner@ && honeypot.mint@ == mint@
                && pool_verified(program_id@, *honeypot, mint@, honeypot_key@, vault_key@)),
            owner_is_signer && r is Err ==> r == Err::<u64, ProcessError>(ProcessError::Util(UtilError::PublicKeyMismatch)),
            r is Ok ==> r == Ok::<u64, ProcessError>(amount_to_withdraw),
    {
        if !owner_is_signer {
            return Err(ProcessError::MissingRequiredSignature);
        }
        if !keys_equal(&honeypot.owner, owner) || !keys_equal(&honeypot.mint, mint) {
            return Err(ProcessError::Util(UtilError::PublicKeyMismatch));
        }
        Self::check_pool(program_id, honeypot, mint, honeypot_key, vault_key)?;
        Ok(amount_to_withdraw)
    }

    /// Creation of a player's wager record on a reserve: the reserve must
    /// re-derive and the record's address be the canonical one for the
    /// player on the vault; returns the fresh, idle record.
    pub fn initialize_guess_account(
        program_id: &[u8; 32],
        honeypot: &Honeypot,
        mint: &[u8; 32],
        gambler: &[u8; 32],
        honeypot_key: &[u8; 32],
        vault_key: &[u8; 32],
        guess_key: &[u8; 32],
    ) -> (r: Result<LockedGuess, ProcessError>)
        ensures
            r is Ok <==> pool_verified(program_id@, *honeypot, mint@, honeypot_key@, vault_key@)
                && derives_to(guess_account_seed_seq(gambler@, vault_key@), program_id@, guess_key@),
            r is Err ==> r == Err::<LockedGuess, ProcessError>(ProcessError::Util(UtilError::PublicKeyMismatch)),
            r matches Ok(rec) ==> {
                &&& canonical_bump(guess_account_seed_seq(gambler@, vault_key@), program_id@)
                    == Some(rec.bump_seed)
                &&& rec.version == Version::LockedGuessV1
                &&& rec.owner == *gambler
                &&& rec.vault == *vault_key
                &&& rec.slot == 0
                &&& rec.is_idle()
                &&& rec.wf()
                &&& rec.size_matches(honeypot.tick_size)
                &&& record_verified(program_id@, rec, gambler@, vault_key@, guess_key@)
            },
    {
        Self::check_pool(program_id, honeypot, mint, honeypot_key, vault_key)?;
        let gs = guess_account_seeds(gambler, vault_key);
        let (k, b) = match find_address(&gs, program_id) {
            Some(found) => found,
            None => {
                return Err(ProcessError::Util(UtilError::PublicKeyMismatch));
            },
        };
        if !keys_equal(&k, guess_key) {
            return Err(ProcessError::Util(UtilError::PublicKeyMismatch));
        }
        let rec = LockedGuess {
            version: Version::LockedGuessV1,
            bump_seed: b,
            owner: *gambler,
            vault: *vault_key,
            slot: 0,
            active: false,
            active_size: 0,
            guesses: [0u64; 64],
        };
        assert(rec.guesses@ =~= Seq::new(64, |i: int| 0u64));
        proof {
            lemma_table_sum_zero(rec.guesses@);
        }
        Ok(rec)
    }

    /// A commit of `guesses` on a re-derived reserve: on success the record
    /// is committed and the result is what moves from the player into the
    /// vault.
    pub fn place_guesses(
        program_id: &[u8; 32],
        honeypot: &Honeypot,
        mint: &[u8; 32],
        honeypot_key: &[u8; 32],
        vault_key: &[u8; 32],
        record: &mut LockedGuess,
        guesses: &Vec<RouletteGuess>,
        vault_balance: u64,
        slot: u64,
    ) -> (r: Result<u64, ProcessError>)
        ensures
            !(pool_verified(program_id@, *honeypot, mint@, honeypot_key@, vault_key@)
                && old(record).vault@ == vault_key@) ==> r == Err::<u64, ProcessError>(ProcessError::Util(UtilError::PublicKeyMismatch))
                && *final(record) == *old(record),
            pool_verified(program_id@, *honeypot, mint@, honeypot_key@, vault_key@)
                && old(record).vault@ == vault_key@ ==> committed(
                *old(record),
                *final(record),
                *honeypot,
                guesses@,
                vault_balance,
                slot,
                r,
            ),
    {
        Self::check_pool(program_id, honeypot, mint, honeypot_key, vault_key)?;
        if !keys_equal(&record.vault, vault_key) {
            return Err(ProcessError::Util(UtilError::PublicKeyMismatch));
        }
        record.commit(honeypot, guesses, vault_balance, slot)
    }

    /// A resolution of the player's commitment against `sample_value`,
    /// sampled at step `slot`: it must be the only instruction of its
    /// transaction, the reserve and the record must re-derive, and the
    /// step must fall in the window; on success the cache records the sample
    /// and the result is what the vault pays to the player.
    pub fn spin(
        program_id: &[u8; 32],
        honeypot: &Honeypot,
        mint: &[u8; 32],
        gambler: &[u8; 32],
        honeypot_key: &[u8; 32],
        vault_key: &[u8; 32],
        guess_key: &[u8; 32],
        record: &mut LockedGuess,
        rng: &mut RNG,
        sample_value: u64,
        slot: u64,
        tolerance: u64,
        current_instruction: u16,
        num_instructions: u16,
    ) -> (r: Result<u64, ProcessError>)
        ensures
            bundling_rejected(current_instruction, num_instructions) ==> r == Err::<
                u64,
                ProcessError,
            >(ProcessError::Roulette(RouletteError::SuspiciousTransaction)),
            !bundling_rejected(current_instruction, num_instructions) && !(pool_verified(
                program_id@,
                *honeypot,
                mint@,
                honeypot_key@,
                vault_key@,
            ) && record_verified(program_id@, *old(record), gambler@, vault_key@, guess_key@))
                ==> r == Err::<u64, ProcessError>(ProcessError::Util(UtilError::PublicKeyMismatch)),
            !bundling_rejected(current_instruction, num_instructions) && pool_verified(
                program_id@,
                *honeypot,
                mint@,
                honeypot_key@,
                vault_key@,
            ) && record_verified(program_id@, *old(record), gambler@, vault_key@, guess_key@)
                ==> resolved(
                *old(record),
                *final(record),
                honeypot.tick_size,
                sample_value,
                slot,
                tolerance,
                r,
            ),
            r is Err ==> *final(record) == *old(record) && *final(rng) == *old(rng),
            r is Ok ==> sampled(*old(rng), *final(rng), sample_value, slot),
    {
        if current_instruction < num_instructions.wrapping_sub(1) && num_instructions == 0 {
            return Err(ProcessError::Roulette(RouletteError::SuspiciousTransaction));
        }
        Self::check_pool(program_id, honeypot, mint, honeypot_key, vault_key)?;
        Self::check_record(program_id, record, gambler, vault_key, guess_key)?;
        let reward = record.resolve(honeypot.tick_size, sample_value, slot, tolerance)?;
        Self::sample(rng, sample_value, slot);
        Ok(reward)
    }

    /// A cancellation: an idle record is left as it is; a committed one on a
    /// re-derived reserve goes back to idle and its stake is refunded from
    /// the vault.
    pub fn try_cancel(
        program_id: &[u8; 32],
        honeypot: &Honeypot,
        mint: &[u8; 32],
        gambler: &[u8; 32],
        honeypot_key: &[u8; 32],
        vault_key: &[u8; 32],
        guess_key: &[u8; 32],
        record: &mut LockedGuess,
    ) -> (r: Result<Option<u64>, ProcessError>)
        ensures
            !old(record).active ==> r == Ok::<Option<u64>, ProcessError>(None) && *final(record)
                == *old(record),
            old(record).active && !(pool_verified(
                program_id@,
                *honeypot,
                mint@,
                honeypot_key@,
                vault_key@,
            ) && record_verified(program_id@, *old(record), gambler@, vault_key@, guess_key@))
                ==> r == Err::<Option<u64>, ProcessError>(ProcessError::Util(UtilError::PublicKeyMismatch)) && *final(record)
                == *old(record),
            old(record).active && pool_verified(
                program_id@,
                *honeypot,
                mint@,
                honeypot_key@,
                vault_key@,
            ) && record_verified(program_id@, *old(record), gambler@, vault_key@, guess_key@)
                ==> r == Ok::<Option<u64>, ProcessError>(Some(old(record).active_size))
                && final(record).is_idle() && final(record).slot == old(record).slot
                && final(record).version == old(record).version && final(record).bump_seed
                == old(record).bump_seed && final(record).owner == old(record).owner
                && final(record).vault == old(record).vault,
    {
        if !record.active {
            return Ok(None);
        }
        Self::check_pool(program_id, honeypot, mint, honeypot_key, vault_key)?;
        Self::check_record(program_id, record, gambler, vault_key, guess_key)?;
        Ok(record.cancel())
    }
}

} // verus!
