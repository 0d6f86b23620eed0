//! The round lifecycle operations: configure, create, join, finalize
//! (winner selection) and claim. Each is a function from the persisted
//! state and the call's plain inputs to the next state; the surrounding
//! runtime performs the value transfers and storage growth that a
//! successful result asks for.

use vstd::prelude::*;
use crate::config::Config;
use crate::errors::ContractError;
use crate::gameground::{
    DepositInfo, GameGround, has_user, joined_count, selected_user, sum_amounts, upsert_entries,
};
use crate::misc::{current_state, get_account_data, oracle_value};
use crate::pubkey::{Pubkey, zero_key};
use crate::utils::{applied_of, bps_mul, fee_of, lemma_fee_split};

verus! {

/// What a successful join asks of the surrounding runtime: grow the round's
/// storage to `required_space` before any value moves, then move
/// `deposit_applied` into the vault and `platform_fee` to the team wallet.
#[derive(Clone, Copy, Debug)]
pub struct JoinEffect {
    pub platform_fee: u64,
    pub deposit_applied: u64,
    pub required_space: usize,
    pub new_participant: bool,
}

/// The first reason a configure call fails, if any.
pub open spec fn configure_error(config: Config, caller: Pubkey, new_config: Config) -> Option<
    ContractError,
> {
    if caller@ != config.authority@ {
        Some(ContractError::IncorrectAuthority)
    } else if new_config.platform_fee > 10_000 {
        Some(ContractError::InvalidAmount)
    } else if new_config.game_round < config.game_round {
        Some(ContractError::RoundNumberError)
    } else {
        None
    }
}

/// Replace the global configuration. Only the configured authority may do
/// so; the new fee rate must be a valid basis-point value and the round
/// counter may never move backwards.
pub fn configure(config: &mut Config, caller: Pubkey, new_config: Config) -> (r: Result<
    (),
    ContractError,
>)
    requires
        old(config).wf(),
    ensures
        (match configure_error(*old(config), caller, new_config) {
            Some(e) => r == Err::<(), ContractError>(e) && *final(config) == *old(config),
            None => r == Ok::<(), ContractError>(()) && *final(config) == new_config
                && final(config).wf(),
        }),
{
    if !caller.same(&config.authority) {
        return Err(ContractError::IncorrectAuthority);
    }
    if new_config.platform_fee > 10_000 {
        return Err(ContractError::InvalidAmount);
    }
    if new_config.game_round < config.game_round {
        return Err(ContractError::RoundNumberError);
    }
    *config = new_config;
    Ok(())
}

/// Create a new round: an empty ledger with the given limits, registered
/// under the configuration's current round counter, which advances. The
/// caller must be the authority; the surrounding runtime issues the
/// randomness request for `force` alongside.
pub fn create_game(
    config: &mut Config,
    creator: Pubkey,
    force: [u8; 32],
    round_time: i64,
    min_deposit_amount: u64,
    max_joiner_count: u64,
    now: i64,
) -> (r: Result<GameGround, ContractError>)
    requires
        old(config).wf(),
        old(config).game_round < u64::MAX,
        round_time >= 0,
    ensures
        creator@ != old(config).authority@ ==> r == Err::<GameGround, ContractError>(
            ContractError::IncorrectAuthority,
        ) && *final(config) == *old(config),
        creator@ == old(config).authority@ ==> ({
            let g = r->Ok_0;
            &&& r is Ok
            &&& g.wf()
            &&& g.creator == creator
            &&& g.game_round == old(config).game_round
            &&& g.create_date == now
            &&& g.start_date == 0
            &&& g.end_date == 0
            &&& g.round_time == round_time
            &&& g.total_deposit == 0
            &&& g.rand == 0
            &&& g.winner@ == zero_key()
            &&& g.user_count == 0
            &&& g.min_deposit_amount == min_deposit_amount
            &&& g.max_joiner_count == max_joiner_count
            &&& g.force == force
            &&& !g.is_completed
            &&& !g.is_claimed
            &&& g.deposit_list@.len() == 0
            &&& final(config).game_round == old(config).game_round + 1
            &&& g.game_round < final(config).game_round
            &&& final(config).authority == old(config).authority
            &&& final(config).payer_wallet == old(config).payer_wallet
            &&& final(config).team_wallet == old(config).team_wallet
            &&& final(config).platform_fee == old(config).platform_fee
            &&& final(config).wf()
        }),
{
    if !creator.same(&config.authority) {
        return Err(ContractError::IncorrectAuthority);
    }
    let game = GameGround {
        creator,
        game_round: config.game_round,
        create_date: now,
        start_date: 0,
        end_date: 0,
        round_time,
        total_deposit: 0,
        rand: 0,
        winner: Pubkey::zeroed(),
        user_count: 0,
        min_deposit_amount,
        max_joiner_count,
        force,
        is_completed: false,
        is_claimed: false,
        deposit_list: Vec::new(),
    };
    proof {
        assert(sum_amounts(game.deposit_list@) == 0);
    }
    config.game_round = config.game_round + 1;
    Ok(game)
}

/// The first reason a join fails, if any, in the order the checks run.
pub open spec fn join_error(
    config: Config,
    round: GameGround,
    joiner: Pubkey,
    amount: u64,
    now: i64,
) -> Option<ContractError> {
    if amount == 0 {
        Some(ContractError::InvalidAmount)
    } else if round.game_round >= config.game_round {
        Some(ContractError::RoundNumberError)
    } else if amount < round.min_deposit_amount {
        Some(ContractError::DepositAmountError)
    } else if round.user_count >= 2 && round.end_date <= now {
        Some(ContractError::GameAlreadyCompleted)
    } else if round.user_count >= 2 && round.is_completed {
        Some(ContractError::GameAlreadyCompleted)
    } else if amount * config.platform_fee > u64::MAX {
        Some(ContractError::ArithmeticError)
    } else if applied_of(amount, config.platform_fee) == 0 {
        Some(ContractError::InvalidAmount)
    } else if joined_count(round.deposit_list@, joiner) > round.max_joiner_count {
        Some(ContractError::UserCountOverError)
    } else {
        None
    }
}

/// How a successful join changes the round: the ledger is credited, the
/// totals grow by the applied amount, and the clock starts the moment the
/// participant count first reaches two.
pub open spec fn joined_round(
    pre: GameGround,
    post: GameGround,
    joiner: Pubkey,
    applied: u64,
    now: i64,
) -> bool {
    let entries = upsert_entries(pre.deposit_list@, joiner, applied);
    let starts_clock = entries.len() == 2 && pre.deposit_list@.len() < 2;
    &&& post.deposit_list@ == entries
    &&& post.total_deposit == pre.total_deposit + applied
    &&& post.user_count == entries.len()
    &&& post.start_date == (if starts_clock { now as int } else { pre.start_date as int })
    &&& post.end_date == (if starts_clock { now + pre.round_time } else { pre.end_date as int })
    &&& post.creator == pre.creator
    &&& post.game_round == pre.game_round
    &&& post.create_date == pre.create_date
    &&& post.round_time == pre.round_time
    &&& post.rand == pre.rand
    &&& post.winner == pre.winner
    &&& post.min_deposit_amount == pre.min_deposit_amount
    &&& post.max_joiner_count == pre.max_joiner_count
    &&& post.force == pre.force
    &&& post.is_completed == pre.is_completed
    &&& post.is_claimed == pre.is_claimed
}

/// Join a round with a deposit. The fee is split off first; the remainder is
/// credited to the participant's (new or existing) ledger entry. On any
/// failure the round is untouched and nothing is owed; on success the caller
/// owes the two transfers and the storage growth described by the effect,
/// growth before any value moves.
pub fn join_game(
    config: &Config,
    game_ground: &mut GameGround,
    joiner: Pubkey,
    amount: u64,
    now: i64,
) -> (r: Result<JoinEffect, ContractError>)
    requires
        config.wf(),
        old(game_ground).wf(),
        old(game_ground).total_deposit + amount <= u64::MAX,
        now + old(game_ground).round_time <= i64::MAX,
        GameGround::INIT_SPACE + (old(game_ground).deposit_list@.len() + 1)
            * DepositInfo::INIT_SPACE <= usize::MAX,
    ensures
        (match join_error(*config, *old(game_ground), joiner, amount, now) {
            Some(e) => r == Err::<JoinEffect, ContractError>(e) && *final(game_ground) == *old(
                game_ground,
            ),
            None => ({
                let eff = r->Ok_0;
                &&& r is Ok
                &&& final(game_ground).wf()
                &&& eff.platform_fee == fee_of(amount, config.platform_fee)
                &&& eff.deposit_applied == applied_of(amount, config.platform_fee)
                &&& eff.platform_fee + eff.deposit_applied == amount
                &&& eff.required_space == GameGround::INIT_SPACE + joined_count(
                    old(game_ground).deposit_list@,
                    joiner,
                ) * DepositInfo::INIT_SPACE
                &&& eff.new_participant == !has_user(old(game_ground).deposit_list@, joiner@)
                &&& joined_round(
                    *old(game_ground),
                    *final(game_ground),
                    joiner,
                    eff.deposit_applied,
                    now,
                )
                &&& final(game_ground).user_count <= final(game_ground).max_joiner_count
            }),
        }),
{
    if amount == 0 {
        return Err(ContractError::InvalidAmount);
    }
    if game_ground.game_round >= config.game_round {
        return Err(ContractError::RoundNumberError);
    }
    if amount < game_ground.min_deposit_amount {
        return Err(ContractError::DepositAmountError);
    }
    if game_ground.user_count >= 2 {
        if game_ground.end_date <= now {
            return Err(ContractError::GameAlreadyCompleted);
        }
        if game_ground.is_completed {
            return Err(ContractError::GameAlreadyCompleted);
        }
    }

    let platform_fee_lamports = (match bps_mul(config.platform_fee, amount, 10_000) {
        Some(fee) => fee,
        None => {
            return Err(ContractError::ArithmeticError);
        },
    });
    proof {
        lemma_fee_split(amount, config.platform_fee);
    }
    let deposit_amount_applied = (match amount.checked_sub(platform_fee_lamports) {
        Some(applied) => applied,
        None => {
            return Err(ContractError::InvalidAmount);
        },
    });
    if deposit_amount_applied == 0 {
        return Err(ContractError::InvalidAmount);
    }

    let user_exists = (match game_ground.find_user_index(&joiner) {
        Some(_) => true,
        None => false,
    });
    let list_len = game_ground.deposit_list.len();
    let new_list_len = if user_exists {
        list_len
    } else {
        list_len + 1
    };
    proof {
        vstd::arithmetic::mul::lemma_mul_inequality(
            new_list_len as int,
            old(game_ground).deposit_list@.len() as int + 1,
            DepositInfo::INIT_SPACE as int,
        );
    }
    let required_space = GameGround::space(new_list_len);

    if (new_list_len as u64) > game_ground.max_joiner_count {
        return Err(ContractError::UserCountOverError);
    }

    let was_below_two = game_ground.user_count < 2;
    game_ground.append(joiner, deposit_amount_applied);

    if game_ground.user_count == 2 && was_below_two {
        game_ground.start_date = now;
        game_ground.end_date = now + game_ground.round_time;
    }

    Ok(
        JoinEffect {
            platform_fee: platform_fee_lamports,
            deposit_applied: deposit_amount_applied,
            required_space,
            new_participant: !user_exists,
        },
    )
}

/// The first reason a finalize call fails, if any, in the order the checks
/// run. `StillProcessing` is the one retryable outcome: the oracle has not
/// fulfilled the randomness yet.
pub open spec fn set_winner_error(
    config: Config,
    round: GameGround,
    creator: Pubkey,
    now: i64,
    oracle_data: Seq<u8>,
) -> Option<ContractError> {
    if creator@ != config.authority@ {
        Some(ContractError::IncorrectAuthority)
    } else if round.game_round >= config.game_round {
        Some(ContractError::RoundNumberError)
    } else if !(round.end_date > 0 && round.end_date <= now) {
        Some(ContractError::GameNotCompleted)
    } else if round.is_completed {
        Some(ContractError::SetWinnerCompleted)
    } else if round.total_deposit == 0 {
        Some(ContractError::InvalidAmount)
    } else if round.deposit_list@.len() == 0 {
        Some(ContractError::InvalidAmount)
    } else if oracle_data.len() == 0 {
        Some(ContractError::UninitializedAccount)
    } else if parsed_randomness_is_none(oracle_data) {
        Some(ContractError::InvalidAccountData)
    } else if oracle_value(oracle_data) == 0 {
        Some(ContractError::StillProcessing)
    } else {
        None
    }
}

/// Whether the oracle account bytes fail to parse.
pub open spec fn parsed_randomness_is_none(oracle_data: Seq<u8>) -> bool {
    crate::misc::parsed_randomness(oracle_data) is None
}

/// What finalization leaves alone: everything but the recorded random value,
/// the winner and the completion flag.
pub open spec fn completed_round(pre: GameGround, post: GameGround) -> bool {
    &&& post.creator == pre.creator
    &&& post.game_round == pre.game_round
    &&& post.create_date == pre.create_date
    &&& post.start_date == pre.start_date
    &&& post.end_date == pre.end_date
    &&& post.round_time == pre.round_time
    &&& post.total_deposit == pre.total_deposit
    &&& post.user_count == pre.user_count
    &&& post.min_deposit_amount == pre.min_deposit_amount
    &&& post.max_joiner_count == pre.max_joiner_count
    &&& post.force == pre.force
    &&& post.is_claimed == pre.is_claimed
    &&& post.deposit_list@ == pre.deposit_list@
}

/// Finalize a round: once its deadline has passed, read the oracle's
/// fulfilled randomness and select the winner by the weighted walk. A second
/// finalize on a completed round always fails, so the winner is set at most
/// once. While the oracle is pending the round is left untouched and the
/// caller may retry.
pub fn set_winner(
    config: &Config,
    game_ground: &mut GameGround,
    creator: Pubkey,
    now: i64,
    oracle_data: &[u8],
) -> (r: Result<(), ContractError>)
    requires
        config.wf(),
        old(game_ground).wf(),
    ensures
        (match set_winner_error(*config, *old(game_ground), creator, now, oracle_data@) {
            Some(e) => r == Err::<(), ContractError>(e) && *final(game_ground) == *old(
                game_ground,
            ),
            None => ({
                let value = oracle_value(oracle_data@);
                &&& r is Ok
                &&& final(game_ground).wf()
                &&& final(game_ground).is_completed
                &&& final(game_ground).rand == value
                &&& final(game_ground).winner == selected_user(
                    old(game_ground).deposit_list@,
                    (value as int) % (old(game_ground).total_deposit as int),
                )
                &&& completed_round(*old(game_ground), *final(game_ground))
            }),
        }),
{
    if !creator.same(&config.authority) {
        return Err(ContractError::IncorrectAuthority);
    }
    if game_ground.game_round >= config.game_round {
        return Err(ContractError::RoundNumberError);
    }
    if !(game_ground.end_date > 0 && game_ground.end_date <= now) {
        return Err(ContractError::GameNotCompleted);
    }
    if game_ground.is_completed {
        return Err(ContractError::SetWinnerCompleted);
    }
    if game_ground.total_deposit == 0 {
        return Err(ContractError::InvalidAmount);
    }
    if game_ground.deposit_list.len() == 0 {
        return Err(ContractError::InvalidAmount);
    }

    let rand_acc = (match get_account_data(oracle_data) {
        Ok(acc) => acc,
        Err(e) => {
            return Err(e);
        },
    });
    let randomness = current_state(&rand_acc);
    if randomness == 0 {
        return Err(ContractError::StillProcessing);
    }

    let selected = game_ground.set_winner(randomness);
    proof {
        assert(selected is Ok);
    }
    game_ground.is_completed = true;
    Ok(())
}

/// The first reason a claim fails, if any, in the order the checks run.
pub open spec fn claim_error(config: Config, round: GameGround, winner: Pubkey) -> Option<
    ContractError,
> {
    if round.game_round >= config.game_round {
        Some(ContractError::RoundNumberError)
    } else if round.is_claimed {
        Some(ContractError::WinnerClaimed)
    } else if !round.is_completed {
        Some(ContractError::GameNotCompleted)
    } else if round.winner@ != winner@ {
        Some(ContractError::IncorrectAuthority)
    } else if round.total_deposit == 0 {
        Some(ContractError::InvalidAmount)
    } else {
        None
    }
}

/// What a claim leaves alone: everything but the claimed flag.
pub open spec fn claimed_round(pre: GameGround, post: GameGround) -> bool {
    &&& post.creator == pre.creator
    &&& post.game_round == pre.game_round
    &&& post.create_date == pre.create_date
    &&& post.start_date == pre.start_date
    &&& post.end_date == pre.end_date
    &&& post.round_time == pre.round_time
    &&& post.total_deposit == pre.total_deposit
    &&& post.rand == pre.rand
    &&& post.winner == pre.winner
    &&& post.user_count == pre.user_count
    &&& post.min_deposit_amount == pre.min_deposit_amount
    &&& post.max_joiner_count == pre.max_joiner_count
    &&& post.force == pre.force
    &&& post.is_completed == pre.is_completed
    &&& post.deposit_list@ == pre.deposit_list@
}

/// Claim a finalized round's pooled total. Only the recorded winner may
/// claim, only once; the returned amount is what the surrounding runtime
/// must move from the vault to the winner before the call's effect is
/// durable.
pub fn claim_reward(config: &Config, game_ground: &mut GameGround, winner: Pubkey) -> (r: Result<
    u64,
    ContractError,
>)
    requires
        old(game_ground).wf(),
    ensures
        (match claim_error(*config, *old(game_ground), winner) {
            Some(e) => r == Err::<u64, ContractError>(e) && *final(game_ground) == *old(
                game_ground,
            ),
            None => ({
                &&& r == Ok::<u64, ContractError>(old(game_ground).total_deposit)
                &&& final(game_ground).wf()
                &&& final(game_ground).is_claimed
                &&& claimed_round(*old(game_ground), *final(game_ground))
            }),
        }),
{
    if game_ground.game_round >= config.game_round {
        return Err(ContractError::RoundNumberError);
    }
    if game_ground.is_claimed {
        return Err(ContractError::WinnerClaimed);
    }
    if !game_ground.is_completed {
        return Err(ContractError::GameNotCompleted);
    }
    if !game_ground.winner.same(&winner) {
        return Err(ContractError::IncorrectAuthority);
    }
    if game_ground.total_deposit == 0 {
        return Err(ContractError::InvalidAmount);
    }
    game_ground.is_claimed = true;
    Ok(game_ground.total_deposit)
}

} // verus!
