//! The round ledger: one `GameGround` per round, holding the pooled total,
//! the ordered deposit entries, and the lifecycle flags, together with the
//! weighted winner selection that finalization runs.

use vstd::prelude::*;
use vstd::pervasive::VecAdditionalExecFns;
use crate::pubkey::{Pubkey, zero_key};
use crate::errors::ContractError;

verus! {

/// One participant's cumulative deposit within a round.
#[derive(Clone, Copy, Debug)]
pub struct DepositInfo {
    pub user: Pubkey,
    pub amount: u64,
}

impl DepositInfo {
    /// Serialized size of one entry: identity plus amount.
    pub const INIT_SPACE: usize = 32 + 8;
}

/// One jackpot round. Created with an empty ledger, mutated through joins,
/// finalized once, claimed once; never deleted.
#[derive(Clone, Debug)]
pub struct GameGround {
    pub creator: Pubkey,
    pub game_round: u64,

    pub create_date: i64,
    pub start_date: i64,
    pub end_date: i64,
    pub round_time: i64,

    pub total_deposit: u64,
    pub rand: u64,
    pub winner: Pubkey,
    pub user_count: u64,
    pub min_deposit_amount: u64,
    pub max_joiner_count: u64,

    pub force: [u8; 32],
    pub is_completed: bool,
    pub is_claimed: bool,

    pub deposit_list: Vec<DepositInfo>,
}

/// The sum of all entry amounts.
pub open spec fn sum_amounts(entries: Seq<DepositInfo>) -> int
    decreases entries.len(),
{
    if entries.len() == 0 {
        0
    } else {
        sum_amounts(entries.drop_last()) + entries.last().amount
    }
}

/// Every entry holds a strictly positive amount.
pub open spec fn positive_amounts(entries: Seq<DepositInfo>) -> bool {
    forall|i: int| 0 <= i < entries.len() ==> entries[i].amount > 0
}

/// No identity appears in two entries.
pub open spec fn distinct_users(entries: Seq<DepositInfo>) -> bool {
    forall|i: int, j: int|
        0 <= i < j < entries.len() ==> entries[i].user@ != entries[j].user@
}

/// Whether some entry belongs to `key`.
pub open spec fn has_user(entries: Seq<DepositInfo>, key: Seq<u8>) -> bool {
    exists|i: int| 0 <= i < entries.len() && entries[i].user@ == key
}

/// The index of the entry belonging to `key`; meaningful when `has_user`
/// holds, and unique under `distinct_users`.
pub open spec fn user_index_of(entries: Seq<DepositInfo>, key: Seq<u8>) -> int {
    choose|i: int| 0 <= i < entries.len() && entries[i].user@ == key
}

/// The number of participants once `joiner` has been credited: unchanged if
/// they already hold an entry, one more otherwise.
pub open spec fn joined_count(entries: Seq<DepositInfo>, joiner: Pubkey) -> int {
    entries.len() + (if has_user(entries, joiner@) {
        0int
    } else {
        1int
    })
}

/// The ledger after crediting `amount` to `user`: the existing entry grows,
/// or a new entry is appended.
pub open spec fn upsert_entries(entries: Seq<DepositInfo>, user: Pubkey, amount: u64) -> Seq<DepositInfo> {
    if has_user(entries, user@) {
        let i = user_index_of(entries, user@);
        entries.update(i, (DepositInfo { user: entries[i].user, amount: (entries[i].amount + amount) as u64 }))
    } else {
        entries.push((DepositInfo { user, amount }))
    }
}

impl GameGround {
    /// Serialized size of the fixed header: discriminator, creator, round
    /// number, four timestamps, total, random value, winner, three counters,
    /// seed, two flags, and the list length prefix.
    pub const INIT_SPACE: usize = 8 + 32 + 8 + 8 + 8 + 8 + 8 + 8 + 8 + 32 + 8 + 8 + 8 + 32 + 1 + 1
        + 4;

    /// Well-formedness: the accounting reconciles, identities are distinct,
    /// amounts are positive, and the lifecycle flags are consistent.
    pub open spec fn wf(&self) -> bool {
        &&& self.total_deposit == sum_amounts(self.deposit_list@)
        &&& self.user_count == self.deposit_list@.len()
        &&& distinct_users(self.deposit_list@)
        &&& positive_amounts(self.deposit_list@)
        &&& (self.is_claimed ==> self.is_completed)
        &&& (!self.is_completed ==> self.winner@ == zero_key())
        &&& self.round_time >= 0
    }

    /// Total storage needed for a round with `len` ledger entries.
    pub fn space(len: usize) -> (r: usize)
        requires
            GameGround::INIT_SPACE + len * DepositInfo::INIT_SPACE <= usize::MAX,
        ensures
            r == GameGround::INIT_SPACE + len * DepositInfo::INIT_SPACE,
    {
        GameGround::INIT_SPACE + len * DepositInfo::INIT_SPACE
    }

    /// The index of `user`'s entry, if one exists.
    pub fn find_user_index(&self, user: &Pubkey) -> (r: Option<usize>)
        ensures
            match r {
                Some(i) => i < self.deposit_list@.len()
                    && self.deposit_list@[i as int].user@ == user@
                    && (forall|k: int| 0 <= k < i ==> self.deposit_list@[k].user@ != user@),
                None => !has_user(self.deposit_list@, user@),
            },
    {
        let n = self.deposit_list.len();
        let mut i: usize = 0;
        while i < n
            invariant
                n == self.deposit_list@.len(),
                0 <= i <= n,
                forall|k: int| 0 <= k < i ==> self.deposit_list@[k].user@ != user@,
            decreases n - i,
        {
            if self.deposit_list[i].user.same(user) {
                return Some(i);
            }
            i += 1;
        }
        None
    }
}

/// Replacing one entry changes the sum by exactly the difference between the
/// new and the old amount at that index.
pub proof fn lemma_sum_update(entries: Seq<DepositInfo>, i: int, e: DepositInfo)
    requires
        0 <= i < entries.len(),
    ensures
        sum_amounts(entries.update(i, e)) == sum_amounts(entries) - entries[i].amount + e.amount,
    decreases entries.len(),
{
    let updated = entries.update(i, e);
    if i == entries.len() - 1 {
        assert(updated.drop_last() =~= entries.drop_last());
        assert(updated.last() == e);
    } else {
        assert(updated.drop_last() =~= entries.drop_last().update(i, e));
        assert(updated.last() == entries.last());
        lemma_sum_update(entries.drop_last(), i, e);
    }
}

/// With positive amounts, the sum covers the length: each entry adds at least one.
pub proof fn lemma_sum_at_least_len(entries: Seq<DepositInfo>)
    requires
        positive_amounts(entries),
    ensures
        sum_amounts(entries) >= entries.len(),
    decreases entries.len(),
{
    if entries.len() > 0 {
        assert(positive_amounts(entries.drop_last())) by {
            assert(forall|i: int| 0 <= i < entries.len() - 1 ==> entries.drop_last()[i] == entries[i]);
        }
        lemma_sum_at_least_len(entries.drop_last());
    }
}

/// With positive amounts, no single entry exceeds the sum of all.
pub proof fn lemma_entry_le_sum(entries: Seq<DepositInfo>, i: int)
    requires
        positive_amounts(entries),
        0 <= i < entries.len(),
    ensures
        entries[i].amount <= sum_amounts(entries),
    decreases entries.len(),
{
    assert(positive_amounts(entries.drop_last())) by {
        assert(forall|k: int| 0 <= k < entries.len() - 1 ==> entries.drop_last()[k] == entries[k]);
    }
    if i == entries.len() - 1 {
        lemma_sum_at_least_len(entries.drop_last());
    } else {
        lemma_entry_le_sum(entries.drop_last(), i);
    }
}

impl GameGround {
    /// Credit `amount` to `user`: grow the existing entry or append a new
    /// one, keep the participant count in step, and grow the pooled total.
    pub fn append(&mut self, user: Pubkey, amount: u64)
        requires
            old(self).wf(),
            amount > 0,
            old(self).total_deposit + amount <= u64::MAX,
        ensures
            final(self).wf(),
            final(self).deposit_list@ == upsert_entries(old(self).deposit_list@, user, amount),
            final(self).total_deposit == old(self).total_deposit + amount,
            final(self).user_count == old(self).user_count
                + (if has_user(old(self).deposit_list@, user@) { 0int } else { 1int }),
            has_user(final(self).deposit_list@, user@),
            fields_outside_ledger_unchanged(*old(self), *final(self)),
    {
        let ghost pre = self.deposit_list@;
        match self.find_user_index(&user) {
            Some(i) => {
                proof {
                    let j = user_index_of(pre, user@);
                    assert(has_user(pre, user@));
                    assert(0 <= j < pre.len() && pre[j].user@ == user@);
                    assert(j == i);
                    lemma_entry_le_sum(pre, i as int);
                }
                let grown = self.deposit_list[i].amount + amount;
                self.deposit_list.set(i, DepositInfo { user: self.deposit_list[i].user, amount: grown });
                proof {
                    lemma_sum_update(pre, i as int, self.deposit_list@[i as int]);
                    assert(self.deposit_list@ == upsert_entries(pre, user, amount));
                    assert(distinct_users(self.deposit_list@)) by {
                        assert(forall|a: int, b: int|
                            0 <= a < b < self.deposit_list@.len()
                                ==> self.deposit_list@[a].user@ == pre[a].user@
                                    && self.deposit_list@[b].user@ == pre[b].user@);
                    }
                }
            },
            None => {
                proof {
                    lemma_sum_at_least_len(pre);
                }
                self.deposit_list.push(DepositInfo { user, amount });
                self.user_count = self.user_count + 1;
                proof {
                    assert(self.deposit_list@.drop_last() =~= pre);
                    assert(sum_amounts(self.deposit_list@) == sum_amounts(pre) + amount);
                    assert(self.deposit_list@[pre.len() as int].user@ == user@);
                }
            },
        }
        self.total_deposit = self.total_deposit + amount;
    }
}

/// The index the weighted walk selects for draw `r`: entries are skipped in
/// order while `r` still covers their whole amount; the first entry whose
/// amount exceeds what is left is selected.
pub open spec fn select_index(entries: Seq<DepositInfo>, r: int) -> int
    decreases entries.len(),
{
    if entries.len() == 0 {
        0
    } else if r < entries[0].amount {
        0
    } else {
        1 + select_index(entries.drop_first(), r - entries[0].amount)
    }
}

/// The identity the weighted walk selects for draw `r`.
pub open spec fn selected_user(entries: Seq<DepositInfo>, r: int) -> Pubkey {
    entries[select_index(entries, r)].user
}

/// The sum of the amounts of the first `i` entries.
pub open spec fn prefix_sum(entries: Seq<DepositInfo>, i: int) -> int {
    sum_amounts(entries.take(i))
}

/// Splitting the sum at the front entry.
pub proof fn lemma_sum_drop_first(entries: Seq<DepositInfo>)
    requires
        entries.len() > 0,
    ensures
        sum_amounts(entries) == entries[0].amount + sum_amounts(entries.drop_first()),
    decreases entries.len(),
{
    if entries.len() == 1 {
        assert(entries.drop_last() =~= Seq::<DepositInfo>::empty());
        assert(entries.drop_first() =~= Seq::<DepositInfo>::empty());
    } else {
        lemma_sum_drop_first(entries.drop_last());
        assert(entries.drop_last().drop_first() =~= entries.drop_first().drop_last());
        assert(entries.drop_last()[0] == entries[0]);
        assert(entries.drop_first().last() == entries.last());
    }
}

/// A draw below the pooled sum always lands on a real entry: the walk cannot
/// run off the end of the list.
pub proof fn lemma_select_index_in_range(entries: Seq<DepositInfo>, r: int)
    requires
        0 <= r < sum_amounts(entries),
    ensures
        0 <= select_index(entries, r) < entries.len(),
    decreases entries.len(),
{
    if entries.len() == 0 {
        assert(false);
    } else if r < entries[0].amount {
    } else {
        lemma_sum_drop_first(entries);
        lemma_select_index_in_range(entries.drop_first(), r - entries[0].amount);
    }
}

/// Draw `r` selects entry `i` exactly when `r` lies in the contiguous window
/// of length `entries[i].amount` that starts at the sum of the amounts before
/// `i`. The draw space `[0, total)` is thus partitioned into one window per
/// entry, so a uniformly drawn value selects each participant with
/// probability `amount / total`.
pub proof fn lemma_select_index_interval(entries: Seq<DepositInfo>, r: int, i: int)
    requires
        positive_amounts(entries),
        0 <= r < sum_amounts(entries),
        0 <= i < entries.len(),
    ensures
        select_index(entries, r) == i
            <==> (prefix_sum(entries, i) <= r < prefix_sum(entries, i) + entries[i].amount),
    decreases i,
{
    let s = entries.drop_first();
    assert(positive_amounts(s)) by {
        assert(forall|k: int| 0 <= k < s.len() ==> s[k] == entries[k + 1]);
    }
    if i == 0 {
        assert(entries.take(0) =~= Seq::<DepositInfo>::empty());
        assert(sum_amounts(Seq::<DepositInfo>::empty()) == 0);
        assert(prefix_sum(entries, 0) == 0);
        if r >= entries[0].amount {
            lemma_sum_drop_first(entries);
            lemma_select_index_in_range(s, r - entries[0].amount);
        }
    } else {
        lemma_sum_drop_first(entries);
        lemma_sum_drop_first(entries.take(i));
        assert(entries.take(i)[0] == entries[0]);
        assert(entries.take(i).drop_first() =~= s.take(i - 1));
        assert(prefix_sum(entries, i) == entries[0].amount + prefix_sum(s, i - 1));
        if r < entries[0].amount {
            assert(positive_amounts(s.take(i - 1))) by {
                assert(forall|k: int| 0 <= k < i - 1 ==> s.take(i - 1)[k] == s[k]);
            }
            lemma_sum_at_least_len(s.take(i - 1));
            assert(prefix_sum(entries, i) >= entries[0].amount);
        } else {
            lemma_select_index_interval(s, r - entries[0].amount, i - 1);
            assert(s[i - 1] == entries[i]);
            assert(select_index(entries, r) == 1 + select_index(s, r - entries[0].amount));
            assert(select_index(entries, r) == i <==> select_index(s, r - entries[0].amount) == i - 1);
        }
    }
}

impl GameGround {
    /// Record the random value used and select the winner by the weighted
    /// walk over the deposit list. Because the pooled total equals the sum of
    /// the entry amounts, the walk provably always lands on an entry, so no
    /// fallback for an exhausted list is needed: termination of the loop
    /// below proves that case unreachable.
    pub fn set_winner(&mut self, random_num: u64) -> (r: Result<(), ContractError>)
        requires
            old(self).wf(),
        ensures
            (r is Ok) <==> (old(self).total_deposit > 0 && old(self).deposit_list@.len() > 0),
            r is Err ==> r->Err_0 == ContractError::InvalidAmount && *final(self) == *old(self),
            r is Ok ==> ({
                &&& final(self).rand == random_num
                &&& final(self).winner == selected_user(
                    old(self).deposit_list@,
                    (random_num as int) % (old(self).total_deposit as int),
                )
                &&& fields_outside_selection_unchanged(*old(self), *final(self))
            }),
    {
        if self.total_deposit == 0 {
            return Err(ContractError::InvalidAmount);
        }
        if self.deposit_list.len() == 0 {
            return Err(ContractError::InvalidAmount);
        }

        self.rand = random_num;

        let total = self.total_deposit;
        let mut remaining = random_num % total;
        let mut i: usize = 0;
        let ghost entries = self.deposit_list@;
        let ghost r0 = (random_num as int) % (total as int);
        proof {
            lemma_select_index_in_range(entries, r0);
            assert(entries.skip(0) =~= entries);
        }
        loop
            invariant
                old(self).wf(),
                entries.len() <= usize::MAX,
                0 <= i < entries.len(),
                entries == self.deposit_list@,
                entries == old(self).deposit_list@,
                positive_amounts(entries),
                total == sum_amounts(entries),
                total == old(self).total_deposit,
                total > 0,
                r0 == (random_num as int) % (total as int),
                remaining as int <= r0,
                self.rand == random_num,
                fields_outside_selection_unchanged(*old(self), *self),
                self.winner == old(self).winner,
                0 <= remaining < sum_amounts(entries.skip(i as int)),
                select_index(entries, r0) == i + select_index(entries.skip(i as int), remaining as int),
            decreases entries.len() - i,
        {
            let amt = self.deposit_list[i].amount;
            proof {
                assert(entries.skip(i as int)[0] == entries[i as int]);
            }
            if remaining < amt {
                self.winner = self.deposit_list[i].user;
                proof {
                    assert(select_index(entries.skip(i as int), remaining as int) == 0);
                    assert(select_index(entries, r0) == i);
                }
                return Ok(());
            }
            proof {
                lemma_sum_drop_first(entries.skip(i as int));
                assert(entries.skip(i as int).drop_first() =~= entries.skip(i as int + 1));
                assert(0 <= remaining - amt < sum_amounts(entries.skip(i as int + 1)));
                assert(sum_amounts(Seq::<DepositInfo>::empty()) == 0);
                assert(entries.skip(i as int + 1).len() > 0);
            }
            remaining = remaining - amt;
            i = i + 1;
        }
    }
}

/// Everything winner selection leaves alone: all fields but the recorded
/// random value and the winner identity.
pub open spec fn fields_outside_selection_unchanged(a: GameGround, b: GameGround) -> bool {
    &&& a.creator == b.creator
    &&& a.game_round == b.game_round
    &&& a.create_date == b.create_date
    &&& a.start_date == b.start_date
    &&& a.end_date == b.end_date
    &&& a.round_time == b.round_time
    &&& a.total_deposit == b.total_deposit
    &&& a.user_count == b.user_count
    &&& a.min_deposit_amount == b.min_deposit_amount
    &&& a.max_joiner_count == b.max_joiner_count
    &&& a.force == b.force
    &&& a.is_completed == b.is_completed
    &&& a.is_claimed == b.is_claimed
    &&& a.deposit_list@ == b.deposit_list@
}

/// Everything a ledger credit leaves alone: all fields but the deposit list,
/// the pooled total and the participant count.
pub open spec fn fields_outside_ledger_unchanged(a: GameGround, b: GameGround) -> bool {
    &&& a.creator == b.creator
    &&& a.game_round == b.game_round
    &&& a.create_date == b.create_date
    &&& a.start_date == b.start_date
    &&& a.end_date == b.end_date
    &&& a.round_time == b.round_time
    &&& a.rand == b.rand
    &&& a.winner == b.winner
    &&& a.min_deposit_amount == b.min_deposit_amount
    &&& a.max_joiner_count == b.max_joiner_count
    &&& a.force == b.force
    &&& a.is_completed == b.is_completed
    &&& a.is_claimed == b.is_claimed
}

} // verus!
