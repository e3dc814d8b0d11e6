//! Spreading a run across several sending accounts.
//!
//! Gmail stops accepting around 500 messages a day, so a run through one
//! mailbox can take days. The pool holds every account a person may send
//! through, hands out the next one with allowance left, and rolls over when
//! one is spent. The transports themselves are held by the caller, one per
//! entry, in the same order: a reservation names the entry it came from.

use vstd::prelude::*;

use crate::history::accounts::AccountCapacity;

verus! {

/// One account, ready to send, with what is left of its allowance today.
#[derive(Debug)]
pub struct PoolEntry {
    /// The account row this came from. `None` for a one-off sender that is
    /// not backed by a stored account, such as a dry run.
    pub account_id: Option<i64>,
    /// What to call it in progress output.
    pub label: String,
    /// The address messages go out from.
    pub from: String,
    remaining: usize,
}

/// What a pool entry holds, as plain values.
pub struct PoolEntryView {
    pub account_id: Option<i64>,
    pub label: Seq<char>,
    pub from: Seq<char>,
    pub remaining: nat,
}

impl View for PoolEntry {
    type V = PoolEntryView;

    closed spec fn view(&self) -> PoolEntryView {
        PoolEntryView {
            account_id: self.account_id,
            label: self.label@,
            from: self.from@,
            remaining: self.remaining as nat,
        }
    }
}

impl PoolEntry {
    /// What is left of this account's allowance today.
    pub fn remaining(&self) -> (r: usize)
        ensures
            r == self@.remaining,
    {
        self.remaining
    }
}

/// The accounts a run may send through, in the order it will use them.
#[derive(Debug)]
pub struct SenderPool {
    entries: Vec<PoolEntry>,
    /// Where the last send came from, so a run stays on one account until
    /// it is spent rather than alternating between them.
    cursor: usize,
}

/// One send's worth of a particular account.
#[derive(Debug, Clone, PartialEq, Eq)]
pub struct Reservation {
    /// Which entry of the pool it came from, and so which transport sends it.
    pub index: usize,
    pub account_id: Option<i64>,
    pub label: String,
    pub from: String,
}

/// What each entry has left, in order.
pub open spec fn allowances(entries: Seq<PoolEntry>) -> Seq<nat> {
    entries.map_values(|e: PoolEntry| e@.remaining)
}

/// Everything that is left, added up.
pub open spec fn total(rem: Seq<nat>) -> nat
    decreases rem.len(),
{
    if rem.len() == 0 {
        0
    } else {
        total(rem.drop_last()) + rem.last()
    }
}

/// The first index in `[start, end)` with allowance left.
pub open spec fn first_with_room(rem: Seq<nat>, start: int, end: int) -> Option<int>
    decreases end - start,
{
    if start >= end {
        None
    } else if rem[start] > 0 {
        Some(start)
    } else {
        first_with_room(rem, start + 1, end)
    }
}

impl Default for SenderPool {
    /// An empty pool.
    fn default() -> (r: SenderPool)
        ensures
            r.wf(),
            r.cursor_spec() == 0,
            r.entries_spec().len() == 0,
            r.allowance().len() == 0,
    {
        SenderPool { entries: Vec::new(), cursor: 0 }
    }
}

/// What `first_with_room` finds lies in the range and has room, and when
/// it finds nothing, nothing in the range has room.
pub proof fn lemma_first_with_room(rem: Seq<nat>, start: int, end: int)
    requires
        0 <= start,
        end <= rem.len(),
    ensures
        match first_with_room(rem, start, end) {
            Some(k) => start <= k < end && rem[k] > 0 && forall|j: int|
                start <= j < k ==> rem[j] == 0,
            None => forall|j: int| start <= j < end ==> rem[j] == 0,
        },
    decreases end - start,
{
    if start < end {
        lemma_first_with_room(rem, start + 1, end);
    }
}

/// Which entry the next send comes from: the first with room at or after
/// the cursor, wrapping round to the start.
pub open spec fn next_entry(rem: Seq<nat>, cursor: int) -> Option<int> {
    match first_with_room(rem, cursor, rem.len() as int) {
        Some(k) => Some(k),
        None => first_with_room(rem, 0, cursor),
    }
}

impl SenderPool {
    /// The cursor points into the pool, or is zero when the pool is empty.
    pub closed spec fn wf(&self) -> bool {
        self.cursor == 0 || self.cursor < self.entries@.len()
    }

    /// The entries, in the order the pool uses them.
    pub closed spec fn entries_spec(&self) -> Seq<PoolEntryView> {
        self.entries@.map_values(|e: PoolEntry| e@)
    }

    pub closed spec fn cursor_spec(&self) -> int {
        self.cursor as int
    }

    /// What each entry has left.
    pub open spec fn allowance(&self) -> Seq<nat> {
        self.entries_spec().map_values(|e: PoolEntryView| e.remaining)
    }

    /// A pool of exactly one sender with no per-account cap.
    ///
    /// Used for a dry run, for sending to a single broker, and by anything
    /// that has a transport but no stored account behind it.
    pub fn single(from: String) -> (r: SenderPool)
        ensures
            r.wf(),
            r.cursor_spec() == 0,
            r.entries_spec().len() == 1,
            r.entries_spec()[0] == (PoolEntryView {
                account_id: None,
                label: from@,
                from: from@,
                remaining: usize::MAX as nat,
            }),
            r.allowance() == seq![usize::MAX as nat],
    {
        let label = from.clone();
        SenderPool {
            entries: vec![PoolEntry { account_id: None, label, from, remaining: usize::MAX }],
            cursor: 0,
        }
    }

    /// Build a pool from what each account has left today. `can_send[i]`
    /// says whether a working transport could be made for `capacity[i]`.
    ///
    /// An account that is disabled, spent, or cannot send is left out
    /// rather than failing the run: one mailbox with a stale password
    /// should not stop the others. The order is kept, since the accounts
    /// arrive ordered by priority.
    pub fn from_capacity(capacity: &[AccountCapacity], can_send: &[bool]) -> (r: SenderPool)
        requires
            capacity@.len() == can_send@.len(),
        ensures
            r.wf(),
            r.cursor_spec() == 0,
            r.entries_spec().len() == usable(capacity@, can_send@).len(),
            forall|k: int|
                0 <= k < r.entries_spec().len() ==> {
                    let c = #[trigger] usable(capacity@, can_send@)[k];
                    r.entries_spec()[k] == (PoolEntryView {
                        account_id: Some(c.account.id),
                        label: c.account.display_name_view(),
                        from: c.account.from_address@,
                        remaining: (c.remaining as usize) as nat,
                    })
                },
    {
        let mut entries: Vec<PoolEntry> = Vec::new();
        let mut i: usize = 0;
        while i < capacity.len()
            invariant
                i <= capacity@.len(),
                capacity@.len() == can_send@.len(),
                entries@.len() == usable(capacity@.take(i as int), can_send@.take(i as int)).len(),
                forall|k: int|
                    0 <= k < entries@.len() ==> {
                        let c = #[trigger] usable(capacity@.take(i as int), can_send@.take(i as int))[k];
                        entries@[k]@ == (PoolEntryView {
                            account_id: Some(c.account.id),
                            label: c.account.display_name_view(),
                            from: c.account.from_address@,
                            remaining: (c.remaining as usize) as nat,
                        })
                    },
            decreases capacity@.len() - i,
        {
            proof {
                assert(capacity@.take(i + 1).drop_last() == capacity@.take(i as int));
                assert(can_send@.take(i + 1).drop_last() == can_send@.take(i as int));
                assert(capacity@.take(i + 1).last() == capacity@[i as int]);
                assert(can_send@.take(i + 1).last() == can_send@[i as int]);
            }
            let available = &capacity[i];
            if available.is_available() && can_send[i] {
                let account = &available.account;
                entries.push(
                    PoolEntry {
                        account_id: Some(account.id),
                        label: account.display_name(),
                        from: account.from_address.clone(),
                        remaining: available.remaining as usize,
                    },
                );
            }
            i = i + 1;
        }
        proof {
            assert(capacity@.take(capacity@.len() as int) == capacity@);
            assert(can_send@.take(can_send@.len() as int) == can_send@);
        }
        SenderPool { entries, cursor: 0 }
    }

    pub fn is_empty(&self) -> (r: bool)
        ensures
            r == (self.entries_spec().len() == 0),
    {
        self.entries.len() == 0
    }

    pub fn len(&self) -> (r: usize)
        ensures
            r == self.entries_spec().len(),
    {
        self.entries.len()
    }

    /// How many more messages this pool can send today, saturating at
    /// `usize::MAX`.
    pub fn remaining(&self) -> (r: usize)
        ensures
            r == (if total(self.allowance()) > usize::MAX {
                usize::MAX as nat
            } else {
                total(self.allowance())
            }),
    {
        let ghost rem = self.allowance();
        assert(rem =~= allowances(self.entries@));
        let mut sum: usize = 0;
        let mut i: usize = 0;
        while i < self.entries.len()
            invariant
                i <= self.entries@.len(),
                rem == allowances(self.entries@),
                rem == self.allowance(),
                sum == (if total(rem.take(i as int)) > usize::MAX {
                    usize::MAX as nat
                } else {
                    total(rem.take(i as int))
                }),
            decreases self.entries@.len() - i,
        {
            proof {
                assert(rem.take(i + 1).drop_last() == rem.take(i as int));
                assert(rem.take(i + 1).last() == self.entries@[i as int].remaining as nat);
            }
            sum = sum.saturating_add(self.entries[i].remaining);
            i = i + 1;
        }
        assert(rem.take(self.entries@.len() as int) == rem);
        sum
    }

    /// The accounts in the pool, for reporting.
    pub fn entries(&self) -> (r: &[PoolEntry])
        ensures
            r@.map_values(|e: PoolEntry| e@) == self.entries_spec(),
    {
        self.entries.as_slice()
    }

    /// The first entry in `[start, end)` with allowance left.
    fn find_with_room(&self, start: usize, end: usize) -> (r: Option<usize>)
        requires
            start <= end <= self.entries@.len(),
        ensures
            match r {
                None => first_with_room(self.allowance(), start as int, end as int) is None,
                Some(k) => first_with_room(self.allowance(), start as int, end as int) == Some(
                    k as int,
                ),
            },
    {
        let ghost rem = self.allowance();
        assert(rem =~= allowances(self.entries@));
        let mut i = start;
        while i < end
            invariant
                start <= i <= end,
                end <= self.entries@.len(),
                rem == allowances(self.entries@),
                rem == self.allowance(),
                first_with_room(rem, start as int, end as int) == first_with_room(
                    rem,
                    i as int,
                    end as int,
                ),
            decreases end - i,
        {
            if self.entries[i].remaining > 0 {
                return Some(i);
            }
            i = i + 1;
        }
        None
    }

    /// Take one send's worth of allowance from the next usable account.
    ///
    /// Returns what to send with, or `None` when every account is spent.
    /// The allowance is taken before the send rather than after it: a
    /// message that fails has usually still been counted by the provider.
    pub fn take(&mut self) -> (r: Option<Reservation>)
        requires
            old(self).wf(),
        ensures
            final(self).wf(),
            final(self).entries_spec().len() == old(self).entries_spec().len(),
            match r {
                None => {
                    &&& next_entry(old(self).allowance(), old(self).cursor_spec()) is None
                    &&& final(self).entries_spec() == old(self).entries_spec()
                    &&& final(self).cursor_spec() == old(self).cursor_spec()
                    &&& final(self).allowance() == old(self).allowance()
                },
                Some(res) => {
                    let k = res.index as int;
                    &&& next_entry(old(self).allowance(), old(self).cursor_spec()) == Some(k)
                    &&& final(self).cursor_spec() == k
                    &&& final(self).entries_spec() == old(self).entries_spec().update(
                        k,
                        PoolEntryView {
                            remaining: (old(self).entries_spec()[k].remaining - 1) as nat,
                            ..old(self).entries_spec()[k]
                        },
                    )
                    &&& final(self).allowance() == old(self).allowance().update(
                        k,
                        (old(self).allowance()[k] - 1) as nat,
                    )
                    &&& res.account_id == old(self).entries_spec()[k].account_id
                    &&& res.label@ == old(self).entries_spec()[k].label
                    &&& res.from@ == old(self).entries_spec()[k].from
                },
            },
    {
        let n = self.entries.len();
        let mut found = self.find_with_room(self.cursor, n);
        if found.is_none() {
            found = self.find_with_room(0, self.cursor);
        }
        proof {
            lemma_first_with_room(old(self).allowance(), old(self).cursor as int, n as int);
            lemma_first_with_room(old(self).allowance(), 0, old(self).cursor as int);
        }
        match found {
            None => None,
            Some(k) => {
                self.cursor = k;
                let left = self.entries[k].remaining - 1;
                self.entries[k].remaining = left;
                proof {
                    assert(self.entries_spec() =~= old(self).entries_spec().update(
                        k as int,
                        PoolEntryView {
                            remaining: (old(self).entries_spec()[k as int].remaining - 1) as nat,
                            ..old(self).entries_spec()[k as int]
                        },
                    ));
                    assert(self.allowance() =~= old(self).allowance().update(k as int, left as nat));
                }
                let entry = &self.entries[k];
                Some(
                    Reservation {
                        index: k,
                        account_id: entry.account_id,
                        label: entry.label.clone(),
                        from: entry.from.clone(),
                    },
                )
            },
        }
    }
}

/// The accounts a pool is built from: available, and able to send.
pub open spec fn usable(capacity: Seq<AccountCapacity>, can_send: Seq<bool>) -> Seq<AccountCapacity>
    decreases capacity.len(),
{
    if capacity.len() == 0 || can_send.len() == 0 {
        Seq::empty()
    } else {
        let before = usable(capacity.drop_last(), can_send.drop_last());
        let c = capacity.last();
        if c.account.enabled && c.remaining > 0 && can_send.last() {
            before.push(c)
        } else {
            before
        }
    }
}

/// Nothing is left in total exactly when every entry is spent.
pub proof fn lemma_total_zero(rem: Seq<nat>)
    ensures
        total(rem) == 0 <==> forall|j: int| 0 <= j < rem.len() ==> rem[j] == 0,
    decreases rem.len(),
{
    if rem.len() > 0 {
        lemma_total_zero(rem.drop_last());
        if total(rem) == 0 {
            assert forall|j: int| 0 <= j < rem.len() implies rem[j] == 0 by {
                if j < rem.len() - 1 {
                    assert(rem.drop_last()[j] == rem[j]);
                }
            }
        } else {
            if forall|j: int| 0 <= j < rem.len() ==> rem[j] == 0 {
                assert forall|j: int| 0 <= j < rem.drop_last().len() implies rem.drop_last()[j]
                    == 0 by {
                    assert(rem.drop_last()[j] == rem[j]);
                }
            }
        }
    }
}

/// Changing one entry changes the total by the difference.
pub proof fn lemma_total_update(rem: Seq<nat>, k: int, v: nat)
    requires
        0 <= k < rem.len(),
    ensures
        total(rem.update(k, v)) + rem[k] == total(rem) + v,
    decreases rem.len(),
{
    let up = rem.update(k, v);
    if k == rem.len() - 1 {
        assert(up.drop_last() =~= rem.drop_last());
    } else {
        lemma_total_update(rem.drop_last(), k, v);
        assert(up.drop_last() =~= rem.drop_last().update(k, v));
    }
}

/// A pool hands out nothing exactly when everything in it is spent: no
/// account with allowance left is ever passed over.
pub proof fn law_take_fails_only_when_spent(pool: SenderPool)
    requires
        pool.wf(),
    ensures
        next_entry(pool.allowance(), pool.cursor_spec()) is None <==> total(pool.allowance())
            == 0,
{
    let rem = pool.allowance();
    let c = pool.cursor_spec();
    lemma_total_zero(rem);
    lemma_first_with_room(rem, c, rem.len() as int);
    lemma_first_with_room(rem, 0, c);
    if total(rem) != 0 {
        let j = choose|j: int| 0 <= j < rem.len() && rem[j] != 0;
        assert(rem[j] != 0);
    }
}

/// Each send taken from a pool uses up exactly one message of what it has
/// left, so the figure shown before a run tracks what has been taken.
pub proof fn law_take_uses_one(pool: SenderPool, k: int)
    requires
        pool.wf(),
        next_entry(pool.allowance(), pool.cursor_spec()) == Some(k),
    ensures
        0 <= k < pool.allowance().len(),
        pool.allowance()[k] > 0,
        total(pool.allowance().update(k, (pool.allowance()[k] - 1) as nat)) + 1 == total(
            pool.allowance(),
        ),
{
    let rem = pool.allowance();
    let c = pool.cursor_spec();
    lemma_first_with_room(rem, c, rem.len() as int);
    lemma_first_with_room(rem, 0, c);
    lemma_total_update(rem, k, (rem[k] - 1) as nat);
}

/// A run stays on the account it last used while that account has room,
/// rather than alternating between mailboxes.
pub proof fn law_take_stays_while_room(pool: SenderPool)
    requires
        pool.wf(),
        0 <= pool.cursor_spec() < pool.allowance().len(),
        pool.allowance()[pool.cursor_spec()] > 0,
    ensures
        next_entry(pool.allowance(), pool.cursor_spec()) == Some(pool.cursor_spec()),
{
}

} // verus!
