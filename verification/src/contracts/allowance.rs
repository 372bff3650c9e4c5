//! Token allowances: the bare `approve` that is open to the
//! approve/transfer-from race, and the atomic increase and decrease helpers
//! that avoid it.
use vstd::prelude::*;

verus! {

/// The storage key of an allowance: who granted it and who may spend it.
/// Accounts are identified by number.
#[derive(PartialEq, Eq, Structural, Clone, Copy, Debug)]
pub struct AllowanceKey {
    pub owner: u64,
    pub spender: u64,
}

/// A stored allowance, or 0 when none is stored.
pub open spec fn stored_or_zero(stored: Option<i128>) -> i128 {
    match stored {
        Some(a) => a,
        None => 0,
    }
}

/// The allowance read from storage, 0 when none is stored.
pub fn stored_allowance(stored: Option<i128>) -> (r: i128)
    ensures
        r == stored_or_zero(stored),
{
    match stored {
        Some(a) => a,
        None => 0,
    }
}

/// The allowance left after spending `amount` of `current`; the spend must
/// be covered (the contract panics with "insufficient allowance" otherwise).
pub fn allowance_after_transfer(current: i128, amount: i128) -> (r: i128)
    requires
        current >= amount,
        current - amount <= i128::MAX,
    ensures
        r == current - amount,
{
    current - amount
}

/// The allowance after raising `current` by a positive `delta` (the contract
/// panics with "delta must be positive" otherwise).
pub fn allowance_after_increase(current: i128, delta: i128) -> (r: i128)
    requires
        delta > 0,
        current + delta <= i128::MAX,
    ensures
        r == current + delta,
{
    current + delta
}

/// `current - delta`, but never below zero.
pub open spec fn decreased(current: int, delta: int) -> int {
    if current - delta >= 0 {
        current - delta
    } else {
        0
    }
}

/// The allowance after lowering `current` by a positive `delta`, clamped at
/// zero (the contract panics with "delta must be positive" otherwise).
pub fn allowance_after_decrease(current: i128, delta: i128) -> (r: i128)
    requires
        delta > 0,
        current - delta >= i128::MIN,
    ensures
        r == decreased(current as int, delta as int),
{
    let next = current - delta;
    if next >= 0 {
        next
    } else {
        0
    }
}

/// The allowance stored under `key` in `m`, 0 when none is stored.
pub open spec fn allowance_of(m: Map<AllowanceKey, i128>, key: AllowanceKey) -> i128 {
    if m.contains_key(key) {
        m[key]
    } else {
        0
    }
}

/// The allowances that a list of (key, amount) writes leaves, later writes
/// winning.
pub open spec fn entries_map(s: Seq<(AllowanceKey, i128)>) -> Map<AllowanceKey, i128>
    decreases s.len(),
{
    if s.len() == 0 {
        Map::empty()
    } else {
        entries_map(s.drop_last()).insert(s.last().0, s.last().1)
    }
}

/// Whether `i` is the last position of `key` in `s`.
pub open spec fn is_last_position(s: Seq<(AllowanceKey, i128)>, key: AllowanceKey, i: int) -> bool {
    &&& 0 <= i < s.len()
    &&& s[i].0 == key
    &&& forall|j: int| i < j < s.len() ==> #[trigger] s[j].0 != key
}

proof fn lemma_entries_absent(s: Seq<(AllowanceKey, i128)>, key: AllowanceKey)
    requires
        forall|j: int| 0 <= j < s.len() ==> #[trigger] s[j].0 != key,
    ensures
        !entries_map(s).contains_key(key),
    decreases s.len(),
{
    if s.len() > 0 {
        lemma_entries_absent(s.drop_last(), key);
    }
}

proof fn lemma_entries_at_last(s: Seq<(AllowanceKey, i128)>, key: AllowanceKey, i: int)
    requires
        is_last_position(s, key, i),
    ensures
        entries_map(s).contains_key(key),
        entries_map(s)[key] == s[i].1,
    decreases s.len(),
{
    if i < s.len() - 1 {
        lemma_entries_at_last(s.drop_last(), key, i);
    }
}

proof fn lemma_entries_update(s: Seq<(AllowanceKey, i128)>, key: AllowanceKey, i: int, v: i128)
    requires
        is_last_position(s, key, i),
    ensures
        entries_map(s.update(i, (key, v))) == entries_map(s).insert(key, v),
    decreases s.len(),
{
    let t = s.update(i, (key, v));
    if i == s.len() - 1 {
        assert(t.drop_last() =~= s.drop_last());
        assert(entries_map(t) =~= entries_map(s).insert(key, v));
    } else {
        assert(t.drop_last() =~= s.drop_last().update(i, (key, v)));
        lemma_entries_update(s.drop_last(), key, i, v);
        assert(entries_map(t) =~= entries_map(s).insert(key, v));
    }
}

/// Why an allowance call fails.
#[derive(PartialEq, Eq, Structural, Clone, Copy, Debug)]
pub enum AllowanceError {
    /// The address whose authorization the call requires did not give it.
    NotAuthorized,
}

/// A token transfer for the token contract to make: `amount` from `from` to
/// `to`.
#[derive(PartialEq, Eq, Structural, Clone, Copy, Debug)]
pub struct TokenTransfer {
    pub from: u64,
    pub to: u64,
    pub amount: i128,
}

/// A model of the contract's allowance storage, keyed by owner and spender.
pub struct AllowanceRaceContract {
    entries: Vec<(AllowanceKey, i128)>,
}

impl View for AllowanceRaceContract {
    type V = Map<AllowanceKey, i128>;

    closed spec fn view(&self) -> Map<AllowanceKey, i128> {
        entries_map(self.entries@)
    }
}

impl AllowanceRaceContract {
    /// A contract with no allowance stored.
    pub fn new() -> (c: Self)
        ensures
            c@ == Map::<AllowanceKey, i128>::empty(),
    {
        AllowanceRaceContract { entries: Vec::new() }
    }

    fn position(&self, key: AllowanceKey) -> (r: Option<usize>)
        ensures
            match r {
                Some(i) => is_last_position(self.entries@, key, i as int),
                None => forall|j: int| 0 <= j < self.entries@.len() ==> #[trigger] self.entries@[j].0 != key,
            },
    {
        let mut i = self.entries.len();
        while i > 0
            invariant
                i <= self.entries@.len(),
                forall|j: int| i <= j < self.entries@.len() ==> #[trigger] self.entries@[j].0 != key,
            decreases i,
        {
            if self.entries[i - 1].0 == key {
                return Some(i - 1);
            }
            i -= 1;
        }
        None
    }

    fn read(&self, key: AllowanceKey) -> (r: Option<i128>)
        ensures
            r == (if self@.contains_key(key) { Some(self@[key]) } else { None::<i128> }),
    {
        match self.position(key) {
            Some(i) => {
                proof {
                    lemma_entries_at_last(self.entries@, key, i as int);
                }
                Some(self.entries[i].1)
            },
            None => {
                proof {
                    lemma_entries_absent(self.entries@, key);
                }
                None
            },
        }
    }

    fn write(&mut self, key: AllowanceKey, amount: i128)
        ensures
            final(self)@ == old(self)@.insert(key, amount),
    {
        match self.position(key) {
            Some(i) => {
                proof {
                    lemma_entries_update(self.entries@, key, i as int, amount);
                }
                self.entries.set(i, (key, amount));
            },
            None => {
                self.entries.push((key, amount));
                assert(self.entries@.drop_last() =~= old(self).entries@);
            },
        }
    }

    /// Sets the allowance of `spender` over `owner`'s tokens to `amount`,
    /// whatever it was: the call that an in-flight spend can race.
    /// `authorized` is whether `owner` authorized the call
    /// (`require_auth`); without it the call fails and nothing changes.
    pub fn approve(&mut self, authorized: bool, owner: u64, spender: u64, amount: i128) -> (r: Result<
        (),
        AllowanceError,
    >)
        ensures
            authorized ==> r is Ok && final(self)@ == old(self)@.insert(
                AllowanceKey { owner, spender },
                amount,
            ),
            !authorized ==> r == Err::<(), AllowanceError>(AllowanceError::NotAuthorized)
                && final(self)@ == old(self)@,
    {
        if !authorized {
            return Err(AllowanceError::NotAuthorized);
        }
        let key = AllowanceKey { owner, spender };
        self.write(key, amount);
        Ok(())
    }

    /// Spends `amount` of the allowance of `spender` over `owner`'s tokens
    /// and gives back the one token transfer to make after that write: of
    /// `amount` from `owner` to `recipient`.  `authorized` is whether
    /// `spender` authorized the call (`require_auth`); without it the call
    /// fails and nothing changes.  When authorized, the allowance must cover
    /// the spend (the contract panics with "insufficient allowance"
    /// otherwise).
    pub fn transfer_from(
        &mut self,
        authorized: bool,
        spender: u64,
        owner: u64,
        recipient: u64,
        amount: i128,
    ) -> (r: Result<TokenTransfer, AllowanceError>)
        requires
            authorized ==> allowance_of(old(self)@, AllowanceKey { owner, spender }) >= amount,
            authorized ==> allowance_of(old(self)@, AllowanceKey { owner, spender }) - amount
                <= i128::MAX,
        ensures
            authorized ==> r == Ok::<TokenTransfer, AllowanceError>(
                TokenTransfer { from: owner, to: recipient, amount },
            ) && final(self)@ == old(self)@.insert(
                AllowanceKey { owner, spender },
                (allowance_of(old(self)@, AllowanceKey { owner, spender }) - amount) as i128,
            ),
            !authorized ==> r == Err::<TokenTransfer, AllowanceError>(AllowanceError::NotAuthorized)
                && final(self)@ == old(self)@,
    {
        if !authorized {
            return Err(AllowanceError::NotAuthorized);
        }
        let key = AllowanceKey { owner, spender };
        let current = stored_allowance(self.read(key));
        let next = allowance_after_transfer(current, amount);
        self.write(key, next);
        Ok(TokenTransfer { from: owner, to: recipient, amount })
    }

    /// Raises the allowance by a positive `delta`, atomically.  `authorized`
    /// is whether `owner` authorized the call; without it the call fails and
    /// nothing changes.
    pub fn increase_allowance(&mut self, authorized: bool, owner: u64, spender: u64, delta: i128) -> (r:
        Result<(), AllowanceError>)
        requires
            authorized ==> delta > 0,
            authorized ==> allowance_of(old(self)@, AllowanceKey { owner, spender }) + delta
                <= i128::MAX,
        ensures
            authorized ==> r is Ok && final(self)@ == old(self)@.insert(
                AllowanceKey { owner, spender },
                (allowance_of(old(self)@, AllowanceKey { owner, spender }) + delta) as i128,
            ),
            !authorized ==> r == Err::<(), AllowanceError>(AllowanceError::NotAuthorized)
                && final(self)@ == old(self)@,
    {
        if !authorized {
            return Err(AllowanceError::NotAuthorized);
        }
        let key = AllowanceKey { owner, spender };
        let current = stored_allowance(self.read(key));
        let next = allowance_after_increase(current, delta);
        self.write(key, next);
        Ok(())
    }

    /// Lowers the allowance by a positive `delta`, atomically, clamping at
    /// zero.  `authorized` is whether `owner` authorized the call; without it
    /// the call fails and nothing changes.
    pub fn decrease_allowance(&mut self, authorized: bool, owner: u64, spender: u64, delta: i128) -> (r:
        Result<(), AllowanceError>)
        requires
            authorized ==> delta > 0,
            authorized ==> allowance_of(old(self)@, AllowanceKey { owner, spender }) - delta
                >= i128::MIN,
        ensures
            authorized ==> r is Ok && final(self)@ == old(self)@.insert(
                AllowanceKey { owner, spender },
                decreased(
                    allowance_of(old(self)@, AllowanceKey { owner, spender }) as int,
                    delta as int,
                ) as i128,
            ),
            !authorized ==> r == Err::<(), AllowanceError>(AllowanceError::NotAuthorized)
                && final(self)@ == old(self)@,
    {
        if !authorized {
            return Err(AllowanceError::NotAuthorized);
        }
        let key = AllowanceKey { owner, spender };
        let current = stored_allowance(self.read(key));
        let next = allowance_after_decrease(current, delta);
        self.write(key, next);
        Ok(())
    }

    /// The current allowance of `spender` over `owner`'s tokens, 0 when none
    /// was set.
    pub fn allowance(&self, owner: u64, spender: u64) -> (r: i128)
        ensures
            r == allowance_of(self@, AllowanceKey { owner, spender }),
    {
        stored_allowance(self.read(AllowanceKey { owner, spender }))
    }
}

/// Raising an allowance by `a` and then by `b` leaves it as one raise by
/// `a + b`.
pub proof fn increases_add_up(m: Map<AllowanceKey, i128>, key: AllowanceKey, a: i128, b: i128)
    requires
        a > 0,
        b > 0,
        allowance_of(m, key) + a + b <= i128::MAX,
    ensures
        ({
            let once = m.insert(key, (allowance_of(m, key) + a) as i128);
            let twice = once.insert(key, (allowance_of(once, key) + b) as i128);
            twice == m.insert(key, (allowance_of(m, key) + (a + b)) as i128)
        }),
{
    let once = m.insert(key, (allowance_of(m, key) + a) as i128);
    let twice = once.insert(key, (allowance_of(once, key) + b) as i128);
    assert(twice =~= m.insert(key, (allowance_of(m, key) + (a + b)) as i128));
}

/// Lowering an allowance by `delta` right after raising it by `delta` gives
/// back the allowance there was, when that was not negative.
pub proof fn decrease_undoes_increase(m: Map<AllowanceKey, i128>, key: AllowanceKey, delta: i128)
    requires
        delta > 0,
        allowance_of(m, key) >= 0,
        allowance_of(m, key) + delta <= i128::MAX,
    ensures
        ({
            let raised = m.insert(key, (allowance_of(m, key) + delta) as i128);
            let lowered = raised.insert(
                key,
                decreased(allowance_of(raised, key) as int, delta as int) as i128,
            );
            allowance_of(lowered, key) == allowance_of(m, key)
        }),
{
}

/// An allowance lowered from a non-negative value stays non-negative, and
/// is never lower than it was minus `delta`.
pub proof fn decrease_stays_non_negative(current: i128, delta: i128)
    requires
        delta > 0,
    ensures
        decreased(current as int, delta as int) >= 0,
        decreased(current as int, delta as int) >= current - delta,
        current >= 0 ==> decreased(current as int, delta as int) <= current,
{
}

/// The race that a bare `approve` allows: a spender who spends the whole
/// allowance `a` before the owner's `approve(b)` lands can then still spend
/// all of `b`, `a + b` in all, where the owner meant to allow only `b`.
pub proof fn approve_race_spends_both(m: Map<AllowanceKey, i128>, key: AllowanceKey, a: i128, b: i128)
    requires
        a >= 0,
        b >= 0,
    ensures
        ({
            let approved = m.insert(key, a);
            let spent = approved.insert(key, (allowance_of(approved, key) - a) as i128);
            let reapproved = spent.insert(key, b);
            &&& allowance_of(approved, key) == a
            &&& allowance_of(spent, key) == 0
            &&& allowance_of(reapproved, key) == b
        }),
{
}

/// Changing one allowance leaves every other (owner, spender) pair's
/// allowance as it was.
pub proof fn other_allowances_unchanged(
    m: Map<AllowanceKey, i128>,
    key: AllowanceKey,
    other: AllowanceKey,
    v: i128,
)
    requires
        other != key,
    ensures
        allowance_of(m.insert(key, v), other) == allowance_of(m, other),
{
}

} // verus!
