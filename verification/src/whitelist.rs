//! The token whitelist: which tokens the Ahjoor contracts accept.
//!
//! An admin, set once at initialisation and handed over in two steps
//! (propose, then accept), maintains the list of whitelisted tokens. A
//! whitelisted token can be suspended until a given ledger; while suspended
//! it is treated as not whitelisted, and the first query after the expiry
//! lifts the suspension. The last ten suspensions of each token are kept as
//! its history. A token can also carry a quota: at most a given volume over a
//! sliding window of ledgers; volumes are recorded per ledger.
//!
//! Every operation returns `Err` with a [`Rejection`] where the contract
//! refuses the call, and then leaves the state unchanged.
use vstd::prelude::*;

use crate::assoc::{
    assoc_map, has_key, keys_unique, lemma_assoc_at, lemma_assoc_empty, lemma_assoc_push,
    lemma_assoc_update,
};
use crate::AccountId;

verus! {

/// Most suspension records kept per token.
pub const SUSPENSION_HISTORY_CAP: usize = 10;

/// Errors that the whitelist returns to its callers.
#[derive(Clone, Copy, Debug, Eq, PartialEq, Structural)]
pub enum Error {
    NotInitialized,
    AlreadyInitialized,
    Unauthorized,
    TokenAlreadyWhitelisted,
    TokenNotWhitelisted,
    QuotaExceeded,
    TokenAlreadyHasQuota,
    TokenHasNoQuota,
}

/// Why the whitelist refuses a call.
#[derive(Clone, Copy, Debug, Eq, PartialEq, Structural)]
pub enum Rejection {
    /// `initialize` was called a second time.
    AlreadyInitialized,
    /// No admin has been set yet.
    NotInitialized,
    /// The caller is not the admin.
    Unauthorized,
    TokenAlreadyWhitelisted,
    TokenNotWhitelisted,
    /// `accept_admin` without a pending proposal.
    NoAdminTransferProposed,
    /// `accept_admin` by someone other than the proposed admin.
    NotProposedAdmin,
    /// A suspension of zero ledgers.
    NonPositiveSuspendDuration,
    /// The token is not suspended.
    NoActiveSuspension,
    /// An extension of zero ledgers.
    NonPositiveAdditionalLedgers,
    TokenAlreadyHasQuota,
    TokenHasNoQuota,
    /// A quota whose volume is not positive.
    NonPositiveMaxVolume,
    /// A quota whose period is zero ledgers.
    NonPositivePeriod,
    /// A volume that is not positive.
    NonPositiveAmount,
    /// A ledger number or a volume out of range of its integer type.
    ArithmeticOverflow,
}

/// A token's quota: at most `max_volume_per_period` over the last
/// `period_ledgers` ledgers.
#[derive(Clone, Copy, Debug, Eq, PartialEq, Structural)]
pub struct TokenQuota {
    pub max_volume_per_period: i128,
    pub period_ledgers: u32,
}

/// An active suspension: the token is suspended while the ledger sequence is
/// below `expiry_ledger`.
#[derive(Clone, Copy, Debug, Eq, PartialEq)]
pub struct TokenSuspension {
    pub expiry_ledger: u32,
    pub reason_hash: [u8; 32],
}

/// A past or present suspension.
#[derive(Clone, Copy, Debug, Eq, PartialEq)]
pub struct SuspensionRecord {
    pub expiry_ledger: u32,
    pub reason_hash: [u8; 32],
    pub lifted_early: bool,
}

/// What the whitelist keeps about one token.
#[derive(Clone, Debug)]
pub struct TokenState {
    pub suspension: Option<TokenSuspension>,
    /// Oldest first, at most [`SUSPENSION_HISTORY_CAP`] records.
    pub history: Vec<SuspensionRecord>,
    pub quota: Option<TokenQuota>,
    /// Recorded volume per ledger; each ledger occurs once.
    pub volume_buckets: Vec<(u32, i128)>,
}

/// The whitelist contract's state.
#[derive(Clone, Debug)]
pub struct TokenWhitelistContract {
    pub admin: Option<AccountId>,
    pub proposed_admin: Option<AccountId>,
    /// The whitelisted tokens, in the order they were added.
    pub whitelist: Vec<AccountId>,
    /// Per-token state; each token occurs once.
    pub tokens: Vec<(AccountId, TokenState)>,
}

// ---------------------------------------------------------------------------
// Specification
// ---------------------------------------------------------------------------

impl TokenState {
    /// The invariant of one token's state.
    pub open spec fn wf(&self) -> bool {
        &&& self.history@.len() <= SUSPENSION_HISTORY_CAP
        &&& (self.quota matches Some(q) ==> q.max_volume_per_period > 0 && q.period_ledgers > 0)
        &&& keys_unique(self.volume_buckets@)
        &&& forall|j: int|
            0 <= j < self.volume_buckets@.len() ==> (#[trigger] self.volume_buckets@[j]).1 > 0
    }

    /// The volume recorded over the `count` ledgers from `from`.
    pub open spec fn range_sum(&self, from: int, count: nat) -> int
        decreases count,
    {
        if count == 0 {
            0
        } else {
            self.range_sum(from, (count - 1) as nat) + self.bucket(from + count - 1)
        }
    }

    /// Nothing is known about the token.
    pub open spec fn is_blank(&self) -> bool {
        &&& self.suspension is None
        &&& self.history@.len() == 0
        &&& self.quota is None
        &&& self.volume_buckets@.len() == 0
    }

    /// The volume recorded at ledger `l`, zero where none is.
    pub open spec fn bucket(&self, l: int) -> int {
        let m = assoc_map(self.volume_buckets@);
        if 0 <= l <= u32::MAX && m.contains_key(l as u32) {
            m[l as u32] as int
        } else {
            0
        }
    }
}

/// The history after a new record: the record appended, the oldest record
/// dropped when the history was full.
pub open spec fn history_pushed(h: Seq<SuspensionRecord>, rec: SuspensionRecord) -> Seq<
    SuspensionRecord,
> {
    if h.len() >= SUSPENSION_HISTORY_CAP {
        h.drop_first().push(rec)
    } else {
        h.push(rec)
    }
}

/// First ledger of the window of `period` ledgers that ends at `current`,
/// counting from ledger zero when the window reaches before it.
pub open spec fn window_start(current: u32, period: u32) -> int {
    if current >= period - 1 {
        current - (period - 1)
    } else {
        0
    }
}

/// Each token occurs once and has a well-formed state.
pub open spec fn tokens_wf(s: Seq<(AccountId, TokenState)>) -> bool {
    &&& keys_unique(s)
    &&& forall|t: AccountId| #[trigger] assoc_map(s).contains_key(t) ==> assoc_map(s)[t].wf()
}

impl TokenWhitelistContract {
    /// The per-token states as a map.
    pub open spec fn token_map(&self) -> Map<AccountId, TokenState> {
        assoc_map(self.tokens@)
    }

    /// The invariant of the contract's state.
    pub open spec fn wf(&self) -> bool {
        &&& self.whitelist@.no_duplicates()
        &&& tokens_wf(self.tokens@)
    }

    /// The active suspension of token `t`.
    pub open spec fn suspension_of(&self, t: AccountId) -> Option<TokenSuspension> {
        if self.token_map().contains_key(t) {
            self.token_map()[t].suspension
        } else {
            None
        }
    }

    /// The suspension history of token `t`, oldest first.
    pub open spec fn history_of(&self, t: AccountId) -> Seq<SuspensionRecord> {
        if self.token_map().contains_key(t) {
            self.token_map()[t].history@
        } else {
            Seq::empty()
        }
    }

    /// The quota of token `t`.
    pub open spec fn quota_of(&self, t: AccountId) -> Option<TokenQuota> {
        if self.token_map().contains_key(t) {
            self.token_map()[t].quota
        } else {
            None
        }
    }

    /// The volume of token `t` recorded at ledger `l`.
    pub open spec fn bucket_volume(&self, t: AccountId, l: int) -> int {
        if self.token_map().contains_key(t) {
            self.token_map()[t].bucket(l)
        } else {
            0
        }
    }

    /// The volume of token `t` recorded over the `count` ledgers from `from`.
    pub open spec fn range_volume(&self, t: AccountId, from: int, count: nat) -> int {
        if self.token_map().contains_key(t) {
            self.token_map()[t].range_sum(from, count)
        } else {
            0
        }
    }

    /// The volume of token `t` recorded in the window of `period` ledgers
    /// that ends at `current`.
    pub open spec fn window_volume(&self, t: AccountId, current: u32, period: u32) -> int {
        let start = window_start(current, period);
        self.range_volume(t, start, (current - start + 1) as nat)
    }

    /// Why `caller` may not act as admin, if it may not.
    pub open spec fn admin_error(&self, caller: AccountId) -> Option<Rejection> {
        match self.admin {
            None => Some(Rejection::NotInitialized),
            Some(a) => if a == caller {
                None
            } else {
                Some(Rejection::Unauthorized)
            },
        }
    }

    /// Whether `t` is allowed at ledger `current`: whitelisted, and not under
    /// a suspension that lasts beyond `current`.
    pub open spec fn allowed_at(&self, t: AccountId, current: u32) -> bool {
        &&& self.whitelist@.contains(t)
        &&& !(self.suspension_of(t) matches Some(s) && current < s.expiry_ledger)
    }

    /// The admin, the pending proposal and the whitelist are as in `other`.
    pub open spec fn same_roles(&self, other: &Self) -> bool {
        &&& self.admin == other.admin
        &&& self.proposed_admin == other.proposed_admin
        &&& self.whitelist@ == other.whitelist@
    }

    /// Every token but `t` has the state it has in `other`.
    pub open spec fn same_tokens_except(&self, other: &Self, t: AccountId) -> bool {
        self.token_map().remove(t) == other.token_map().remove(t)
    }

    /// Token `t` has the volumes it has in `other`.
    pub open spec fn same_volumes(&self, other: &Self, t: AccountId) -> bool {
        forall|l: int| #[trigger] self.bucket_volume(t, l) == other.bucket_volume(t, l)
    }
}

// ---------------------------------------------------------------------------
// Implementation
// ---------------------------------------------------------------------------

impl TokenState {
    /// Checks the invariant of one token's state.
    pub fn is_well_formed(&self) -> (r: bool)
        ensures
            r == self.wf(),
    {
        if self.history.len() > SUSPENSION_HISTORY_CAP {
            return false;
        }
        match self.quota {
            Some(q) => {
                if q.max_volume_per_period <= 0 || q.period_ledgers == 0 {
                    return false;
                }
            },
            None => {},
        }
        let n = self.volume_buckets.len();
        let mut i: usize = 0;
        while i < n
            invariant
                n == self.volume_buckets@.len(),
                i <= n,
                forall|a: int, b: int|
                    0 <= a < i && 0 <= b < n && (#[trigger] self.volume_buckets@[a]).0 == (
                    #[trigger] self.volume_buckets@[b]).0 ==> a == b,
                forall|a: int| 0 <= a < i ==> (#[trigger] self.volume_buckets@[a]).1 > 0,
            decreases n - i,
        {
            if self.volume_buckets[i].1 <= 0 {
                return false;
            }
            let mut j: usize = 0;
            while j < n
                invariant
                    n == self.volume_buckets@.len(),
                    i < n,
                    j <= n,
                    forall|b: int|
                        0 <= b < j && b != i ==> (#[trigger] self.volume_buckets@[b]).0
                            != self.volume_buckets@[i as int].0,
                decreases n - j,
            {
                if j != i && self.volume_buckets[i].0 == self.volume_buckets[j].0 {
                    return false;
                }
                j = j + 1;
            }
            i = i + 1;
        }
        true
    }

    /// The volume recorded at ledger `l`.
    fn volume_at(&self, l: u32) -> (v: i128)
        requires
            self.wf(),
        ensures
            v == self.bucket(l as int),
            v >= 0,
    {
        let mut j: usize = 0;
        while j < self.volume_buckets.len()
            invariant
                j <= self.volume_buckets@.len(),
                self.wf(),
                forall|k: int| 0 <= k < j ==> (#[trigger] self.volume_buckets@[k]).0 != l,
            decreases self.volume_buckets@.len() - j,
        {
            if self.volume_buckets[j].0 == l {
                proof {
                    lemma_assoc_at(self.volume_buckets@, j as int);
                    assert(self.volume_buckets@[j as int].1 > 0);
                }
                return self.volume_buckets[j].1;
            }
            j = j + 1;
        }
        proof {
            assert(!has_key(self.volume_buckets@, l));
        }
        0
    }

    /// The volume recorded from ledger `from` through ledger `to`, or `None`
    /// when it is out of range of `i128`.
    fn sum_volume(&self, from: u32, to: u32) -> (r: Option<i128>)
        requires
            self.wf(),
        ensures
            ({
                let count = if to >= from {
                    (to - from + 1) as nat
                } else {
                    0nat
                };
                match r {
                    Some(v) => v == self.range_sum(from as int, count),
                    None => self.range_sum(from as int, count) > i128::MAX,
                }
            }),
    {
        let ghost count = if to >= from {
            (to - from + 1) as nat
        } else {
            0nat
        };
        let mut acc: i128 = 0;
        let mut l: u64 = from as u64;
        while l <= to as u64
            invariant
                self.wf(),
                from <= l,
                to >= from ==> l <= to + 1,
                to < from ==> l == from,
                count == if to >= from {
                    (to - from + 1) as nat
                } else {
                    0nat
                },
                acc == self.range_sum(from as int, (l - from) as nat),
            decreases to + 1 - l,
        {
            let v = self.volume_at(l as u32);
            proof {
                assert(self.range_sum(from as int, (l + 1 - from) as nat) == acc + v);
            }
            match acc.checked_add(v) {
                Some(a) => {
                    acc = a;
                },
                None => {
                    proof {
                        self.lemma_range_sum_monotone(from as int, (l + 1 - from) as nat, count);
                    }
                    return None;
                },
            }
            l = l + 1;
        }
        Some(acc)
    }

    /// Adds `amount` to the volume recorded at ledger `l`.
    fn add_volume(&mut self, l: u32, amount: i128)
        requires
            old(self).wf(),
            amount > 0,
            old(self).bucket(l as int) + amount <= i128::MAX,
        ensures
            final(self).wf(),
            final(self).suspension == old(self).suspension,
            final(self).history@ == old(self).history@,
            final(self).quota == old(self).quota,
            final(self).bucket(l as int) == old(self).bucket(l as int) + amount,
            forall|x: int| x != l ==> #[trigger] final(self).bucket(x) == old(self).bucket(x),
    {
        let mut j: usize = 0;
        while j < self.volume_buckets.len()
            invariant
                j <= self.volume_buckets@.len(),
                *self == *old(self),
                old(self).wf(),
                amount > 0,
                old(self).bucket(l as int) + amount <= i128::MAX,
                forall|k: int| 0 <= k < j ==> (#[trigger] self.volume_buckets@[k]).0 != l,
            decreases self.volume_buckets@.len() - j,
        {
            if self.volume_buckets[j].0 == l {
                let v = self.volume_buckets[j].1;
                proof {
                    lemma_assoc_at(self.volume_buckets@, j as int);
                    lemma_assoc_update(self.volume_buckets@, j as int, (v + amount) as i128);
                }
                self.volume_buckets.set(j, (l, v + amount));
                return;
            }
            j = j + 1;
        }
        proof {
            assert(!has_key(self.volume_buckets@, l));
            lemma_assoc_push(self.volume_buckets@, l, amount);
        }
        self.volume_buckets.push((l, amount));
    }

    /// A token about which nothing is known.
    pub fn blank() -> (s: Self)
        ensures
            s.is_blank(),
            s.wf(),
    {
        TokenState {
            suspension: None,
            history: Vec::new(),
            quota: None,
            volume_buckets: Vec::new(),
        }
    }
}

impl TokenWhitelistContract {
    /// A contract that has not been initialised.
    pub fn new() -> (c: Self)
        ensures
            c.wf(),
            c.admin is None,
            c.proposed_admin is None,
            c.whitelist@.len() == 0,
            c.token_map() == Map::<AccountId, TokenState>::empty(),
    {
        let c = TokenWhitelistContract {
            admin: None,
            proposed_admin: None,
            whitelist: Vec::new(),
            tokens: Vec::new(),
        };
        proof {
            lemma_assoc_empty(c.tokens@);
        }
        c
    }

    /// Checks the invariant of a state that was put together from outside.
    pub fn is_well_formed(&self) -> (r: bool)
        ensures
            r == self.wf(),
    {
        let n = self.whitelist.len();
        let mut i: usize = 0;
        while i < n
            invariant
                n == self.whitelist@.len(),
                i <= n,
                forall|a: int, b: int|
                    0 <= a < i && 0 <= b < n && a != b ==> self.whitelist@[a] != self.whitelist@[b],
            decreases n - i,
        {
            let mut j: usize = 0;
            while j < n
                invariant
                    n == self.whitelist@.len(),
                    i < n,
                    j <= n,
                    forall|a: int, b: int|
                        0 <= a < i && 0 <= b < n && a != b ==> self.whitelist@[a]
                            != self.whitelist@[b],
                    forall|b: int| 0 <= b < j && b != i ==> self.whitelist@[i as int] != self.whitelist@[b],
                decreases n - j,
            {
                if j != i && self.whitelist[i] == self.whitelist[j] {
                    return false;
                }
                j = j + 1;
            }
            i = i + 1;
        }
        let m = self.tokens.len();
        let mut i: usize = 0;
        while i < m
            invariant
                m == self.tokens@.len(),
                i <= m,
                self.whitelist@.no_duplicates(),
                forall|a: int, b: int|
                    0 <= a < i && 0 <= b < m && (#[trigger] self.tokens@[a]).0 == (
                    #[trigger] self.tokens@[b]).0 ==> a == b,
                forall|a: int| 0 <= a < i ==> (#[trigger] self.tokens@[a]).1.wf(),
            decreases m - i,
        {
            let mut j: usize = 0;
            while j < m
                invariant
                    m == self.tokens@.len(),
                    i < m,
                    j <= m,
                    forall|b: int| 0 <= b < j && b != i ==> (#[trigger] self.tokens@[b]).0 != self.tokens@[i as int].0,
                decreases m - j,
            {
                if j != i && self.tokens[i].0 == self.tokens[j].0 {
                    return false;
                }
                j = j + 1;
            }
            if !self.tokens[i].1.is_well_formed() {
                proof {
                    if keys_unique(self.tokens@) {
                        lemma_assoc_at(self.tokens@, i as int);
                    }
                }
                return false;
            }
            i = i + 1;
        }
        proof {
            assert forall|t: AccountId| #[trigger] self.token_map().contains_key(t) implies self.token_map()[t].wf() by {
                let k = choose|k: int| 0 <= k < self.tokens@.len() && (#[trigger] self.tokens@[k]).0 == t;
                lemma_assoc_at(self.tokens@, k);
            }
        }
        true
    }

    /// Position of token `t` in the per-token states, if it has one.
    fn find_token(&self, t: AccountId) -> (r: Option<usize>)
        requires
            self.wf(),
        ensures
            match r {
                Some(i) => {
                    &&& i < self.tokens@.len()
                    &&& self.tokens@[i as int].0 == t
                    &&& self.token_map().contains_key(t)
                    &&& self.token_map()[t] == self.tokens@[i as int].1
                },
                None => !self.token_map().contains_key(t),
            },
    {
        let mut i: usize = 0;
        while i < self.tokens.len()
            invariant
                i <= self.tokens@.len(),
                keys_unique(self.tokens@),
                forall|k: int| 0 <= k < i ==> (#[trigger] self.tokens@[k]).0 != t,
            decreases self.tokens@.len() - i,
        {
            if self.tokens[i].0 == t {
                proof {
                    lemma_assoc_at(self.tokens@, i as int);
                }
                return Some(i);
            }
            i = i + 1;
        }
        None
    }

    /// Whether `t` is on the whitelist.
    fn is_whitelisted(&self, t: AccountId) -> (r: bool)
        ensures
            r == self.whitelist@.contains(t),
    {
        let mut i: usize = 0;
        while i < self.whitelist.len()
            invariant
                i <= self.whitelist@.len(),
                forall|k: int| 0 <= k < i ==> self.whitelist@[k] != t,
            decreases self.whitelist@.len() - i,
        {
            if self.whitelist[i] == t {
                return true;
            }
            i = i + 1;
        }
        false
    }

    /// Position of token `t` in the per-token states, adding a blank state
    /// for it if it has none.
    fn token_slot(&mut self, t: AccountId) -> (i: usize)
        requires
            old(self).wf(),
        ensures
            final(self).wf(),
            i < final(self).tokens@.len(),
            final(self).tokens@[i as int].0 == t,
            final(self).token_map().contains_key(t),
            final(self).token_map()[t] == final(self).tokens@[i as int].1,
            old(self).token_map().contains_key(t) ==> *final(self) == *old(self),
            !old(self).token_map().contains_key(t) ==> {
                &&& final(self).token_map() == old(self).token_map().insert(
                    t,
                    final(self).tokens@[i as int].1,
                )
                &&& final(self).tokens@[i as int].1.is_blank()
            },
            final(self).same_roles(&*old(self)),
            final(self).admin == old(self).admin,
            final(self).proposed_admin == old(self).proposed_admin,
            final(self).whitelist@ == old(self).whitelist@,
    {
        match self.find_token(t) {
            Some(i) => i,
            None => {
                let ghost pre = self.tokens@;
                let st = TokenState::blank();
                proof {
                    assert(!has_key(pre, t));
                    lemma_assoc_push(pre, t, st);
                }
                self.tokens.push((t, st));
                proof {
                    assert(self.tokens@ == pre.push((t, st)));
                    lemma_assoc_at(self.tokens@, pre.len() as int);
                    assert forall|x: AccountId| #[trigger]
                        self.token_map().contains_key(x) implies self.token_map()[x].wf() by {
                        if x != t {
                            assert(old(self).token_map().contains_key(x));
                        }
                    }
                }
                self.tokens.len() - 1
            },
        }
    }

    /// Sets up the contract with `admin` as its admin and an empty whitelist.
    /// Refused when it has been set up before.
    pub fn initialize(&mut self, admin: AccountId) -> (r: Result<(), Rejection>)
        requires
            old(self).wf(),
        ensures
            final(self).wf(),
            old(self).admin is Some ==> r == Err::<(), Rejection>(Rejection::AlreadyInitialized)
                && *final(self) == *old(self),
            old(self).admin is None ==> {
                &&& r is Ok
                &&& final(self).admin == Some(admin)
                &&& final(self).whitelist@.len() == 0
                &&& final(self).proposed_admin == old(self).proposed_admin
                &&& final(self).tokens@ == old(self).tokens@
            },
    {
        if self.admin.is_some() {
            return Err(Rejection::AlreadyInitialized);
        }
        self.admin = Some(admin);
        self.whitelist = Vec::new();
        Ok(())
    }

    /// Adds `token` to the whitelist. Refused when `admin` is not the admin or
    /// the token is already whitelisted.
    pub fn add_token(&mut self, admin: AccountId, token: AccountId) -> (r: Result<(), Rejection>)
        requires
            old(self).wf(),
        ensures
            final(self).wf(),
            (r == Err::<(), Rejection>(Rejection::NotInitialized)) == (old(self).admin is None),
            (r == Err::<(), Rejection>(Rejection::Unauthorized)) == (old(self).admin is Some
                && old(self).admin != Some(admin)),
            old(self).admin == Some(admin) && !old(self).whitelist@.contains(token) ==> r is Ok
                && final(self).whitelist@ == old(self).whitelist@.push(token),
            match old(self).admin_error(admin) {
                Some(e) => r == Err::<(), Rejection>(e) && *final(self) == *old(self),
                None => if old(self).whitelist@.contains(token) {
                    r == Err::<(), Rejection>(Rejection::TokenAlreadyWhitelisted) && *final(self)
                        == *old(self)
                } else {
                    &&& r is Ok
                    &&& final(self).whitelist@ == old(self).whitelist@.push(token)
                    &&& final(self).admin == old(self).admin
                    &&& final(self).proposed_admin == old(self).proposed_admin
                    &&& final(self).tokens@ == old(self).tokens@
                },
            },
    {
        self.require_admin(admin)?;
        if self.is_whitelisted(token) {
            return Err(Rejection::TokenAlreadyWhitelisted);
        }
        let ghost pre = self.whitelist@;
        self.whitelist.push(token);
        proof {
            assert forall|a: int, b: int|
                0 <= a < self.whitelist@.len() && 0 <= b < self.whitelist@.len() && a != b implies self.whitelist@[a]
                != self.whitelist@[b] by {
                if a < pre.len() && b < pre.len() {
                    assert(pre[a] != pre[b]);
                } else if a < pre.len() {
                    assert(pre.contains(pre[a]));
                } else if b < pre.len() {
                    assert(pre.contains(pre[b]));
                }
            }
        }
        Ok(())
    }

    /// Removes `token` from the whitelist. Refused when `admin` is not the
    /// admin or the token is not whitelisted.
    pub fn remove_token(&mut self, admin: AccountId, token: AccountId) -> (r: Result<(), Rejection>)
        requires
            old(self).wf(),
        ensures
            final(self).wf(),
            (r == Err::<(), Rejection>(Rejection::NotInitialized)) == (old(self).admin is None),
            (r == Err::<(), Rejection>(Rejection::Unauthorized)) == (old(self).admin is Some
                && old(self).admin != Some(admin)),
            match old(self).admin_error(admin) {
                Some(e) => r == Err::<(), Rejection>(e) && *final(self) == *old(self),
                None => if !old(self).whitelist@.contains(token) {
                    r == Err::<(), Rejection>(Rejection::TokenNotWhitelisted) && *final(self)
                        == *old(self)
                } else {
                    &&& r is Ok
                    &&& final(self).whitelist@ == old(self).whitelist@.filter(
                        |x: AccountId| x != token,
                    )
                    &&& final(self).admin == old(self).admin
                    &&& final(self).proposed_admin == old(self).proposed_admin
                    &&& final(self).tokens@ == old(self).tokens@
                },
            },
    {
        self.require_admin(admin)?;
        let ghost pred = |x: AccountId| x != token;
        let mut found = false;
        let mut kept: Vec<AccountId> = Vec::new();
        let mut i: usize = 0;
        while i < self.whitelist.len()
            invariant
                i <= self.whitelist@.len(),
                self.whitelist@.no_duplicates(),
                pred == (|x: AccountId| x != token),
                kept@ == self.whitelist@.take(i as int).filter(pred),
                kept@.no_duplicates(),
                found == self.whitelist@.take(i as int).contains(token),
            decreases self.whitelist@.len() - i,
        {
            let x = self.whitelist[i];
            let ghost prev = kept@;
            let ghost t = self.whitelist@.take((i + 1) as int);
            proof {
                assert(t.drop_last() =~= self.whitelist@.take(i as int));
                assert(t.last() == x);
            }
            if x == token {
                found = true;
            } else {
                proof {
                    if prev.contains(x) {
                        self.whitelist@.take(i as int).lemma_filter_contains_rev(pred, x);
                        let k = choose|k: int| 0 <= k < i && self.whitelist@[k] == x;
                        assert(self.whitelist@[k] == self.whitelist@[i as int]);
                    }
                }
                kept.push(x);
            }
            proof {
                reveal_with_fuel(Seq::<_>::filter, 1);
                assert(pred(x) == (x != token));
                assert(t.filter(pred) == if pred(x) {
                    t.drop_last().filter(pred).push(x)
                } else {
                    t.drop_last().filter(pred)
                });
                assert(kept@ =~= t.filter(pred));
                assert(t.contains(token) == (self.whitelist@.take(i as int).contains(token) || x
                    == token)) by {
                    if t.contains(token) {
                        let k = choose|k: int| 0 <= k < t.len() && t[k] == token;
                        if k < i {
                            assert(self.whitelist@.take(i as int)[k] == token);
                        }
                    }
                    if self.whitelist@.take(i as int).contains(token) {
                        let k = choose|k: int|
                            0 <= k < i && self.whitelist@.take(i as int)[k] == token;
                        assert(t[k] == token);
                    }
                    if x == token {
                        assert(t[i as int] == token);
                    }
                }
            }
            i = i + 1;
        }
        proof {
            assert(self.whitelist@.take(self.whitelist@.len() as int) =~= self.whitelist@);
        }
        if !found {
            return Err(Rejection::TokenNotWhitelisted);
        }
        self.whitelist = kept;
        Ok(())
    }

    /// Whether `token` is allowed at ledger `current_ledger`: whitelisted and
    /// not suspended. A suspension that has run out is lifted on the way.
    pub fn is_token_allowed(&mut self, token: AccountId, current_ledger: u32) -> (r: bool)
        requires
            old(self).wf(),
        ensures
            final(self).wf(),
            r == old(self).allowed_at(token, current_ledger),
            match old(self).suspension_of(token) {
                Some(s) => if current_ledger < s.expiry_ledger {
                    *final(self) == *old(self)
                } else {
                    &&& final(self).suspension_of(token) is None
                    &&& final(self).history_of(token) == old(self).history_of(token)
                    &&& final(self).quota_of(token) == old(self).quota_of(token)
                    &&& final(self).same_volumes(&*old(self), token)
                    &&& final(self).same_tokens_except(&*old(self), token)
                    &&& final(self).same_roles(&*old(self))
                },
                None => *final(self) == *old(self),
            },
    {
        match self.find_token(token) {
            None => {},
            Some(i) => {
                match self.tokens[i].1.suspension {
                    None => {},
                    Some(s) => {
                        if current_ledger < s.expiry_ledger {
                            return false;
                        }
                        let ghost pre = *self;
                        let tk = &mut self.tokens[i];
                        tk.1.suspension = None;
                        proof {
                            lemma_set_slot(pre, *self, i as int);
                        }
                    },
                }
            },
        }
        self.is_whitelisted(token)
    }

    /// The whitelisted tokens, in the order they were added.
    pub fn get_whitelisted_tokens(&self) -> (r: Vec<AccountId>)
        ensures
            r@ == self.whitelist@,
    {
        let mut r: Vec<AccountId> = Vec::new();
        let mut i: usize = 0;
        while i < self.whitelist.len()
            invariant
                i <= self.whitelist@.len(),
                r@ == self.whitelist@.take(i as int),
            decreases self.whitelist@.len() - i,
        {
            r.push(self.whitelist[i]);
            assert(r@ =~= self.whitelist@.take((i + 1) as int));
            i = i + 1;
        }
        assert(self.whitelist@.take(self.whitelist@.len() as int) =~= self.whitelist@);
        r
    }

    /// The admin. Refused when the contract has not been set up.
    pub fn get_admin(&self) -> (r: Result<AccountId, Rejection>)
        ensures
            match self.admin {
                Some(a) => r == Ok::<AccountId, Rejection>(a),
                None => r == Err::<AccountId, Rejection>(Rejection::NotInitialized),
            },
    {
        match self.admin {
            Some(a) => Ok(a),
            None => Err(Rejection::NotInitialized),
        }
    }

    /// Proposes `new_admin` as the next admin. Refused when `current_admin` is
    /// not the admin.
    pub fn propose_admin(&mut self, current_admin: AccountId, new_admin: AccountId) -> (r: Result<
        (),
        Rejection,
    >)
        requires
            old(self).wf(),
        ensures
            final(self).wf(),
            (r == Err::<(), Rejection>(Rejection::NotInitialized)) == (old(self).admin is None),
            (r == Err::<(), Rejection>(Rejection::Unauthorized)) == (old(self).admin is Some
                && old(self).admin != Some(current_admin)),
            match old(self).admin_error(current_admin) {
                Some(e) => r == Err::<(), Rejection>(e) && *final(self) == *old(self),
                None => {
                    &&& r is Ok
                    &&& final(self).proposed_admin == Some(new_admin)
                    &&& final(self).admin == old(self).admin
                    &&& final(self).whitelist@ == old(self).whitelist@
                    &&& final(self).tokens@ == old(self).tokens@
                },
            },
    {
        self.require_admin(current_admin)?;
        self.proposed_admin = Some(new_admin);
        Ok(())
    }

    /// Completes the hand-over: `new_admin` becomes the admin and the
    /// proposal is cleared. Refused when nothing is proposed, when `new_admin`
    /// is not the proposed admin, or when the contract has not been set up.
    pub fn accept_admin(&mut self, new_admin: AccountId) -> (r: Result<(), Rejection>)
        requires
            old(self).wf(),
        ensures
            final(self).wf(),
            match old(self).proposed_admin {
                None => r == Err::<(), Rejection>(Rejection::NoAdminTransferProposed) && *final(self) == *old(self),
                Some(p) => if p != new_admin {
                    r == Err::<(), Rejection>(Rejection::NotProposedAdmin) && *final(self) == *old(self)
                } else if old(self).admin is None {
                    r == Err::<(), Rejection>(Rejection::NotInitialized) && *final(self) == *old(self)
                } else {
                    &&& r is Ok
                    &&& final(self).admin == Some(new_admin)
                    &&& final(self).proposed_admin is None
                    &&& final(self).whitelist@ == old(self).whitelist@
                    &&& final(self).tokens@ == old(self).tokens@
                },
            },
    {
        let proposed = match self.proposed_admin {
            None => {
                return Err(Rejection::NoAdminTransferProposed);
            },
            Some(p) => p,
        };
        if new_admin != proposed {
            return Err(Rejection::NotProposedAdmin);
        }
        if self.admin.is_none() {
            return Err(Rejection::NotInitialized);
        }
        self.admin = Some(new_admin);
        self.proposed_admin = None;
        Ok(())
    }

    /// Suspends `token` for `suspend_duration_ledgers` ledgers from
    /// `current_ledger` and records the suspension in its history. Refused
    /// when `admin` is not the admin, the duration is zero, the token is not
    /// whitelisted, or the expiry ledger is out of range of `u32`.
    pub fn suspend_token_timed(
        &mut self,
        admin: AccountId,
        token: AccountId,
        suspend_duration_ledgers: u32,
        reason_hash: [u8; 32],
        current_ledger: u32,
    ) -> (r: Result<(), Rejection>)
        requires
            old(self).wf(),
        ensures
            final(self).wf(),
            (r == Err::<(), Rejection>(Rejection::NotInitialized)) == (old(self).admin is None),
            (r == Err::<(), Rejection>(Rejection::Unauthorized)) == (old(self).admin is Some
                && old(self).admin != Some(admin)),
            match old(self).admin_error(admin) {
                Some(e) => r == Err::<(), Rejection>(e) && *final(self) == *old(self),
                None => if suspend_duration_ledgers == 0 {
                    r == Err::<(), Rejection>(Rejection::NonPositiveSuspendDuration) && *final(self) == *old(self)
                } else if !old(self).whitelist@.contains(token) {
                    r == Err::<(), Rejection>(Rejection::TokenNotWhitelisted) && *final(self) == *old(self)
                } else if current_ledger + suspend_duration_ledgers > u32::MAX {
                    r == Err::<(), Rejection>(Rejection::ArithmeticOverflow) && *final(self) == *old(self)
                } else {
                    let expiry = (current_ledger + suspend_duration_ledgers) as u32;
                    &&& r is Ok
                    &&& final(self).suspension_of(token) == Some(
                        TokenSuspension { expiry_ledger: expiry, reason_hash },
                    )
                    &&& final(self).history_of(token) == history_pushed(
                        old(self).history_of(token),
                        SuspensionRecord { expiry_ledger: expiry, reason_hash, lifted_early: false },
                    )
                    &&& forall|l: u32| l < expiry ==> !#[trigger] final(self).allowed_at(token, l)
                    &&& final(self).quota_of(token) == old(self).quota_of(token)
                    &&& final(self).same_volumes(&*old(self), token)
                    &&& final(self).same_tokens_except(&*old(self), token)
                    &&& final(self).same_roles(&*old(self))
                },
            },
    {
        self.require_admin(admin)?;
        if suspend_duration_ledgers == 0 {
            return Err(Rejection::NonPositiveSuspendDuration);
        }
        if !self.is_whitelisted(token) {
            return Err(Rejection::TokenNotWhitelisted);
        }
        let expiry_ledger = match current_ledger.checked_add(suspend_duration_ledgers) {
            Some(e) => e,
            None => {
                return Err(Rejection::ArithmeticOverflow);
            },
        };
        let ghost start = *self;
        let i = self.token_slot(token);
        proof {
            lemma_slot_views(start, *self, token);
        }
        let ghost pre = *self;
        let tk = &mut self.tokens[i];
        tk.1.suspension = Some(TokenSuspension { expiry_ledger, reason_hash });
        if tk.1.history.len() >= SUSPENSION_HISTORY_CAP {
            tk.1.history.remove(0);
        }
        tk.1.history.push(SuspensionRecord { expiry_ledger, reason_hash, lifted_early: false });
        proof {
            assert(self.tokens@[i as int].1.history@ =~= history_pushed(
                pre.tokens@[i as int].1.history@,
                SuspensionRecord { expiry_ledger, reason_hash, lifted_early: false },
            ));
            lemma_set_slot(pre, *self, i as int);
            lemma_same_buckets(pre.tokens@[i as int].1, self.tokens@[i as int].1);
        }
        Ok(())
    }

    /// Lifts the suspension of `token` before it runs out; the latest history
    /// record is marked as lifted early. Refused when `admin` is not the admin
    /// or the token has no suspension on record.
    pub fn lift_token_suspension(&mut self, admin: AccountId, token: AccountId) -> (r: Result<
        (),
        Rejection,
    >)
        requires
            old(self).wf(),
        ensures
            final(self).wf(),
            (r == Err::<(), Rejection>(Rejection::NotInitialized)) == (old(self).admin is None),
            (r == Err::<(), Rejection>(Rejection::Unauthorized)) == (old(self).admin is Some
                && old(self).admin != Some(admin)),
            match old(self).admin_error(admin) {
                Some(e) => r == Err::<(), Rejection>(e) && *final(self) == *old(self),
                None => if old(self).suspension_of(token) is None {
                    r == Err::<(), Rejection>(Rejection::NoActiveSuspension) && *final(self) == *old(self)
                } else {
                    let h = old(self).history_of(token);
                    &&& r is Ok
                    &&& final(self).suspension_of(token) is None
                    &&& forall|l: u32| #[trigger] final(self).allowed_at(token, l)
                        == old(self).whitelist@.contains(token)
                    &&& final(self).history_of(token) == if h.len() > 0 {
                        h.update(h.len() - 1, SuspensionRecord { lifted_early: true, ..h.last() })
                    } else {
                        h
                    }
                    &&& final(self).quota_of(token) == old(self).quota_of(token)
                    &&& final(self).same_volumes(&*old(self), token)
                    &&& final(self).same_tokens_except(&*old(self), token)
                    &&& final(self).same_roles(&*old(self))
                },
            },
    {
        self.require_admin(admin)?;
        let i = match self.find_token(token) {
            None => {
                return Err(Rejection::NoActiveSuspension);
            },
            Some(i) => i,
        };
        if self.tokens[i].1.suspension.is_none() {
            return Err(Rejection::NoActiveSuspension);
        }
        let ghost pre = *self;
        let tk = &mut self.tokens[i];
        tk.1.suspension = None;
        let len = tk.1.history.len();
        if len > 0 {
            let mut last = tk.1.history[len - 1];
            last.lifted_early = true;
            tk.1.history.set(len - 1, last);
        }
        proof {
            lemma_set_slot(pre, *self, i as int);
            lemma_same_buckets(pre.tokens@[i as int].1, self.tokens@[i as int].1);
            assert(self.history_of(token) =~= if pre.history_of(token).len() > 0 {
                pre.history_of(token).update(
                    pre.history_of(token).len() - 1,
                    SuspensionRecord { lifted_early: true, ..pre.history_of(token).last() },
                )
            } else {
                pre.history_of(token)
            });
            assert(self.token_map().remove(token) =~= pre.token_map().remove(token));
        }
        Ok(())
    }

    /// Extends the suspension of `token` by `additional_ledgers`; the latest
    /// history record gets the new expiry. Refused when `admin` is not the
    /// admin, the extension is zero, the token has no suspension on record, or
    /// the new expiry is out of range of `u32`.
    pub fn extend_token_suspension(
        &mut self,
        admin: AccountId,
        token: AccountId,
        additional_ledgers: u32,
    ) -> (r: Result<(), Rejection>)
        requires
            old(self).wf(),
        ensures
            final(self).wf(),
            (r == Err::<(), Rejection>(Rejection::NotInitialized)) == (old(self).admin is None),
            (r == Err::<(), Rejection>(Rejection::Unauthorized)) == (old(self).admin is Some
                && old(self).admin != Some(admin)),
            match old(self).admin_error(admin) {
                Some(e) => r == Err::<(), Rejection>(e) && *final(self) == *old(self),
                None => if additional_ledgers == 0 {
                    r == Err::<(), Rejection>(Rejection::NonPositiveAdditionalLedgers) && *final(self) == *old(self)
                } else {
                    match old(self).suspension_of(token) {
                        None => r == Err::<(), Rejection>(Rejection::NoActiveSuspension) && *final(self) == *old(self),
                        Some(s) => if s.expiry_ledger + additional_ledgers > u32::MAX {
                            r == Err::<(), Rejection>(Rejection::ArithmeticOverflow) && *final(self) == *old(self)
                        } else {
                            let expiry = (s.expiry_ledger + additional_ledgers) as u32;
                            let h = old(self).history_of(token);
                            &&& r is Ok
                            &&& final(self).suspension_of(token) == Some(
                                TokenSuspension { expiry_ledger: expiry, ..s },
                            )
                            &&& final(self).history_of(token) == if h.len() > 0 {
                                h.update(
                                    h.len() - 1,
                                    SuspensionRecord { expiry_ledger: expiry, ..h.last() },
                                )
                            } else {
                                h
                            }
                            &&& final(self).quota_of(token) == old(self).quota_of(token)
                            &&& final(self).same_volumes(&*old(self), token)
                            &&& final(self).same_tokens_except(&*old(self), token)
                            &&& final(self).same_roles(&*old(self))
                        },
                    }
                },
            },
    {
        self.require_admin(admin)?;
        if additional_ledgers == 0 {
            return Err(Rejection::NonPositiveAdditionalLedgers);
        }
        let i = match self.find_token(token) {
            None => {
                return Err(Rejection::NoActiveSuspension);
            },
            Some(i) => i,
        };
        let s = match self.tokens[i].1.suspension {
            None => {
                return Err(Rejection::NoActiveSuspension);
            },
            Some(s) => s,
        };
        let expiry_ledger = match s.expiry_ledger.checked_add(additional_ledgers) {
            Some(e) => e,
            None => {
                return Err(Rejection::ArithmeticOverflow);
            },
        };
        let ghost pre = *self;
        let tk = &mut self.tokens[i];
        tk.1.suspension = Some(TokenSuspension { expiry_ledger, reason_hash: s.reason_hash });
        let len = tk.1.history.len();
        if len > 0 {
            let mut last = tk.1.history[len - 1];
            last.expiry_ledger = expiry_ledger;
            tk.1.history.set(len - 1, last);
        }
        proof {
            lemma_set_slot(pre, *self, i as int);
            lemma_same_buckets(pre.tokens@[i as int].1, self.tokens@[i as int].1);
            assert(self.history_of(token) =~= if pre.history_of(token).len() > 0 {
                pre.history_of(token).update(
                    pre.history_of(token).len() - 1,
                    SuspensionRecord {
                        expiry_ledger: expiry_ledger,
                        ..pre.history_of(token).last()
                    },
                )
            } else {
                pre.history_of(token)
            });
            assert(self.token_map().remove(token) =~= pre.token_map().remove(token));
        }
        Ok(())
    }

    /// The active suspension of `token`, if any.
    pub fn get_token_suspension(&self, token: AccountId) -> (r: Option<TokenSuspension>)
        requires
            self.wf(),
        ensures
            r == self.suspension_of(token),
    {
        match self.find_token(token) {
            None => None,
            Some(i) => self.tokens[i].1.suspension,
        }
    }

    /// The suspension history of `token`, oldest first.
    pub fn get_suspension_history(&self, token: AccountId) -> (r: Vec<SuspensionRecord>)
        requires
            self.wf(),
        ensures
            r@ == self.history_of(token),
    {
        match self.find_token(token) {
            None => Vec::new(),
            Some(i) => {
                let h = &self.tokens[i].1.history;
                let mut r: Vec<SuspensionRecord> = Vec::new();
                let mut k: usize = 0;
                while k < h.len()
                    invariant
                        k <= h@.len(),
                        r@ == h@.take(k as int),
                    decreases h@.len() - k,
                {
                    r.push(h[k]);
                    assert(r@ =~= h@.take((k + 1) as int));
                    k = k + 1;
                }
                assert(h@.take(h@.len() as int) =~= h@);
                r
            },
        }
    }

    /// Sets the quota of `token`. Refused when `admin` is not the admin, the
    /// token is not whitelisted or already has a quota, the volume is not
    /// positive, or the period is zero.
    pub fn set_token_quota(
        &mut self,
        admin: AccountId,
        token: AccountId,
        max_volume_per_period: i128,
        period_ledgers: u32,
    ) -> (r: Result<(), Rejection>)
        requires
            old(self).wf(),
        ensures
            final(self).wf(),
            (r == Err::<(), Rejection>(Rejection::NotInitialized)) == (old(self).admin is None),
            (r == Err::<(), Rejection>(Rejection::Unauthorized)) == (old(self).admin is Some
                && old(self).admin != Some(admin)),
            match old(self).admin_error(admin) {
                Some(e) => r == Err::<(), Rejection>(e) && *final(self) == *old(self),
                None => if !old(self).whitelist@.contains(token) {
                    r == Err::<(), Rejection>(Rejection::TokenNotWhitelisted) && *final(self) == *old(self)
                } else if old(self).quota_of(token) is Some {
                    r == Err::<(), Rejection>(Rejection::TokenAlreadyHasQuota) && *final(self) == *old(self)
                } else if max_volume_per_period <= 0 {
                    r == Err::<(), Rejection>(Rejection::NonPositiveMaxVolume) && *final(self) == *old(self)
                } else if period_ledgers == 0 {
                    r == Err::<(), Rejection>(Rejection::NonPositivePeriod) && *final(self) == *old(self)
                } else {
                    &&& r is Ok
                    &&& final(self).quota_of(token) == Some(
                        TokenQuota { max_volume_per_period, period_ledgers },
                    )
                    &&& final(self).suspension_of(token) == old(self).suspension_of(token)
                    &&& final(self).history_of(token) == old(self).history_of(token)
                    &&& final(self).same_volumes(&*old(self), token)
                    &&& final(self).same_tokens_except(&*old(self), token)
                    &&& final(self).same_roles(&*old(self))
                },
            },
    {
        self.require_admin(admin)?;
        if !self.is_whitelisted(token) {
            return Err(Rejection::TokenNotWhitelisted);
        }
        if let Some(i) = self.find_token(token) {
            if self.tokens[i].1.quota.is_some() {
                return Err(Rejection::TokenAlreadyHasQuota);
            }
        }
        if max_volume_per_period <= 0 {
            return Err(Rejection::NonPositiveMaxVolume);
        }
        if period_ledgers == 0 {
            return Err(Rejection::NonPositivePeriod);
        }
        self.store_quota(token, Some(TokenQuota { max_volume_per_period, period_ledgers }));
        Ok(())
    }

    /// Replaces the quota of `token`. Refused when `admin` is not the admin,
    /// the volume is not positive, the period is zero, or the token has no
    /// quota.
    pub fn update_token_quota(
        &mut self,
        admin: AccountId,
        token: AccountId,
        max_volume_per_period: i128,
        period_ledgers: u32,
    ) -> (r: Result<(), Rejection>)
        requires
            old(self).wf(),
        ensures
            final(self).wf(),
            (r == Err::<(), Rejection>(Rejection::NotInitialized)) == (old(self).admin is None),
            (r == Err::<(), Rejection>(Rejection::Unauthorized)) == (old(self).admin is Some
                && old(self).admin != Some(admin)),
            match old(self).admin_error(admin) {
                Some(e) => r == Err::<(), Rejection>(e) && *final(self) == *old(self),
                None => if max_volume_per_period <= 0 {
                    r == Err::<(), Rejection>(Rejection::NonPositiveMaxVolume) && *final(self) == *old(self)
                } else if period_ledgers == 0 {
                    r == Err::<(), Rejection>(Rejection::NonPositivePeriod) && *final(self) == *old(self)
                } else if old(self).quota_of(token) is None {
                    r == Err::<(), Rejection>(Rejection::TokenHasNoQuota) && *final(self) == *old(self)
                } else {
                    &&& r is Ok
                    &&& final(self).quota_of(token) == Some(
                        TokenQuota { max_volume_per_period, period_ledgers },
                    )
                    &&& final(self).suspension_of(token) == old(self).suspension_of(token)
                    &&& final(self).history_of(token) == old(self).history_of(token)
                    &&& final(self).same_volumes(&*old(self), token)
                    &&& final(self).same_tokens_except(&*old(self), token)
                    &&& final(self).same_roles(&*old(self))
                },
            },
    {
        self.require_admin(admin)?;
        if max_volume_per_period <= 0 {
            return Err(Rejection::NonPositiveMaxVolume);
        }
        if period_ledgers == 0 {
            return Err(Rejection::NonPositivePeriod);
        }
        match self.find_token(token) {
            None => {
                return Err(Rejection::TokenHasNoQuota);
            },
            Some(i) => {
                if self.tokens[i].1.quota.is_none() {
                    return Err(Rejection::TokenHasNoQuota);
                }
            },
        }
        self.store_quota(token, Some(TokenQuota { max_volume_per_period, period_ledgers }));
        Ok(())
    }

    /// Removes the quota of `token`. Refused when `admin` is not the admin or
    /// the token has no quota.
    pub fn remove_token_quota(&mut self, admin: AccountId, token: AccountId) -> (r: Result<
        (),
        Rejection,
    >)
        requires
            old(self).wf(),
        ensures
            final(self).wf(),
            (r == Err::<(), Rejection>(Rejection::NotInitialized)) == (old(self).admin is None),
            (r == Err::<(), Rejection>(Rejection::Unauthorized)) == (old(self).admin is Some
                && old(self).admin != Some(admin)),
            match old(self).admin_error(admin) {
                Some(e) => r == Err::<(), Rejection>(e) && *final(self) == *old(self),
                None => if old(self).quota_of(token) is None {
                    r == Err::<(), Rejection>(Rejection::TokenHasNoQuota) && *final(self) == *old(self)
                } else {
                    &&& r is Ok
                    &&& final(self).quota_of(token) is None
                    &&& final(self).suspension_of(token) == old(self).suspension_of(token)
                    &&& final(self).history_of(token) == old(self).history_of(token)
                    &&& final(self).same_volumes(&*old(self), token)
                    &&& final(self).same_tokens_except(&*old(self), token)
                    &&& final(self).same_roles(&*old(self))
                },
            },
    {
        self.require_admin(admin)?;
        match self.find_token(token) {
            None => {
                return Err(Rejection::TokenHasNoQuota);
            },
            Some(i) => {
                if self.tokens[i].1.quota.is_none() {
                    return Err(Rejection::TokenHasNoQuota);
                }
            },
        }
        self.store_quota(token, None);
        Ok(())
    }

    /// The quota of `token`, if any.
    pub fn get_token_quota(&self, token: AccountId) -> (r: Option<TokenQuota>)
        requires
            self.wf(),
        ensures
            r == self.quota_of(token),
    {
        match self.find_token(token) {
            None => None,
            Some(i) => self.tokens[i].1.quota,
        }
    }

    /// Stores `quota` as the quota of `token`.
    fn store_quota(&mut self, token: AccountId, quota: Option<TokenQuota>)
        requires
            old(self).wf(),
            quota matches Some(q) ==> q.max_volume_per_period > 0 && q.period_ledgers > 0,
        ensures
            final(self).wf(),
            final(self).quota_of(token) == quota,
            final(self).suspension_of(token) == old(self).suspension_of(token),
            final(self).history_of(token) == old(self).history_of(token),
            final(self).same_volumes(&*old(self), token),
            final(self).same_tokens_except(&*old(self), token),
            final(self).same_roles(&*old(self)),
    {
        let ghost start = *self;
        let i = self.token_slot(token);
        proof {
            lemma_slot_views(start, *self, token);
        }
        let ghost pre = *self;
        let tk = &mut self.tokens[i];
        tk.1.quota = quota;
        proof {
            lemma_set_slot(pre, *self, i as int);
            lemma_same_buckets(pre.tokens@[i as int].1, self.tokens@[i as int].1);
        }
    }

    /// Records `amount` of `token` at ledger `current_ledger`, to be called
    /// before settlement. A token without a quota is not tracked. With a
    /// quota, `Ok(Err(QuotaExceeded))` is returned, and nothing recorded, when
    /// the volume of the window of the quota's period that ends at
    /// `current_ledger` would exceed the quota. Refused when the amount is not
    /// positive, or when the window's volume with the amount is out of range
    /// of `i128`.
    pub fn record_token_volume(&mut self, token: AccountId, amount: i128, current_ledger: u32) -> (r:
        Result<Result<(), Error>, Rejection>)
        requires
            old(self).wf(),
        ensures
            final(self).wf(),
            amount <= 0 ==> r == Err::<Result<(), Error>, Rejection>(Rejection::NonPositiveAmount)
                && *final(self) == *old(self),
            amount > 0 ==> match old(self).quota_of(token) {
                None => r == Ok::<Result<(), Error>, Rejection>(Ok(())) && *final(self) == *old(self),
                Some(q) => {
                    let w = old(self).window_volume(token, current_ledger, q.period_ledgers);
                    if w + amount > i128::MAX {
                        r == Err::<Result<(), Error>, Rejection>(Rejection::ArithmeticOverflow)
                            && *final(self) == *old(self)
                    } else if w + amount > q.max_volume_per_period {
                        r == Ok::<Result<(), Error>, Rejection>(Err(Error::QuotaExceeded))
                            && *final(self) == *old(self)
                    } else {
                        &&& r == Ok::<Result<(), Error>, Rejection>(Ok(()))
                        &&& final(self).bucket_volume(token, current_ledger as int)
                            == old(self).bucket_volume(token, current_ledger as int) + amount
                        &&& forall|l: int|
                            l != current_ledger ==> #[trigger] final(self).bucket_volume(token, l)
                                == old(self).bucket_volume(token, l)
                        &&& final(self).window_volume(token, current_ledger, q.period_ledgers) == w
                            + amount
                        &&& final(self).window_volume(token, current_ledger, q.period_ledgers)
                            <= q.max_volume_per_period
                        &&& final(self).quota_of(token) == old(self).quota_of(token)
                        &&& final(self).suspension_of(token) == old(self).suspension_of(token)
                        &&& final(self).history_of(token) == old(self).history_of(token)
                        &&& final(self).same_tokens_except(&*old(self), token)
                        &&& final(self).same_roles(&*old(self))
                    }
                },
            },
    {
        if amount <= 0 {
            return Err(Rejection::NonPositiveAmount);
        }
        let i = match self.find_token(token) {
            None => {
                return Ok(Ok(()));
            },
            Some(i) => i,
        };
        let q = match self.tokens[i].1.quota {
            None => {
                return Ok(Ok(()));
            },
            Some(q) => q,
        };
        proof {
            assert(self.token_map()[token].wf());
        }
        let period = q.period_ledgers;
        let start: u32 = if current_ledger >= period - 1 {
            current_ledger - (period - 1)
        } else {
            0
        };
        let window = match self.tokens[i].1.sum_volume(start, current_ledger) {
            Some(v) => v,
            None => {
                return Err(Rejection::ArithmeticOverflow);
            },
        };
        let total = match window.checked_add(amount) {
            Some(v) => v,
            None => {
                return Err(Rejection::ArithmeticOverflow);
            },
        };
        if total > q.max_volume_per_period {
            return Ok(Err(Error::QuotaExceeded));
        }
        let ghost pre = *self;
        let ghost count = (current_ledger - start + 1) as nat;
        proof {
            pre.tokens@[i as int].1.lemma_bucket_le_range_sum(
                start as int,
                count,
                current_ledger as int,
            );
        }
        let tk = &mut self.tokens[i];
        tk.1.add_volume(current_ledger, amount);
        proof {
            lemma_set_slot(pre, *self, i as int);
            pre.tokens@[i as int].1.lemma_range_sum_after_add(
                &self.tokens@[i as int].1,
                current_ledger as int,
                amount as int,
                start as int,
                count,
            );
            assert(self.token_map().remove(token) =~= pre.token_map().remove(token));
        }
        Ok(Ok(()))
    }

    /// The volume of `token` recorded from ledger `from_ledger` through ledger
    /// `to_ledger`. Refused when it is out of range of `i128`.
    pub fn get_token_volume(&self, token: AccountId, from_ledger: u32, to_ledger: u32) -> (r: Result<
        i128,
        Rejection,
    >)
        requires
            self.wf(),
        ensures
            ({
                let count = if to_ledger >= from_ledger {
                    (to_ledger - from_ledger + 1) as nat
                } else {
                    0nat
                };
                let v = self.range_volume(token, from_ledger as int, count);
                if v <= i128::MAX {
                    r == Ok::<i128, Rejection>(v as i128)
                } else {
                    r == Err::<i128, Rejection>(Rejection::ArithmeticOverflow)
                }
            }),
    {
        match self.find_token(token) {
            None => Ok(0),
            Some(i) => {
                proof {
                    assert(self.token_map()[token].wf());
                    let count = if to_ledger >= from_ledger {
                        (to_ledger - from_ledger + 1) as nat
                    } else {
                        0nat
                    };
                    self.tokens@[i as int].1.lemma_range_sum_monotone(from_ledger as int, 0, count);
                }
                match self.tokens[i].1.sum_volume(from_ledger, to_ledger) {
                    Some(v) => Ok(v),
                    None => Err(Rejection::ArithmeticOverflow),
                }
            },
        }
    }

    /// Checks that `caller` is the admin.
    fn require_admin(&self, caller: AccountId) -> (r: Result<(), Rejection>)
        ensures
            match self.admin_error(caller) {
                Some(e) => r == Err::<(), Rejection>(e),
                None => r is Ok,
            },
    {
        match self.admin {
            None => Err(Rejection::NotInitialized),
            Some(a) => if a == caller {
                Ok(())
            } else {
                Err(Rejection::Unauthorized)
            },
        }
    }
}

/// Replacing the state at position `i` by a well-formed state replaces it in
/// the token map and keeps the invariant.
proof fn lemma_set_slot(pre: TokenWhitelistContract, post: TokenWhitelistContract, i: int)
    requires
        pre.wf(),
        0 <= i < pre.tokens@.len(),
        post.tokens@ == pre.tokens@.update(i, (pre.tokens@[i].0, post.tokens@[i].1)),
        post.tokens@[i].1.wf(),
        post.whitelist@ == pre.whitelist@,
    ensures
        post.wf(),
        post.token_map() == pre.token_map().insert(pre.tokens@[i].0, post.tokens@[i].1),
        post.token_map().remove(pre.tokens@[i].0) == pre.token_map().remove(pre.tokens@[i].0),
{
    lemma_assoc_update(pre.tokens@, i, post.tokens@[i].1);
    let t = pre.tokens@[i].0;
    assert forall|x: AccountId| #[trigger] post.token_map().contains_key(x) implies post.token_map()[x].wf() by {
        if x != t {
            assert(pre.token_map().contains_key(x));
        }
    }
    assert(post.token_map().remove(t) =~= pre.token_map().remove(t));
}

/// A token that gets a slot keeps what is known about it, and so does every
/// other token.
proof fn lemma_slot_views(pre: TokenWhitelistContract, post: TokenWhitelistContract, t: AccountId)
    requires
        pre.wf(),
        post.wf(),
        post.token_map().contains_key(t),
        pre.token_map().contains_key(t) ==> post == pre,
        !pre.token_map().contains_key(t) ==> {
            &&& post.token_map() == pre.token_map().insert(t, post.token_map()[t])
            &&& post.token_map()[t].is_blank()
        },
    ensures
        post.suspension_of(t) == pre.suspension_of(t),
        post.history_of(t) == pre.history_of(t),
        post.quota_of(t) == pre.quota_of(t),
        post.same_volumes(&pre, t),
        post.same_tokens_except(&pre, t),
{
    if !pre.token_map().contains_key(t) {
        let b = post.token_map()[t];
        lemma_assoc_empty(b.volume_buckets@);
        assert(post.history_of(t) =~= pre.history_of(t));
        assert forall|l: int| #[trigger] post.bucket_volume(t, l) == pre.bucket_volume(t, l) by {
            assert(!assoc_map(b.volume_buckets@).contains_key(l as u32));
        }
        assert(post.token_map().remove(t) =~= pre.token_map().remove(t));
    }
}

/// Two states with the same volume buckets record the same volumes.
proof fn lemma_same_buckets(a: TokenState, b: TokenState)
    requires
        a.volume_buckets@ == b.volume_buckets@,
    ensures
        forall|l: int| #[trigger] a.bucket(l) == b.bucket(l),
{
}

impl TokenState {
    /// Every recorded volume is positive, so none is negative.
    proof fn lemma_bucket_nonneg(&self, l: int)
        requires
            self.wf(),
        ensures
            self.bucket(l) >= 0,
    {
        let m = assoc_map(self.volume_buckets@);
        if 0 <= l <= u32::MAX && m.contains_key(l as u32) {
            let j = choose|j: int|
                0 <= j < self.volume_buckets@.len() && (#[trigger] self.volume_buckets@[j]).0 == l
                    as u32;
            lemma_assoc_at(self.volume_buckets@, j);
        }
    }

    /// A sum over more ledgers is at least as large, and no sum is negative.
    proof fn lemma_range_sum_monotone(&self, from: int, c1: nat, c2: nat)
        requires
            self.wf(),
            c1 <= c2,
        ensures
            0 <= self.range_sum(from, c1) <= self.range_sum(from, c2),
        decreases c2,
    {
        if c2 > c1 {
            self.lemma_range_sum_monotone(from, c1, (c2 - 1) as nat);
            self.lemma_bucket_nonneg(from + c2 - 1);
        } else if c1 > 0 {
            self.lemma_range_sum_monotone(from, (c1 - 1) as nat, (c1 - 1) as nat);
            self.lemma_bucket_nonneg(from + c1 - 1);
        }
    }

    /// A single ledger's volume is at most the sum over a range that holds
    /// it.
    proof fn lemma_bucket_le_range_sum(&self, from: int, count: nat, l: int)
        requires
            self.wf(),
            from <= l < from + count,
        ensures
            self.bucket(l) <= self.range_sum(from, count),
        decreases count,
    {
        if l < from + count - 1 {
            self.lemma_bucket_le_range_sum(from, (count - 1) as nat, l);
            self.lemma_bucket_nonneg(from + count - 1);
        } else {
            self.lemma_range_sum_monotone(from, (count - 1) as nat, (count - 1) as nat);
        }
    }

    /// Raising one ledger's volume raises every sum over a range that holds
    /// it by as much, and leaves the other sums as they were.
    proof fn lemma_range_sum_after_add(
        &self,
        other: &TokenState,
        l: int,
        amount: int,
        from: int,
        count: nat,
    )
        requires
            other.bucket(l) == self.bucket(l) + amount,
            forall|x: int| x != l ==> #[trigger] other.bucket(x) == self.bucket(x),
        ensures
            other.range_sum(from, count) == self.range_sum(from, count) + if from <= l < from
                + count {
                amount
            } else {
                0
            },
        decreases count,
    {
        if count > 0 {
            self.lemma_range_sum_after_add(other, l, amount, from, (count - 1) as nat);
        }
    }
}

// ---------------------------------------------------------------------------
// Laws
// ---------------------------------------------------------------------------

/// The history keeps at most ten records, the newest last: pushing a record
/// onto a history of at most ten records appends it, and drops the oldest
/// record exactly when the history was full.
pub proof fn lemma_history_pushed(h: Seq<SuspensionRecord>, rec: SuspensionRecord)
    requires
        h.len() <= SUSPENSION_HISTORY_CAP,
    ensures
        history_pushed(h, rec).len() <= SUSPENSION_HISTORY_CAP,
        history_pushed(h, rec).last() == rec,
        h.len() < SUSPENSION_HISTORY_CAP ==> history_pushed(h, rec) == h.push(rec),
        h.len() == SUSPENSION_HISTORY_CAP ==> history_pushed(h, rec) == h.subrange(1, h.len() as int).push(rec),
{
    if h.len() == SUSPENSION_HISTORY_CAP {
        assert(h.drop_first() =~= h.subrange(1, h.len() as int));
    }
}

/// A token under a suspension that lasts beyond the current ledger is not
/// allowed, whether or not it is whitelisted.
pub proof fn lemma_suspended_token_not_allowed(c: TokenWhitelistContract, t: AccountId, current: u32)
    requires
        c.suspension_of(t) matches Some(s) && current < s.expiry_ledger,
    ensures
        !c.allowed_at(t, current),
{
}

/// Without an active suspension, a token is allowed exactly when it is
/// whitelisted: once a suspension is lifted or has run out, the whitelist
/// alone decides.
pub proof fn lemma_unsuspended_token_allowed_iff_whitelisted(
    c: TokenWhitelistContract,
    t: AccountId,
    current: u32,
)
    requires
        c.suspension_of(t) is None || current >= c.suspension_of(t).unwrap().expiry_ledger,
    ensures
        c.allowed_at(t, current) == c.whitelist@.contains(t),
{
}

/// A token that is not whitelisted is never allowed.
pub proof fn lemma_unlisted_token_not_allowed(c: TokenWhitelistContract, t: AccountId, current: u32)
    requires
        !c.whitelist@.contains(t),
    ensures
        !c.allowed_at(t, current),
{
}

/// Volumes over adjacent ledger ranges add up: the volume over `a + b`
/// ledgers from `from` is the volume over the first `a` plus the volume over
/// the `b` that follow.
pub proof fn lemma_range_volume_split(
    c: TokenWhitelistContract,
    t: AccountId,
    from: int,
    a: nat,
    b: nat,
)
    ensures
        c.range_volume(t, from, a + b) == c.range_volume(t, from, a) + c.range_volume(
            t,
            from + a,
            b,
        ),
{
    if c.token_map().contains_key(t) {
        lemma_range_sum_split(c.token_map()[t], from, a, b);
    }
}

/// The same split, on one token's state.
proof fn lemma_range_sum_split(st: TokenState, from: int, a: nat, b: nat)
    ensures
        st.range_sum(from, a + b) == st.range_sum(from, a) + st.range_sum(from + a, b),
    decreases b,
{
    if b > 0 {
        lemma_range_sum_split(st, from, a, (b - 1) as nat);
        assert(st.range_sum(from, a + b) == st.range_sum(from, (a + b - 1) as nat) + st.bucket(
            from + a + b - 1,
        ));
    }
}

/// Recorded volumes are never negative, and a range's volume is at least
/// that of any shorter range from the same ledger.
pub proof fn lemma_range_volume_monotone(
    c: TokenWhitelistContract,
    t: AccountId,
    from: int,
    c1: nat,
    c2: nat,
)
    requires
        c.wf(),
        c1 <= c2,
    ensures
        0 <= c.range_volume(t, from, c1) <= c.range_volume(t, from, c2),
{
    if c.token_map().contains_key(t) {
        c.token_map()[t].lemma_range_sum_monotone(from, c1, c2);
    }
}

/// The admin check depends on the stored admin alone: the admin passes it,
/// whether or not a hand-over is pending; anyone else is unauthorised; and
/// before initialisation everyone is refused as not initialised.
pub proof fn lemma_admin_check(c: TokenWhitelistContract, caller: AccountId)
    ensures
        c.admin == Some(caller) ==> c.admin_error(caller) is None,
        c.admin is Some && c.admin != Some(caller) ==> c.admin_error(caller) == Some(
            Rejection::Unauthorized,
        ),
        c.admin is None ==> c.admin_error(caller) == Some(Rejection::NotInitialized),
{
}

} // verus!
