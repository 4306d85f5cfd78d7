//! Ledger entries and the window that collects them.

use super::account::AccountId;
use super::money::{saturated, Money};
use super::timestamp::Timestamp;
use vstd::prelude::*;

verus! {

/// The identity that the persistence layer gives to a stored activity.
#[derive(Debug, Clone, Copy, PartialEq, Eq, Structural)]
pub struct ActivityId(pub u64);

/// A transfer of money from a source account to a target account, filed
/// under the ledger of its owner. An activity without `id` has not been
/// stored yet.
#[derive(Debug)]
pub struct Activity {
    id: Option<ActivityId>,
    owner_account_id: AccountId,
    source_account_id: AccountId,
    target_account_id: AccountId,
    timestamp: Timestamp,
    money: Money,
}

/// What an activity holds, as contracts speak of it.
pub struct ActivityView {
    pub id: Option<ActivityId>,
    pub owner_account_id: AccountId,
    pub source_account_id: AccountId,
    pub target_account_id: AccountId,
    pub timestamp: Timestamp,
    pub money: Money,
}

impl View for Activity {
    type V = ActivityView;

    closed spec fn view(&self) -> ActivityView {
        ActivityView {
            id: self.id,
            owner_account_id: self.owner_account_id,
            source_account_id: self.source_account_id,
            target_account_id: self.target_account_id,
            timestamp: self.timestamp,
            money: self.money,
        }
    }
}

impl Clone for Activity {
    fn clone(&self) -> (r: Activity)
        ensures
            r@ == self@,
    {
        Activity {
            id: self.id,
            owner_account_id: self.owner_account_id,
            source_account_id: self.source_account_id,
            target_account_id: self.target_account_id,
            timestamp: self.timestamp,
            money: self.money,
        }
    }
}

impl Activity {
    /// An activity that has not been stored yet.
    pub fn new(
        owner_account_id: AccountId,
        source_account_id: AccountId,
        target_account_id: AccountId,
        timestamp: Timestamp,
        money: Money,
    ) -> (r: Activity)
        ensures
            r@ == (ActivityView {
                id: None,
                owner_account_id,
                source_account_id,
                target_account_id,
                timestamp,
                money,
            }),
    {
        Activity {
            id: None,
            owner_account_id,
            source_account_id,
            target_account_id,
            timestamp,
            money,
        }
    }

    /// An activity as it comes back from storage, under its identity.
    pub fn new_with_id(
        id: ActivityId,
        owner_account_id: AccountId,
        source_account_id: AccountId,
        target_account_id: AccountId,
        timestamp: Timestamp,
        money: Money,
    ) -> (r: Activity)
        ensures
            r@ == (ActivityView {
                id: Some(id),
                owner_account_id,
                source_account_id,
                target_account_id,
                timestamp,
                money,
            }),
    {
        Activity {
            id: Some(id),
            owner_account_id,
            source_account_id,
            target_account_id,
            timestamp,
            money,
        }
    }

    /// The identity, if the activity has been stored.
    pub fn id(&self) -> (r: Option<&ActivityId>)
        ensures
            match r {
                Some(id) => self@.id == Some(*id),
                None => self@.id is None,
            },
    {
        self.id.as_ref()
    }

    /// The account under whose ledger the activity is filed.
    pub fn owner_account_id(&self) -> (r: &AccountId)
        ensures
            *r == self@.owner_account_id,
    {
        &self.owner_account_id
    }

    /// The account that the money leaves.
    pub fn source_account_id(&self) -> (r: &AccountId)
        ensures
            *r == self@.source_account_id,
    {
        &self.source_account_id
    }

    /// The account that the money reaches.
    pub fn target_account_id(&self) -> (r: &AccountId)
        ensures
            *r == self@.target_account_id,
    {
        &self.target_account_id
    }

    /// When the transfer took place.
    pub fn timestamp(&self) -> (r: &Timestamp)
        ensures
            *r == self@.timestamp,
    {
        &self.timestamp
    }

    /// The amount transferred.
    pub fn money(&self) -> (r: &Money)
        ensures
            *r == self@.money,
    {
        &self.money
    }

    /// The same activity at another time: identity, accounts and amount stay.
    pub fn with_timestamp(self, ts: Timestamp) -> (r: Activity)
        ensures
            r@ == (ActivityView { timestamp: ts, ..self@ }),
    {
        match self.id {
            Some(id) => Activity::new_with_id(
                id,
                self.owner_account_id,
                self.source_account_id,
                self.target_account_id,
                ts,
                self.money,
            ),
            None => Activity::new(
                self.owner_account_id,
                self.source_account_id,
                self.target_account_id,
                ts,
                self.money,
            ),
        }
    }
}

/// The views of a run of activities, in their order.
pub open spec fn views(s: Seq<Activity>) -> Seq<ActivityView> {
    s.map_values(|a: Activity| a@)
}

/// The sum of the amounts that the activities of `s` bring to the account
/// `id`: those whose target it is.
pub open spec fn deposits(s: Seq<ActivityView>, id: AccountId) -> int
    decreases s.len(),
{
    if s.len() == 0 {
        0
    } else {
        deposits(s.drop_last(), id) + if s.last().target_account_id == id {
            s.last().money@
        } else {
            0
        }
    }
}

/// The sum of the amounts that the activities of `s` take from the account
/// `id`: those whose source it is.
pub open spec fn withdrawals(s: Seq<ActivityView>, id: AccountId) -> int
    decreases s.len(),
{
    if s.len() == 0 {
        0
    } else {
        withdrawals(s.drop_last(), id) + if s.last().source_account_id == id {
            s.last().money@
        } else {
            0
        }
    }
}

/// What the activities of `s` leave the account `id` with: its deposits less
/// its withdrawals. A transfer from an account to itself counts on both
/// sides and so leaves nothing.
pub open spec fn net_balance(s: Seq<ActivityView>, id: AccountId) -> int {
    deposits(s, id) - withdrawals(s, id)
}

/// Whether some activity of `s` took place at `t`.
pub open spec fn occurs(s: Seq<ActivityView>, t: Timestamp) -> bool {
    exists|i: int| 0 <= i < s.len() && s[i].timestamp == t
}

/// Whether `t` is the time of the earliest activity of `s`.
pub open spec fn earliest(s: Seq<ActivityView>, t: Timestamp) -> bool {
    occurs(s, t) && forall|i: int| 0 <= i < s.len() ==> !s[i].timestamp.before(t)
}

/// Whether `t` is the time of the latest activity of `s`.
pub open spec fn latest(s: Seq<ActivityView>, t: Timestamp) -> bool {
    occurs(s, t) && forall|i: int| 0 <= i < s.len() ==> !t.before(s[i].timestamp)
}

/// What one activity does to the net balance of the account `id`: it adds
/// its amount where `id` is its target and takes it where `id` is its source.
pub open spec fn gain(a: ActivityView, id: AccountId) -> int {
    (if a.target_account_id == id {
        a.money@
    } else {
        0
    }) - (if a.source_account_id == id {
        a.money@
    } else {
        0
    })
}

/// No activity leaves every net balance at nothing, and an activity added at
/// the end moves the net balance of every account by what that activity does
/// to it.
pub proof fn lemma_net_balance_push(s: Seq<ActivityView>, a: ActivityView, id: AccountId)
    ensures
        net_balance(Seq::<ActivityView>::empty(), id) == 0,
        net_balance(s.push(a), id) == net_balance(s, id) + gain(a, id),
{
    assert(s.push(a).drop_last() =~= s);
}

/// A window has at most one start time and at most one end time.
pub proof fn lemma_time_range_is_unique(s: Seq<ActivityView>, t1: Timestamp, t2: Timestamp)
    ensures
        earliest(s, t1) && earliest(s, t2) ==> t1 == t2,
        latest(s, t1) && latest(s, t2) ==> t1 == t2,
{
    if earliest(s, t1) && earliest(s, t2) {
        let i = choose|i: int| 0 <= i < s.len() && s[i].timestamp == t1;
        let j = choose|j: int| 0 <= j < s.len() && s[j].timestamp == t2;
        assert(!s[i].timestamp.before(t2));
        assert(!s[j].timestamp.before(t1));
    }
    if latest(s, t1) && latest(s, t2) {
        let i = choose|i: int| 0 <= i < s.len() && s[i].timestamp == t1;
        let j = choose|j: int| 0 <= j < s.len() && s[j].timestamp == t2;
        assert(!t2.before(s[i].timestamp));
        assert(!t1.before(s[j].timestamp));
    }
}

proof fn lemma_time_range_carries_over(
    s1: Seq<ActivityView>,
    s2: Seq<ActivityView>,
    t: Timestamp,
)
    requires
        s1.to_multiset() == s2.to_multiset(),
    ensures
        earliest(s1, t) ==> earliest(s2, t),
        latest(s1, t) ==> latest(s2, t),
{
    s1.to_multiset_ensures();
    s2.to_multiset_ensures();
    if occurs(s1, t) {
        let k = choose|k: int| 0 <= k < s1.len() && s1[k].timestamp == t;
        assert(s1.contains(s1[k]));
        assert(s1.to_multiset().count(s1[k]) > 0);
        assert(s2.to_multiset().count(s1[k]) > 0);
        assert(s2.contains(s1[k]));
        let j = choose|j: int| 0 <= j < s2.len() && s2[j] == s1[k];
        assert(s2[j].timestamp == t);
    }
    assert forall|j: int| 0 <= j < s2.len() implies s1.contains(#[trigger] s2[j]) by {
        assert(s2.contains(s2[j]));
        assert(s2.to_multiset().count(s2[j]) > 0);
        assert(s1.to_multiset().count(s2[j]) > 0);
    }
    if earliest(s1, t) {
        assert forall|j: int| 0 <= j < s2.len() implies !s2[j].timestamp.before(t) by {
            assert(s1.contains(s2[j]));
            let i = choose|i: int| 0 <= i < s1.len() && s1[i] == s2[j];
            assert(!s1[i].timestamp.before(t));
        }
    }
    if latest(s1, t) {
        assert forall|j: int| 0 <= j < s2.len() implies !t.before(s2[j].timestamp) by {
            assert(s1.contains(s2[j]));
            let i = choose|i: int| 0 <= i < s1.len() && s1[i] == s2[j];
            assert(!t.before(s1[i].timestamp));
        }
    }
}

/// The start and the end of a window do not depend on the order of its
/// activities: two runs that hold the same activities, each as often as the
/// other, start and end at the same times.
pub proof fn lemma_time_range_ignores_order(
    s1: Seq<ActivityView>,
    s2: Seq<ActivityView>,
    t: Timestamp,
)
    requires
        s1.to_multiset() == s2.to_multiset(),
    ensures
        earliest(s1, t) == earliest(s2, t),
        latest(s1, t) == latest(s2, t),
{
    lemma_time_range_carries_over(s1, s2, t);
    lemma_time_range_carries_over(s2, s1, t);
}

/// The activities of an account since its baseline, in the order in which
/// they were handed in or added. The same activity may occur more than once,
/// and the window may be empty.
#[derive(Debug)]
pub struct ActivityWindow {
    activities: Vec<Activity>,
}

impl View for ActivityWindow {
    type V = Seq<ActivityView>;

    closed spec fn view(&self) -> Seq<ActivityView> {
        views(self.activities@)
    }
}

impl ActivityWindow {
    /// The balance that the window alone gives the account `id`: the net of
    /// its activities, saturated.
    pub open spec fn spec_balance(&self, id: AccountId) -> Money {
        Money::of(net_balance(self@, id))
    }

    /// A window over `activities`, in the order given. None is turned away,
    /// and an empty run makes an empty window.
    pub fn new(activities: Vec<Activity>) -> (r: ActivityWindow)
        ensures
            r@ == views(activities@),
    {
        ActivityWindow { activities }
    }

    /// The activities of the window, in order.
    pub fn activities(&self) -> (r: &[Activity])
        ensures
            views(r@) == self@,
    {
        self.activities.as_slice()
    }

    /// Appends `a`. Neither its time nor its being there already is looked at.
    pub fn add_activity(&mut self, a: Activity)
        ensures
            final(self)@ == old(self)@.push(a@),
    {
        let ghost before = self.activities@;
        self.activities.push(a);
        assert(views(before.push(a)) =~= views(before).push(a@));
    }

    /// The time of the earliest activity, wherever in the window it stands.
    pub fn get_start_timestamp(&self) -> (r: Timestamp)
        requires
            self@.len() > 0,
        ensures
            earliest(self@, r),
    {
        let n = self.activities.len();
        let first = self.activities.as_slice().first().expect(
            "Unexpected empty activities vector",
        );
        let mut best = first.timestamp;
        let mut i: usize = 1;
        assert(views(self.activities@).take(1)[0].timestamp == best);
        while i < n
            invariant
                n == self.activities.len(),
                1 <= i <= n,
                earliest(views(self.activities@).take(i as int), best),
            decreases n - i,
        {
            let ghost seen = views(self.activities@).take(i as int);
            let ghost next = views(self.activities@).take(i + 1);
            let ghost k = choose|k: int| 0 <= k < seen.len() && seen[k].timestamp == best;
            let t = self.activities[i].timestamp;
            if t.is_before(&best) {
                best = t;
                assert(next[i as int].timestamp == best);
            } else {
                assert(next[k].timestamp == best);
            }
            assert forall|j: int| 0 <= j < next.len() implies !next[j].timestamp.before(best) by {
                if j < i {
                    assert(seen[j] == next[j]);
                }
            }
            i += 1;
        }
        assert(views(self.activities@).take(n as int) =~= self@);
        best
    }

    /// The time of the latest activity, wherever in the window it stands.
    pub fn get_end_timestamp(&self) -> (r: Timestamp)
        requires
            self@.len() > 0,
        ensures
            latest(self@, r),
    {
        let n = self.activities.len();
        let first = self.activities.as_slice().first().expect(
            "Unexpected empty activities vector",
        );
        let mut best = first.timestamp;
        let mut i: usize = 1;
        assert(views(self.activities@).take(1)[0].timestamp == best);
        while i < n
            invariant
                n == self.activities.len(),
                1 <= i <= n,
                latest(views(self.activities@).take(i as int), best),
            decreases n - i,
        {
            let ghost seen = views(self.activities@).take(i as int);
            let ghost next = views(self.activities@).take(i + 1);
            let ghost k = choose|k: int| 0 <= k < seen.len() && seen[k].timestamp == best;
            let t = self.activities[i].timestamp;
            if best.is_before(&t) {
                best = t;
                assert(next[i as int].timestamp == best);
            } else {
                assert(next[k].timestamp == best);
            }
            assert forall|j: int| 0 <= j < next.len() implies !best.before(next[j].timestamp) by {
                if j < i {
                    assert(seen[j] == next[j]);
                }
            }
            i += 1;
        }
        assert(views(self.activities@).take(n as int) =~= self@);
        best
    }

    /// The balance that the window alone gives the account `id`: what its
    /// activities bring to `id` less what they take from it, saturated.
    pub fn calculate_balance(&self, id: AccountId) -> (r: Money)
        ensures
            r == self.spec_balance(id),
    {
        let n = self.activities.len();
        let mut net: i128 = 0;
        let mut i: usize = 0;
        while i < n
            invariant
                n == self.activities.len(),
                i <= n,
                net == net_balance(views(self.activities@).take(i as int), id),
                -(i as int) * 0x8000_0000_0000_0000 <= net <= (i as int) * 0x8000_0000_0000_0000,
            decreases n - i,
        {
            let ghost next = views(self.activities@).take(i + 1);
            assert(next.drop_last() =~= views(self.activities@).take(i as int));
            let a = &self.activities[i];
            let mut change: i128 = 0;
            if a.target_account_id == id {
                change = change + a.money.0 as i128;
            }
            if a.source_account_id == id {
                change = change - a.money.0 as i128;
            }
            net = net + change;
            i += 1;
        }
        assert(views(self.activities@).take(n as int) =~= self@);
        Money(saturated(net))
    }
}

/// Why an activity could not be built.
#[derive(Debug)]
pub enum ActivityBuilderError {
    /// A field that has no default was not set. It holds the field's name.
    UninitializedField(&'static str),
    /// The fields that were set do not determine the activity. It holds the
    /// reason.
    ValidationError(String),
}

/// Collects the fields of an activity one by one. The accounts and the
/// amount have to be set, except that the owner, left unset, is the source.
/// An identity left unset is none, and a time left unset is the time of
/// building.
#[derive(Debug)]
pub struct ActivityBuilder {
    id: Option<ActivityId>,
    owner_account_id: Option<AccountId>,
    source_account_id: Option<AccountId>,
    target_account_id: Option<AccountId>,
    timestamp: Option<Timestamp>,
    money: Option<Money>,
}

/// The fields that a builder has been given so far.
pub struct ActivityBuilderView {
    pub id: Option<ActivityId>,
    pub owner_account_id: Option<AccountId>,
    pub source_account_id: Option<AccountId>,
    pub target_account_id: Option<AccountId>,
    pub timestamp: Option<Timestamp>,
    pub money: Option<Money>,
}

impl ActivityBuilderView {
    /// No field set.
    pub open spec fn unset() -> ActivityBuilderView {
        ActivityBuilderView {
            id: None,
            owner_account_id: None,
            source_account_id: None,
            target_account_id: None,
            timestamp: None,
            money: None,
        }
    }

    /// Whether the fields set are enough to build an activity.
    pub open spec fn complete(self) -> bool {
        self.source_account_id is Some && self.target_account_id is Some && self.money is Some
    }

    /// The activity that complete fields make when the clock reads `now`.
    pub open spec fn activity(self, now: Timestamp) -> ActivityView
        recommends
            self.complete(),
    {
        ActivityView {
            id: self.id,
            owner_account_id: match self.owner_account_id {
                Some(owner) => owner,
                None => self.source_account_id.unwrap(),
            },
            source_account_id: self.source_account_id.unwrap(),
            target_account_id: self.target_account_id.unwrap(),
            timestamp: match self.timestamp {
                Some(at) => at,
                None => now,
            },
            money: self.money.unwrap(),
        }
    }

    /// Whether `e` is the error that incomplete fields are refused with: the
    /// first of the owner (which cannot be determined without a source), the
    /// source, the target and the amount that is missing.
    pub open spec fn refused_with(self, e: ActivityBuilderError) -> bool
        recommends
            !self.complete(),
    {
        if self.owner_account_id is None && self.source_account_id is None {
            e matches ActivityBuilderError::ValidationError(reason) && reason@
                == "Source account id is missing"@
        } else if self.source_account_id is None {
            e matches ActivityBuilderError::UninitializedField(name) && name@
                == "source_account_id"@
        } else if self.target_account_id is None {
            e matches ActivityBuilderError::UninitializedField(name) && name@
                == "target_account_id"@
        } else {
            e matches ActivityBuilderError::UninitializedField(name) && name@ == "money"@
        }
    }
}

impl View for ActivityBuilder {
    type V = ActivityBuilderView;

    closed spec fn view(&self) -> ActivityBuilderView {
        ActivityBuilderView {
            id: self.id,
            owner_account_id: self.owner_account_id,
            source_account_id: self.source_account_id,
            target_account_id: self.target_account_id,
            timestamp: self.timestamp,
            money: self.money,
        }
    }
}

impl Default for ActivityBuilder {
    /// A builder with no field set.
    fn default() -> (r: ActivityBuilder)
        ensures
            r@ == ActivityBuilderView::unset(),
    {
        ActivityBuilder {
            id: None,
            owner_account_id: None,
            source_account_id: None,
            target_account_id: None,
            timestamp: None,
            money: None,
        }
    }
}

impl Clone for ActivityBuilder {
    fn clone(&self) -> (r: ActivityBuilder)
        ensures
            r@ == self@,
    {
        ActivityBuilder {
            id: self.id,
            owner_account_id: self.owner_account_id,
            source_account_id: self.source_account_id,
            target_account_id: self.target_account_id,
            timestamp: self.timestamp,
            money: self.money,
        }
    }
}

impl ActivityBuilder {
    /// Sets the identity, or its absence.
    pub fn id(&mut self, value: Option<ActivityId>) -> (r: &mut ActivityBuilder)
        ensures
            r@ == (ActivityBuilderView { id: value, ..old(self)@ }),
            *final(self) == *final(r),
    {
        self.id = value;
        self
    }

    /// Sets the account under whose ledger the activity is filed.
    pub fn owner_account_id(&mut self, value: AccountId) -> (r: &mut ActivityBuilder)
        ensures
            r@ == (ActivityBuilderView { owner_account_id: Some(value), ..old(self)@ }),
            *final(self) == *final(r),
    {
        self.owner_account_id = Some(value);
        self
    }

    /// Sets the account that the money leaves.
    pub fn source_account_id(&mut self, value: AccountId) -> (r: &mut ActivityBuilder)
        ensures
            r@ == (ActivityBuilderView { source_account_id: Some(value), ..old(self)@ }),
            *final(self) == *final(r),
    {
        self.source_account_id = Some(value);
        self
    }

    /// Sets the account that the money reaches.
    pub fn target_account_id(&mut self, value: AccountId) -> (r: &mut ActivityBuilder)
        ensures
            r@ == (ActivityBuilderView { target_account_id: Some(value), ..old(self)@ }),
            *final(self) == *final(r),
    {
        self.target_account_id = Some(value);
        self
    }

    /// Sets the time of the transfer.
    pub fn timestamp(&mut self, value: Timestamp) -> (r: &mut ActivityBuilder)
        ensures
            r@ == (ActivityBuilderView { timestamp: Some(value), ..old(self)@ }),
            *final(self) == *final(r),
    {
        self.timestamp = Some(value);
        self
    }

    /// Sets the amount.
    pub fn money(&mut self, value: Money) -> (r: &mut ActivityBuilder)
        ensures
            r@ == (ActivityBuilderView { money: Some(value), ..old(self)@ }),
            *final(self) == *final(r),
    {
        self.money = Some(value);
        self
    }

    /// The owner of an activity whose owner was not set: its source. Without
    /// a source there is none to fall back on.
    pub fn default_owner_account(&self) -> (r: Result<AccountId, String>)
        ensures
            match r {
                Ok(id) => self@.source_account_id == Some(id),
                Err(reason) => self@.source_account_id is None && reason@
                    == "Source account id is missing"@,
            },
    {
        match self.source_account_id {
            Some(id) => Ok(id),
            None => Err("Source account id is missing".to_owned()),
        }
    }

    /// Builds the activity from the fields set, with `now` as the time where
    /// none was set. Incomplete fields are refused, and the error names the
    /// first that is missing.
    pub fn build_at(&self, now: Timestamp) -> (r: Result<Activity, ActivityBuilderError>)
        ensures
            match r {
                Ok(activity) => self@.complete() && activity@ == self@.activity(now),
                Err(e) => !self@.complete() && self@.refused_with(e),
            },
    {
        let id = self.id;
        let owner_account_id = match self.owner_account_id {
            Some(owner) => owner,
            None => match self.default_owner_account() {
                Ok(owner) => owner,
                Err(reason) => {
                    return Err(ActivityBuilderError::ValidationError(reason));
                },
            },
        };
        let source_account_id = match self.source_account_id {
            Some(source) => source,
            None => {
                return Err(ActivityBuilderError::UninitializedField("source_account_id"));
            },
        };
        let target_account_id = match self.target_account_id {
            Some(target) => target,
            None => {
                return Err(ActivityBuilderError::UninitializedField("target_account_id"));
            },
        };
        let timestamp = match self.timestamp {
            Some(at) => at,
            None => now,
        };
        let money = match self.money {
            Some(money) => money,
            None => {
                return Err(ActivityBuilderError::UninitializedField("money"));
            },
        };
        Ok(
            Activity {
                id,
                owner_account_id,
                source_account_id,
                target_account_id,
                timestamp,
                money,
            },
        )
    }

    /// Builds the activity from the fields set. Where no time was set, the
    /// activity gets the time that the clock gives. Incomplete fields are
    /// refused, and the error names the first that is missing.
    pub fn build(&self) -> (r: Result<Activity, ActivityBuilderError>)
        ensures
            match r {
                Ok(activity) => self@.complete() && exists|now: Timestamp|
                    activity@ == #[trigger] self@.activity(now),
                Err(e) => !self@.complete() && self@.refused_with(e),
            },
    {
        let now = match self.timestamp {
            Some(at) => at,
            None => Timestamp::now(),
        };
        self.build_at(now)
    }
}

} // verus!
