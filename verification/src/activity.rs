//! The activity log shown in the window: the latest events, numbered.
use vstd::prelude::*;
use crate::clock::unix_time_secs;

verus! {

/// One logged event.
#[derive(Clone, Debug)]
pub struct ActivityItem {
    pub id: u64,
    pub kind: String,
    pub message: String,
    /// Seconds since the Unix epoch.
    pub created_at: u64,
}

/// How many events the log keeps.
pub const ACTIVITY_LIMIT: usize = 20;

/// At most `ACTIVITY_LIMIT` events, numbered from 1 up and one apart.
pub open spec fn log_wf(items: Seq<ActivityItem>) -> bool {
    &&& items.len() <= ACTIVITY_LIMIT
    &&& forall|i: int| 0 <= i < items.len() ==> #[trigger] items[i].id >= 1
    &&& forall|i: int| 0 <= i < items.len() - 1 ==> #[trigger] items[i + 1].id == items[i].id + 1
}

/// The number the next event gets: one more than the last, or 1.
pub open spec fn next_id(items: Seq<ActivityItem>) -> int {
    if items.len() == 0 {
        1
    } else {
        items.last().id + 1
    }
}

/// The events kept once one more arrives: the oldest goes when the log is
/// full.
pub open spec fn kept_before(items: Seq<ActivityItem>) -> Seq<ActivityItem> {
    if items.len() < ACTIVITY_LIMIT {
        items
    } else {
        items.drop_first()
    }
}

/// The last `ACTIVITY_LIMIT` events of `items`, or all of them when there
/// are no more.
pub open spec fn latest(items: Seq<ActivityItem>) -> Seq<ActivityItem> {
    if items.len() > ACTIVITY_LIMIT {
        items.skip(items.len() - ACTIVITY_LIMIT)
    } else {
        items
    }
}

/// The latest events, oldest first.
pub struct ActivityLog {
    items: Vec<ActivityItem>,
}

impl View for ActivityLog {
    type V = Seq<ActivityItem>;

    closed spec fn view(&self) -> Seq<ActivityItem> {
        self.items@
    }
}

impl ActivityLog {
    #[verifier::type_invariant]
    spec fn inv(self) -> bool {
        log_wf(self.items@)
    }

    /// An empty log.
    pub fn new() -> (log: Self)
        ensures
            log@.len() == 0,
    {
        ActivityLog { items: Vec::new() }
    }

    /// The events, oldest first.
    pub fn items(&self) -> (r: &Vec<ActivityItem>)
        ensures
            r@ == self@,
            log_wf(r@),
    {
        proof {
            use_type_invariant(self);
        }
        &self.items
    }

    /// Whether one more event can be numbered.
    pub fn can_push(&self) -> (b: bool)
        ensures
            b == (next_id(self@) <= u64::MAX),
    {
        let n = self.items.len();
        n == 0 || self.items[n - 1].id < u64::MAX
    }

    /// Logs an event at the given time: it gets the next number, and the
    /// oldest event goes when the log is full.
    pub fn push_activity_at(&mut self, kind: &str, message: String, created_at: u64)
        requires
            next_id(old(self)@) <= u64::MAX,
        ensures
            log_wf(final(self)@),
            final(self)@.len() > 0,
            final(self)@.drop_last() == kept_before(old(self)@),
            final(self)@ == latest(old(self)@.push(final(self)@.last())),
            final(self)@.last().id == next_id(old(self)@),
            final(self)@.last().kind@ == kind@,
            final(self)@.last().message == message,
            final(self)@.last().created_at == created_at,
    {
        proof {
            use_type_invariant(&*self);
        }
        let mut items: Vec<ActivityItem> = Vec::new();
        std::mem::swap(&mut items, &mut self.items);
        let ghost before = items@;
        let n = items.len();
        let id: u64 = if n == 0 {
            1
        } else {
            items[n - 1].id + 1
        };
        items.push(ActivityItem { id, kind: kind.to_owned(), message, created_at });
        if items.len() > ACTIVITY_LIMIT {
            items.remove(0);
            assert(items@.drop_last() =~= before.drop_first());
        } else {
            assert(items@.drop_last() =~= before);
        }
        assert forall|i: int| 0 <= i < items@.len() - 1 implies #[trigger] items@[i + 1].id == items@[i].id + 1 by {
            if items@.len() == before.len() {
                assert(items@[i] == before[i + 1]);
                if i + 1 < items@.len() - 1 {
                    assert(items@[i + 1] == before[i + 2]);
                }
            } else {
                assert(items@[i] == before[i]);
                if i + 1 < items@.len() - 1 {
                    assert(items@[i + 1] == before[i + 1]);
                }
            }
        }
        assert forall|i: int| 0 <= i < items@.len() implies #[trigger] items@[i].id >= 1 by {
            if i < items@.len() - 1 {
                if items@.len() == before.len() {
                    assert(items@[i] == before[i + 1]);
                } else {
                    assert(items@[i] == before[i]);
                }
            }
        }
        assert(items@ =~= latest(before.push(items@.last())));
        self.items = items;
    }

    /// Logs an event now.
    pub fn push_activity(&mut self, kind: &str, message: String)
        requires
            next_id(old(self)@) <= u64::MAX,
        ensures
            log_wf(final(self)@),
            final(self)@.len() > 0,
            final(self)@.drop_last() == kept_before(old(self)@),
            final(self)@ == latest(old(self)@.push(final(self)@.last())),
            final(self)@.last().id == next_id(old(self)@),
            final(self)@.last().kind@ == kind@,
            final(self)@.last().message == message,
    {
        let now = unix_time_secs();
        self.push_activity_at(kind, message, now);
    }
}

} // verus!
