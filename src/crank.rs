use vstd::prelude::*;
use crate::key::Key;
use crate::state::UserAccount;

verus! {

/// What the matching program reports of an order.
#[derive(Clone, Copy, Debug, PartialEq, Eq, Structural)]
pub enum EventKind {
    /// The order traded: a positive delta is credited to the free balance, a
    /// negative one is taken from the locked balance.
    Fill,
    /// The order left the book: the magnitude of each delta moves from the
    /// locked balance back to the free one, and the order no longer counts as open.
    Out,
}

/// One entry of the matching program's event queue.
#[derive(Clone, Copy, Debug)]
pub struct Event {
    pub kind: EventKind,
    pub order_id: u128,
    /// The user account the event refers to.
    pub user: Key,
    pub base_delta: i64,
    pub quote_delta: i64,
}

/// A fill on one side: `(free, locked)` afterwards, `None` where a balance
/// would leave the range of `u64`.
pub open spec fn fill_side(free: u64, locked: u64, d: i64) -> Option<(u64, u64)> {
    if d >= 0 {
        if free + d <= u64::MAX {
            Some(((free + d) as u64, locked))
        } else {
            None
        }
    } else if locked + d >= 0 {
        Some((free, (locked + d) as u64))
    } else {
        None
    }
}

/// The magnitude of a delta.
pub open spec fn magnitude(d: i64) -> int {
    if d >= 0 {
        d as int
    } else {
        -d
    }
}

/// A release on one side: the magnitude of `d` moves from locked to free.
pub open spec fn release_side(free: u64, locked: u64, d: i64) -> Option<(u64, u64)> {
    if magnitude(d) <= locked && free + magnitude(d) <= u64::MAX {
        Some(((free + magnitude(d)) as u64, (locked - magnitude(d)) as u64))
    } else {
        None
    }
}

/// The record after one event, `None` where the event cannot apply to it.
pub open spec fn apply_event(u: UserAccount, e: Event) -> Option<UserAccount> {
    match e.kind {
        EventKind::Fill => match (
            fill_side(u.base_free, u.base_locked, e.base_delta),
            fill_side(u.quote_free, u.quote_locked, e.quote_delta),
        ) {
            (Some(b), Some(q)) => Some(
                UserAccount { base_free: b.0, base_locked: b.1, quote_free: q.0, quote_locked: q.1, ..u },
            ),
            _ => None,
        },
        EventKind::Out => if u.open_orders == 0 {
            None
        } else {
            match (
                release_side(u.base_free, u.base_locked, e.base_delta),
                release_side(u.quote_free, u.quote_locked, e.quote_delta),
            ) {
                (Some(b), Some(q)) => Some(
                    UserAccount {
                        base_free: b.0,
                        base_locked: b.1,
                        quote_free: q.0,
                        quote_locked: q.1,
                        open_orders: (u.open_orders - 1) as u64,
                        ..u
                    },
                ),
                _ => None,
            }
        },
    }
}

/// The record of the account at `key` after the events, in queue order, that
/// refer to it; the others pass it by.
pub open spec fn crank_user(u: UserAccount, key: Seq<u8>, events: Seq<Event>) -> Option<UserAccount>
    decreases events.len(),
{
    if events.len() == 0 {
        Some(u)
    } else {
        match crank_user(u, key, events.drop_last()) {
            None => None,
            Some(v) => if events.last().user@ == key {
                apply_event(v, events.last())
            } else {
                Some(v)
            },
        }
    }
}

/// How many of the events refer to one of `keys`.
pub open spec fn applied_count(events: Seq<Event>, keys: Seq<Seq<u8>>) -> nat
    decreases events.len(),
{
    if events.len() == 0 {
        0
    } else {
        applied_count(events.drop_last(), keys) + if keys.contains(events.last().user@) {
            1nat
        } else {
            0nat
        }
    }
}

/// Once an event cannot apply, no later event makes the account valid again.
pub proof fn lemma_crank_user_stays_none(u: UserAccount, key: Seq<u8>, events: Seq<Event>, i: int)
    requires
        0 <= i <= events.len(),
        crank_user(u, key, events.take(i)) is None,
    ensures
        crank_user(u, key, events) is None,
    decreases events.len() - i,
{
    if i < events.len() {
        assert(events.take(i + 1).drop_last() =~= events.take(i));
        lemma_crank_user_stays_none(u, key, events, i + 1);
    } else {
        assert(events.take(i) =~= events);
    }
}

/// Applies a credit to one side of a balance.
fn fill_side_exec(free: u64, locked: u64, d: i64) -> (r: Option<(u64, u64)>)
    ensures
        r == fill_side(free, locked, d),
{
    if d >= 0 {
        let x = d as u64;
        if free <= u64::MAX - x {
            Some((free + x, locked))
        } else {
            None
        }
    } else {
        let x = (0i128 - d as i128) as u64;
        if x <= locked {
            Some((free, locked - x))
        } else {
            None
        }
    }
}

fn release_side_exec(free: u64, locked: u64, d: i64) -> (r: Option<(u64, u64)>)
    ensures
        r == release_side(free, locked, d),
{
    let x: u64 = if d >= 0 {
        d as u64
    } else {
        (0i128 - d as i128) as u64
    };
    if x <= locked && free <= u64::MAX - x {
        Some((free + x, locked - x))
    } else {
        None
    }
}

/// Applies one event to a user record.
pub fn apply_event_exec(u: &UserAccount, e: &Event) -> (r: Option<UserAccount>)
    ensures
        r == apply_event(*u, *e),
{
    match e.kind {
        EventKind::Fill => {
            match (
                fill_side_exec(u.base_free, u.base_locked, e.base_delta),
                fill_side_exec(u.quote_free, u.quote_locked, e.quote_delta),
            ) {
                (Some(b), Some(q)) => Some(
                    UserAccount {
                        base_free: b.0,
                        base_locked: b.1,
                        quote_free: q.0,
                        quote_locked: q.1,
                        ..*u
                    },
                ),
                _ => None,
            }
        },
        EventKind::Out => {
            if u.open_orders == 0 {
                return None;
            }
            match (
                release_side_exec(u.base_free, u.base_locked, e.base_delta),
                release_side_exec(u.quote_free, u.quote_locked, e.quote_delta),
            ) {
                (Some(b), Some(q)) => Some(
                    UserAccount {
                        base_free: b.0,
                        base_locked: b.1,
                        quote_free: q.0,
                        quote_locked: q.1,
                        open_orders: u.open_orders - 1,
                        ..*u
                    },
                ),
                _ => None,
            }
        },
    }
}

} // verus!

verus! {

pub proof fn lemma_applied_count_bound(events: Seq<Event>, keys: Seq<Seq<u8>>)
    ensures
        applied_count(events, keys) <= events.len(),
    decreases events.len(),
{
    if events.len() > 0 {
        lemma_applied_count_bound(events.drop_last(), keys);
    }
}

} // verus!

verus! {

/// An event that refers to no supplied account changes no supplied record and
/// is not counted as applied: the call goes on past it.
pub proof fn lemma_absent_event_skipped(
    us: Seq<UserAccount>,
    keys: Seq<Seq<u8>>,
    events: Seq<Event>,
    e: Event,
)
    requires
        us.len() == keys.len(),
        !keys.contains(e.user@),
    ensures
        forall|k: int|
            0 <= k < us.len() ==> crank_user(#[trigger] us[k], keys[k], events.push(e)) == crank_user(
                us[k],
                keys[k],
                events,
            ),
        applied_count(events.push(e), keys) == applied_count(events, keys),
{
    assert(events.push(e).drop_last() =~= events);
    assert forall|k: int| 0 <= k < us.len() implies crank_user(#[trigger] us[k], keys[k], events.push(e))
        == crank_user(us[k], keys[k], events) by {
        assert(keys[k] != e.user@);
    }
}

/// Events are applied to a record in queue order: the record after a longer
/// run is the record after its front, with the last event applied if it
/// refers to the account.
pub proof fn lemma_events_in_queue_order(u: UserAccount, key: Seq<u8>, events: Seq<Event>, e: Event)
    requires
        crank_user(u, key, events) is Some,
    ensures
        crank_user(u, key, events.push(e)) == if e.user@ == key {
            apply_event(crank_user(u, key, events)->Some_0, e)
        } else {
            crank_user(u, key, events)
        },
{
    assert(events.push(e).drop_last() =~= events);
}

} // verus!
