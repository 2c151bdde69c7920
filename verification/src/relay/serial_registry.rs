//! Best-effort correlation between adb serials and relay connections.
//!
//! The relay accepts connections from `adb reverse` tunnels on a single port,
//! and nothing in such a connection tells which device opened it. To recover
//! the serial, whoever is about to trigger a connection registers it first, and
//! the relay takes the oldest pending serial when a connection comes in.
//!
//! This is a heuristic on time: a serial that was not matched within the match
//! window is forgotten.

use vstd::prelude::*;

use crate::relay::clock::{age, elapsed};
use std::collections::VecDeque;

verus! {

/// How long a registered serial stays eligible for matching: thirty seconds.
pub const MATCH_WINDOW: u64 = 30_000_000_000;

/// Upper bound on the number of pending serials.
pub const MAX_PENDING: usize = 8;

/// A serial and the time of its registration.
pub struct PendingEntry {
    serial: String,
    registered_at: u64,
}

/// What a pending entry stands for.
pub struct Pending {
    pub serial: Seq<char>,
    pub registered_at: u64,
}

impl View for PendingEntry {
    type V = Pending;

    closed spec fn view(&self) -> Pending {
        Pending { serial: self.serial@, registered_at: self.registered_at }
    }
}

/// The serials that wait for a connection, oldest first.
pub struct PendingQueue {
    entries: VecDeque<PendingEntry>,
}

impl View for PendingQueue {
    type V = Seq<Pending>;

    closed spec fn view(&self) -> Seq<Pending> {
        Seq::new(self.entries@.len(), |i: int| self.entries@[i]@)
    }
}

/// Whether the entry is still within the match window at `now`.
pub open spec fn fresh(entry: Pending, now: u64) -> bool {
    age(entry.registered_at, now) < MATCH_WINDOW
}

/// The entries that are still within the match window at `now`.
pub open spec fn still_fresh(queue: Seq<Pending>, now: u64) -> Seq<Pending> {
    queue.filter(|entry: Pending| fresh(entry, now))
}

/// The queue after `serial` was registered at `now`: stale entries are gone,
/// and so is the oldest of the others where there would be no room.
pub open spec fn registered(queue: Seq<Pending>, serial: Seq<char>, now: u64) -> Seq<Pending> {
    let kept = still_fresh(queue, now);
    let room = if kept.len() >= MAX_PENDING {
        kept.drop_first()
    } else {
        kept
    };
    room.push(Pending { serial, registered_at: now })
}

/// The queue without the stale entries at its front.
pub open spec fn from_first_fresh(queue: Seq<Pending>, now: u64) -> Seq<Pending>
    decreases queue.len(),
{
    if queue.len() > 0 && !fresh(queue[0], now) {
        from_first_fresh(queue.drop_first(), now)
    } else {
        queue
    }
}

/// The serial that is taken at `now`, if there is one, and what stays.
pub open spec fn taken(queue: Seq<Pending>, now: u64) -> (Option<Seq<char>>, Seq<Pending>) {
    let rest = from_first_fresh(queue, now);
    if rest.len() == 0 {
        (None, rest)
    } else {
        (Some(rest[0].serial), rest.drop_first())
    }
}

impl PendingQueue {
    /// The queue holds no more than its upper bound.
    pub open spec fn wf(&self) -> bool {
        self@.len() <= MAX_PENDING
    }

    /// A queue with nothing in it.
    pub fn new() -> (queue: PendingQueue)
        ensures
            queue.wf(),
            queue@ == Seq::<Pending>::empty(),
    {
        let queue = PendingQueue { entries: VecDeque::new() };
        assert(queue@ =~= Seq::<Pending>::empty());
        queue
    }

    /// Drops the entries that fell out of the match window.
    fn retain_fresh(&mut self, now: u64)
        ensures
            final(self)@ == still_fresh(old(self)@, now),
    {
        let ghost all = self@;
        let ghost keep = |entry: Pending| fresh(entry, now);
        let n: usize = self.entries.len();
        let mut i: usize = 0;
        assert(self@ =~= all.skip(0) + all.take(0).filter(keep));
        while i < n
            invariant
                i <= n == all.len(),
                keep == (|entry: Pending| fresh(entry, now)),
                self@ == all.skip(i as int) + all.take(i as int).filter(keep),
            decreases n - i,
        {
            let ghost before = self@;
            let ghost kept = all.take(i as int).filter(keep);
            assert(before[0] == all[i as int]);
            assert(all.take(i + 1).drop_last() =~= all.take(i as int));
            assert(all.take(i + 1).last() == all[i as int]);
            reveal_with_fuel(Seq::filter, 2);
            if let Some(entry) = self.entries.pop_front() {
                assert(entry@ == all[i as int]);
                assert(self@ =~= before.drop_first());
                if elapsed(entry.registered_at, now) < MATCH_WINDOW {
                    let ghost shorter = self@;
                    self.entries.push_back(entry);
                    assert(self@ =~= shorter.push(all[i as int]));
                    assert(self@ =~= all.skip(i + 1) + kept.push(all[i as int]));
                } else {
                    assert(self@ =~= all.skip(i + 1) + kept);
                }
            }
            i = i + 1;
        }
        assert(all.take(n as int) =~= all);
        assert(self@ =~= all.filter(keep));
    }
}

/// Registers `serial` as about to open a connection to the relay.
pub fn register_pending(queue: &mut PendingQueue, serial: &str, now: u64)
    requires
        old(queue).wf(),
    ensures
        final(queue).wf(),
        final(queue)@ == registered(old(queue)@, serial@, now),
{
    queue.retain_fresh(now);
    let ghost kept = queue@;
    proof {
        old(queue)@.lemma_filter_len(|entry: Pending| fresh(entry, now));
    }
    if queue.entries.len() >= MAX_PENDING {
        let _ = queue.entries.pop_front();
        assert(queue@ =~= kept.drop_first());
    }
    let ghost room = queue@;
    queue.entries.push_back(PendingEntry { serial: serial.to_string(), registered_at: now });
    assert(queue@ =~= room.push(Pending { serial: serial@, registered_at: now }));
}

/// Takes the oldest pending serial, if there is one that is still within the
/// match window.
pub fn take_pending(queue: &mut PendingQueue, now: u64) -> (serial: Option<String>)
    requires
        old(queue).wf(),
    ensures
        final(queue).wf(),
        final(queue)@ == taken(old(queue)@, now).1,
        match serial {
            Some(s) => taken(old(queue)@, now).0 == Some(s@),
            None => taken(old(queue)@, now).0 is None,
        },
{
    loop
        invariant
            queue.wf(),
            from_first_fresh(old(queue)@, now) == from_first_fresh(queue@, now),
        decreases queue@.len(),
    {
        let ghost before = queue@;
        match queue.entries.pop_front() {
            None => {
                assert(queue@ =~= before);
                return None;
            },
            Some(entry) => {
                assert(entry@ == before[0]);
                assert(queue@ =~= before.drop_first());
                if elapsed(entry.registered_at, now) < MATCH_WINDOW {
                    return Some(entry.serial);
                }
            },
        }
    }
}

/// Registering keeps the queue within its bound.
pub proof fn law_bounded(queue: Seq<Pending>, serial: Seq<char>, now: u64)
    requires
        queue.len() <= MAX_PENDING,
    ensures
        registered(queue, serial, now).len() <= MAX_PENDING,
        taken(queue, now).1.len() <= MAX_PENDING,
{
    queue.lemma_filter_len(|entry: Pending| fresh(entry, now));
    from_first_fresh_is_suffix(queue, now);
}

/// What stays after the stale front is dropped is the end of the queue, its
/// first entry is fresh, and all that was dropped was stale.
pub proof fn from_first_fresh_is_suffix(queue: Seq<Pending>, now: u64)
    ensures
        ({
            let rest = from_first_fresh(queue, now);
            let dropped = queue.len() - rest.len();
            &&& 0 <= dropped <= queue.len()
            &&& rest == queue.skip(dropped)
            &&& rest.len() > 0 ==> fresh(rest[0], now)
            &&& forall|i: int| 0 <= i < dropped ==> !fresh(#[trigger] queue[i], now)
        }),
    decreases queue.len(),
{
    let rest = from_first_fresh(queue, now);
    if queue.len() > 0 && !fresh(queue[0], now) {
        let tail = queue.drop_first();
        from_first_fresh_is_suffix(tail, now);
        let dropped = queue.len() - rest.len();
        assert(tail.skip(dropped - 1) =~= queue.skip(dropped));
        assert forall|i: int| 0 <= i < dropped implies !fresh(#[trigger] queue[i], now) by {
            if i > 0 {
                assert(tail[i - 1] == queue[i]);
            }
        }
    } else {
        assert(queue.skip(0) =~= queue);
    }
}

/// A serial that was registered alone is the one that is taken within the match
/// window, and then nothing is left.
pub proof fn law_register_then_take(serial: Seq<char>, now: u64, later: u64)
    requires
        age(now, later) < MATCH_WINDOW,
    ensures
        taken(registered(Seq::empty(), serial, now), later) == (
            Some(serial),
            Seq::<Pending>::empty(),
        ),
{
    let queue = registered(Seq::empty(), serial, now);
    reveal_with_fuel(Seq::filter, 1);
    assert(queue =~= seq![Pending { serial, registered_at: now }]);
    assert(queue.drop_first() =~= Seq::<Pending>::empty());
}

/// Nothing is taken from an empty queue.
pub proof fn law_take_empty(now: u64)
    ensures
        taken(Seq::empty(), now) == (None::<Seq<char>>, Seq::<Pending>::empty()),
{
}

/// A serial that is taken was registered within the match window, and every
/// entry before it was stale.
pub proof fn law_taken_is_oldest_fresh(queue: Seq<Pending>, now: u64)
    ensures
        match taken(queue, now).0 {
            Some(serial) => exists|i: int|
                {
                    &&& 0 <= i < queue.len()
                    &&& #[trigger] queue[i].serial == serial
                    &&& fresh(queue[i], now)
                    &&& taken(queue, now).1 == queue.skip(i + 1)
                    &&& forall|j: int| 0 <= j < i ==> !fresh(#[trigger] queue[j], now)
                },
            None => forall|j: int| 0 <= j < queue.len() ==> !fresh(#[trigger] queue[j], now),
        },
{
    from_first_fresh_is_suffix(queue, now);
    let rest = from_first_fresh(queue, now);
    let i = queue.len() - rest.len();
    if rest.len() > 0 {
        assert(rest[0] == queue[i]);
        assert(rest.drop_first() =~= queue.skip(i + 1));
    }
}

/// The serials that come out when one take follows another until nothing is
/// left, all at `now`.
pub open spec fn drained(queue: Seq<Pending>, now: u64) -> Seq<Seq<char>>
    decreases queue.len(),
    via drained_decreases
{
    match taken(queue, now).0 {
        Some(serial) => seq![serial] + drained(taken(queue, now).1, now),
        None => Seq::empty(),
    }
}

#[via_fn]
proof fn drained_decreases(queue: Seq<Pending>, now: u64) {
    from_first_fresh_is_suffix(queue, now);
}

/// Serials come out in the order in which they were registered.
pub proof fn law_fifo_order(queue: Seq<Pending>, now: u64)
    requires
        forall|i: int| 0 <= i < queue.len() ==> fresh(#[trigger] queue[i], now),
    ensures
        drained(queue, now) == queue.map_values(|entry: Pending| entry.serial),
    decreases queue.len(),
{
    let serials = queue.map_values(|entry: Pending| entry.serial);
    if queue.len() == 0 {
        assert(serials =~= Seq::<Seq<char>>::empty());
    } else {
        let rest = queue.drop_first();
        assert forall|i: int| 0 <= i < rest.len() implies fresh(#[trigger] rest[i], now) by {
            assert(rest[i] == queue[i + 1]);
        }
        law_fifo_order(rest, now);
        assert(taken(queue, now) == (Some(queue[0].serial), rest));
        assert(serials =~= seq![queue[0].serial] + rest.map_values(|entry: Pending| entry.serial));
    }
}

/// Where every entry is fresh, registering adds the serial at the end, and
/// drops the oldest entry where the queue was full.
pub proof fn law_register_drops_oldest(queue: Seq<Pending>, serial: Seq<char>, now: u64)
    requires
        forall|i: int| 0 <= i < queue.len() ==> fresh(#[trigger] queue[i], now),
    ensures
        queue.len() < MAX_PENDING ==> registered(queue, serial, now) == queue.push(
            Pending { serial, registered_at: now },
        ),
        queue.len() >= MAX_PENDING ==> registered(queue, serial, now) == queue.drop_first().push(
            Pending { serial, registered_at: now },
        ),
{
    all_fresh_stay(queue, now);
}

proof fn all_fresh_stay(queue: Seq<Pending>, now: u64)
    requires
        forall|i: int| 0 <= i < queue.len() ==> fresh(#[trigger] queue[i], now),
    ensures
        still_fresh(queue, now) == queue,
    decreases queue.len(),
{
    reveal_with_fuel(Seq::filter, 2);
    if queue.len() > 0 {
        let front = queue.drop_last();
        assert forall|i: int| 0 <= i < front.len() implies fresh(#[trigger] front[i], now) by {
            assert(front[i] == queue[i]);
        }
        all_fresh_stay(front, now);
        assert(fresh(queue[queue.len() - 1], now));
        assert(front.push(queue.last()) =~= queue);
    }
}

/// Whether the entries stand in the order of their registration, none later
/// than `now`.
pub open spec fn in_time_order(queue: Seq<Pending>, now: u64) -> bool {
    &&& forall|i: int, j: int|
        0 <= i <= j < queue.len() ==> (#[trigger] queue[i]).registered_at <= (
        #[trigger] queue[j]).registered_at
    &&& forall|i: int| 0 <= i < queue.len() ==> (#[trigger] queue[i]).registered_at <= now
}

/// With a clock that does not run backwards the queue stays in the order of
/// registration, and after a take no stale entry is left in it.
pub proof fn law_time_order(queue: Seq<Pending>, serial: Seq<char>, now: u64)
    requires
        in_time_order(queue, now),
    ensures
        in_time_order(registered(queue, serial, now), now),
        in_time_order(taken(queue, now).1, now),
        forall|i: int|
            0 <= i < taken(queue, now).1.len() ==> fresh(#[trigger] taken(queue, now).1[i], now),
{
    filter_keeps_time_order(queue, now);
    from_first_fresh_is_suffix(queue, now);
}

proof fn filter_keeps_time_order(queue: Seq<Pending>, now: u64)
    requires
        in_time_order(queue, now),
    ensures
        in_time_order(still_fresh(queue, now), now),
        forall|i: int|
            0 <= i < still_fresh(queue, now).len() ==> queue.len() > 0 && (
            #[trigger] still_fresh(queue, now)[i]).registered_at <= queue.last().registered_at,
    decreases queue.len(),
{
    reveal_with_fuel(Seq::filter, 2);
    if queue.len() > 0 {
        filter_keeps_time_order(queue.drop_last(), now);
        let front = still_fresh(queue.drop_last(), now);
        assert(forall|i: int| 0 <= i < front.len() ==> (#[trigger] front[i]).registered_at
            <= queue.last().registered_at);
    }
}

/// A serial counts for less than thirty seconds after it was registered.
pub proof fn law_serials_count_for_thirty_seconds(entry: Pending, now: u64)
    ensures
        fresh(entry, now) <==> entry.registered_at > now || now - entry.registered_at
            < 30_000_000_000,
{
}

/// Registering puts the new serial last, with its time, and keeps of the others
/// exactly those that still count, but for the oldest of them where eight or more
/// do.
pub proof fn law_registering_keeps_what_counts(
    queue: Seq<Pending>,
    serial: Seq<char>,
    now: u64,
    i: int,
)
    requires
        queue.len() <= 8,
        0 <= i < queue.len(),
    ensures
        registered(queue, serial, now).len() > 0,
        registered(queue, serial, now).last() == (Pending { serial, registered_at: now }),
        registered(queue, serial, now).len() <= 8,
        forall|k: int|
            0 <= k < registered(queue, serial, now).len() - 1 ==> queue.contains(
                #[trigger] registered(queue, serial, now)[k],
            ) && fresh(registered(queue, serial, now)[k], now),
        // with room, every entry that counts stays
        fresh(queue[i], now) && (exists|j: int|
            0 <= j < queue.len() && !fresh(#[trigger] queue[j], now)) ==> registered(
            queue,
            serial,
            now,
        ).drop_last().contains(queue[i]),
        fresh(queue[i], now) && queue.len() < 8 ==> registered(
            queue,
            serial,
            now,
        ).drop_last().contains(queue[i]),
        // without, every one but the first
        fresh(queue[i], now) && i > 0 && queue.len() == 8 ==> registered(
            queue,
            serial,
            now,
        ).drop_last().contains(queue[i]),
{
    let keep = |entry: Pending| fresh(entry, now);
    let kept = still_fresh(queue, now);
    let all = registered(queue, serial, now);
    queue.lemma_filter_len(keep);
    let room = if kept.len() >= MAX_PENDING {
        kept.drop_first()
    } else {
        kept
    };
    assert(all.drop_last() =~= room);
    assert forall|k: int| 0 <= k < all.len() - 1 implies queue.contains(#[trigger] all[k]) && fresh(
        all[k],
        now,
    ) by {
        assert(all[k] == room[k]);
        let at = if kept.len() >= MAX_PENDING {
            k + 1
        } else {
            k
        };
        assert(kept[at] == all[k]);
        queue.lemma_filter_pred(keep, at);
        assert(kept.contains(kept[at]));
        queue.lemma_filter_contains_rev(keep, kept[at]);
    }
    if fresh(queue[i], now) {
        queue.lemma_filter_contains(keep, i);
        if exists|j: int| 0 <= j < queue.len() && !fresh(#[trigger] queue[j], now) {
            let j = choose|j: int| 0 <= j < queue.len() && !fresh(#[trigger] queue[j], now);
            stale_entries_make_room(queue, now, j);
            assert(room.contains(queue[i]));
        } else if queue.len() == 8 && i > 0 {
            assert forall|j: int| 0 <= j < queue.len() implies fresh(#[trigger] queue[j], now) by {
            }
            all_fresh_stay(queue, now);
            assert(room[i - 1] == queue[i]);
        }
    }
}

proof fn stale_entries_make_room(queue: Seq<Pending>, now: u64, j: int)
    requires
        0 <= j < queue.len(),
        !fresh(queue[j], now),
    ensures
        still_fresh(queue, now).len() < queue.len(),
    decreases queue.len(),
{
    let keep = |entry: Pending| fresh(entry, now);
    reveal_with_fuel(Seq::filter, 2);
    let front = queue.drop_last();
    front.lemma_filter_len(keep);
    if j < front.len() {
        stale_entries_make_room(front, now, j);
    }
}

/// Every call registers and takes serials as it should.
pub proof fn law_calls_register_and_take(
    queue: &mut PendingQueue,
    serial: &str,
    now: u64,
    taken_serial: Option<String>,
    empty: PendingQueue,
)
    ensures
        call_ensures(register_pending, (queue, serial, now), ()) ==> final(queue)@ == registered(
            old(queue)@,
            serial@,
            now,
        ),
        call_ensures(take_pending, (queue, now), taken_serial) ==> {
            &&& final(queue)@ == taken(old(queue)@, now).1
            &&& taken_serial is Some ==> taken(old(queue)@, now).0 == Some(taken_serial->0@)
            &&& taken_serial is None ==> taken(old(queue)@, now).0 is None
        },
        call_ensures(PendingQueue::new, (), empty) ==> empty@.len() == 0,
{
}

} // verus!
