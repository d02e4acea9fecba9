//! The logger as a function of the events it has seen: the held state of the
//! modifier after a sequence of key events, the records that the sequence
//! leaves, and what holds of both.

use vstd::prelude::*;
use crate::event::{KeyEvent, LEFT_ALT, PRESSED, RELEASED};
use crate::text::description;

verus! {

/// Whether the event is a press of the modifier key.
pub open spec fn is_press(e: KeyEvent) -> bool {
    e.code == LEFT_ALT && e.value == PRESSED
}

/// Whether the event is a release of the modifier key.
pub open spec fn is_release(e: KeyEvent) -> bool {
    e.code == LEFT_ALT && e.value == RELEASED
}

/// The held state after one event: a press of the modifier sets it, a release
/// of the modifier clears it, and every other event leaves it as it was.
pub open spec fn next_held(held: bool, e: KeyEvent) -> bool {
    if is_press(e) {
        true
    } else if is_release(e) {
        false
    } else {
        held
    }
}

/// Whether an event that arrives in the given held state leaves a record:
/// every event of the modifier does, and any other event does while the
/// modifier is held.
pub open spec fn logged(held: bool, e: KeyEvent) -> bool {
    e.on_modifier() || held
}

/// The held state after a sequence of events, starting from `held`.
pub open spec fn held_after(held: bool, events: Seq<KeyEvent>) -> bool
    decreases events.len(),
{
    if events.len() == 0 {
        held
    } else {
        next_held(held_after(held, events.drop_last()), events.last())
    }
}

/// The descriptions that a sequence of events leaves in the log, starting
/// from `held`, in the order in which they are written.
pub open spec fn records_of(held: bool, events: Seq<KeyEvent>) -> Seq<Seq<char>>
    decreases events.len(),
{
    if events.len() == 0 {
        Seq::empty()
    } else {
        let before = records_of(held, events.drop_last());
        if logged(held_after(held, events.drop_last()), events.last()) {
            before.push(description(events.last()))
        } else {
            before
        }
    }
}

/// The positions of the events that leave a record, in the order of their
/// records.
pub open spec fn sources(held: bool, events: Seq<KeyEvent>) -> Seq<int>
    decreases events.len(),
{
    if events.len() == 0 {
        Seq::empty()
    } else {
        let before = sources(held, events.drop_last());
        if logged(held_after(held, events.drop_last()), events.last()) {
            before.push(events.len() - 1)
        } else {
            before
        }
    }
}

/// How many events of the sequence belong to the modifier key.
pub open spec fn modifier_count(events: Seq<KeyEvent>) -> nat
    decreases events.len(),
{
    if events.len() == 0 {
        0
    } else {
        modifier_count(events.drop_last()) + if events.last().on_modifier() {
            1nat
        } else {
            0nat
        }
    }
}

/// How many events of the sequence belong to another key and arrive while
/// the modifier is held.
pub open spec fn gated_count(held: bool, events: Seq<KeyEvent>) -> nat
    decreases events.len(),
{
    if events.len() == 0 {
        0
    } else {
        gated_count(held, events.drop_last()) + if !events.last().on_modifier() && held_after(
            held,
            events.drop_last(),
        ) {
            1nat
        } else {
            0nat
        }
    }
}

/// The state after two runs of events in a row is the state after the
/// second run, started where the first one ended: the state depends on the
/// events seen so far and on nothing else, however they are cut into batches.
pub proof fn held_after_concat(held: bool, first: Seq<KeyEvent>, second: Seq<KeyEvent>)
    ensures
        held_after(held, first + second) == held_after(held_after(held, first), second),
    decreases second.len(),
{
    if second.len() == 0 {
        assert(first + second =~= first);
    } else {
        held_after_concat(held, first, second.drop_last());
        assert((first + second).drop_last() =~= first + second.drop_last());
        assert((first + second).last() == second.last());
    }
}

/// The records of two runs of events in a row are the records of the first
/// run followed by those of the second: cutting the events into batches
/// neither reorders nor changes what is logged.
pub proof fn records_concat(held: bool, first: Seq<KeyEvent>, second: Seq<KeyEvent>)
    ensures
        records_of(held, first + second) == records_of(held, first) + records_of(
            held_after(held, first),
            second,
        ),
    decreases second.len(),
{
    if second.len() == 0 {
        assert(first + second =~= first);
        assert(records_of(held, first) + Seq::<Seq<char>>::empty() =~= records_of(held, first));
    } else {
        let shorter = second.drop_last();
        records_concat(held, first, shorter);
        held_after_concat(held, first, shorter);
        assert((first + second).drop_last() =~= first + shorter);
        assert((first + second).last() == second.last());
        let mid = held_after(held, first);
        if logged(held_after(mid, shorter), second.last()) {
            assert((records_of(held, first) + records_of(mid, shorter)).push(
                description(second.last()),
            ) =~= records_of(held, first) + records_of(mid, shorter).push(
                description(second.last()),
            ));
        }
    }
}

/// The number of records is the number of modifier events plus the number
/// of other events that arrive while the modifier is held.
pub proof fn record_count(held: bool, events: Seq<KeyEvent>)
    ensures
        records_of(held, events).len() == modifier_count(events) + gated_count(held, events),
    decreases events.len(),
{
    if events.len() > 0 {
        record_count(held, events.drop_last());
    }
}

/// Two loggers that start in the same state and see the same events are in
/// the same state after every prefix of them.
pub proof fn replay_agrees(first: bool, second: bool, events: Seq<KeyEvent>, seen: int)
    requires
        first == second,
        0 <= seen <= events.len(),
    ensures
        held_after(first, events.take(seen)) == held_after(second, events.take(seen)),
{
}

/// An event of another key that arrives while the modifier is up leaves no
/// record and no change of state.
pub proof fn discard_is_inert(e: KeyEvent)
    requires
        !e.on_modifier(),
    ensures
        !logged(false, e),
        next_held(false, e) == false,
        records_of(false, seq![e]) == Seq::<Seq<char>>::empty(),
        held_after(false, seq![e]) == false,
{
    let one = seq![e];
    assert(one.drop_last() =~= Seq::<KeyEvent>::empty());
    assert(one.last() == e);
    assert(records_of(false, one.drop_last()) =~= Seq::<Seq<char>>::empty());
    assert(held_after(false, one.drop_last()) == false);
}

/// The modifier is held after a sequence of events exactly when its latest
/// press has no release after it, or, where the sequence holds no press that
/// lasts, when it was held at the start and was not released since.
pub proof fn held_is_latest_transition(held: bool, events: Seq<KeyEvent>)
    ensures
        held_after(held, events) <==> ((exists|i: int|
            0 <= i < events.len() && is_press(#[trigger] events[i]) && forall|j: int|
                i < j < events.len() ==> !is_release(#[trigger] events[j])) || (held && forall|
            j: int,
        | 0 <= j < events.len() ==> !is_release(#[trigger] events[j]))),
    decreases events.len(),
{
    if events.len() > 0 {
        let shorter = events.drop_last();
        let last = events.last();
        held_is_latest_transition(held, shorter);
        assert(forall|j: int| 0 <= j < shorter.len() ==> shorter[j] == events[j]);
        let n = events.len() - 1;
        if is_press(last) {
            assert(is_press(events[n]));
        } else if is_release(last) {
            assert(is_release(events[n]));
        } else {
            if held_after(held, shorter) {
                if exists|i: int|
                    0 <= i < shorter.len() && is_press(#[trigger] shorter[i]) && forall|j: int|
                        i < j < shorter.len() ==> !is_release(#[trigger] shorter[j]) {
                    let i = choose|i: int|
                        0 <= i < shorter.len() && is_press(#[trigger] shorter[i]) && forall|
                            j: int,
                        |
                            i < j < shorter.len() ==> !is_release(#[trigger] shorter[j]);
                    assert(is_press(events[i]));
                    assert forall|j: int| i < j < events.len() implies !is_release(
                        #[trigger] events[j],
                    ) by {
                        if j < n {
                            assert(!is_release(shorter[j]));
                        }
                    }
                } else {
                    assert forall|j: int| 0 <= j < events.len() implies !is_release(
                        #[trigger] events[j],
                    ) by {
                        if j < n {
                            assert(!is_release(shorter[j]));
                        }
                    }
                }
            } else {
                if exists|i: int|
                    0 <= i < events.len() && is_press(#[trigger] events[i]) && forall|j: int|
                        i < j < events.len() ==> !is_release(#[trigger] events[j]) {
                    let i = choose|i: int|
                        0 <= i < events.len() && is_press(#[trigger] events[i]) && forall|
                            j: int,
                        |
                            i < j < events.len() ==> !is_release(#[trigger] events[j]);
                    assert(i < n);
                    assert(is_press(shorter[i]));
                    assert forall|j: int| i < j < shorter.len() implies !is_release(
                        #[trigger] shorter[j],
                    ) by {
                        assert(!is_release(events[j]));
                    }
                    assert(false);
                }
                if held && forall|j: int|
                    0 <= j < events.len() ==> !is_release(#[trigger] events[j]) {
                    assert forall|j: int| 0 <= j < shorter.len() implies !is_release(
                        #[trigger] shorter[j],
                    ) by {
                        assert(!is_release(events[j]));
                    }
                    assert(false);
                }
            }
        }
    }
}

/// Records stand in the order of their events. Each record belongs to one
/// event that was logged; the events of successive records follow one another
/// in the sequence; and no logged event is without its record.
pub proof fn records_keep_order(held: bool, events: Seq<KeyEvent>)
    ensures
        sources(held, events).len() == records_of(held, events).len(),
        forall|k: int|
            0 <= k < sources(held, events).len() ==> 0 <= #[trigger] sources(held, events)[k]
                < events.len(),
        forall|k: int, l: int|
            0 <= k < l < sources(held, events).len() ==> #[trigger] sources(held, events)[k]
                < #[trigger] sources(held, events)[l],
        forall|k: int|
            0 <= k < sources(held, events).len() ==> #[trigger] records_of(held, events)[k]
                == description(events[sources(held, events)[k]]),
        forall|k: int|
            0 <= k < sources(held, events).len() ==> logged(
                held_after(held, events.take(#[trigger] sources(held, events)[k])),
                events[sources(held, events)[k]],
            ),
        forall|i: int|
            0 <= i < events.len() && logged(held_after(held, events.take(i)), events[i])
                ==> #[trigger] sources(held, events).contains(i),
    decreases events.len(),
{
    if events.len() > 0 {
        let shorter = events.drop_last();
        let n = events.len() - 1;
        records_keep_order(held, shorter);
        let src = sources(held, events);
        let before = sources(held, shorter);
        assert(events.take(n) =~= shorter);
        assert forall|k: int| 0 <= k < src.len() implies logged(
            held_after(held, events.take(#[trigger] src[k])),
            events[src[k]],
        ) by {
            if k < before.len() {
                assert(src[k] == before[k]);
                assert(events.take(before[k]) =~= shorter.take(before[k]));
            }
        }
        assert forall|i: int|
            0 <= i < events.len() && logged(
                held_after(held, events.take(i)),
                events[i],
            ) implies #[trigger] src.contains(i) by {
            if i < n {
                assert(events.take(i) =~= shorter.take(i));
                assert(before.contains(i));
                let k = choose|k: int| 0 <= k < before.len() && before[k] == i;
                assert(src[k] == i);
            } else {
                assert(src[src.len() - 1] == i);
            }
        }
    }
}

} // verus!
