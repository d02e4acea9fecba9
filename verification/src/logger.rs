//! The modifier-gated logger: one flag, and for each key event the decision
//! whether it leaves a record.

use vstd::prelude::*;
use crate::event::{keys_of, KeyEvent, RawEvent, PRESSED, RELEASED};
use crate::text::{describe, description, texts_of};
use crate::trace::{held_after, logged, next_held, records_of};

verus! {

/// Tracks whether the modifier key is held and decides, event by event, what
/// is written to the log.
#[derive(Debug)]
pub struct Logger {
    alt_down: bool,
}

impl Logger {
    /// Whether the modifier key is held.
    pub closed spec fn held(&self) -> bool {
        self.alt_down
    }

    /// A logger at the start of a run: the modifier is up.
    pub fn new() -> (logger: Logger)
        ensures
            !logger.held(),
    {
        Logger { alt_down: false }
    }

    /// Whether the modifier key is held.
    pub fn alt_down(&self) -> (held: bool)
        ensures
            held == self.held(),
    {
        self.alt_down
    }

    /// Takes one key event: moves the held state as the event says, and
    /// returns the description to log, or nothing where the event is
    /// discarded. An event of another key while the modifier is up is
    /// discarded and changes nothing.
    pub fn observe(&mut self, event: &KeyEvent) -> (record: Option<String>)
        ensures
            final(self).held() == next_held(old(self).held(), *event),
            record is Some <==> logged(old(self).held(), *event),
            record is Some ==> record->Some_0@ == description(*event),
            !event.on_modifier() && !old(self).held() ==> record is None && final(self).held()
                == old(self).held(),
    {
        if event.is_modifier() {
            let text = describe(event);
            if event.value == PRESSED {
                self.alt_down = true;
            } else if event.value == RELEASED {
                self.alt_down = false;
            }
            Some(text)
        } else if self.alt_down {
            Some(describe(event))
        } else {
            None
        }
    }

    /// Takes one batch of driver events in order. Events that are not key
    /// events are passed over; each key event is observed in turn. Returns
    /// the descriptions to log, in the order of their events.
    pub fn feed(&mut self, batch: &Vec<RawEvent>) -> (records: Vec<String>)
        ensures
            final(self).held() == held_after(old(self).held(), keys_of(batch@)),
            texts_of(records@) == records_of(old(self).held(), keys_of(batch@)),
    {
        let mut records: Vec<String> = Vec::new();
        let mut i: usize = 0;
        assert(batch@.take(0) =~= Seq::<RawEvent>::empty());
        assert(texts_of(records@) =~= Seq::<Seq<char>>::empty());
        while i < batch.len()
            invariant
                0 <= i <= batch.len(),
                self.held() == held_after(old(self).held(), keys_of(batch@.take(i as int))),
                texts_of(records@) == records_of(old(self).held(), keys_of(batch@.take(i as int))),
            decreases batch.len() - i,
        {
            let ghost seen = keys_of(batch@.take(i as int));
            let ghost before = records@;
            proof {
                assert(batch@.take(i + 1).drop_last() =~= batch@.take(i as int));
                assert(batch@.take(i + 1).last() == batch@[i as int]);
            }
            match batch[i].as_key() {
                Some(key) => {
                    proof {
                        assert(seen.push(key).drop_last() =~= seen);
                        assert(seen.push(key).last() == key);
                    }
                    match self.observe(&key) {
                        Some(text) => {
                            records.push(text);
                            assert(texts_of(records@) =~= texts_of(before).push(text@));
                        },
                        None => {},
                    }
                },
                None => {},
            }
            i = i + 1;
        }
        assert(batch@.take(batch.len() as int) =~= batch@);
        records
    }
}

impl Default for Logger {
    fn default() -> (logger: Logger)
        ensures
            !logger.held(),
    {
        Logger::new()
    }
}

} // verus!
