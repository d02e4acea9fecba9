//! Driver events and the key events among them.

use vstd::prelude::*;

verus! {

/// Event class that the input layer gives to key and button transitions.
pub const KEY_CLASS: u16 = 1;

/// Code of the left Alt key, the one modifier that gates the log.
pub const LEFT_ALT: u16 = 56;

/// Value of a key event that reports a release.
pub const RELEASED: i32 = 0;

/// Value of a key event that reports a press.
pub const PRESSED: i32 = 1;

/// Value of a key event that the driver repeats while the key stays down.
pub const REPEATED: i32 = 2;

/// One event as the driver reports it: its class, its code within the class,
/// and its value.
#[derive(Clone, Copy, Debug, PartialEq, Eq, Structural)]
pub struct RawEvent {
    pub kind: u16,
    pub code: u16,
    pub value: i32,
}

/// A key transition: which key, and whether it was released, pressed or
/// repeated.
#[derive(Clone, Copy, Debug, PartialEq, Eq, Structural)]
pub struct KeyEvent {
    pub code: u16,
    pub value: i32,
}

impl KeyEvent {
    /// Whether this event belongs to the modifier key.
    pub open spec fn on_modifier(self) -> bool {
        self.code == LEFT_ALT
    }

    /// Whether this event belongs to the modifier key.
    pub fn is_modifier(&self) -> (b: bool)
        ensures
            b == self.on_modifier(),
    {
        self.code == left_alt_code()
    }
}

impl RawEvent {
    /// The key event that this driver event carries, if it is of the key
    /// class. Events of every other class carry none.
    pub open spec fn key(self) -> Option<KeyEvent> {
        if self.kind == KEY_CLASS {
            Some(KeyEvent { code: self.code, value: self.value })
        } else {
            None
        }
    }

    /// Reads the driver event as a key event, or as nothing where it is of
    /// another class (synchronisation, axes, switches and the rest).
    pub fn as_key(&self) -> (k: Option<KeyEvent>)
        ensures
            k == self.key(),
    {
        destructure_key(*self)
    }
}

/// The key events of a batch of driver events, in the batch's order.
pub open spec fn keys_of(batch: Seq<RawEvent>) -> Seq<KeyEvent>
    decreases batch.len(),
{
    if batch.len() == 0 {
        Seq::empty()
    } else {
        let before = keys_of(batch.drop_last());
        match batch.last().key() {
            Some(k) => before.push(k),
            None => before,
        }
    }
}

/// The key events of two batches in a row are those of the first followed by
/// those of the second: where the driver cuts its batches does not matter.
pub proof fn keys_of_concat(first: Seq<RawEvent>, second: Seq<RawEvent>)
    ensures
        keys_of(first + second) == keys_of(first) + keys_of(second),
    decreases second.len(),
{
    if second.len() == 0 {
        assert(first + second =~= first);
        assert(keys_of(first) + keys_of(second) =~= keys_of(first));
    } else {
        keys_of_concat(first, second.drop_last());
        assert((first + second).drop_last() =~= first + second.drop_last());
        assert((first + second).last() == second.last());
        match second.last().key() {
            Some(k) => {
                assert((keys_of(first) + keys_of(second.drop_last())).push(k) =~= keys_of(first)
                    + keys_of(second.drop_last()).push(k));
            },
            None => {},
        }
    }
}

/// A batch without an event of the key class holds no key event.
pub proof fn keys_of_other_classes(batch: Seq<RawEvent>)
    requires
        forall|i: int| 0 <= i < batch.len() ==> (#[trigger] batch[i]).kind != KEY_CLASS,
    ensures
        keys_of(batch) == Seq::<KeyEvent>::empty(),
    decreases batch.len(),
{
    if batch.len() > 0 {
        keys_of_other_classes(batch.drop_last());
    }
}

/// Trusted: `evdev::KeyCode::KEY_LEFTALT`, read through `KeyCode::code`.
/// The crate defines that constant as the key code 56.
#[verifier::external_body]
fn left_alt_code() -> (c: u16)
    ensures
        c == LEFT_ALT,
{
    evdev::KeyCode::KEY_LEFTALT.code()
}

/// Trusted: `evdev::InputEvent::new` followed by `InputEvent::destructure`.
/// The summary that `destructure` builds is chosen by the event's class
/// alone: class 1 gives the `Key` variant, which carries the event's own code
/// and value, and every other class gives another variant.
#[verifier::external_body]
fn destructure_key(raw: RawEvent) -> (k: Option<KeyEvent>)
    ensures
        k == raw.key(),
{
    match evdev::InputEvent::new(raw.kind, raw.code, raw.value).destructure() {
        evdev::EventSummary::Key(_, key, value) => Some(KeyEvent { code: key.code(), value }),
        _ => None,
    }
}

} // verus!
