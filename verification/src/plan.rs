//! The key events that make up a paste, and what they do to a keyboard.

use vstd::prelude::*;
use crate::keys::{Direction, Key, KeyEvent};
use crate::platform::{modifier_for, paste_modifier, Platform};

verus! {

/// The character key of the paste shortcut.
pub const PASTE_CHAR: char = 'v';

/// Number of key events in a paste.
pub const PASTE_LEN: usize = 3;

/// The paste shortcut on `platform`, in delivery order: the modifier goes
/// down, `v` is clicked, the modifier comes up.
pub open spec fn paste_plan(platform: Platform) -> Seq<KeyEvent> {
    seq![
        KeyEvent { key: modifier_for(platform), direction: Direction::Press },
        KeyEvent { key: Key::Unicode(PASTE_CHAR), direction: Direction::Click },
        KeyEvent { key: modifier_for(platform), direction: Direction::Release },
    ]
}

/// The `index`-th event of the paste on `platform`, or `None` past its end.
pub fn paste_event(platform: Platform, index: usize) -> (event: Option<KeyEvent>)
    ensures
        index < paste_plan(platform).len() ==> event == Some(paste_plan(platform)[index as int]),
        index >= paste_plan(platform).len() ==> event.is_none(),
{
    if index == 0 {
        Some(KeyEvent { key: paste_modifier(platform), direction: Direction::Press })
    } else if index == 1 {
        Some(KeyEvent { key: Key::Unicode(PASTE_CHAR), direction: Direction::Click })
    } else if index == 2 {
        Some(KeyEvent { key: paste_modifier(platform), direction: Direction::Release })
    } else {
        None
    }
}

/// All events of the paste on `platform`, in delivery order.
pub fn paste_sequence(platform: Platform) -> (events: Vec<KeyEvent>)
    ensures
        events@ == paste_plan(platform),
{
    let mut events: Vec<KeyEvent> = Vec::new();
    let mut index: usize = 0;
    while index < PASTE_LEN
        invariant
            index <= PASTE_LEN,
            PASTE_LEN == paste_plan(platform).len(),
            events@ == paste_plan(platform).take(index as int),
        decreases PASTE_LEN - index,
    {
        let event = paste_event(platform, index);
        events.push(event.unwrap());
        index = index + 1;
    }
    events
}

/// The keys that are down once `event` has reached a keyboard on which the
/// keys in `held` were down. A click is a press followed by a release.
pub open spec fn held_after_event(held: Set<Key>, event: KeyEvent) -> Set<Key> {
    match event.direction {
        Direction::Press => held.insert(event.key),
        Direction::Release => held.remove(event.key),
        Direction::Click => held.insert(event.key).remove(event.key),
    }
}

/// The keys that are down once all of `events` have reached, in order, a
/// keyboard on which the keys in `held` were down.
pub open spec fn held_after(held: Set<Key>, events: Seq<KeyEvent>) -> Set<Key>
    decreases events.len(),
{
    if events.len() == 0 {
        held
    } else {
        held_after(held_after_event(held, events[0]), events.drop_first())
    }
}

/// A paste is a chord: the modifier is down while `v` is clicked, and when
/// the paste is over neither of the two keys is down, while every other key
/// is as it was before.
pub proof fn lemma_paste_is_a_chord(platform: Platform, held: Set<Key>)
    ensures
        held_after(held, paste_plan(platform).take(1)) == held.insert(modifier_for(platform)),
        held_after(held, paste_plan(platform)) == held.remove(modifier_for(platform)).remove(
            Key::Unicode(PASTE_CHAR),
        ),
{
    let plan = paste_plan(platform);
    let modifier = modifier_for(platform);
    let letter = Key::Unicode(PASTE_CHAR);
    let pressed = held.insert(modifier);
    let clicked = pressed.insert(letter).remove(letter);
    let released = clicked.remove(modifier);

    assert(held_after(held, plan.take(1)) == pressed) by {
        assert(plan.take(1).drop_first() =~= Seq::<KeyEvent>::empty());
        assert(held_after(pressed, plan.take(1).drop_first()) == pressed);
    }
    assert(held_after(held, plan) == released) by {
        let after_press = plan.drop_first();
        let after_click = after_press.drop_first();
        assert(after_click.drop_first() =~= Seq::<KeyEvent>::empty());
        assert(held_after(released, after_click.drop_first()) == released);
        assert(held_after(clicked, after_click) == released);
        assert(held_after(pressed, after_press) == released);
    }
    assert(released =~= held.remove(modifier).remove(letter));
}

} // verus!
