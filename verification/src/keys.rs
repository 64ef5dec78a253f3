//! Key events, as far as the editors look at them.

use vstd::prelude::*;

verus! {

/// The keys that the editors tell apart.
#[derive(Clone, Copy, Debug, PartialEq, Eq, Structural)]
pub enum Key {
    Escape,
    Enter,
    Other,
}

/// A key going down or up, with the state of the Alt modifier.
#[derive(Clone, Copy, Debug, PartialEq, Eq, Structural)]
pub struct KeyEvent {
    pub key: Key,
    pub pressed: bool,
    pub alt: bool,
}

/// The event ends the editing: Escape going down.
pub open spec fn is_commit(e: KeyEvent) -> bool {
    e.pressed && e.key == Key::Escape
}

/// The event asks for a line break: Enter going down while Alt is held.
pub open spec fn is_line_break(e: KeyEvent) -> bool {
    e.pressed && e.key == Key::Enter && e.alt
}

/// One of the events ends the editing.
pub open spec fn commits(keys: Seq<KeyEvent>) -> bool {
    exists|i: int| 0 <= i < keys.len() && is_commit(#[trigger] keys[i])
}

/// One line feed for each event that asks for a line break.
pub open spec fn line_breaks(keys: Seq<KeyEvent>) -> Seq<char>
    decreases keys.len(),
{
    if keys.len() == 0 {
        Seq::empty()
    } else if is_line_break(keys.last()) {
        line_breaks(keys.drop_last()).push('\n')
    } else {
        line_breaks(keys.drop_last())
    }
}

/// Whether one of the events ends the editing.
pub fn any_commit(keys: &Vec<KeyEvent>) -> (b: bool)
    ensures
        b == commits(keys@),
{
    let mut found = false;
    let mut i: usize = 0;
    while i < keys.len()
        invariant
            i <= keys.len(),
            found == commits(keys@.take(i as int)),
        decreases keys.len() - i,
    {
        let e = keys[i];
        let ghost upto = keys@.take(i + 1);
        assert(upto[i as int] == e);
        assert forall|j: int| 0 <= j < i implies upto[j] == keys@.take(i as int)[j] by {}
        if e.pressed {
            match e.key {
                Key::Escape => {
                    found = true;
                },
                _ => {},
            }
        }
        assert(found == commits(upto)) by {
            if commits(upto) {
                let j = choose|j: int| 0 <= j < upto.len() && is_commit(#[trigger] upto[j]);
                if j < i {
                    assert(is_commit(keys@.take(i as int)[j]));
                }
            }
            if commits(keys@.take(i as int)) {
                let j = choose|j: int|
                    0 <= j < i && is_commit(#[trigger] keys@.take(i as int)[j]);
                assert(is_commit(upto[j]));
            }
        }
        i += 1;
    }
    assert(keys@.take(keys.len() as int) =~= keys@);
    found
}

/// Appends one line feed for each event that asks for a line break.
pub fn push_line_breaks(buffer: &mut Vec<char>, keys: &Vec<KeyEvent>)
    ensures
        final(buffer)@ == old(buffer)@ + line_breaks(keys@),
{
    let mut i: usize = 0;
    assert(line_breaks(keys@.take(0)) =~= Seq::<char>::empty());
    assert(buffer@ =~= old(buffer)@ + Seq::<char>::empty());
    while i < keys.len()
        invariant
            i <= keys.len(),
            buffer@ == old(buffer)@ + line_breaks(keys@.take(i as int)),
        decreases keys.len() - i,
    {
        let e = keys[i];
        let ghost upto = keys@.take(i + 1);
        assert(upto.drop_last() =~= keys@.take(i as int));
        assert(upto.last() == e);
        if e.pressed && e.alt {
            match e.key {
                Key::Enter => {
                    buffer.push('\n');
                },
                _ => {},
            }
        }
        assert(buffer@ =~= old(buffer)@ + line_breaks(upto));
        i += 1;
    }
    assert(keys@.take(keys.len() as int) =~= keys@);
}

} // verus!
