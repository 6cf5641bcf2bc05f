//! The keypad: sixteen keys, each up or down.
use crate::fault::Fault;
use vstd::prelude::*;

verus! {

/// The number of keys.
pub const KEY_COUNT: usize = 16;

/// The state of the keypad.
pub struct Input {
    pub(crate) keys: [bool; 16],
}

impl Input {
    /// The keys by index: `true` for a key that is down.
    pub open(crate) spec fn view(&self) -> Seq<bool> {
        self.keys@
    }

    /// The keypad always has `KEY_COUNT` keys.
    pub proof fn lemma_shape(&self)
        ensures
            self@.len() == KEY_COUNT,
    {
    }

    /// A keypad with every key up.
    pub fn new() -> (input: Input)
        ensures
            input@ == Seq::new(KEY_COUNT as nat, |k: int| false),
    {
        Input { keys: [false; 16] }
    }

    /// Whether key `index` is down; `InvalidIndex` if there is no such key.
    pub fn is_down(&self, index: usize) -> (r: Result<bool, Fault>)
        ensures
            index < KEY_COUNT ==> r == Ok::<bool, Fault>(self@[index as int]),
            index >= KEY_COUNT ==> r == Err::<bool, Fault>(Fault::InvalidIndex { index }),
    {
        if index < KEY_COUNT {
            Ok(self.keys[index])
        } else {
            Err(Fault::InvalidIndex { index })
        }
    }

    /// Records key `index` as down (`down` true) or up; `InvalidIndex` if
    /// there is no such key, with nothing changed.
    pub fn set_key(&mut self, index: usize, down: bool) -> (r: Result<(), Fault>)
        ensures
            index < KEY_COUNT ==> r == Ok::<(), Fault>(()) && final(self)@ == old(self)@.update(
                index as int,
                down,
            ),
            index >= KEY_COUNT ==> r == Err::<(), Fault>(Fault::InvalidIndex { index }) && final(self)@ == old(self)@,
    {
        if index < KEY_COUNT {
            self.keys[index] = down;
            Ok(())
        } else {
            Err(Fault::InvalidIndex { index })
        }
    }
}

} // verus!
