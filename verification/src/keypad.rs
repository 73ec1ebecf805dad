use vstd::prelude::*;

verus! {

/// What a sequence of held keys must satisfy: every entry is one of the
/// sixteen keys, and no key is listed twice.
pub open spec fn held_keys(keys: Seq<u8>) -> bool {
    &&& forall|i: int| 0 <= i < keys.len() ==> #[trigger] keys[i] < 16
    &&& keys.no_duplicates()
}

/// Taking one key out of a sequence of held keys leaves a sequence of held
/// keys that no longer lists it.
proof fn lemma_remove_keeps_held(keys: Seq<u8>, i: int)
    requires
        held_keys(keys),
        0 <= i < keys.len(),
    ensures
        held_keys(keys.remove(i)),
        !keys.remove(i).contains(keys[i]),
{
    let rest = keys.remove(i);
    assert forall|j: int| 0 <= j < rest.len() implies #[trigger] rest[j] < 16 && rest[j]
        != keys[i] by {
        if j < i {
            assert(rest[j] == keys[j]);
        } else {
            assert(rest[j] == keys[j + 1]);
        }
    }
    assert forall|j: int, k: int| 0 <= j < rest.len() && 0 <= k < rest.len() && j != k implies rest[j]
        != rest[k] by {
        let jj = if j < i { j } else { j + 1 };
        let kk = if k < i { k } else { k + 1 };
        assert(rest[j] == keys[jj] && rest[k] == keys[kk]);
    }
}

/// The keys of the hexadecimal keypad that are held down at one moment, in
/// the order in which the input device reported them.
#[derive(Debug)]
pub struct Keypad {
    down: Vec<u8>,
}

impl View for Keypad {
    type V = Seq<u8>;

    closed spec fn view(&self) -> Seq<u8> {
        self.down@
    }
}

impl Keypad {
    #[verifier::type_invariant]
    spec fn inv(self) -> bool {
        held_keys(self.down@)
    }

    /// A keypad with no key held.
    pub fn new() -> (keypad: Keypad)
        ensures
            keypad@ == Seq::<u8>::empty(),
    {
        Keypad { down: Vec::new() }
    }

    /// Tells whether `key` is held down.
    pub fn is_pressed(&self, key: u8) -> (pressed: bool)
        ensures
            pressed == self@.contains(key),
            held_keys(self@),
    {
        proof {
            use_type_invariant(self);
        }
        let mut i: usize = 0;
        while i < self.down.len()
            invariant
                i <= self.down@.len(),
                held_keys(self.down@),
                forall|j: int| 0 <= j < i ==> self.down@[j] != key,
            decreases self.down@.len() - i,
        {
            if self.down[i] == key {
                return true;
            }
            i += 1;
        }
        false
    }

    /// The first key reported as held, if any key is held.
    pub fn first_pressed(&self) -> (first: Option<u8>)
        ensures
            first == (if self@.len() > 0 {
                Some(self@[0])
            } else {
                None
            }),
            first matches Some(key) ==> key < 16,
            held_keys(self@),
    {
        proof {
            use_type_invariant(self);
        }
        if self.down.len() > 0 {
            Some(self.down[0])
        } else {
            None
        }
    }

    /// Records that `key` went down. A code that is not one of the sixteen
    /// keys, or a key that is already held, changes nothing.
    pub fn press(&mut self, key: u8)
        ensures
            final(self)@ == (if key < 16 && !old(self)@.contains(key) {
                old(self)@.push(key)
            } else {
                old(self)@
            }),
            held_keys(final(self)@),
    {
        proof {
            use_type_invariant(&*self);
        }
        if key < 16 && !self.is_pressed(key) {
            // The list is replaced rather than changed in place, so that a
            // single assignment re-establishes the invariant.
            let mut down = self.down.clone();
            assert(down@ =~= self.down@);
            down.push(key);
            self.down = down;
        }
    }

    /// Records that `key` went up. The other keys keep their order.
    pub fn release(&mut self, key: u8)
        ensures
            final(self)@ == old(self)@.remove_value(key),
            !final(self)@.contains(key),
            final(self)@.len() == (if old(self)@.contains(key) {
                old(self)@.len() - 1
            } else {
                old(self)@.len() as int
            }),
            held_keys(final(self)@),
    {
        proof {
            use_type_invariant(&*self);
        }
        let mut i: usize = 0;
        while i < self.down.len()
            invariant
                i <= self.down@.len(),
                *self == *old(self),
                held_keys(self.down@),
                forall|j: int| 0 <= j < i ==> self.down@[j] != key,
            decreases self.down@.len() - i,
        {
            if self.down[i] == key {
                proof {
                    self.down@.index_of_first_ensures(key);
                }
                let mut down = self.down.clone();
                assert(down@ =~= self.down@);
                down.remove(i);
                proof {
                    lemma_remove_keeps_held(self.down@, i as int);
                }
                self.down = down;
                return ;
            }
            i += 1;
        }
        proof {
            self.down@.index_of_first_ensures(key);
        }
    }
}

} // verus!
