//! The keys of one device that are held down.

use vstd::prelude::*;

verus! {

/// Whether a key went down or up.
#[derive(Clone, Copy, Debug, PartialEq, Eq, Structural)]
pub enum ElementState {
    Pressed,
    Released,
}

/// The state of a device with keys: the set of keys that are held.
pub trait DeviceInputState: Sized {
    type Key: Copy;

    /// The keys that are held.
    spec fn pressed(&self) -> Set<Self::Key>;

    /// The state with no key held.
    fn new() -> (state: Self)
        ensures
            state.pressed() == Set::<Self::Key>::empty(),
    ;

    fn is_pressed(&self, key: &Self::Key) -> (pressed: bool)
        ensures
            pressed == self.pressed().contains(*key),
    ;

    fn press(&mut self, key: &Self::Key)
        ensures
            final(self).pressed() == old(self).pressed().insert(*key),
    ;

    fn release(&mut self, key: &Self::Key)
        ensures
            final(self).pressed() == old(self).pressed().remove(*key),
    ;

    /// Takes over the keys that `source` holds.
    fn copy_from(&mut self, source: &Self)
        ensures
            final(self).pressed() == source.pressed(),
    ;
}

/// A set of key codes, kept as a list in which no code occurs twice.
#[derive(Debug)]
pub struct KeyCodes {
    codes: Vec<u32>,
}

impl View for KeyCodes {
    type V = Set<u32>;

    closed spec fn view(&self) -> Set<u32> {
        Set::new(|code: u32| self.codes@.contains(code))
    }
}

impl KeyCodes {
    #[verifier::type_invariant]
    spec fn no_code_twice(&self) -> bool {
        self.codes@.no_duplicates()
    }

    pub fn new() -> (codes: KeyCodes)
        ensures
            codes@ == Set::<u32>::empty(),
    {
        let codes = KeyCodes { codes: Vec::new() };
        assert(codes@ =~= Set::<u32>::empty());
        codes
    }

    /// Where `code` stands in the list, if it does.
    fn position(&self, code: u32) -> (position: Option<usize>)
        ensures
            match position {
                Some(i) => i < self.codes@.len() && self.codes@[i as int] == code,
                None => !self.codes@.contains(code),
            },
    {
        let mut i: usize = 0;
        while i < self.codes.len()
            invariant
                i <= self.codes@.len(),
                forall|j: int| 0 <= j < i ==> self.codes@[j] != code,
            decreases self.codes@.len() - i,
        {
            if self.codes[i] == code {
                return Some(i);
            }
            i = i + 1;
        }
        None
    }

    pub fn contains(&self, code: u32) -> (held: bool)
        ensures
            held == self@.contains(code),
    {
        self.position(code).is_some()
    }

    /// The codes of the list but `code`, in the list's order.
    fn without(&self, code: u32) -> (codes: Vec<u32>)
        ensures
            codes@.no_duplicates(),
            forall|other: u32|
                #![trigger codes@.contains(other)]
                #![trigger self.codes@.contains(other)]
                codes@.contains(other) <==> self.codes@.contains(other) && other != code,
    {
        proof {
            use_type_invariant(self);
        }
        let mut codes: Vec<u32> = Vec::new();
        let mut i: usize = 0;
        while i < self.codes.len()
            invariant
                i <= self.codes@.len(),
                self.codes@.no_duplicates(),
                codes@.no_duplicates(),
                forall|j: int|
                    0 <= j < codes@.len() ==> exists|k: int|
                        0 <= k < i && self.codes@[k] == #[trigger] codes@[j] && codes@[j] != code,
                forall|k: int|
                    0 <= k < i && self.codes@[k] != code ==> codes@.contains(
                        #[trigger] self.codes@[k],
                    ),
            decreases self.codes@.len() - i,
        {
            let next = self.codes[i];
            if next != code {
                let ghost before = codes@;
                codes.push(next);
                proof {
                    assert forall|j: int| 0 <= j < before.len() implies before[j] != next by {
                        let k = choose|k: int| 0 <= k < i && self.codes@[k] == before[j];
                        assert(self.codes@[k] != self.codes@[i as int]);
                    }
                    assert forall|k: int|
                        0 <= k < i + 1 && self.codes@[k] != code implies codes@.contains(
                        #[trigger] self.codes@[k],
                    ) by {
                        if k < i {
                            let j = choose|j: int|
                                0 <= j < before.len() && before[j] == self.codes@[k];
                            assert(codes@[j] == self.codes@[k]);
                        } else {
                            assert(codes@[before.len() as int] == self.codes@[k]);
                        }
                    }
                }
            }
            i = i + 1;
        }
        proof {
            assert forall|other: u32|
                #![trigger codes@.contains(other)]
                #![trigger self.codes@.contains(other)]
                codes@.contains(other) <==> self.codes@.contains(other) && other != code by {
                if codes@.contains(other) {
                    let j = choose|j: int| 0 <= j < codes@.len() && codes@[j] == other;
                    let k = choose|k: int|
                        0 <= k < i && self.codes@[k] == codes@[j] && codes@[j] != code;
                    assert(self.codes@[k] == other);
                }
                if self.codes@.contains(other) && other != code {
                    let k = choose|k: int| 0 <= k < self.codes@.len() && self.codes@[k] == other;
                    assert(codes@.contains(self.codes@[k]));
                }
            }
        }
        codes
    }

    pub fn insert(&mut self, code: u32)
        ensures
            final(self)@ == old(self)@.insert(code),
    {
        let mut codes = self.without(code);
        let ghost rest = codes@;
        codes.push(code);
        proof {
            assert forall|other: u32|
                #![trigger codes@.contains(other)]
                #![trigger rest.contains(other)]
                codes@.contains(other) <==> rest.contains(other) || other == code by {
                if rest.contains(other) {
                    let j = choose|j: int| 0 <= j < rest.len() && rest[j] == other;
                    assert(codes@[j] == other);
                }
                if other == code {
                    assert(codes@[rest.len() as int] == code);
                }
            }
            assert forall|j: int| 0 <= j < rest.len() implies rest[j] != code by {
                assert(rest.contains(rest[j]));
            }
        }
        self.codes = codes;
        assert(self@ =~= old(self)@.insert(code));
    }

    pub fn remove(&mut self, code: u32)
        ensures
            final(self)@ == old(self)@.remove(code),
    {
        let codes = self.without(code);
        self.codes = codes;
        assert(self@ =~= old(self)@.remove(code));
    }

    pub fn copy_from(&mut self, source: &KeyCodes)
        ensures
            final(self)@ == source@,
    {
        proof {
            use_type_invariant(source);
        }
        let mut codes: Vec<u32> = Vec::new();
        let mut i: usize = 0;
        while i < source.codes.len()
            invariant
                i <= source.codes@.len(),
                codes@ == source.codes@.subrange(0, i as int),
            decreases source.codes@.len() - i,
        {
            codes.push(source.codes[i]);
            assert(codes@ =~= source.codes@.subrange(0, i + 1));
            i = i + 1;
        }
        assert(codes@ =~= source.codes@);
        self.codes = codes;
        assert(self@ =~= source@);
    }
}

/// The keys of the keyboard that are held, by key code.
#[derive(Debug)]
pub struct KeyboardState {
    keys: KeyCodes,
}

impl DeviceInputState for KeyboardState {
    type Key = u32;

    closed spec fn pressed(&self) -> Set<u32> {
        self.keys@
    }

    fn new() -> (state: KeyboardState) {
        KeyboardState { keys: KeyCodes::new() }
    }

    fn is_pressed(&self, key: &u32) -> (pressed: bool) {
        self.keys.contains(*key)
    }

    fn press(&mut self, key: &u32) {
        let mut keys = KeyCodes::new();
        keys.copy_from(&self.keys);
        keys.insert(*key);
        self.keys = keys;
    }

    fn release(&mut self, key: &u32) {
        let mut keys = KeyCodes::new();
        keys.copy_from(&self.keys);
        keys.remove(*key);
        self.keys = keys;
    }

    fn copy_from(&mut self, source: &KeyboardState) {
        let mut keys = KeyCodes::new();
        keys.copy_from(&source.keys);
        self.keys = keys;
    }
}

/// The buttons of the mouse that are held, by button number.
#[derive(Debug)]
pub struct MouseButtonsState {
    buttons: KeyCodes,
}

impl DeviceInputState for MouseButtonsState {
    type Key = u32;

    closed spec fn pressed(&self) -> Set<u32> {
        self.buttons@
    }

    fn new() -> (state: MouseButtonsState) {
        MouseButtonsState { buttons: KeyCodes::new() }
    }

    fn is_pressed(&self, key: &u32) -> (pressed: bool) {
        self.buttons.contains(*key)
    }

    fn press(&mut self, key: &u32) {
        let mut buttons = KeyCodes::new();
        buttons.copy_from(&self.buttons);
        buttons.insert(*key);
        self.buttons = buttons;
    }

    fn release(&mut self, key: &u32) {
        let mut buttons = KeyCodes::new();
        buttons.copy_from(&self.buttons);
        buttons.remove(*key);
        self.buttons = buttons;
    }

    fn copy_from(&mut self, source: &MouseButtonsState) {
        let mut buttons = KeyCodes::new();
        buttons.copy_from(&source.buttons);
        self.buttons = buttons;
    }
}

} // verus!
