//! Physical key identifiers and small sets of them.
//!
//! A key is identified by the code that the Linux input layer gives it.

use crate::text::chars_eq_str;
use vstd::prelude::*;

verus! {

pub const KEY_LEFTMETA: u16 = 125;
pub const KEY_LEFTALT: u16 = 56;
pub const KEY_LEFTCTRL: u16 = 29;
pub const KEY_LEFTSHIFT: u16 = 42;
pub const KEY_F1: u16 = 59;
pub const KEY_F2: u16 = 60;
pub const KEY_F3: u16 = 61;
pub const KEY_F4: u16 = 62;
pub const KEY_F5: u16 = 63;
pub const KEY_F6: u16 = 64;
pub const KEY_F7: u16 = 65;
pub const KEY_F8: u16 = 66;
pub const KEY_F9: u16 = 67;
pub const KEY_F10: u16 = 68;
pub const KEY_F11: u16 = 87;
pub const KEY_F12: u16 = 88;
pub const KEY_A: u16 = 30;
pub const KEY_B: u16 = 48;
pub const KEY_C: u16 = 46;
pub const KEY_D: u16 = 32;
pub const KEY_E: u16 = 18;
pub const KEY_F: u16 = 33;
pub const KEY_G: u16 = 34;
pub const KEY_H: u16 = 35;
pub const KEY_I: u16 = 23;
pub const KEY_J: u16 = 36;
pub const KEY_K: u16 = 37;
pub const KEY_L: u16 = 38;
pub const KEY_M: u16 = 50;
pub const KEY_N: u16 = 49;
pub const KEY_O: u16 = 24;
pub const KEY_P: u16 = 25;
pub const KEY_Q: u16 = 16;
pub const KEY_R: u16 = 19;
pub const KEY_S: u16 = 31;
pub const KEY_T: u16 = 20;
pub const KEY_U: u16 = 22;
pub const KEY_V: u16 = 47;
pub const KEY_W: u16 = 17;
pub const KEY_X: u16 = 45;
pub const KEY_Y: u16 = 21;
pub const KEY_Z: u16 = 44;
pub const KEY_0: u16 = 11;
pub const KEY_1: u16 = 2;
pub const KEY_2: u16 = 3;
pub const KEY_3: u16 = 4;
pub const KEY_4: u16 = 5;
pub const KEY_5: u16 = 6;
pub const KEY_6: u16 = 7;
pub const KEY_7: u16 = 8;
pub const KEY_8: u16 = 9;
pub const KEY_9: u16 = 10;
pub const KEY_SPACE: u16 = 57;
pub const KEY_ENTER: u16 = 28;
pub const KEY_ESC: u16 = 1;
pub const KEY_TAB: u16 = 15;
pub const KEY_BACKSPACE: u16 = 14;
pub const KEY_DELETE: u16 = 111;
pub const KEY_INSERT: u16 = 110;
pub const KEY_HOME: u16 = 102;
pub const KEY_END: u16 = 107;
pub const KEY_PAGEUP: u16 = 104;
pub const KEY_PAGEDOWN: u16 = 109;
pub const KEY_UP: u16 = 103;
pub const KEY_DOWN: u16 = 108;
pub const KEY_LEFT: u16 = 105;
pub const KEY_RIGHT: u16 = 106;

/// The key that a canonical (trimmed, upper-case) name stands for.
pub open spec fn key_for_name(name: Seq<char>) -> Option<u16> {
    if name == "SUPER"@ || name == "META"@ || name == "WIN"@ || name == "WINDOWS"@ {
        Some(KEY_LEFTMETA)
    } else if name == "ALT"@ {
        Some(KEY_LEFTALT)
    } else if name == "CTRL"@ || name == "CONTROL"@ {
        Some(KEY_LEFTCTRL)
    } else if name == "SHIFT"@ {
        Some(KEY_LEFTSHIFT)
    } else if name == "F1"@ {
        Some(KEY_F1)
    } else if name == "F2"@ {
        Some(KEY_F2)
    } else if name == "F3"@ {
        Some(KEY_F3)
    } else if name == "F4"@ {
        Some(KEY_F4)
    } else if name == "F5"@ {
        Some(KEY_F5)
    } else if name == "F6"@ {
        Some(KEY_F6)
    } else if name == "F7"@ {
        Some(KEY_F7)
    } else if name == "F8"@ {
        Some(KEY_F8)
    } else if name == "F9"@ {
        Some(KEY_F9)
    } else if name == "F10"@ {
        Some(KEY_F10)
    } else if name == "F11"@ {
        Some(KEY_F11)
    } else if name == "F12"@ {
        Some(KEY_F12)
    } else if name == "A"@ {
        Some(KEY_A)
    } else if name == "B"@ {
        Some(KEY_B)
    } else if name == "C"@ {
        Some(KEY_C)
    } else if name == "D"@ {
        Some(KEY_D)
    } else if name == "E"@ {
        Some(KEY_E)
    } else if name == "F"@ {
        Some(KEY_F)
    } else if name == "G"@ {
        Some(KEY_G)
    } else if name == "H"@ {
        Some(KEY_H)
    } else if name == "I"@ {
        Some(KEY_I)
    } else if name == "J"@ {
        Some(KEY_J)
    } else if name == "K"@ {
        Some(KEY_K)
    } else if name == "L"@ {
        Some(KEY_L)
    } else if name == "M"@ {
        Some(KEY_M)
    } else if name == "N"@ {
        Some(KEY_N)
    } else if name == "O"@ {
        Some(KEY_O)
    } else if name == "P"@ {
        Some(KEY_P)
    } else if name == "Q"@ {
        Some(KEY_Q)
    } else if name == "R"@ {
        Some(KEY_R)
    } else if name == "S"@ {
        Some(KEY_S)
    } else if name == "T"@ {
        Some(KEY_T)
    } else if name == "U"@ {
        Some(KEY_U)
    } else if name == "V"@ {
        Some(KEY_V)
    } else if name == "W"@ {
        Some(KEY_W)
    } else if name == "X"@ {
        Some(KEY_X)
    } else if name == "Y"@ {
        Some(KEY_Y)
    } else if name == "Z"@ {
        Some(KEY_Z)
    } else if name == "0"@ {
        Some(KEY_0)
    } else if name == "1"@ {
        Some(KEY_1)
    } else if name == "2"@ {
        Some(KEY_2)
    } else if name == "3"@ {
        Some(KEY_3)
    } else if name == "4"@ {
        Some(KEY_4)
    } else if name == "5"@ {
        Some(KEY_5)
    } else if name == "6"@ {
        Some(KEY_6)
    } else if name == "7"@ {
        Some(KEY_7)
    } else if name == "8"@ {
        Some(KEY_8)
    } else if name == "9"@ {
        Some(KEY_9)
    } else if name == "SPACE"@ {
        Some(KEY_SPACE)
    } else if name == "ENTER"@ || name == "RETURN"@ {
        Some(KEY_ENTER)
    } else if name == "ESC"@ || name == "ESCAPE"@ {
        Some(KEY_ESC)
    } else if name == "TAB"@ {
        Some(KEY_TAB)
    } else if name == "BACKSPACE"@ {
        Some(KEY_BACKSPACE)
    } else if name == "DELETE"@ || name == "DEL"@ {
        Some(KEY_DELETE)
    } else if name == "INSERT"@ || name == "INS"@ {
        Some(KEY_INSERT)
    } else if name == "HOME"@ {
        Some(KEY_HOME)
    } else if name == "END"@ {
        Some(KEY_END)
    } else if name == "PAGEUP"@ || name == "PGUP"@ {
        Some(KEY_PAGEUP)
    } else if name == "PAGEDOWN"@ || name == "PGDOWN"@ {
        Some(KEY_PAGEDOWN)
    } else if name == "UP"@ {
        Some(KEY_UP)
    } else if name == "DOWN"@ {
        Some(KEY_DOWN)
    } else if name == "LEFT"@ {
        Some(KEY_LEFT)
    } else if name == "RIGHT"@ {
        Some(KEY_RIGHT)
    } else {
        None
    }
}

/// Looks a canonical key name up in the fixed table of names.
pub fn lookup_key(name: &Vec<char>) -> (found: Option<u16>)
    ensures
        found == key_for_name(name@),
{
    if chars_eq_str(name, "SUPER") || chars_eq_str(name, "META") || chars_eq_str(name, "WIN") || chars_eq_str(name, "WINDOWS") {
        Some(KEY_LEFTMETA)
    } else if chars_eq_str(name, "ALT") {
        Some(KEY_LEFTALT)
    } else if chars_eq_str(name, "CTRL") || chars_eq_str(name, "CONTROL") {
        Some(KEY_LEFTCTRL)
    } else if chars_eq_str(name, "SHIFT") {
        Some(KEY_LEFTSHIFT)
    } else if chars_eq_str(name, "F1") {
        Some(KEY_F1)
    } else if chars_eq_str(name, "F2") {
        Some(KEY_F2)
    } else if chars_eq_str(name, "F3") {
        Some(KEY_F3)
    } else if chars_eq_str(name, "F4") {
        Some(KEY_F4)
    } else if chars_eq_str(name, "F5") {
        Some(KEY_F5)
    } else if chars_eq_str(name, "F6") {
        Some(KEY_F6)
    } else if chars_eq_str(name, "F7") {
        Some(KEY_F7)
    } else if chars_eq_str(name, "F8") {
        Some(KEY_F8)
    } else if chars_eq_str(name, "F9") {
        Some(KEY_F9)
    } else if chars_eq_str(name, "F10") {
        Some(KEY_F10)
    } else if chars_eq_str(name, "F11") {
        Some(KEY_F11)
    } else if chars_eq_str(name, "F12") {
        Some(KEY_F12)
    } else if chars_eq_str(name, "A") {
        Some(KEY_A)
    } else if chars_eq_str(name, "B") {
        Some(KEY_B)
    } else if chars_eq_str(name, "C") {
        Some(KEY_C)
    } else if chars_eq_str(name, "D") {
        Some(KEY_D)
    } else if chars_eq_str(name, "E") {
        Some(KEY_E)
    } else if chars_eq_str(name, "F") {
        Some(KEY_F)
    } else if chars_eq_str(name, "G") {
        Some(KEY_G)
    } else if chars_eq_str(name, "H") {
        Some(KEY_H)
    } else if chars_eq_str(name, "I") {
        Some(KEY_I)
    } else if chars_eq_str(name, "J") {
        Some(KEY_J)
    } else if chars_eq_str(name, "K") {
        Some(KEY_K)
    } else if chars_eq_str(name, "L") {
        Some(KEY_L)
    } else if chars_eq_str(name, "M") {
        Some(KEY_M)
    } else if chars_eq_str(name, "N") {
        Some(KEY_N)
    } else if chars_eq_str(name, "O") {
        Some(KEY_O)
    } else if chars_eq_str(name, "P") {
        Some(KEY_P)
    } else if chars_eq_str(name, "Q") {
        Some(KEY_Q)
    } else if chars_eq_str(name, "R") {
        Some(KEY_R)
    } else if chars_eq_str(name, "S") {
        Some(KEY_S)
    } else if chars_eq_str(name, "T") {
        Some(KEY_T)
    } else if chars_eq_str(name, "U") {
        Some(KEY_U)
    } else if chars_eq_str(name, "V") {
        Some(KEY_V)
    } else if chars_eq_str(name, "W") {
        Some(KEY_W)
    } else if chars_eq_str(name, "X") {
        Some(KEY_X)
    } else if chars_eq_str(name, "Y") {
        Some(KEY_Y)
    } else if chars_eq_str(name, "Z") {
        Some(KEY_Z)
    } else if chars_eq_str(name, "0") {
        Some(KEY_0)
    } else if chars_eq_str(name, "1") {
        Some(KEY_1)
    } else if chars_eq_str(name, "2") {
        Some(KEY_2)
    } else if chars_eq_str(name, "3") {
        Some(KEY_3)
    } else if chars_eq_str(name, "4") {
        Some(KEY_4)
    } else if chars_eq_str(name, "5") {
        Some(KEY_5)
    } else if chars_eq_str(name, "6") {
        Some(KEY_6)
    } else if chars_eq_str(name, "7") {
        Some(KEY_7)
    } else if chars_eq_str(name, "8") {
        Some(KEY_8)
    } else if chars_eq_str(name, "9") {
        Some(KEY_9)
    } else if chars_eq_str(name, "SPACE") {
        Some(KEY_SPACE)
    } else if chars_eq_str(name, "ENTER") || chars_eq_str(name, "RETURN") {
        Some(KEY_ENTER)
    } else if chars_eq_str(name, "ESC") || chars_eq_str(name, "ESCAPE") {
        Some(KEY_ESC)
    } else if chars_eq_str(name, "TAB") {
        Some(KEY_TAB)
    } else if chars_eq_str(name, "BACKSPACE") {
        Some(KEY_BACKSPACE)
    } else if chars_eq_str(name, "DELETE") || chars_eq_str(name, "DEL") {
        Some(KEY_DELETE)
    } else if chars_eq_str(name, "INSERT") || chars_eq_str(name, "INS") {
        Some(KEY_INSERT)
    } else if chars_eq_str(name, "HOME") {
        Some(KEY_HOME)
    } else if chars_eq_str(name, "END") {
        Some(KEY_END)
    } else if chars_eq_str(name, "PAGEUP") || chars_eq_str(name, "PGUP") {
        Some(KEY_PAGEUP)
    } else if chars_eq_str(name, "PAGEDOWN") || chars_eq_str(name, "PGDOWN") {
        Some(KEY_PAGEDOWN)
    } else if chars_eq_str(name, "UP") {
        Some(KEY_UP)
    } else if chars_eq_str(name, "DOWN") {
        Some(KEY_DOWN)
    } else if chars_eq_str(name, "LEFT") {
        Some(KEY_LEFT)
    } else if chars_eq_str(name, "RIGHT") {
        Some(KEY_RIGHT)
    } else {
        None
    }
}

/// A finite set of physical key codes.
///
/// The codes are kept in insertion order without repetition; the view is the
/// mathematical set of the codes held.
pub struct KeySet {
    codes: Vec<u16>,
}

impl View for KeySet {
    type V = Set<u16>;

    closed spec fn view(&self) -> Set<u16> {
        self.codes@.to_set()
    }
}

impl KeySet {
    #[verifier::type_invariant]
    spec fn distinct(&self) -> bool {
        self.codes@.no_duplicates()
    }

    /// The empty set.
    pub fn new() -> (out: Self)
        ensures
            out@ == Set::<u16>::empty(),
    {
        let out = KeySet { codes: Vec::new() };
        assert(out.codes@.to_set() =~= Set::<u16>::empty());
        out
    }

    /// Number of keys in the set.
    pub fn len(&self) -> (n: usize)
        ensures
            self@.finite(),
            n == self@.len(),
    {
        proof {
            use_type_invariant(self);
            self.codes@.unique_seq_to_set();
            vstd::seq_lib::seq_to_set_is_finite(self.codes@);
        }
        self.codes.len()
    }

    /// Whether the set holds no key.
    pub fn is_empty(&self) -> (empty: bool)
        ensures
            empty == (self@ == Set::<u16>::empty()),
    {
        proof {
            if self.codes@.len() == 0 {
                assert(self.codes@.to_set() =~= Set::<u16>::empty());
            } else {
                assert(self.codes@.contains(self.codes@[0]));
                assert(self.codes@.to_set().contains(self.codes@[0]));
            }
        }
        self.codes.len() == 0
    }

    /// Whether `code` is in the set.
    pub fn contains(&self, code: u16) -> (found: bool)
        ensures
            found == self@.contains(code),
    {
        let mut i: usize = 0;
        while i < self.codes.len()
            invariant
                i <= self.codes.len(),
                forall|j: int| 0 <= j < i ==> self.codes@[j] != code,
            decreases self.codes.len() - i,
        {
            if self.codes[i] == code {
                assert(self.codes@.contains(code));
                return true;
            }
            i += 1;
        }
        false
    }

    /// Adds `code`; returns whether it was absent before.
    pub fn insert(&mut self, code: u16) -> (added: bool)
        ensures
            final(self)@ == old(self)@.insert(code),
            added == !old(self)@.contains(code),
    {
        proof {
            use_type_invariant(&*self);
        }
        if self.contains(code) {
            assert(self@.insert(code) =~= self@);
            false
        } else {
            let ghost before = self.codes@;
            let mut codes = self.codes.clone();
            codes.push(code);
            self.codes = codes;
            proof {
                assert(self.codes@ == before.push(code));
                assert forall|i: int, j: int|
                    0 <= i < self.codes@.len() && 0 <= j < self.codes@.len() && i != j implies self.codes@[i]
                    != self.codes@[j] by {
                    assert(!before.to_set().contains(code));
                    if i == before.len() && before[j] == code {
                        assert(before.contains(code));
                    } else if j == before.len() && before[i] == code {
                        assert(before.contains(code));
                    }
                }
                before.lemma_push_to_set_commute(code);
            }
            true
        }
    }

    /// Removes `code`; returns whether it was present before.
    pub fn remove(&mut self, code: u16) -> (removed: bool)
        ensures
            final(self)@ == old(self)@.remove(code),
            removed == old(self)@.contains(code),
    {
        proof {
            use_type_invariant(&*self);
        }
        let mut i: usize = 0;
        while i < self.codes.len()
            invariant
                i <= self.codes.len(),
                self.codes@ == old(self).codes@,
                self.codes@.no_duplicates(),
                forall|j: int| 0 <= j < i ==> self.codes@[j] != code,
            decreases self.codes.len() - i,
        {
            if self.codes[i] == code {
                let ghost before = self.codes@;
                let mut codes = self.codes.clone();
                codes.remove(i);
                self.codes = codes;
                proof {
                    let after = self.codes@;
                    assert(after == before.remove(i as int));
                    assert forall|a: int, b: int|
                        0 <= a < after.len() && 0 <= b < after.len() && a != b implies after[a]
                        != after[b] by {
                        let pa = if a < i { a } else { a + 1 };
                        let pb = if b < i { b } else { b + 1 };
                        assert(after[a] == before[pa]);
                        assert(after[b] == before[pb]);
                    }
                    assert forall|x: u16| after.to_set().contains(x) <==> before.to_set().remove(
                        code,
                    ).contains(x) by {
                        if after.contains(x) {
                            let k = choose|k: int| 0 <= k < after.len() && after[k] == x;
                            let pk = if k < i { k } else { k + 1 };
                            assert(before[pk] == x);
                            assert(before.contains(x));
                            assert(pk != i);
                        }
                        if before.contains(x) && x != code {
                            let k = choose|k: int| 0 <= k < before.len() && before[k] == x;
                            let qk = if k < i { k } else { k - 1 };
                            assert(after[qk] == x);
                            assert(after.contains(x));
                        }
                    }
                    assert(after.to_set() =~= before.to_set().remove(code));
                    assert(before.contains(code));
                }
                return true;
            }
            i += 1;
        }
        proof {
            assert(!self.codes@.contains(code));
            assert(self.codes@.to_set().remove(code) =~= self.codes@.to_set());
        }
        false
    }

    /// Removes every key.
    pub fn clear(&mut self)
        ensures
            final(self)@ == Set::<u16>::empty(),
    {
        self.codes = Vec::new();
        assert(self.codes@.to_set() =~= Set::<u16>::empty());
    }

    /// Whether every key of this set is also in `other`.
    pub fn is_subset(&self, other: &KeySet) -> (within: bool)
        ensures
            within == self@.subset_of(other@),
    {
        let mut i: usize = 0;
        while i < self.codes.len()
            invariant
                i <= self.codes.len(),
                forall|j: int| 0 <= j < i ==> other@.contains(#[trigger] self.codes@[j]),
            decreases self.codes.len() - i,
        {
            if !other.contains(self.codes[i]) {
                assert(self.codes@.contains(self.codes@[i as int]));
                assert(self@.contains(self.codes@[i as int]));
                return false;
            }
            i += 1;
        }
        proof {
            assert forall|x: u16| self@.contains(x) implies other@.contains(x) by {
                let k = choose|k: int| 0 <= k < self.codes@.len() && self.codes@[k] == x;
                assert(other@.contains(self.codes@[k]));
            }
        }
        true
    }

    /// The keys in the order in which they were first added.
    pub fn to_vec(&self) -> (out: Vec<u16>)
        ensures
            out@.no_duplicates(),
            out@.to_set() == self@,
    {
        proof {
            use_type_invariant(self);
        }
        self.codes.clone()
    }
}

} // verus!
