//! From the keys that are held down to the keyboard latch.

use vstd::prelude::*;
use crate::consts::KEYBOARD_SIZE;
use crate::machine::flag;
use crate::ram::KeyboardBuffer;

verus! {

/// The key codes of the sixteen keys that stand for the keypad, row by row:
/// `1 2 3 4`, `q w e r`, `a s d f`, `z x c v`.
pub const KEYPAD_CODES: [i32; 16] = [
    49, 50, 51, 52,
    113, 119, 101, 114,
    97, 115, 100, 102,
    122, 120, 99, 118,
];

/// The keys of the keypad, row by row: `1 2 3 C`, `4 5 6 D`, `7 8 9 E`,
/// `A 0 B F`.
pub const KEYPAD_KEYS: [u8; 16] = [
    0x1, 0x2, 0x3, 0xC,
    0x4, 0x5, 0x6, 0xD,
    0x7, 0x8, 0x9, 0xE,
    0xA, 0x0, 0xB, 0xF,
];

/// The key code of the escape key, which ends the program.
pub const ESCAPE_CODE: i32 = 27;

/// Reported by [`KeyboardBuffer::latch_keys`] when the escape key is held.
pub const INTERRUPTED: &'static str = "Received interrupt, exiting...";

/// The key of the keypad that the key with the code `keycode` stands for:
/// the one at the same place in the layout.
pub open spec fn keypad_key(keycode: i32) -> Option<u8> {
    if exists|place: int| 0 <= place < 16 && KEYPAD_CODES[place] == keycode {
        Some(KEYPAD_KEYS[choose|place: int| 0 <= place < 16 && KEYPAD_CODES[place] == keycode])
    } else {
        None
    }
}

/// Whether one of the keys held down stands for the key `key` of the keypad.
pub open spec fn key_held(keycodes: Seq<i32>, key: int) -> bool {
    exists|i: int| 0 <= i < keycodes.len() && keypad_key(#[trigger] keycodes[i]) == Some(key as u8)
}

/// The latch for the keys that are held down.
pub open spec fn latched_keys(keycodes: Seq<i32>) -> Seq<u8> {
    Seq::new(KEYBOARD_SIZE as nat, |key: int| flag(key_held(keycodes, key)))
}

/// No key code stands at two places of the layout.
proof fn lemma_codes_distinct()
    ensures
        forall|i: int, j: int|
            0 <= i < 16 && 0 <= j < 16 && KEYPAD_CODES[i] == KEYPAD_CODES[j] ==> i == j,
        forall|i: int| 0 <= i < 16 ==> KEYPAD_KEYS[i] < 16,
{
    assert(KEYPAD_CODES@ =~= seq![
        49i32, 50, 51, 52, 113, 119, 101, 114, 97, 115, 100, 102, 122, 120, 99, 118,
    ]);
    assert(KEYPAD_KEYS@ =~= seq![
        0x1u8, 0x2, 0x3, 0xC, 0x4, 0x5, 0x6, 0xD, 0x7, 0x8, 0x9, 0xE, 0xA, 0x0, 0xB, 0xF,
    ]);
}

/// The key at a place of the layout stands for the keypad key at that place.
proof fn lemma_key_at(place: int)
    requires
        0 <= place < 16,
    ensures
        keypad_key(KEYPAD_CODES[place]) == Some(KEYPAD_KEYS[place]),
{
    lemma_codes_distinct();
}

/// The layout, key by key: the rows `1 2 3 4`, `q w e r`, `a s d f` and
/// `z x c v` of the keyboard stand for the rows `1 2 3 C`, `4 5 6 D`,
/// `7 8 9 E` and `A 0 B F` of the keypad, and no other key stands for any.
pub proof fn lemma_keypad_layout()
    ensures
        keypad_key('1' as i32) == Some(0x1u8),
        keypad_key('2' as i32) == Some(0x2u8),
        keypad_key('3' as i32) == Some(0x3u8),
        keypad_key('4' as i32) == Some(0xCu8),
        keypad_key('q' as i32) == Some(0x4u8),
        keypad_key('w' as i32) == Some(0x5u8),
        keypad_key('e' as i32) == Some(0x6u8),
        keypad_key('r' as i32) == Some(0xDu8),
        keypad_key('a' as i32) == Some(0x7u8),
        keypad_key('s' as i32) == Some(0x8u8),
        keypad_key('d' as i32) == Some(0x9u8),
        keypad_key('f' as i32) == Some(0xEu8),
        keypad_key('z' as i32) == Some(0xAu8),
        keypad_key('x' as i32) == Some(0x0u8),
        keypad_key('c' as i32) == Some(0xBu8),
        keypad_key('v' as i32) == Some(0xFu8),
        forall|keycode: i32| #[trigger]
            keypad_key(keycode) is Some ==> KEYPAD_CODES@.contains(keycode),
        keypad_key(ESCAPE_CODE) is None,
{
    lemma_codes_distinct();
    assert(KEYPAD_CODES@ =~= seq![
        49i32, 50, 51, 52, 113, 119, 101, 114, 97, 115, 100, 102, 122, 120, 99, 118,
    ]);
    assert(KEYPAD_KEYS@ =~= seq![
        0x1u8, 0x2, 0x3, 0xC, 0x4, 0x5, 0x6, 0xD, 0x7, 0x8, 0x9, 0xE, 0xA, 0x0, 0xB, 0xF,
    ]);
    lemma_key_at(0);
    lemma_key_at(1);
    lemma_key_at(2);
    lemma_key_at(3);
    lemma_key_at(4);
    lemma_key_at(5);
    lemma_key_at(6);
    lemma_key_at(7);
    lemma_key_at(8);
    lemma_key_at(9);
    lemma_key_at(10);
    lemma_key_at(11);
    lemma_key_at(12);
    lemma_key_at(13);
    lemma_key_at(14);
    lemma_key_at(15);
    assert('1' as i32 == 49 && '2' as i32 == 50 && '3' as i32 == 51 && '4' as i32 == 52);
    assert('q' as i32 == 113 && 'w' as i32 == 119 && 'e' as i32 == 101 && 'r' as i32 == 114);
    assert('a' as i32 == 97 && 's' as i32 == 115 && 'd' as i32 == 100 && 'f' as i32 == 102);
    assert('z' as i32 == 122 && 'x' as i32 == 120 && 'c' as i32 == 99 && 'v' as i32 == 118);
}

/// The key of the keypad that the key with the code `keycode` stands for.
pub fn keypad_index(keycode: i32) -> (key: Option<u8>)
    ensures
        key == keypad_key(keycode),
        key matches Some(k) ==> k < 16,
{
    proof {
        lemma_codes_distinct();
    }
    let mut place: usize = 0;
    while place < 16
        invariant
            place <= 16,
            forall|p: int| 0 <= p < place ==> KEYPAD_CODES[p] != keycode,
        decreases 16 - place,
    {
        if KEYPAD_CODES[place] == keycode {
            return Some(KEYPAD_KEYS[place]);
        }
        place += 1;
    }
    None
}

impl KeyboardBuffer {
    /// Sets the latch from the codes of the keys that are held down: a key
    /// of the keypad is down if one of them stands for it, and up if none
    /// does. If the escape key is among them the latch stays as it was and
    /// the interrupt is reported.
    pub fn latch_keys(&mut self, keycodes: &[i32]) -> (latched: Result<(), &'static str>)
        ensures
            keycodes@.contains(ESCAPE_CODE) ==> latched == Err::<(), &'static str>(INTERRUPTED)
                && final(self)@ == old(self)@,
            !keycodes@.contains(ESCAPE_CODE) ==> latched is Ok && final(self)@ == latched_keys(
                keycodes@,
            ),
    {
        let mut latch: [u8; KEYBOARD_SIZE] = [0u8; KEYBOARD_SIZE];
        let mut i: usize = 0;
        while i < keycodes.len()
            invariant
                i <= keycodes@.len(),
                forall|j: int| 0 <= j < i ==> keycodes@[j] != ESCAPE_CODE,
                forall|key: int|
                    0 <= key < 16 ==> latch@[key] == flag(
                        key_held(keycodes@.subrange(0, i as int), key),
                    ),
            decreases keycodes@.len() - i,
        {
            let keycode: i32 = keycodes[i];
            if keycode == ESCAPE_CODE {
                return Err(INTERRUPTED);
            }
            let ghost before = keycodes@.subrange(0, i as int);
            let ghost after = keycodes@.subrange(0, i + 1);
            match keypad_index(keycode) {
                Some(key) => {
                    latch[key as usize] = 1;
                },
                None => {},
            }
            proof {
                assert(after[i as int] == keycode);
                assert forall|key: int| 0 <= key < 16 implies key_held(after, key) == (key_held(
                    before,
                    key,
                ) || keypad_key(keycode) == Some(key as u8)) by {
                    if key_held(before, key) {
                        let j = choose|j: int|
                            0 <= j < before.len() && keypad_key(#[trigger] before[j]) == Some(
                                key as u8,
                            );
                        assert(after[j] == before[j]);
                    }
                    if key_held(after, key) {
                        let j = choose|j: int|
                            0 <= j < after.len() && keypad_key(#[trigger] after[j]) == Some(
                                key as u8,
                            );
                        if j < i {
                            assert(before[j] == after[j]);
                        }
                    }
                }
            }
            i += 1;
        }
        assert(keycodes@.subrange(0, i as int) =~= keycodes@);
        self.buffer = latch;
        assert(self@ =~= latched_keys(keycodes@));
        Ok(())
    }
}

} // verus!
