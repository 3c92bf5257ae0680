use vstd::prelude::*;

use crate::keycode::{key_of_scan_code, Keycode};

verus! {

/// Number of bytes in a keyboard state bitmap: one bit per display key code.
pub const KEYMAP_BYTES: usize = 32;

/// Display key codes are kernel scan codes shifted up by this much.
pub const DISPLAY_CODE_OFFSET: u8 = 8;

/// Whether display key code `x` is marked as held in `keymap`: bit `x % 8`
/// of byte `x / 8`.
pub open spec fn bit_held(keymap: Seq<u8>, x: int) -> bool {
    ((keymap[x / 8] >> ((x % 8) as u8)) & 1u8) == 1u8
}

/// The keys held among display key codes below `n`. Codes under the offset
/// stand for no scan code and are left out.
pub open spec fn keys_held_below(keymap: Seq<u8>, n: int) -> Set<Keycode>
    decreases n,
{
    if n <= 0 {
        Set::empty()
    } else {
        let rest = keys_held_below(keymap, n - 1);
        let x = n - 1;
        if x >= DISPLAY_CODE_OFFSET && bit_held(keymap, x) {
            rest.insert(key_of_scan_code(x - DISPLAY_CODE_OFFSET))
        } else {
            rest
        }
    }
}

/// The set of keys that a full keyboard bitmap marks as held.
pub open spec fn keys_held(keymap: Seq<u8>) -> Set<Keycode> {
    keys_held_below(keymap, (KEYMAP_BYTES * 8) as int)
}

proof fn lemma_push_contains(s: Seq<Keycode>, k: Keycode)
    ensures
        forall|j: Keycode| s.push(k).contains(j) <==> (s.contains(j) || j == k),
{
    assert forall|j: Keycode| s.push(k).contains(j) <==> (s.contains(j) || j == k) by {
        if s.push(k).contains(j) {
            let i = choose|i: int| 0 <= i < s.push(k).len() && s.push(k)[i] == j;
            if i < s.len() {
                assert(s[i] == j);
            }
        }
        if s.contains(j) {
            let i = choose|i: int| 0 <= i < s.len() && s[i] == j;
            assert(s.push(k)[i] == j);
        }
        if j == k {
            assert(s.push(k)[s.len() as int] == k);
        }
    }
}

/// Whether `k` is among `keys`.
pub fn holds_key(keys: &Vec<Keycode>, k: Keycode) -> (r: bool)
    ensures
        r == keys@.contains(k),
{
    let mut i: usize = 0;
    while i < keys.len()
        invariant
            i <= keys@.len(),
            forall|j: int| 0 <= j < i ==> keys@[j] != k,
        decreases keys@.len() - i,
    {
        if keys[i] == k {
            assert(keys@[i as int] == k);
            return true;
        }
        i = i + 1;
    }
    false
}

/// The keys that a keyboard bitmap marks as held, each listed once.
pub fn held_keys(keymap: &Vec<u8>) -> (r: Vec<Keycode>)
    requires
        keymap@.len() == KEYMAP_BYTES,
    ensures
        forall|k: Keycode| r@.contains(k) <==> keys_held(keymap@).contains(k),
        r@.no_duplicates(),
{
    let mut keys: Vec<Keycode> = Vec::new();
    let mut ix: usize = 0;
    while ix < KEYMAP_BYTES
        invariant
            keymap@.len() == KEYMAP_BYTES,
            ix <= KEYMAP_BYTES,
            forall|k: Keycode| keys@.contains(k) <==> keys_held_below(keymap@, ix * 8).contains(k),
            keys@.no_duplicates(),
        decreases KEYMAP_BYTES - ix,
    {
        let byte = keymap[ix];
        let mut bit: u8 = 0;
        while bit < 8
            invariant
                keymap@.len() == KEYMAP_BYTES,
                ix < KEYMAP_BYTES,
                bit <= 8,
                byte == keymap@[ix as int],
                forall|k: Keycode|
                    keys@.contains(k) <==> keys_held_below(keymap@, ix * 8 + bit).contains(k),
                keys@.no_duplicates(),
            decreases 8 - bit,
        {
            let x: u8 = (ix as u8) * 8 + bit;
            assert(x as int / 8 == ix as int && x as int % 8 == bit as int);
            assert(bit_held(keymap@, x as int) == ((byte >> bit) & 1 == 1));
            let ghost rest = keys_held_below(keymap@, x as int);
            let ghost next = keys_held_below(keymap@, x as int + 1);
            assert(x as int == ix * 8 + bit);
            assert(forall|j: Keycode| keys@.contains(j) <==> rest.contains(j));
            assert(next == if x >= DISPLAY_CODE_OFFSET && bit_held(keymap@, x as int) {
                rest.insert(key_of_scan_code(x - DISPLAY_CODE_OFFSET))
            } else {
                rest
            });
            if x >= DISPLAY_CODE_OFFSET && (byte >> bit) & 1 == 1 {
                let k = Keycode::from_scan_code(x - DISPLAY_CODE_OFFSET);
                if !holds_key(&keys, k) {
                    let ghost before = keys@;
                    keys.push(k);
                    proof {
                        lemma_push_contains(before, k);
                    }
                    assert(forall|j: Keycode| keys@.contains(j) <==> next.contains(j));
                } else {
                    assert(forall|j: Keycode| keys@.contains(j) <==> next.contains(j));
                }
            }
            bit = bit + 1;
        }
        ix = ix + 1;
    }
    keys
}

} // verus!
