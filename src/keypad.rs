use vstd::prelude::*;

verus! {

/// Number of logical keys.
pub const KEY_COUNT: usize = 16;

/// The sixteen logical keys, each held or not.
///
/// Its view lists, for each key code 0 to 15, whether that key is held.
pub struct Keypad {
    held: [bool; KEY_COUNT],
}

/// The host keys of the conventional 4x4 block, row by row.
pub open spec fn host_layout() -> Seq<char> {
    seq!['1', '2', '3', '4', 'Q', 'W', 'E', 'R', 'A', 'S', 'D', 'F', 'Z', 'X', 'C', 'V']
}

/// The logical key each host key of `host_layout` stands for: the block
/// `1 2 3 C / 4 5 6 D / 7 8 9 E / A 0 B F`.
pub open spec fn key_layout() -> Seq<u8> {
    seq![0x1u8, 0x2, 0x3, 0xC, 0x4, 0x5, 0x6, 0xD, 0x7, 0x8, 0x9, 0xE, 0xA, 0x0, 0xB, 0xF]
}

fn host_keys() -> (r: [char; KEY_COUNT])
    ensures
        r@ == host_layout(),
{
    let r = ['1', '2', '3', '4', 'Q', 'W', 'E', 'R', 'A', 'S', 'D', 'F', 'Z', 'X', 'C', 'V'];
    assert(r@ =~= host_layout());
    r
}

fn key_codes() -> (r: [u8; KEY_COUNT])
    ensures
        r@ == key_layout(),
{
    let r = [0x1u8, 0x2, 0x3, 0xC, 0x4, 0x5, 0x6, 0xD, 0x7, 0x8, 0x9, 0xE, 0xA, 0x0, 0xB, 0xF];
    assert(r@ =~= key_layout());
    r
}

/// No host key of the layout appears twice, and every logical key appears once.
pub proof fn lemma_layout_is_one_to_one()
    ensures
        forall|i: int, j: int|
            0 <= i < KEY_COUNT && 0 <= j < KEY_COUNT && host_layout()[i] == host_layout()[j]
                ==> i == j,
        forall|i: int, j: int|
            0 <= i < KEY_COUNT && 0 <= j < KEY_COUNT && key_layout()[i] == key_layout()[j]
                ==> i == j,
        forall|k: u8| k < KEY_COUNT ==> #[trigger] key_layout().contains(k),
{
    assert(forall|k: u8| k < KEY_COUNT ==> #[trigger] key_layout().contains(k)) by {
        assert forall|k: u8| k < KEY_COUNT implies #[trigger] key_layout().contains(k) by {
            let i: int = if k == 0 {
                13
            } else if k <= 3 {
                k - 1
            } else if k <= 6 {
                k as int
            } else if k <= 9 {
                k + 1
            } else if k == 0xA {
                12
            } else if k == 0xB {
                14
            } else if k == 0xC {
                3
            } else if k == 0xD {
                7
            } else if k == 0xE {
                11
            } else {
                15
            };
            assert(key_layout()[i] == k);
        }
    }
}

/// The logical key that the host key labelled `label` stands for, if any.
pub fn logical_key(label: char) -> (r: Option<u8>)
    ensures
        r is Some <==> host_layout().contains(label),
        r matches Some(k) ==> exists|i: int|
            0 <= i < KEY_COUNT && host_layout()[i] == label && k == key_layout()[i],
{
    let hosts = host_keys();
    let codes = key_codes();
    let mut i: usize = 0;
    while i < KEY_COUNT
        invariant
            i <= KEY_COUNT,
            hosts@ == host_layout(),
            codes@ == key_layout(),
            forall|j: int| 0 <= j < i ==> host_layout()[j] != label,
        decreases KEY_COUNT - i,
    {
        if hosts[i] == label {
            return Some(codes[i]);
        }
        i = i + 1;
    }
    None
}

/// The lowest-numbered key held in `keys`, if any is.
pub open spec fn lowest_held(keys: Seq<bool>) -> Option<u8> {
    if exists|k: u8| k < KEY_COUNT && #[trigger] keys[k as int] {
        Some(choose|k: u8| k < KEY_COUNT && keys[k as int] && forall|j: int| 0 <= j < k ==> !keys[j])
    } else {
        None
    }
}

impl View for Keypad {
    type V = Seq<bool>;

    closed spec fn view(&self) -> Seq<bool> {
        self.held@
    }
}

impl Keypad {
    /// The keypad has one entry per logical key.
    pub proof fn lemma_len(&self)
        ensures
            self@.len() == KEY_COUNT,
    {
    }

    /// A keypad with no key held.
    pub fn new() -> (r: Keypad)
        ensures
            r@ == Seq::new(KEY_COUNT as nat, |k: int| false),
    {
        let r = Keypad { held: [false; KEY_COUNT] };
        assert(r@ =~= Seq::new(KEY_COUNT as nat, |k: int| false));
        r
    }

    /// Records whether `key` is held.
    pub fn set_key(&mut self, key: u8, held: bool)
        requires
            key < KEY_COUNT,
        ensures
            final(self)@ == old(self)@.update(key as int, held),
    {
        self.held[key as usize] = held;
    }

    /// Whether `key` is held.
    pub fn is_key_held(&self, key: u8) -> (r: bool)
        requires
            key < KEY_COUNT,
        ensures
            r == self@[key as int],
    {
        self.held[key as usize]
    }

    /// The lowest-numbered key that is held, if any is.
    pub fn get_depressed_key(&self) -> (r: Option<u8>)
        ensures
            r == lowest_held(self@),
            r is None <==> forall|k: int| 0 <= k < KEY_COUNT ==> !self@[k],
            r matches Some(k) ==> k < KEY_COUNT && self@[k as int] && forall|j: int|
                0 <= j < k ==> !self@[j],
    {
        let mut k: u8 = 0;
        while (k as usize) < KEY_COUNT
            invariant
                k <= KEY_COUNT,
                forall|j: int| 0 <= j < k ==> !self@[j],
            decreases KEY_COUNT - k,
        {
            if self.held[k as usize] {
                assert(self@[k as int]);
                proof {
                    let c = choose|c: u8|
                        c < KEY_COUNT && self@[c as int] && forall|j: int| 0 <= j < c ==> !self@[j];
                    if c < k {
                        assert(!self@[c as int]);
                    } else if c > k {
                        assert(!self@[k as int]);
                    }
                }
                return Some(k);
            }
            k = k + 1;
        }
        assert forall|c: u8| c < KEY_COUNT implies !#[trigger] self@[c as int] by {
            assert(0 <= c < k);
        }
        None
    }
}

} // verus!
