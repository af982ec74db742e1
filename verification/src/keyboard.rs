use vstd::prelude::*;

verus! {

/// The 16-key hex keypad as a bitmap: bit `k` is set iff key `k` is held.
/// Key indices above 0xF are ignored by every operation.
#[derive(Debug, Clone, Copy, PartialEq, Eq, Structural)]
pub struct Keyboard(pub u16);

/// Whether key `key` is held in bitmap `bits`. Keys above 0xF never read
/// as pressed.
pub open spec fn spec_key_pressed(bits: u16, key: u8) -> bool {
    key <= 0xF && (bits >> key) & 1 == 1
}

/// The mask test `bits & (1 << key) != 0` reads exactly the bit that the
/// model `spec_key_pressed` describes.
proof fn lemma_mask_test(bits: u16, key: u8)
    requires
        key <= 0xF,
    ensures
        (bits & (1u16 << key) != 0) == ((bits >> key) & 1 == 1),
{
    assert((bits & (1u16 << key) != 0) == ((bits >> key) & 1 == 1) || !(key <= 0xF))
        by (bit_vector);
}

/// Setting or clearing bit `key` changes exactly that key of the bitmap.
proof fn lemma_mask_update(bits: u16, key: u8)
    requires
        key <= 0xF,
    ensures
        forall|j: u8|
            j <= 0xF ==> #[trigger] spec_key_pressed(bits | (1u16 << key), j) == if j == key {
                true
            } else {
                spec_key_pressed(bits, j)
            },
        forall|j: u8|
            j <= 0xF ==> #[trigger] spec_key_pressed(bits & !(1u16 << key), j) == if j == key {
                false
            } else {
                spec_key_pressed(bits, j)
            },
{
    assert forall|j: u8| j <= 0xF implies #[trigger] spec_key_pressed(bits | (1u16 << key), j)
        == if j == key {
        true
    } else {
        spec_key_pressed(bits, j)
    } by {
        let b = key;
        assert((((bits | (1u16 << b)) >> j) & 1 == 1) == if j == b {
            true
        } else {
            (bits >> j) & 1 == 1
        } || !(b <= 0xF && j <= 0xF)) by (bit_vector);
    }
    assert forall|j: u8| j <= 0xF implies #[trigger] spec_key_pressed(bits & !(1u16 << key), j)
        == if j == key {
        false
    } else {
        spec_key_pressed(bits, j)
    } by {
        let b = key;
        assert((((bits & !(1u16 << b)) >> j) & 1 == 1) == if j == b {
            false
        } else {
            (bits >> j) & 1 == 1
        } || !(b <= 0xF && j <= 0xF)) by (bit_vector);
    }
}

/// The all-clear bitmap holds no pressed key.
proof fn lemma_no_key_in_zero()
    ensures
        forall|k: u8| !spec_key_pressed(0u16, k),
{
    assert forall|k: u8| !spec_key_pressed(0u16, k) by {
        if k <= 0xF {
            assert((0u16 >> k) & 1 == 0 || !(k <= 0xF)) by (bit_vector);
        }
    }
}

impl Keyboard {
    /// A keypad with no key held.
    pub fn new() -> (r: Self)
        ensures
            r.0 == 0,
            forall|k: u8| !spec_key_pressed(r.0, k),
    {
        proof {
            lemma_no_key_in_zero();
        }
        Self(0)
    }

    /// Whether `key` is currently held; always false for keys above 0xF.
    pub fn is_key_pressed(&self, key: u8) -> (r: bool)
        ensures
            r == spec_key_pressed(self.0, key),
    {
        if key > 0xF {
            return false;
        }
        proof {
            lemma_mask_test(self.0, key);
        }
        let mask: u16 = 1 << key;
        self.0 & mask != 0
    }

    /// The raw 16-bit bitmap.
    pub fn get_keys(&self) -> (r: u16)
        ensures
            r == self.0,
    {
        self.0
    }

    /// Whether any key at all is held.
    pub fn any_key_pressed(&self) -> (r: bool)
        ensures
            r == (self.0 != 0),
            !r ==> forall|k: u8| !spec_key_pressed(self.0, k),
    {
        proof {
            lemma_no_key_in_zero();
        }
        self.0 != 0
    }

    /// Releases every key.
    pub fn clear_all_keys(&mut self)
        ensures
            final(self).0 == 0,
            forall|k: u8| !spec_key_pressed(final(self).0, k),
    {
        proof {
            lemma_no_key_in_zero();
        }
        self.0 = 0
    }

    /// Presses or releases `key`, leaving every other key as it was.
    /// Keys above 0xF are ignored.
    pub fn set_key(&mut self, key: u8, pressed: bool)
        ensures
            key > 0xF ==> final(self).0 == old(self).0,
            key <= 0xF ==> forall|j: u8|
                j <= 0xF ==> #[trigger] spec_key_pressed(final(self).0, j) == if j == key {
                    pressed
                } else {
                    spec_key_pressed(old(self).0, j)
                },
    {
        if key > 0xF {
            return ;
        }
        proof {
            lemma_mask_update(self.0, key);
        }
        if pressed {
            self.0 = self.0 | (1 << key);
        } else {
            self.0 = self.0 & !(1 << key);
        }
    }

    /// The lowest-numbered key that is held, if any key is held at all.
    pub fn get_first_pressed_key(&self) -> (r: Option<u8>)
        ensures
            match r {
                Some(k) => spec_key_pressed(self.0, k) && forall|j: u8|
                    j < k ==> !spec_key_pressed(self.0, j),
                None => forall|j: u8| !spec_key_pressed(self.0, j),
            },
    {
        let mut i: u8 = 0;
        while i < 16
            invariant
                i <= 16,
                forall|j: u8| j < i ==> !spec_key_pressed(self.0, j),
            decreases 16 - i,
        {
            if self.is_key_pressed(i) {
                return Some(i);
            }
            i = i + 1;
        }
        assert(forall|j: u8| j > 0xF ==> !spec_key_pressed(self.0, j));
        None
    }
}

} // verus!
