use vstd::prelude::*;

verus! {

/// A snapshot of the 16-key pad: bit `k` of `mask` is set iff the key
/// numbered `k` is currently held.
///
/// The host polls its input backend once per cycle and hands the machine
/// this plain value, so execution itself never touches the backend.
pub struct Keypad {
    pub mask: u16,
}

/// Key `k` is held in the snapshot `mask`.  A number outside the pad
/// (16 or more) is never held.
pub open spec fn key_down(mask: u16, k: u8) -> bool {
    k < 16 && (mask >> k as u16) & 1 == 1
}

/// The lowest held key at or above `k`, or 15 when none is.
pub open spec fn first_key_from(mask: u16, k: u8) -> u8
    decreases 15 - k,
{
    if k >= 15 {
        15
    } else if (mask >> k as u16) & 1 == 1 {
        k
    } else {
        first_key_from(mask, (k + 1) as u8)
    }
}

/// The lowest held key of a snapshot with at least one key held.
pub open spec fn first_key(mask: u16) -> u8 {
    first_key_from(mask, 0)
}

/// Which key, if any, the snapshot holds: the lowest-numbered held key.
pub open spec fn pressed_key_spec(mask: u16) -> Option<u8> {
    if mask == 0 {
        None
    } else {
        Some(first_key(mask))
    }
}

/// The empty snapshot holds no key.
pub proof fn lemma_zero_mask_no_key(k: u8)
    ensures
        !key_down(0, k),
{
    assert((0u16 >> k as u16) & 1 != 1) by (bit_vector);
}

/// A snapshot whose low 16 bits are all clear holds no key at all.
pub proof fn lemma_no_key_means_zero(mask: u16)
    requires
        forall|k: u8| k < 16 ==> !key_down(mask, k),
    ensures
        mask == 0,
{
    assert(!key_down(mask, 0) && !key_down(mask, 1) && !key_down(mask, 2) && !key_down(mask, 3)
        && !key_down(mask, 4) && !key_down(mask, 5) && !key_down(mask, 6) && !key_down(mask, 7)
        && !key_down(mask, 8) && !key_down(mask, 9) && !key_down(mask, 10) && !key_down(mask, 11)
        && !key_down(mask, 12) && !key_down(mask, 13) && !key_down(mask, 14) && !key_down(
        mask,
        15,
    ));
    assert(((mask >> 0u16) & 1 != 1 && (mask >> 1u16) & 1 != 1 && (mask >> 2u16) & 1 != 1 && (mask
        >> 3u16) & 1 != 1 && (mask >> 4u16) & 1 != 1 && (mask >> 5u16) & 1 != 1 && (mask >> 6u16)
        & 1 != 1 && (mask >> 7u16) & 1 != 1 && (mask >> 8u16) & 1 != 1 && (mask >> 9u16) & 1 != 1
        && (mask >> 10u16) & 1 != 1 && (mask >> 11u16) & 1 != 1 && (mask >> 12u16) & 1 != 1 && (
    mask >> 13u16) & 1 != 1 && (mask >> 14u16) & 1 != 1 && (mask >> 15u16) & 1 != 1) ==> mask == 0)
        by (bit_vector);
}

impl Keypad {
    /// A snapshot built directly from a bit mask.
    pub fn new(mask: u16) -> (r: Keypad)
        ensures
            r.mask == mask,
    {
        Keypad { mask }
    }

    /// Is the key numbered `key` held?
    pub fn is_pressed(&self, key: u8) -> (r: bool)
        ensures
            r == key_down(self.mask, key),
    {
        key < 16 && (self.mask >> key as u16) & 1 == 1
    }

    /// The lowest-numbered held key, if any key is held at all.
    pub fn pressed_key(&self) -> (r: Option<u8>)
        ensures
            r == pressed_key_spec(self.mask),
    {
        let mut k: u8 = 0;
        while k < 16
            invariant
                k <= 16,
                forall|j: u8| j < k ==> !key_down(self.mask, j),
            decreases 16 - k,
        {
            if (self.mask >> k as u16) & 1 == 1 {
                proof {
                    lemma_first_key_found(self.mask, k);
                }
                return Some(k);
            }
            k = k + 1;
        }
        proof {
            lemma_no_key_means_zero(self.mask);
        }
        None
    }
}

/// If every key below `k` is up and `k` itself is down, then `k` is the
/// lowest held key.
proof fn lemma_first_key_found(mask: u16, k: u8)
    requires
        k < 16,
        (mask >> k as u16) & 1 == 1,
        forall|j: u8| j < k ==> !key_down(mask, j),
    ensures
        mask != 0,
        first_key(mask) == k,
{
    assert(mask != 0) by (bit_vector)
        requires
            k < 16 && (mask >> k as u16) & 1 == 1,
    ;
    assert forall|j: u8| j < k implies #[trigger] (mask >> j as u16) & 1 != 1 by {
        assert(!key_down(mask, j));
    }
    lemma_first_key_from_found(mask, 0, k);
}

/// `first_key_from` walks past keys that are up and stops on the first
/// one that is down.
proof fn lemma_first_key_from_found(mask: u16, lo: u8, k: u8)
    requires
        lo <= k < 16,
        (mask >> k as u16) & 1 == 1,
        forall|j: u8| lo <= j < k ==> #[trigger] (mask >> j as u16) & 1 != 1,
    ensures
        first_key_from(mask, lo) == k,
    decreases k - lo,
{
    if lo < k {
        lemma_first_key_from_found(mask, (lo + 1) as u8, k);
    }
}

} // verus!
