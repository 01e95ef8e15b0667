//! Account addresses, held as their 32 raw bytes.
use vstd::prelude::*;

verus! {

/// An account address: the 32 bytes of a public key.
pub type Key = [u8; 32];

/// The all-zero address, which stands for "no address".
pub open spec fn is_null_key(k: Key) -> bool {
    forall|i: int| 0 <= i < 32 ==> #[trigger] k@[i] == 0u8
}

/// Compares two addresses byte by byte.
pub fn keys_equal(a: &Key, b: &Key) -> (r: bool)
    ensures
        r == (*a == *b),
{
    let mut i: usize = 0;
    while i < 32
        invariant
            0 <= i <= 32,
            forall|j: int| 0 <= j < i ==> a@[j] == b@[j],
        decreases 32 - i,
    {
        if a[i] != b[i] {
            assert(a@[i as int] != b@[i as int]);
            return false;
        }
        i = i + 1;
    }
    assert(*a =~= *b);
    true
}

/// Whether an address is the null (all-zero) address, the test that the
/// token library's `Nullable` trait makes of a public key.
pub fn key_is_none(k: &Key) -> (r: bool)
    ensures
        r == is_null_key(*k),
{
    let mut i: usize = 0;
    while i < 32
        invariant
            0 <= i <= 32,
            forall|j: int| 0 <= j < i ==> k@[j] == 0u8,
        decreases 32 - i,
    {
        if k[i] != 0 {
            return false;
        }
        i = i + 1;
    }
    true
}

} // verus!
