//! Keys and other small byte arrays.

use vstd::prelude::*;

verus! {

/// The key that stands for "nobody": thirty-two zero bytes.
pub open spec fn zero_key() -> [u8; 32] {
    vstd::array::spec_array_fill_for_copy_type::<u8, 32>(0u8)
}

/// Builds the all-zero key.
pub fn null_key() -> (key: [u8; 32])
    ensures
        key == zero_key(),
{
    [0u8; 32]
}

/// Compares two byte arrays of the same length.
pub fn bytes_equal<const N: usize>(a: &[u8; N], b: &[u8; N]) -> (same: bool)
    ensures
        same == (*a == *b),
{
    let mut i: usize = 0;
    while i < N
        invariant
            i <= N,
            forall|j: int| 0 <= j < i ==> a[j] == b[j],
        decreases N - i,
    {
        if a[i] != b[i] {
            return false;
        }
        i += 1;
    }
    assert(*a =~= *b);
    true
}

/// Whether any of the thirty-two bytes is not zero.
pub fn nonzero_32(x: &[u8; 32]) -> (any: bool)
    ensures
        any == (exists|i: int| 0 <= i < 32 && x[i] != 0),
        any == (*x != zero_key()),
{
    let mut i: usize = 0;
    while i < 32
        invariant
            i <= 32,
            forall|j: int| 0 <= j < i ==> x[j] == 0,
        decreases 32 - i,
    {
        if x[i] != 0 {
            assert(zero_key()[i as int] == 0);
            return true;
        }
        i += 1;
    }
    assert(*x =~= zero_key());
    false
}

/// The array whose first `n` places hold the first `n` items of `items`, and whose
/// other places hold `rest`.
pub open spec fn array_prefix<T: Copy, const N: usize>(items: Seq<T>, rest: T, n: nat) -> [T; N]
    decreases n,
{
    if n == 0 {
        vstd::array::spec_array_fill_for_copy_type::<T, N>(rest)
    } else {
        vstd::array::spec_array_update(
            array_prefix::<T, N>(items, rest, (n - 1) as nat),
            n - 1,
            items[n - 1],
        )
    }
}

/// The array that holds the items of `items`, which has the array's length.
pub open spec fn array_of<T: Copy, const N: usize>(items: Seq<T>, rest: T) -> [T; N] {
    array_prefix::<T, N>(items, rest, N as nat)
}

/// The places of `array_prefix` hold what its name says.
pub proof fn lemma_array_prefix<T: Copy, const N: usize>(items: Seq<T>, rest: T, n: nat)
    requires
        n <= N,
        n <= items.len(),
    ensures
        forall|i: int| 0 <= i < n ==> array_prefix::<T, N>(items, rest, n)[i] == items[i],
        forall|i: int| n <= i < N ==> array_prefix::<T, N>(items, rest, n)[i] == rest,
    decreases n,
{
    if n == 0 {
        let filled = vstd::array::spec_array_fill_for_copy_type::<T, N>(rest);
        assert forall|i: int| 0 <= i < N implies array_prefix::<T, N>(items, rest, n)[i]
            == rest by {
            assert(filled@[i] == rest);
        }
    } else {
        lemma_array_prefix::<T, N>(items, rest, (n - 1) as nat);
        let before = array_prefix::<T, N>(items, rest, (n - 1) as nat);
        assert(array_prefix::<T, N>(items, rest, n)@ == before@.update(n - 1, items[n - 1]));
    }
}

/// The view of `array_of` is the sequence it was made from.
pub proof fn lemma_array_of<T: Copy, const N: usize>(items: Seq<T>, rest: T)
    requires
        items.len() == N,
    ensures
        array_of::<T, N>(items, rest)@ == items,
{
    lemma_array_prefix::<T, N>(items, rest, N as nat);
    assert(array_of::<T, N>(items, rest)@ =~= items);
}

/// The array of the three given items, in that order.
pub open spec fn triple<T: Copy>(a: T, b: T, c: T) -> [T; 3] {
    array_of::<T, 3>(seq![a, b, c], a)
}

/// The places of a triple hold its three items.
pub proof fn lemma_triple<T: Copy>(a: T, b: T, c: T)
    ensures
        triple(a, b, c)[0] == a,
        triple(a, b, c)[1] == b,
        triple(a, b, c)[2] == c,
{
    lemma_array_of::<T, 3>(seq![a, b, c], a);
}

/// Builds the array of three items.
pub fn make_triple<T: Copy>(a: T, b: T, c: T) -> (t: [T; 3])
    ensures
        t[0] == a && t[1] == b && t[2] == c,
        t == triple(a, b, c),
{
    let t = [a, b, c];
    proof {
        lemma_triple(a, b, c);
    }
    assert(t =~= triple(a, b, c));
    t
}

} // verus!
