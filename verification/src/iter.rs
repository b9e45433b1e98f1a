//! Substring search over ordered sequences and a small queue helper.

use vstd::prelude::*;

verus! {

/// `needle` occurs contiguously somewhere in `haystack`, where an empty
/// `haystack` never contains anything (an explicit edge-case policy: even an
/// empty `needle` is not contained in an empty `haystack`).
pub open spec fn contains_slice<T>(haystack: Seq<T>, needle: Seq<T>) -> bool {
    haystack.len() > 0 && exists|i: int|
        0 <= i && i + needle.len() <= haystack.len() && #[trigger] haystack.subrange(
            i,
            i + needle.len(),
        ) == needle
}

/// Returns whether the sequence `needle` is a part of `haystack`, regardless
/// of its position.
///
/// For element types whose `==` agrees with logical equality (every primitive
/// integer type does), the result is exactly `contains_slice` over the views;
/// the two edge-case rules — a `needle` longer than `haystack` is never
/// contained, and an empty `haystack` contains nothing — hold for every
/// element type.
pub fn contains_sequence<T: Eq>(haystack: &[T], needle: &[T]) -> (r: bool)
    ensures
        vstd::laws_eq::obeys_concrete_eq::<T>() ==> r == contains_slice(haystack@, needle@),
        needle@.len() > haystack@.len() ==> !r,
        haystack@.len() == 0 ==> !r,
{
    let haystack_len = haystack.len();
    let needle_len = needle.len();
    if needle_len > haystack_len {
        return false;
    }
    if haystack_len == 0 {
        // this would be an incorrect edge case otherwise
        return false;
    }
    let size_diff = haystack_len - needle_len;
    let mut haystack_start: usize = 0;
    while haystack_start <= size_diff
        invariant
            haystack_len == haystack@.len(),
            needle_len == needle@.len(),
            needle_len <= haystack_len,
            0 < haystack_len,
            size_diff == haystack_len - needle_len,
            haystack_start <= size_diff + 1,
            vstd::laws_eq::obeys_concrete_eq::<T>() ==> forall|s: int|
                0 <= s < haystack_start ==> #[trigger] haystack@.subrange(s, s + needle@.len())
                    != needle@,
        decreases size_diff + 1 - haystack_start,
    {
        let mut needle_index: usize = 0;
        let mut is_match: bool = true;
        while is_match && needle_index < needle_len
            invariant
                haystack_len == haystack@.len(),
                needle_len == needle@.len(),
                needle_len <= haystack_len,
                haystack_start <= size_diff,
                size_diff == haystack_len - needle_len,
                needle_index <= needle_len,
                !is_match ==> 0 < needle_len,
                vstd::laws_eq::obeys_concrete_eq::<T>() ==> (is_match ==> forall|j: int|
                    0 <= j < needle_index ==> haystack@[haystack_start + j] == needle@[j]),
                vstd::laws_eq::obeys_concrete_eq::<T>() ==> (!is_match ==> haystack@.subrange(
                    haystack_start as int,
                    haystack_start + needle@.len(),
                ) != needle@),
            decreases needle_len - needle_index + (if is_match {
                1int
            } else {
                0int
            }),
        {
            proof {
                reveal(vstd::laws_eq::obeys_concrete_eq);
            }
            if haystack[needle_index + haystack_start] != needle[needle_index] {
                proof {
                    if vstd::laws_eq::obeys_concrete_eq::<T>() {
                        assert(haystack@.subrange(
                            haystack_start as int,
                            haystack_start + needle@.len(),
                        )[needle_index as int] != needle@[needle_index as int]);
                    }
                }
                is_match = false;
            } else {
                needle_index = needle_index + 1;
            }
        }
        if is_match {
            proof {
                if vstd::laws_eq::obeys_concrete_eq::<T>() {
                    assert(haystack@.subrange(
                        haystack_start as int,
                        haystack_start + needle@.len(),
                    ) =~= needle@);
                }
            }
            return true;
        }
        haystack_start = haystack_start + 1;
    }
    false
}

/// The matcher's rule in full: `needle` is contained in `haystack` exactly
/// when some contiguous slice of `haystack` equals `needle` — except that an
/// empty `haystack` contains nothing. The exception is real: under the
/// general rule alone the empty `needle` would be a slice of the empty
/// `haystack`, yet it is not contained in it.
pub proof fn lemma_contains_slice_characterization<T>(haystack: Seq<T>, needle: Seq<T>)
    ensures
        contains_slice(haystack, needle) <==> (haystack.len() > 0 && exists|i: int|
            0 <= i && i + needle.len() <= haystack.len() && #[trigger] haystack.subrange(
                i,
                i + needle.len(),
            ) == needle),
        haystack.len() == 0 ==> !contains_slice(haystack, needle),
        !contains_slice(Seq::<T>::empty(), Seq::<T>::empty()),
        Seq::<T>::empty().subrange(0, 0 + Seq::<T>::empty().len() as int) == Seq::<T>::empty(),
{
    assert(Seq::<T>::empty().subrange(0, 0 + Seq::<T>::empty().len() as int) =~= Seq::<T>::empty());
}

/// Removes and returns the first item of `vec`, or `None` if `vec` is empty.
pub fn dequeue<T>(vec: &mut Vec<T>) -> (item: Option<T>)
    ensures
        old(vec)@.len() == 0 ==> item is None && *final(vec) == *old(vec),
        old(vec)@.len() > 0 ==> item == Some(old(vec)@.first()) && final(vec)@ == old(
            vec,
        )@.drop_first(),
{
    if vec.is_empty() {
        None
    } else {
        Some(vec.remove(0))
    }
}

} // verus!

