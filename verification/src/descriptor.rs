//! Buffer descriptors: an address and a count of words.

use vstd::prelude::*;
use vstd::layout::*;
use crate::word::Word;

verus! {

/// How many whole words of `word_bytes` bytes fit into `bytes` bytes.
pub open spec fn words_in(bytes: nat, word_bytes: nat) -> nat
    recommends
        word_bytes > 0,
{
    bytes / word_bytes
}

/// A run of `items` values, each of them `words_per_item` whole words, spans
/// `items * words_per_item` words, and no byte of it is left over.
pub proof fn lemma_words_in_run(items: nat, words_per_item: nat, word_bytes: nat)
    requires
        word_bytes > 0,
    ensures
        words_in(items * (words_per_item * word_bytes), word_bytes) == items * words_per_item,
        (items * (words_per_item * word_bytes)) % word_bytes == 0,
{
    let words: nat = items * words_per_item;
    assert(items * (words_per_item * word_bytes) == words * word_bytes) by (nonlinear_arith)
        requires
            words == items * words_per_item,
    ;
    vstd::arithmetic::div_mod::lemma_div_multiples_vanish(words as int, word_bytes as int);
    vstd::arithmetic::div_mod::lemma_mod_multiples_basic(words as int, word_bytes as int);
}

/// Asks a pointer's `addr` for the address that a reference points to, the
/// reference being turned into a pointer by `core::ptr::from_ref`. Every
/// reference is non-null and aligned as its value demands, and no more is
/// claimed of the result: where a value lives is decided by the machine.
#[verifier::external_body]
pub(crate) fn address_of<T: ?Sized>(target: &T) -> (addr: usize)
    ensures
        addr != 0,
        addr as nat % spec_align_of_val::<T>(target) == 0,
{
    core::ptr::from_ref(target).addr()
}

/// Describes, in words, a region of `bytes` bytes that starts at `addr`.
pub fn describe(addr: usize, bytes: usize, word_bytes: usize) -> (descriptor: (usize, usize))
    requires
        word_bytes > 0,
    ensures
        descriptor.0 == addr,
        descriptor.1 == words_in(bytes as nat, word_bytes as nat),
{
    (addr, bytes / word_bytes)
}

/// Describes a value of a type with a fixed size as a run of words of type
/// `W`: where it lives, which is a place aligned for the value, and the size
/// of its type divided by the size of a word.
pub fn describe_sized<T, W: Word>(target: &T) -> (descriptor: (usize, usize))
    ensures
        descriptor.0 != 0,
        descriptor.0 as nat % spec_align_of_val::<T>(target) == 0,
        descriptor.1 == words_in(size_of::<T>(), size_of::<W>()),
{
    proof {
        W::lemma_word_occupies_memory();
    }
    describe(address_of(target), core::mem::size_of::<T>(), core::mem::size_of::<W>())
}

/// Describes any value, a slice too, as a run of words of type `W`: where it
/// lives, which is a place aligned for the value, and the size of the value
/// divided by the size of a word.
pub fn describe_value<T: ?Sized, W: Word>(target: &T) -> (descriptor: (usize, usize))
    ensures
        descriptor.0 != 0,
        descriptor.0 as nat % spec_align_of_val::<T>(target) == 0,
        descriptor.1 == words_in(spec_size_of_val::<T>(target), size_of::<W>()),
{
    proof {
        W::lemma_word_occupies_memory();
    }
    describe(address_of(target), core::mem::size_of_val(target), core::mem::size_of::<W>())
}

} // verus!
