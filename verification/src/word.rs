//! The word types a transfer may be counted in.

use vstd::prelude::*;
use vstd::layout::*;

verus! {

/// A type whose every bit pattern is a legal value, so that a device may
/// deposit arbitrary bytes into memory holding it.
///
/// Implement it only for plain fixed-width types without padding or reserved
/// patterns. The one obligation that can be proved is that a word occupies
/// memory, so that a byte size can be divided by the size of a word.
pub trait Word: Sized {
    /// A word takes up at least one byte.
    proof fn lemma_word_occupies_memory()
        ensures
            size_of::<Self>() > 0,
    ;
}

impl Word for u8 {
    proof fn lemma_word_occupies_memory() {
        broadcast use layout_of_primitives;
    }
}

impl Word for i8 {
    proof fn lemma_word_occupies_memory() {
        broadcast use layout_of_primitives;
    }
}

impl Word for u16 {
    proof fn lemma_word_occupies_memory() {
        broadcast use layout_of_primitives;
    }
}

impl Word for i16 {
    proof fn lemma_word_occupies_memory() {
        broadcast use layout_of_primitives;
    }
}

impl Word for u32 {
    proof fn lemma_word_occupies_memory() {
        broadcast use layout_of_primitives;
    }
}

impl Word for i32 {
    proof fn lemma_word_occupies_memory() {
        broadcast use layout_of_primitives;
    }
}

impl Word for u64 {
    proof fn lemma_word_occupies_memory() {
        broadcast use layout_of_primitives;
    }
}

impl Word for i64 {
    proof fn lemma_word_occupies_memory() {
        broadcast use layout_of_primitives;
    }
}

} // verus!
