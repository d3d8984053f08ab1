//! Values that can be described as a run of words.

use vstd::prelude::*;
use vstd::layout::*;
use vstd::array::array_len_matches_n;
use core::mem::MaybeUninit;
use crate::descriptor::{describe_sized, describe_value, lemma_words_in_run, words_in};
use crate::word::Word;

verus! {

/// A value laid out as a run of words that a device may read.
///
/// Implement it only for a type whose memory is nothing but such words, one
/// after the other, with no padding between them.
pub trait ReadTarget {
    type Word: Word;

    /// The number of words that the value spans.
    spec fn read_word_count(&self) -> nat;

    /// The alignment, in bytes, that the place of the value is known to have.
    spec fn read_alignment(&self) -> nat;

    /// The address of the value, which is not null and a multiple of its
    /// alignment, and the number of words it spans.
    fn as_read_buffer(&self) -> (descriptor: (usize, usize))
        ensures
            descriptor.0 != 0,
            descriptor.0 as nat % self.read_alignment() == 0,
            descriptor.1 == self.read_word_count(),
    ;
}

/// A value laid out as a run of words that a device may overwrite.
///
/// The word type is a [`Word`], so whatever bytes arrive form legal values.
pub trait WriteTarget {
    type Word: Word;

    /// The number of words that the value spans.
    spec fn write_word_count(&self) -> nat;

    /// The alignment, in bytes, that the place of the value is known to have.
    spec fn write_alignment(&self) -> nat;

    /// The address of the value, which is not null and a multiple of its
    /// alignment, and the number of words it spans. The value itself is left
    /// as it was, so asking again gives the same count.
    fn as_write_buffer(&mut self) -> (descriptor: (usize, usize))
        ensures
            descriptor.0 != 0,
            descriptor.0 as nat % old(self).write_alignment() == 0,
            descriptor.1 == old(self).write_word_count(),
            &*final(self) == &*old(self),
    ;
}

/// A lone word is a run of one word.
impl<W: Word> ReadTarget for W {
    type Word = W;

    open spec fn read_word_count(&self) -> nat {
        1
    }

    open spec fn read_alignment(&self) -> nat {
        spec_align_of_val::<W>(self)
    }

    fn as_read_buffer(&self) -> (descriptor: (usize, usize))
        ensures
            descriptor.0 as nat % spec_align_of_val::<W>(self) == 0,
            descriptor.1 == 1,
    {
        proof {
            W::lemma_word_occupies_memory();
            lemma_words_in_run(1, 1, size_of::<W>());
        }
        describe_sized::<W, W>(self)
    }
}

impl<W: Word> WriteTarget for W {
    type Word = W;

    open spec fn write_word_count(&self) -> nat {
        1
    }

    open spec fn write_alignment(&self) -> nat {
        spec_align_of_val::<W>(self)
    }

    fn as_write_buffer(&mut self) -> (descriptor: (usize, usize))
        ensures
            descriptor.0 as nat % spec_align_of_val::<W>(&*old(self)) == 0,
            descriptor.1 == 1,
    {
        proof {
            W::lemma_word_occupies_memory();
            lemma_words_in_run(1, 1, size_of::<W>());
        }
        describe_sized::<W, W>(&*self)
    }
}

/// A slice of targets is a target with the word type of its items.
impl<T: ReadTarget> ReadTarget for [T] {
    type Word = T::Word;

    open spec fn read_word_count(&self) -> nat {
        words_in(self@.len() * size_of::<T>(), size_of::<T::Word>())
    }

    open spec fn read_alignment(&self) -> nat {
        align_of::<T>()
    }

    fn as_read_buffer(&self) -> (descriptor: (usize, usize))
    {
        broadcast use layout_of_slices;
        describe_value::<[T], T::Word>(self)
    }
}

impl<T: WriteTarget> WriteTarget for [T] {
    type Word = T::Word;

    open spec fn write_word_count(&self) -> nat {
        words_in(self@.len() * size_of::<T>(), size_of::<T::Word>())
    }

    open spec fn write_alignment(&self) -> nat {
        align_of::<T>()
    }

    fn as_write_buffer(&mut self) -> (descriptor: (usize, usize))
    {
        broadcast use layout_of_slices;
        describe_value::<[T], T::Word>(&*self)
    }
}

/// An array of targets, of any length, is a target with the word type of its
/// items.
impl<T: ReadTarget, const N: usize> ReadTarget for [T; N] {
    type Word = T::Word;

    open spec fn read_word_count(&self) -> nat {
        words_in((N as nat) * size_of::<T>(), size_of::<T::Word>())
    }

    open spec fn read_alignment(&self) -> nat {
        align_of::<T>()
    }

    fn as_read_buffer(&self) -> (descriptor: (usize, usize))
    {
        broadcast use layout_of_slices, array_len_matches_n;
        describe_value::<[T], T::Word>(self.as_slice())
    }
}

impl<T: WriteTarget, const N: usize> WriteTarget for [T; N] {
    type Word = T::Word;

    open spec fn write_word_count(&self) -> nat {
        words_in((N as nat) * size_of::<T>(), size_of::<T::Word>())
    }

    open spec fn write_alignment(&self) -> nat {
        align_of::<T>()
    }

    fn as_write_buffer(&mut self) -> (descriptor: (usize, usize))
    {
        broadcast use layout_of_slices, array_len_matches_n;
        describe_value::<[T], T::Word>(self.as_slice())
    }
}

/// Storage that may not hold a value yet can be filled by a device, and must
/// not be read by one: it is a write target only.
impl<T: WriteTarget> WriteTarget for MaybeUninit<T> {
    type Word = T::Word;

    open spec fn write_word_count(&self) -> nat {
        words_in(size_of::<T>(), size_of::<T::Word>())
    }

    open spec fn write_alignment(&self) -> nat {
        spec_align_of_val::<MaybeUninit<T>>(self)
    }

    fn as_write_buffer(&mut self) -> (descriptor: (usize, usize))
    {
        broadcast use layout_of_maybe_uninit;
        describe_sized::<MaybeUninit<T>, T::Word>(&*self)
    }
}

/// A slice of words is read as one word for each of its items, and its bytes
/// are a whole number of words.
pub proof fn lemma_read_slice_of_words<W: Word>(items: &[W])
    ensures
        items.read_word_count() == items@.len(),
        (items@.len() * size_of::<W>()) % size_of::<W>() == 0,
{
    W::lemma_word_occupies_memory();
    lemma_words_in_run(items@.len(), 1, size_of::<W>());
}

/// An array of `N` words is read as `N` words, and its bytes are a whole
/// number of words.
pub proof fn lemma_read_array_of_words<W: Word, const N: usize>(items: &[W; N])
    ensures
        items.read_word_count() == N,
        ((N as nat) * size_of::<W>()) % size_of::<W>() == 0,
{
    W::lemma_word_occupies_memory();
    lemma_words_in_run(N as nat, 1, size_of::<W>());
}

/// A slice of words is written as one word for each of its items.
pub proof fn lemma_write_slice_of_words<W: Word>(items: &[W])
    ensures
        items.write_word_count() == items@.len(),
        (items@.len() * size_of::<W>()) % size_of::<W>() == 0,
{
    W::lemma_word_occupies_memory();
    lemma_words_in_run(items@.len(), 1, size_of::<W>());
}

/// An array of `N` words is written as `N` words.
pub proof fn lemma_write_array_of_words<W: Word, const N: usize>(items: &[W; N])
    ensures
        items.write_word_count() == N,
        ((N as nat) * size_of::<W>()) % size_of::<W>() == 0,
{
    W::lemma_word_occupies_memory();
    lemma_words_in_run(N as nat, 1, size_of::<W>());
}

/// Storage for one word that may not hold a value yet is written as one word.
pub proof fn lemma_write_uninit_word<W: Word>(slot: &MaybeUninit<W>)
    ensures
        slot.write_word_count() == 1,
{
    W::lemma_word_occupies_memory();
    lemma_words_in_run(1, 1, size_of::<W>());
}

} // verus!
