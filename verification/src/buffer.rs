//! Owners of a buffer that a DMA engine may be pointed at.

use vstd::prelude::*;
use vstd::layout::*;
use std::rc::Rc;
use std::sync::Arc;
use crate::descriptor::words_in;
use crate::target::{ReadTarget, WriteTarget};

verus! {

/// An owner whose buffer a device may read.
///
/// The buffer must stay where it is, and stay alive, for as long as the owner
/// is neither dropped nor changed through `&mut self`. An implementation for a
/// buffer that does not live for the whole program, such as one on the stack,
/// has to be kept local to the code that can vouch for that.
pub trait ReadBuffer {
    type Word;

    /// The number of words in the buffer.
    spec fn read_buffer_len(&self) -> nat;

    /// The alignment, in bytes, that the place of the buffer is known to have.
    spec fn read_buffer_alignment(&self) -> nat;

    /// The address of the buffer, which is not null and a multiple of its
    /// alignment, and its size in words. The count depends on the owner
    /// alone, so asking twice gives it twice.
    ///
    /// While a device uses the result, no `&mut self` method may run.
    fn read_buffer(&self) -> (descriptor: (usize, usize))
        ensures
            descriptor.0 != 0,
            descriptor.0 as nat % self.read_buffer_alignment() == 0,
            descriptor.1 == self.read_buffer_len(),
    ;
}

/// An owner whose buffer a device may overwrite.
///
/// The same obligations hold as for [`ReadBuffer`], with one exemption:
/// `write_buffer` itself may run again while a device uses the buffer.
pub trait WriteBuffer {
    type Word;

    /// The number of words in the buffer.
    spec fn write_buffer_len(&self) -> nat;

    /// The alignment, in bytes, that the place of the buffer is known to have.
    spec fn write_buffer_alignment(&self) -> nat;

    /// The address of the buffer, which is not null and a multiple of its
    /// alignment, and its size in words. The call leaves the count as it was,
    /// so it may be repeated.
    fn write_buffer(&mut self) -> (descriptor: (usize, usize))
        ensures
            descriptor.0 != 0,
            descriptor.0 as nat % old(self).write_buffer_alignment() == 0,
            descriptor.1 == old(self).write_buffer_len(),
            final(self).write_buffer_len() == old(self).write_buffer_len(),
    ;
}

/// Reading one owner twice, with nothing done to it in between, gives the
/// same count both times.
pub proof fn lemma_read_buffer_repeats<B: ReadBuffer>(
    owner: &B,
    first: (usize, usize),
    second: (usize, usize),
)
    requires
        first.1 == owner.read_buffer_len(),
        second.1 == owner.read_buffer_len(),
    ensures
        first.1 == second.1,
{
}

/// Asking an owner for its write descriptor a second time, on the owner as
/// the first call left it, gives the same count again.
pub proof fn lemma_write_buffer_repeats<B: WriteBuffer>(
    before: &B,
    after: &B,
    first: (usize, usize),
    second: (usize, usize),
)
    requires
        first.1 == before.write_buffer_len(),
        after.write_buffer_len() == before.write_buffer_len(),
        second.1 == after.write_buffer_len(),
    ensures
        first.1 == second.1,
{
}

impl<T: ReadTarget + ?Sized + 'static> ReadBuffer for &'static T {
    type Word = T::Word;

    open spec fn read_buffer_len(&self) -> nat {
        (**self).read_word_count()
    }

    open spec fn read_buffer_alignment(&self) -> nat {
        (**self).read_alignment()
    }

    fn read_buffer(&self) -> (descriptor: (usize, usize)) {
        (**self).as_read_buffer()
    }
}

impl<T: ReadTarget + ?Sized + 'static> ReadBuffer for &'static mut T {
    type Word = T::Word;

    open spec fn read_buffer_len(&self) -> nat {
        (**self).read_word_count()
    }

    open spec fn read_buffer_alignment(&self) -> nat {
        (**self).read_alignment()
    }

    fn read_buffer(&self) -> (descriptor: (usize, usize)) {
        (**self).as_read_buffer()
    }
}

impl<T: WriteTarget + ?Sized + 'static> WriteBuffer for &'static mut T {
    type Word = T::Word;

    open spec fn write_buffer_len(&self) -> nat {
        (**self).write_word_count()
    }

    open spec fn write_buffer_alignment(&self) -> nat {
        (**self).write_alignment()
    }

    fn write_buffer(&mut self) -> (descriptor: (usize, usize))
        ensures
            &**final(self) == &**old(self),
    {
        (**self).as_write_buffer()
    }
}

impl<T: ReadTarget + ?Sized + 'static> ReadBuffer for Box<T> {
    type Word = T::Word;

    open spec fn read_buffer_len(&self) -> nat {
        (**self).read_word_count()
    }

    open spec fn read_buffer_alignment(&self) -> nat {
        (**self).read_alignment()
    }

    fn read_buffer(&self) -> (descriptor: (usize, usize)) {
        (**self).as_read_buffer()
    }
}

impl<T: WriteTarget + ?Sized + 'static> WriteBuffer for Box<T> {
    type Word = T::Word;

    open spec fn write_buffer_len(&self) -> nat {
        (**self).write_word_count()
    }

    open spec fn write_buffer_alignment(&self) -> nat {
        (**self).write_alignment()
    }

    fn write_buffer(&mut self) -> (descriptor: (usize, usize))
        ensures
            *final(self) == *old(self),
    {
        (**self).as_write_buffer()
    }
}

impl<T: ReadTarget + ?Sized + 'static> ReadBuffer for Rc<T> {
    type Word = T::Word;

    open spec fn read_buffer_len(&self) -> nat {
        (**self).read_word_count()
    }

    open spec fn read_buffer_alignment(&self) -> nat {
        (**self).read_alignment()
    }

    fn read_buffer(&self) -> (descriptor: (usize, usize)) {
        (**self).as_read_buffer()
    }
}

impl<T: ReadTarget + ?Sized + 'static> ReadBuffer for Arc<T> {
    type Word = T::Word;

    open spec fn read_buffer_len(&self) -> nat {
        (**self).read_word_count()
    }

    open spec fn read_buffer_alignment(&self) -> nat {
        (**self).read_alignment()
    }

    fn read_buffer(&self) -> (descriptor: (usize, usize)) {
        (**self).as_read_buffer()
    }
}

impl<T: ReadTarget + 'static> ReadBuffer for Vec<T> {
    type Word = T::Word;

    open spec fn read_buffer_len(&self) -> nat {
        words_in(self@.len() * size_of::<T>(), size_of::<T::Word>())
    }

    open spec fn read_buffer_alignment(&self) -> nat {
        align_of::<T>()
    }

    fn read_buffer(&self) -> (descriptor: (usize, usize)) {
        self.as_slice().as_read_buffer()
    }
}

impl<T: WriteTarget + 'static> WriteBuffer for Vec<T> {
    type Word = T::Word;

    open spec fn write_buffer_len(&self) -> nat {
        words_in(self@.len() * size_of::<T>(), size_of::<T::Word>())
    }

    open spec fn write_buffer_alignment(&self) -> nat {
        align_of::<T>()
    }

    fn write_buffer(&mut self) -> (descriptor: (usize, usize))
        ensures
            final(self)@ == old(self)@,
    {
        self.as_mut_slice().as_write_buffer()
    }
}

} // verus!
