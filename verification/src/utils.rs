//! Offsets into files, and what draining a reader yields.
use crate::error::Error;
use vstd::prelude::*;

verus! {

/// The file offset that a transfer keeps track of.
#[derive(Debug, Clone, Copy)]
pub enum Offset {
    /// Neither side is a file.
    Unset,
    /// Read offset: where in the reader the next byte comes from.
    In(Option<u64>),
    /// Write offset: where in the writer the next byte goes to.
    Out(Option<u64>),
}

/// Where the range begins that a pair of offsets bounds: a missing start is the
/// beginning of the file.
pub open spec fn range_start(f_offset_start: Option<u64>) -> int {
    match f_offset_start {
        Some(start) => start as int,
        None => 0,
    }
}

/// Where the range ends that a pair of offsets bounds in a file of `f_len`
/// bytes: a missing end is the end of the file.
pub open spec fn range_end(f_len: u64, f_offset_end: Option<u64>) -> int {
    match f_offset_end {
        Some(end) => end as int,
        None => f_len as int,
    }
}

/// Whether the two offsets bound a range of a file of `f_len` bytes.
pub open spec fn range_valid(
    f_len: u64,
    f_offset_start: Option<u64>,
    f_offset_end: Option<u64>,
) -> bool {
    range_start(f_offset_start) <= range_end(f_len, f_offset_end) <= f_len
}

/// The error with which a pair of offsets that bound no range is refused: it
/// names the offsets that were given.
pub open spec fn range_error(f_offset_start: Option<u64>, f_offset_end: Option<u64>) -> Error {
    match (f_offset_start, f_offset_end) {
        (Some(_), Some(_)) => Error::InvalidOffsetRange,
        (Some(_), None) => Error::InvalidOffsetStart,
        _ => Error::InvalidOffsetEnd,
    }
}

impl Offset {
    /// The read offset, if there is one.
    pub open spec fn spec_off_in(self) -> Option<u64> {
        match self {
            Offset::In(off) => off,
            _ => None,
        }
    }

    /// The write offset, if there is one.
    pub open spec fn spec_off_out(self) -> Option<u64> {
        match self {
            Offset::Out(off) => off,
            _ => None,
        }
    }

    /// The offset with the read offset, if there is one, replaced by `off`, if
    /// there is one.
    pub open spec fn moved_in(self, off: Option<u64>) -> Offset {
        match (self, off) {
            (Offset::In(Some(_)), Some(off)) => Offset::In(Some(off)),
            _ => self,
        }
    }

    /// The offset with the write offset, if there is one, replaced by `off`, if
    /// there is one.
    pub open spec fn moved_out(self, off: Option<u64>) -> Offset {
        match (self, off) {
            (Offset::Out(Some(_)), Some(off)) => Offset::Out(Some(off)),
            _ => self,
        }
    }

    /// Returns the read offset, if there is one.
    #[inline]
    pub fn off_in(&mut self) -> (off: Option<&mut u64>)
        ensures
            off is Some <==> old(self).spec_off_in() is Some,
            match off {
                Some(off) => {
                    &&& Some(*off) == old(self).spec_off_in()
                    &&& *final(self) == Offset::In(Some(*final(off)))
                },
                None => *final(self) == *old(self),
            },
    {
        match self {
            Offset::In(off) => off.as_mut(),
            _ => None,
        }
    }

    /// Returns the write offset, if there is one.
    #[inline]
    pub fn off_out(&mut self) -> (off: Option<&mut u64>)
        ensures
            off is Some <==> old(self).spec_off_out() is Some,
            match off {
                Some(off) => {
                    &&& Some(*off) == old(self).spec_off_out()
                    &&& *final(self) == Offset::Out(Some(*final(off)))
                },
                None => *final(self) == *old(self),
            },
    {
        match self {
            Offset::Out(off) => off.as_mut(),
            _ => None,
        }
    }

    /// Returns how many bytes lie in the given range of a file of `f_len`
    /// bytes.
    pub fn calc_size_to_splice(
        f_len: u64,
        f_offset_start: Option<u64>,
        f_offset_end: Option<u64>,
    ) -> (size: Result<u64, Error>)
        ensures
            size is Ok <==> range_valid(f_len, f_offset_start, f_offset_end),
            size matches Ok(size) ==> size == range_end(f_len, f_offset_end) - range_start(
                f_offset_start,
            ),
            size matches Err(e) ==> e == range_error(f_offset_start, f_offset_end),
            match (f_offset_start, f_offset_end) {
                (None, None) => size == Result::<u64, Error>::Ok(f_len),
                (Some(start), None) => if start <= f_len {
                    size matches Ok(n) && n + start == f_len
                } else {
                    size == Result::<u64, Error>::Err(Error::InvalidOffsetStart)
                },
                (None, Some(end)) => if end <= f_len {
                    size == Result::<u64, Error>::Ok(end)
                } else {
                    size == Result::<u64, Error>::Err(Error::InvalidOffsetEnd)
                },
                (Some(start), Some(end)) => if start <= end && end <= f_len {
                    size matches Ok(n) && n + start == end
                } else {
                    size == Result::<u64, Error>::Err(Error::InvalidOffsetRange)
                },
            },
    {
        match (f_offset_start, f_offset_end) {
            (Some(start), Some(end)) => {
                if start > end || end > f_len {
                    return Err(Error::InvalidOffsetRange);
                }
                Ok(end - start)
            },
            (Some(start), None) => {
                if start > f_len {
                    return Err(Error::InvalidOffsetStart);
                }
                Ok(f_len - start)
            },
            (None, Some(end)) => {
                if end > f_len {
                    return Err(Error::InvalidOffsetEnd);
                }
                Ok(end)
            },
            (None, None) => Ok(f_len),
        }
    }
}

/// What draining the reader into the pipe yielded.
#[derive(Debug, Clone, Copy, PartialEq, Eq)]
pub enum Drained {
    /// That many new bytes, at least one, have been read into the pipe.
    Bytes(usize),
    /// No new byte has been read into the pipe, and none can be before the
    /// pipe is empty, if ever.
    Done,
}

/// The range that two offsets bound goes from the one to the other; without a start
/// it goes from the beginning of the file, and without an end to the end of the file,
/// however long that is. It is a range of the file if it ends neither before it starts
/// nor after the end of the file, and the refusal names the offsets that were given.
pub proof fn offsets_bound_the_range(f_len: u64, start: u64, end: u64)
    ensures
        range_start(None) == 0,
        range_start(Some(start)) == start,
        range_end(f_len, None) == f_len,
        range_end(f_len, Some(end)) == end,
        range_valid(f_len, None, None),
        range_valid(f_len, Some(start), None) <==> start <= f_len,
        range_valid(f_len, None, Some(end)) <==> end <= f_len,
        range_valid(f_len, Some(start), Some(end)) <==> start <= end && end <= f_len,
        range_error(Some(start), Some(end)) == Error::InvalidOffsetRange,
        range_error(Some(start), None) == Error::InvalidOffsetStart,
        range_error(None, Some(end)) == Error::InvalidOffsetEnd,
{
}

/// A range that is cut in two has as many bytes as the two parts together, whether or
/// not its ends are given; and the file from any offset on has all that is left of it.
pub proof fn ranges_can_be_cut(f_len: u64, start: Option<u64>, mid: u64, end: Option<u64>)
    requires
        range_valid(f_len, start, Some(mid)),
        range_valid(f_len, Some(mid), end),
    ensures
        range_valid(f_len, start, end),
        (range_end(f_len, Some(mid)) - range_start(start)) + (range_end(f_len, end)
            - range_start(Some(mid))) == range_end(f_len, end) - range_start(start),
        (range_end(f_len, Some(mid)) - range_start(None)) + (range_end(f_len, None)
            - range_start(Some(mid))) == f_len,
{
}

/// An offset belongs to the reader or to the writer, and only the one that it belongs
/// to moves it, to where it is told.
pub proof fn offset_belongs_to_one_side(o: Offset, off: u64, to: u64)
    ensures
        Offset::In(Some(off)).spec_off_in() == Some(off),
        Offset::In(Some(off)).spec_off_out() is None,
        Offset::Out(Some(off)).spec_off_out() == Some(off),
        Offset::Out(Some(off)).spec_off_in() is None,
        o.spec_off_in() is Some ==> o == Offset::In(o.spec_off_in()),
        o.spec_off_out() is Some ==> o == Offset::Out(o.spec_off_out()),
        Offset::In(Some(off)).moved_in(Some(to)) == Offset::In(Some(to)),
        Offset::Out(Some(off)).moved_out(Some(to)) == Offset::Out(Some(to)),
        o.moved_in(None) == o,
        o.moved_out(None) == o,
        o.spec_off_in() is None ==> o.moved_in(Some(to)) == o,
        o.spec_off_out() is None ==> o.moved_out(Some(to)) == o,
{
}

} // verus!
