//! The buffer that an asynchronous read fills.
//!
//! `tokio::io::ReadBuf` keeps three regions in one buffer: the bytes filled so far,
//! the bytes behind them that are initialized and spare, and the rest. The filled
//! bytes, the spare bytes and the capacity are all that contracts speak of.

use tokio::io::ReadBuf;
use vstd::prelude::*;

verus! {

/// Declares `tokio::io::ReadBuf`.
#[verifier::external_type_specification]
#[verifier::external_body]
pub struct ExReadBuf<'a>(ReadBuf<'a>);

/// The bytes filled so far.
pub uninterp spec fn filled_bytes(buf: ReadBuf<'_>) -> Seq<u8>;

/// The initialized bytes right behind the filled ones.
pub uninterp spec fn spare_bytes(buf: ReadBuf<'_>) -> Seq<u8>;

/// The number of bytes that the buffer was made to hold.
pub uninterp spec fn capacity_of(buf: ReadBuf<'_>) -> nat;

/// The number of bytes that still fit.
pub open spec fn room(buf: ReadBuf<'_>) -> int {
    capacity_of(buf) - filled_bytes(buf).len()
}

/// The smaller of two numbers.
pub open spec fn least(a: int, b: int) -> int {
    if a <= b {
        a
    } else {
        b
    }
}

/// Whether, after `n` bytes went behind the filled ones, all that still fits is spare, and
/// the bytes that were spare behind those `n` are as they were.
pub open spec fn spare_kept(before: ReadBuf<'_>, after: ReadBuf<'_>, n: int) -> bool {
    &&& spare_bytes(after).len() == room(after)
    &&& forall|i: int|
        n <= i < spare_bytes(before).len() ==> spare_bytes(after)[i - n] == #[trigger] spare_bytes(
            before,
        )[i]
}

/// Calls `ReadBuf::remaining`. Trusted: it is the capacity less the filled bytes.
#[verifier::external_body]
pub(crate) fn remaining(buf: &ReadBuf<'_>) -> (n: usize)
    ensures
        n == room(*buf),
{
    buf.remaining()
}

/// Calls `ReadBuf::put_slice`. Trusted: the data is appended to the filled bytes and
/// takes the place of as many spare ones. It panics where the data does not fit.
#[verifier::external_body]
pub(crate) fn put_slice(buf: &mut ReadBuf<'_>, data: &[u8])
    requires
        data@.len() <= room(*old(buf)),
    ensures
        filled_bytes(*final(buf)) == filled_bytes(*old(buf)) + data@,
        spare_bytes(*final(buf)) == spare_bytes(*old(buf)).skip(
            least(data@.len() as int, spare_bytes(*old(buf)).len() as int),
        ),
        capacity_of(*final(buf)) == capacity_of(*old(buf)),
{
    buf.put_slice(data)
}

/// Calls `ReadBuf::advance`. Trusted: the first `n` spare bytes become filled ones.
/// It panics where fewer are spare.
#[verifier::external_body]
pub(crate) fn advance(buf: &mut ReadBuf<'_>, n: usize)
    requires
        n <= spare_bytes(*old(buf)).len(),
    ensures
        filled_bytes(*final(buf)) == filled_bytes(*old(buf)) + spare_bytes(*old(buf)).take(
            n as int,
        ),
        spare_bytes(*final(buf)) == spare_bytes(*old(buf)).skip(n as int),
        capacity_of(*final(buf)) == capacity_of(*old(buf)),
{
    buf.advance(n)
}

/// Calls `ReadBuf::initialize_unfilled`. Trusted: the slice spans all that still
/// fits and begins with the bytes that are spare; what it holds in the end are the
/// spare bytes then; nothing gets filled. What the slice holds behind the bytes that
/// were spare is left unsaid.
#[verifier::external_body]
pub(crate) fn initialize_unfilled<'a, 'b>(buf: &'a mut ReadBuf<'b>) -> (space: &'a mut [u8])
    ensures
        space@.len() == room(*old(buf)),
        space@.len() >= spare_bytes(*old(buf)).len(),
        space@.take(spare_bytes(*old(buf)).len() as int) == spare_bytes(*old(buf)),
        filled_bytes(*final(buf)) == filled_bytes(*old(buf)),
        spare_bytes(*final(buf)) == final(space)@,
        capacity_of(*final(buf)) == capacity_of(*old(buf)),
{
    buf.initialize_unfilled()
}

/// The space that a read may fill: all of the buffer that is not filled yet. What is
/// written there becomes the buffer's spare bytes.
pub fn read_space<'a, 'b>(buf: &'a mut ReadBuf<'b>) -> (space: &'a mut [u8])
    ensures
        space@.len() == room(*old(buf)),
        space@.len() >= spare_bytes(*old(buf)).len(),
        space@.take(spare_bytes(*old(buf)).len() as int) == spare_bytes(*old(buf)),
        filled_bytes(*final(buf)) == filled_bytes(*old(buf)),
        spare_bytes(*final(buf)) == final(space)@,
        capacity_of(*final(buf)) == capacity_of(*old(buf)),
{
    initialize_unfilled(buf)
}

/// Moves as much of `data` into the buffer as fits, from the front, and returns how
/// many bytes that is. The spare bytes behind them stay, and all that still fits
/// becomes spare.
pub fn copy_into(buf: &mut ReadBuf<'_>, data: &[u8]) -> (copied: usize)
    ensures
        copied == least(data@.len() as int, room(*old(buf))),
        filled_bytes(*final(buf)) == filled_bytes(*old(buf)) + data@.take(copied as int),
        spare_kept(*old(buf), *final(buf), copied as int),
        capacity_of(*final(buf)) == capacity_of(*old(buf)),
{
    let space = initialize_unfilled(buf);
    let space_len: usize = space.len();
    let ghost spare = space@;
    let data_len: usize = data.len();
    let to_copy: usize = if data_len <= space_len {
        data_len
    } else {
        space_len
    };
    let mut i: usize = 0;
    while i < to_copy
        invariant
            i <= to_copy,
            to_copy <= data@.len(),
            to_copy <= space@.len(),
            space@.len() == spare.len(),
            forall|j: int| i <= j < space@.len() ==> #[trigger] space@[j] == spare[j],
            space@.take(i as int) == data@.take(i as int),
        decreases to_copy - i,
    {
        space[i] = data[i];
        i += 1;
        assert(space@.take(i as int) =~= data@.take(i as int));
    }
    advance(buf, to_copy);
    to_copy
}

/// A copy appends the front of the data to what is filled, and stops only where the data
/// or the buffer ends. Filled bytes, and spare ones that the copy does not reach, stay.
pub proof fn law_copy_appends_from_the_front(buf: &mut ReadBuf<'_>, data: &[u8], copied: usize)
    requires
        call_ensures(copy_into, (buf, data), copied),
    ensures
        copied <= data@.len(),
        copied < data@.len() ==> filled_bytes(*final(buf)).len() == capacity_of(*final(buf)),
        filled_bytes(*final(buf)).len() == filled_bytes(*old(buf)).len() + copied,
        filled_bytes(*final(buf)).len() <= capacity_of(*final(buf)),
        capacity_of(*final(buf)) == capacity_of(*old(buf)),
        forall|i: int|
            0 <= i < filled_bytes(*old(buf)).len() ==> #[trigger] filled_bytes(*final(buf))[i]
                == filled_bytes(*old(buf))[i],
        forall|i: int|
            0 <= i < copied ==> filled_bytes(*final(buf))[filled_bytes(*old(buf)).len() + i]
                == #[trigger] data@[i],
        spare_bytes(*final(buf)).len() + filled_bytes(*final(buf)).len() == capacity_of(
            *final(buf),
        ),
        forall|i: int|
            copied <= i < spare_bytes(*old(buf)).len() ==> spare_bytes(*final(buf))[i - copied]
                == #[trigger] spare_bytes(*old(buf))[i],
{
}

/// The space for a read is all that is not filled, begins with the spare bytes, and what it
/// holds in the end are the spare bytes; nothing gets filled.
pub proof fn law_read_space_is_what_is_not_filled(buf: &mut ReadBuf<'_>, space: &mut [u8])
    requires
        call_ensures(read_space, (buf,), space),
    ensures
        old(space)@.len() + filled_bytes(*old(buf)).len() == capacity_of(*old(buf)),
        spare_bytes(*old(buf)).len() <= old(space)@.len(),
        forall|i: int|
            0 <= i < spare_bytes(*old(buf)).len() ==> old(space)@[i] == #[trigger] spare_bytes(
                *old(buf),
            )[i],
        spare_bytes(*final(buf)) == final(space)@,
        filled_bytes(*final(buf)) == filled_bytes(*old(buf)),
        capacity_of(*final(buf)) == capacity_of(*old(buf)),
{
    assert forall|i: int| 0 <= i < spare_bytes(*old(buf)).len() implies old(space)@[i]
        == #[trigger] spare_bytes(*old(buf))[i] by {
        assert(old(space)@.take(spare_bytes(*old(buf)).len() as int)[i] == old(space)@[i]);
    }
}

} // verus!
