//! Edits that the screen drivers make to their transfer buffer before they
//! hand it to the panel.

use vstd::prelude::*;

verus! {

/// `buffer` with `parameters` written over its first bytes.
pub open spec fn with_parameters(buffer: Seq<u8>, parameters: Seq<u8>) -> Seq<u8> {
    parameters + buffer.skip(parameters.len() as int)
}

/// Writes `parameters` over the first bytes of `buffer` and returns how many
/// there are.
pub fn copy_parameters(buffer: &mut Vec<u8>, parameters: &[u8]) -> (n: usize)
    requires
        parameters@.len() <= old(buffer)@.len(),
    ensures
        n == parameters@.len(),
        final(buffer)@ == with_parameters(old(buffer)@, parameters@),
{
    let n: usize = parameters.len();
    let mut i: usize = 0;
    while i < n
        invariant
            n == parameters@.len(),
            i <= n <= buffer@.len(),
            buffer@.len() == old(buffer)@.len(),
            forall|j: int| 0 <= j < i ==> buffer@[j] == parameters@[j],
            forall|j: int| i <= j < buffer@.len() ==> buffer@[j] == old(buffer)@[j],
        decreases n - i,
    {
        buffer[i] = parameters[i];
        i += 1;
    }
    assert(buffer@ =~= with_parameters(old(buffer)@, parameters@));
    n
}

/// `buffer` with the `len` bytes that start at `position` moved to its
/// front; the other bytes stay.
pub open spec fn shifted(buffer: Seq<u8>, position: int, len: int) -> Seq<u8> {
    Seq::new(
        buffer.len(),
        |i: int|
            if i < len {
                buffer[i + position]
            } else {
                buffer[i]
            },
    )
}

/// Moves the `len` bytes that start at `position` to the front of `buffer`.
pub fn shift_parameters(buffer: &mut Vec<u8>, position: usize, len: usize)
    requires
        position + len <= old(buffer)@.len(),
    ensures
        final(buffer)@ == shifted(old(buffer)@, position as int, len as int),
{
    let capacity: usize = buffer.len();
    if position > 0 {
        let mut i: usize = 0;
        while i < len
            invariant
                position > 0,
                i <= len,
                position + len <= buffer@.len(),
                buffer@.len() == old(buffer)@.len(),
                buffer@.len() == capacity,
                forall|j: int| 0 <= j < i ==> buffer@[j] == old(buffer)@[j + position],
                forall|j: int| i <= j < buffer@.len() ==> buffer@[j] == old(buffer)@[j],
            decreases len - i,
        {
            let byte: u8 = buffer[i + position];
            buffer[i] = byte;
            i += 1;
        }
    }
    assert(buffer@ =~= shifted(old(buffer)@, position as int, len as int));
}

/// The high byte of a sixteen-bit colour.
pub open spec fn high_byte(color: usize) -> u8 {
    ((color / 256) % 256) as u8
}

/// The low byte of a sixteen-bit colour.
pub open spec fn low_byte(color: usize) -> u8 {
    (color % 256) as u8
}

/// `buffer` with the `space` bytes that start at `start` holding the colour
/// over and over, high byte first.
pub open spec fn painted(buffer: Seq<u8>, start: int, space: int, color: usize) -> Seq<u8> {
    Seq::new(
        buffer.len(),
        |i: int|
            if start <= i < start + space {
                if (i - start) % 2 == 0 {
                    high_byte(color)
                } else {
                    low_byte(color)
                }
            } else {
                buffer[i]
            },
    )
}

/// Fills the `space` bytes of `buffer` that start at `start` with the colour,
/// high byte first.
pub fn paint(buffer: &mut Vec<u8>, start: usize, space: usize, color: usize)
    requires
        start + space <= old(buffer)@.len(),
        space % 2 == 0,
    ensures
        final(buffer)@ == painted(old(buffer)@, start as int, space as int, color),
{
    let high: u8 = ((color / 256) % 256) as u8;
    let low: u8 = (color % 256) as u8;
    let pairs: usize = space / 2;
    let capacity: usize = buffer.len();
    let mut index: usize = 0;
    while index < pairs
        invariant
            pairs == space / 2,
            space % 2 == 0,
            index <= pairs,
            start + space <= buffer@.len(),
            buffer@.len() == old(buffer)@.len(),
            buffer@.len() == capacity,
            high == high_byte(color),
            low == low_byte(color),
            forall|j: int|
                start <= j < start + 2 * index ==> buffer@[j] == if (j - start) % 2 == 0 {
                    high
                } else {
                    low
                },
            forall|j: int|
                0 <= j < buffer@.len() && !(start <= j < start + 2 * index) ==> buffer@[j] == old(
                    buffer,
                )@[j],
        decreases pairs - index,
    {
        buffer[start + 2 * index] = high;
        buffer[start + 2 * index + 1] = low;
        index += 1;
    }
    assert(buffer@ =~= painted(old(buffer)@, start as int, space as int, color));
}

/// `buffer` with a column range and a row range written at `position`: each
/// bound as two bytes, the high one zero.
pub open spec fn framed(buffer: Seq<u8>, position: int, sx: u8, ex: u8, sy: u8, ey: u8) -> Seq<
    u8,
> {
    buffer.update(position, 0).update(position + 1, sx).update(position + 2, 0).update(
        position + 3,
        ex,
    ).update(position + 4, 0).update(position + 5, sy).update(position + 6, 0).update(
        position + 7,
        ey,
    )
}

/// Writes a column range and a row range into `buffer` at `position`.
pub fn write_frame(buffer: &mut Vec<u8>, position: usize, sx: u8, ex: u8, sy: u8, ey: u8)
    requires
        position + 8 <= old(buffer)@.len(),
    ensures
        final(buffer)@ == framed(old(buffer)@, position as int, sx, ex, sy, ey),
{
    let capacity: usize = buffer.len();
    // column range
    buffer[position] = 0;
    buffer[position + 1] = sx;
    buffer[position + 2] = 0;
    buffer[position + 3] = ex;
    // row range
    buffer[position + 4] = 0;
    buffer[position + 5] = sy;
    buffer[position + 6] = 0;
    buffer[position + 7] = ey;
}

} // verus!
