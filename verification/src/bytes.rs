//! Byte strings: little-endian integers, zero padding and overwriting.

use vstd::prelude::*;

verus! {

/// The `width` low bytes of `value`, least significant first.
pub open spec fn le_bytes(value: nat, width: nat) -> Seq<u8>
    decreases width,
{
    if width == 0 {
        Seq::empty()
    } else {
        seq![(value % 256) as u8] + le_bytes(value / 256, (width - 1) as nat)
    }
}

/// `len` zero bytes.
pub open spec fn zeros(len: nat) -> Seq<u8> {
    Seq::new(len, |i: int| 0u8)
}

/// `buffer` with `bytes` written at `offset`: the buffer grows, filled with
/// zeros, as far as the write reaches, and keeps what the write does not touch.
pub open spec fn write_at(buffer: Seq<u8>, offset: nat, bytes: Seq<u8>) -> Seq<u8> {
    let end = offset + bytes.len();
    let len = if buffer.len() >= end { buffer.len() } else { end };
    Seq::new(
        len,
        |i: int|
            if offset <= i < end {
                bytes[i - offset]
            } else if i < buffer.len() {
                buffer[i]
            } else {
                0u8
            },
    )
}

/// `data` cut or padded with zeros to `len` bytes.
pub open spec fn padded(data: Seq<u8>, len: nat) -> Seq<u8> {
    Seq::new(len, |i: int| if i < data.len() { data[i] } else { 0u8 })
}

pub proof fn lemma_le_bytes_len(value: nat, width: nat)
    ensures
        le_bytes(value, width).len() == width,
    decreases width,
{
    if width > 0 {
        lemma_le_bytes_len(value / 256, (width - 1) as nat);
    }
}

/// Appends the `width` low bytes of `value` to `out`, least significant first.
pub fn push_le_bytes(out: &mut Vec<u8>, value: u64, width: usize)
    ensures
        final(out)@ == old(out)@ + le_bytes(value as nat, width as nat),
{
    let ghost start = out@;
    let mut rest: u64 = value;
    let mut done: usize = 0;
    assert(le_bytes(value as nat, 0) == Seq::<u8>::empty());
    while done < width
        invariant
            done <= width,
            out@ + le_bytes(rest as nat, (width - done) as nat) == start + le_bytes(
                value as nat,
                width as nat,
            ),
        decreases width - done,
    {
        let ghost before = out@;
        out.push((rest % 256) as u8);
        assert(before + le_bytes(rest as nat, (width - done) as nat) == out@ + le_bytes(
            (rest / 256) as nat,
            (width - done - 1) as nat,
        ));
        rest = rest / 256;
        done = done + 1;
    }
    assert(le_bytes(rest as nat, 0) == Seq::<u8>::empty());
}

/// A copy of `bytes`.
pub fn copy_of(bytes: &[u8]) -> (out: Vec<u8>)
    ensures
        out@ == bytes@,
{
    let mut out: Vec<u8> = Vec::new();
    let mut i: usize = 0;
    while i < bytes.len()
        invariant
            i <= bytes.len(),
            out@ == bytes@.take(i as int),
        decreases bytes.len() - i,
    {
        out.push(bytes[i]);
        i = i + 1;
    }
    out
}

/// `data` cut or padded with zeros to `len` bytes.
pub fn pad_to(data: &[u8], len: usize) -> (out: Vec<u8>)
    ensures
        out@ == padded(data@, len as nat),
{
    let mut out: Vec<u8> = Vec::new();
    let mut i: usize = 0;
    while i < len
        invariant
            i <= len,
            out@ == padded(data@, i as nat),
        decreases len - i,
    {
        let byte: u8 = if i < data.len() { data[i] } else { 0 };
        out.push(byte);
        i = i + 1;
    }
    out
}

/// Writes `bytes` into `buffer` at `offset`, growing the buffer with zeros as
/// far as the write reaches.
pub fn write_into(buffer: &mut Vec<u8>, offset: usize, bytes: &[u8])
    requires
        offset + bytes.len() <= usize::MAX,
    ensures
        final(buffer)@ == write_at(old(buffer)@, offset as nat, bytes@),
{
    let end: usize = offset + bytes.len();
    while buffer.len() < end
        invariant
            old(buffer)@.len() <= buffer@.len(),
            buffer@.len() <= end || buffer@.len() == old(buffer)@.len(),
            buffer@ == old(buffer)@ + zeros((buffer@.len() - old(buffer)@.len()) as nat),
        decreases end - buffer.len(),
    {
        buffer.push(0);
    }
    let ghost grown = buffer@;
    let mut i: usize = 0;
    while i < bytes.len()
        invariant
            i <= bytes.len(),
            end == offset + bytes.len(),
            buffer@.len() == grown.len(),
            grown.len() >= end,
            forall|j: int| 0 <= j < buffer@.len() ==> buffer@[j] == (if offset <= j < offset + i {
                bytes@[j - offset]
            } else {
                grown[j]
            }),
        decreases bytes.len() - i,
    {
        buffer.set(offset + i, bytes[i]);
        i = i + 1;
    }
}

} // verus!
