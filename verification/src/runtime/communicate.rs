//! Frames on the wire: four bytes that announce a length, highest first, and as
//! many bytes.

use crate::error::Error;
use vstd::prelude::*;

verus! {

/// How many bytes announce a frame's length.
pub const LENGTH_PREFIX_BYTE_COUNT: usize = 4;

/// The number that four bytes announce, highest first.
pub open spec fn announced(prefix: Seq<u8>) -> int {
    prefix[0] * 16777216 + prefix[1] * 65536 + prefix[2] * 256 + prefix[3]
}

/// The four bytes that announce `length`.
pub open spec fn prefix_of(length: nat) -> Seq<u8> {
    seq![
        (length / 16777216) as u8,
        ((length / 65536) % 256) as u8,
        ((length / 256) % 256) as u8,
        (length % 256) as u8,
    ]
}

/// A frame as it stands on the wire.
pub open spec fn framed(frame: Seq<u8>) -> Seq<u8> {
    prefix_of(frame.len()) + frame
}

/// The bytes that announce `length`; a frame that is too long for them is refused.
pub fn length_prefix(length: usize) -> (r: Result<Vec<u8>, Error>)
    ensures
        match r {
            Ok(prefix) => length <= u32::MAX && prefix@ == prefix_of(length as nat),
            Err(error) => length > u32::MAX && error == (Error::FrameTooLarge { found: length }),
        },
{
    if length as u64 > 4294967295u64 {
        return Err(Error::FrameTooLarge { found: length });
    }
    let size: u32 = length as u32;
    let mut prefix: Vec<u8> = Vec::new();
    prefix.push((size / 16777216) as u8);
    prefix.push(((size / 65536) % 256) as u8);
    prefix.push(((size / 256) % 256) as u8);
    prefix.push((size % 256) as u8);
    assert(prefix@ =~= prefix_of(length as nat));
    Ok(prefix)
}

/// The length that four bytes announce.
pub fn announced_length(prefix: &[u8]) -> (r: u32)
    requires
        prefix@.len() == 4,
    ensures
        r == announced(prefix@),
{
    (prefix[0] as u32) * 16777216 + (prefix[1] as u32) * 65536 + (prefix[2] as u32) * 256 + (
    prefix[3] as u32)
}

/// A frame as it is written to the wire.
pub fn encode_frame(frame: &Vec<u8>) -> (r: Result<Vec<u8>, Error>)
    ensures
        match r {
            Ok(bytes) => frame@.len() <= u32::MAX && bytes@ == framed(frame@),
            Err(error) => frame@.len() > u32::MAX && error == (Error::FrameTooLarge {
                found: frame@.len() as usize,
            }),
        },
{
    let size: usize = frame.len();
    match length_prefix(size) {
        Ok(prefix) => {
            let mut bytes = prefix;
            let mut i: usize = 0;
            while i < size
                invariant
                    i <= size,
                    size == frame@.len(),
                    bytes@ =~= prefix_of(frame@.len()) + frame@.take(i as int),
                decreases size - i,
            {
                bytes.push(frame[i]);
                i = i + 1;
            }
            assert(frame@.take(i as int) =~= frame@);
            Ok(bytes)
        },
        Err(error) => Err(error),
    }
}

/// Whether `bytes` begin with a whole frame.
pub open spec fn holds_frame(bytes: Seq<u8>) -> bool {
    bytes.len() >= 4 && bytes.len() - 4 >= announced(bytes.take(4))
}

/// The frame that `bytes` begin with.
pub fn decode_frame(bytes: &Vec<u8>) -> (r: Result<Vec<u8>, Error>)
    ensures
        match r {
            Ok(frame) => holds_frame(bytes@) && frame@ == bytes@.subrange(
                4,
                4 + announced(bytes@.take(4)),
            ),
            Err(error) => !holds_frame(bytes@) && error == Error::FrameTruncated,
        },
{
    let size: usize = bytes.len();
    if size < 4 {
        return Err(Error::FrameTruncated);
    }
    let mut prefix: Vec<u8> = Vec::new();
    prefix.push(bytes[0]);
    prefix.push(bytes[1]);
    prefix.push(bytes[2]);
    prefix.push(bytes[3]);
    assert(prefix@ =~= bytes@.take(4));
    let length = announced_length(prefix.as_slice());
    if ((size - 4) as u64) < length as u64 {
        return Err(Error::FrameTruncated);
    }
    let end: usize = 4 + length as usize;
    let mut frame: Vec<u8> = Vec::new();
    let mut i: usize = 4;
    while i < end
        invariant
            4 <= i <= end <= size,
            size == bytes@.len(),
            frame@ =~= bytes@.subrange(4, i as int),
        decreases end - i,
    {
        frame.push(bytes[i]);
        i = i + 1;
    }
    Ok(frame)
}

/// A client of the daemon's socket.
#[derive(Debug, PartialEq, Eq)]
pub struct UnixSocketCommunicate {
    pub socket_path: String,
}

impl UnixSocketCommunicate {
    /// A client of the socket at `socket_path`.
    pub fn new(socket_path: String) -> (r: Self)
        ensures
            r.socket_path == socket_path,
    {
        UnixSocketCommunicate { socket_path }
    }

    /// Where the socket is.
    pub fn socket_path(&self) -> (r: &str)
        ensures
            r@ == self.socket_path@,
    {
        self.socket_path.as_str()
    }
}

/// A length reads back from the bytes that announce it.
pub proof fn law_lengths_read_back(length: nat)
    requires
        length <= u32::MAX,
    ensures
        announced(prefix_of(length)) == length,
        prefix_of(length).len() == 4,
{
}

/// A frame reads back from the wire as it was written, whatever follows it.
pub proof fn law_frames_read_back(frame: Seq<u8>, rest: Seq<u8>)
    requires
        frame.len() <= u32::MAX,
    ensures
        holds_frame(framed(frame) + rest),
        (framed(frame) + rest).subrange(
            4,
            4 + announced((framed(frame) + rest).take(4)),
        ) == frame,
{
    law_lengths_read_back(frame.len());
    let bytes = framed(frame) + rest;
    assert(bytes.take(4) =~= prefix_of(frame.len()));
    assert(bytes.subrange(4, 4 + frame.len() as int) =~= frame);
}

} // verus!
