//! Segments: a length of four bytes, least significant first, then that many
//! bytes, each XORed with a salt of one byte.

use vstd::prelude::*;
use crate::source::{ByteIter, ByteReader};

verus! {

/// The number that four bytes write, least significant first.
pub open spec fn le_u32(bytes: Seq<u8>) -> nat {
    (bytes[0] as nat) + (bytes[1] as nat) * 0x100 + (bytes[2] as nat) * 0x1_0000 + (
    bytes[3] as nat) * 0x100_0000
}

/// `data` with each byte XORed with `salt`.
pub open spec fn salted(data: Seq<u8>, salt: u8) -> Seq<u8> {
    Seq::new(data.len(), |i: int| data[i] ^ salt)
}

/// The segment at the start of `input`: its unsalted data, and what follows
/// it. `None` where `input` ends before the length or the data is complete.
pub open spec fn segment(input: Seq<u8>, salt: u8) -> Option<(Seq<u8>, Seq<u8>)> {
    if input.len() < 4 {
        None
    } else {
        let len = le_u32(input.take(4)) as int;
        if input.len() - 4 < len {
            None
        } else {
            Some((salted(input.subrange(4, 4 + len), salt), input.skip(4 + len)))
        }
    }
}

/// A segment is read from the front: cut short before its end, the input
/// holds no segment; cut at its end or later, it holds the same segment, and
/// what follows is cut by as much.
pub proof fn lemma_segment_of_prefix(input: Seq<u8>, salt: u8, len: int)
    requires
        segment(input, salt) is Some,
        0 <= len <= input.len(),
    ensures
        ({
            let (data, rest) = segment(input, salt)->Some_0;
            let used = input.len() - rest.len();
            &&& 4 <= used <= input.len()
            &&& len < used ==> segment(input.take(len), salt) is None
            &&& len >= used ==> segment(input.take(len), salt) == Some(
                (data, rest.take(len - used)),
            )
        }),
{
    let size = le_u32(input.take(4)) as int;
    let rest = segment(input, salt)->Some_0.1;
    let cut = input.take(len);
    if len >= 4 {
        assert(cut.take(4) =~= input.take(4));
        if len >= 4 + size {
            assert(cut.subrange(4, 4 + size) =~= input.subrange(4, 4 + size));
            assert(cut.skip(4 + size) =~= rest.take(len - (4 + size)));
        }
    }
}

/// The number that four bytes write, least significant first.
pub fn length_of(b0: u8, b1: u8, b2: u8, b3: u8) -> (len: u32)
    ensures
        len == le_u32(seq![b0, b1, b2, b3]),
{
    let low: u32 = b0 as u32 + (b1 as u32) * 0x100;
    let high: u32 = b2 as u32 + (b3 as u32) * 0x100;
    low + high * 0x1_0000
}

/// Reads one segment from a forward sequence, byte by byte. On `None` the
/// sequence is at its end.
pub fn read_segment_iter(iter: &mut ByteIter, salt: u8) -> (r: Option<Vec<u8>>)
    ensures
        match r {
            Some(data) => segment(old(iter).remaining(), salt) == Some(
                (data@, final(iter).remaining()),
            ),
            None => {
                &&& segment(old(iter).remaining(), salt) is None
                &&& final(iter).remaining().len() == 0
            },
        },
{
    let ghost input = iter.remaining();
    let b0 = match iter.next() {
        Some(b) => b,
        None => {
            return None;
        },
    };
    let b1 = match iter.next() {
        Some(b) => b,
        None => {
            return None;
        },
    };
    let b2 = match iter.next() {
        Some(b) => b,
        None => {
            return None;
        },
    };
    let b3 = match iter.next() {
        Some(b) => b,
        None => {
            return None;
        },
    };
    let len = length_of(b0, b1, b2, b3) as usize;
    let mut data: Vec<u8> = Vec::new();
    let mut n: usize = 0;
    while n < len
        invariant
            n <= len,
            input == old(iter).remaining(),
            input.len() >= 4 + n,
            len == le_u32(input.take(4)),
            iter.remaining() == input.skip(4 + n),
            data@.len() == n,
            forall|k: int| 0 <= k < n ==> #[trigger] data@[k] == input[4 + k] ^ salt,
        decreases len - n,
    {
        match iter.next() {
            Some(byte) => {
                data.push(byte ^ salt);
            },
            None => {
                return None;
            },
        }
        n = n + 1;
    }
    Some(data)
}

/// Reads one segment from a stream, in two runs. On `None` the stream is at
/// its end.
pub fn read_segment_reader(reader: &mut ByteReader, salt: u8) -> (r: Option<Vec<u8>>)
    ensures
        match r {
            Some(data) => segment(old(reader).remaining(), salt) == Some(
                (data@, final(reader).remaining()),
            ),
            None => {
                &&& segment(old(reader).remaining(), salt) is None
                &&& final(reader).remaining().len() == 0
            },
        },
{
    let ghost input = reader.remaining();
    let prefix = match reader.read_exact(4) {
        Some(prefix) => prefix,
        None => {
            return None;
        },
    };
    let len = length_of(prefix[0], prefix[1], prefix[2], prefix[3]) as usize;
    let mut data = match reader.read_exact(len) {
        Some(data) => data,
        None => {
            return None;
        },
    };
    let ghost raw = data@;
    let mut n: usize = 0;
    while n < len
        invariant
            n <= len,
            data@.len() == len,
            raw.len() == len,
            forall|k: int| 0 <= k < n ==> #[trigger] data@[k] == raw[k] ^ salt,
            forall|k: int| n <= k < len ==> #[trigger] data@[k] == raw[k],
        decreases len - n,
    {
        let byte = data[n] ^ salt;
        data.set(n, byte);
        n = n + 1;
    }
    Some(data)
}

} // verus!
