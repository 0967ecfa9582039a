//! The layout of a container: a header of ten bytes, the key segment, the
//! metadata segment, nine reserved bytes, the image segment, and the audio.

use vstd::prelude::*;
use crate::error::ParseError;
use crate::file::{after_metadata, after_music, fresh, FileView, NCMFile};
use crate::segment::{lemma_segment_of_prefix, read_segment_iter, read_segment_reader, segment};
use crate::source::{ByteIter, ByteReader};

verus! {

/// The eight bytes that every container starts with: `CTENFDAM`.
pub open spec fn magic() -> Seq<u8> {
    seq![0x43, 0x54, 0x45, 0x4e, 0x46, 0x44, 0x41, 0x4d]
}

/// The length of the header: the magic and two bytes that are not looked at.
pub const HEADER_LEN: usize = 10;

/// The number of reserved bytes between the metadata and the image.
pub const GAP_LEN: usize = 9;

/// The salt of the key segment.
pub const KEY_SALT: u8 = 0x64;

/// The salt of the metadata segment.
pub const METADATA_SALT: u8 = 0x63;

/// The salt of the image segment, which changes nothing.
pub const IMAGE_SALT: u8 = 0;

/// The handle that the bytes after the header describe: the key segment,
/// the metadata segment, the reserved bytes, the image segment, and the
/// audio, which is all that is left.
pub open spec fn body(input: Seq<u8>) -> Result<FileView, ParseError> {
    match segment(input, KEY_SALT) {
        None => Err(ParseError::EndOfFile),
        Some((key_segment, after_key)) => match segment(after_key, METADATA_SALT) {
            None => Err(ParseError::EndOfFile),
            Some((metadata, after_metadata)) => if after_metadata.len() < GAP_LEN {
                Err(ParseError::EndOfFile)
            } else {
                match segment(after_metadata.skip(GAP_LEN as int), IMAGE_SALT) {
                    None => Err(ParseError::EndOfFile),
                    Some((image, music)) => Ok(fresh(key_segment, metadata, image, music)),
                }
            },
        },
    }
}

/// The handle that a container's bytes describe. An input of fewer than ten
/// bytes ends too early; one with other bytes than the magic in front is no
/// container; after that, whatever is cut short ends too early.
pub open spec fn container(input: Seq<u8>) -> Result<FileView, ParseError> {
    if input.len() < HEADER_LEN {
        Err(ParseError::EndOfFile)
    } else if input.take(8) != magic() {
        Err(ParseError::InvalidHeader)
    } else {
        body(input.skip(HEADER_LEN as int))
    }
}

/// Whether the outcome of parsing is the one that `input` calls for.
pub open spec fn parsed(outcome: Result<NCMFile, ParseError>, input: Seq<u8>) -> bool {
    match outcome {
        Ok(file) => container(input) == Ok::<FileView, ParseError>(file@),
        Err(e) => container(input) == Err::<FileView, ParseError>(e),
    }
}

/// Ten bytes or more that do not start with the magic are no container,
/// whatever follows them.
pub proof fn lemma_invalid_header(input: Seq<u8>)
    requires
        input.len() >= HEADER_LEN,
        input.take(8) != magic(),
    ensures
        container(input) == Err::<FileView, ParseError>(ParseError::InvalidHeader),
{
}

/// What follows the header, cut anywhere before the audio begins, ends too
/// early.
pub proof fn lemma_body_cut_short(input: Seq<u8>, len: int)
    requires
        body(input) is Ok,
        0 <= len < input.len() - body(input)->Ok_0.music.len(),
    ensures
        body(input.take(len)) == Err::<FileView, ParseError>(ParseError::EndOfFile),
{
    let after_key = segment(input, KEY_SALT)->Some_0.1;
    let after_metadata = segment(after_key, METADATA_SALT)->Some_0.1;
    let used_key = input.len() - after_key.len();
    let used_metadata = after_key.len() - after_metadata.len();
    lemma_segment_of_prefix(input, KEY_SALT, len);
    if len >= used_key {
        lemma_segment_of_prefix(after_key, METADATA_SALT, len - used_key);
        if len - used_key >= used_metadata + GAP_LEN {
            lemma_segment_of_prefix(
                after_metadata.skip(GAP_LEN as int),
                IMAGE_SALT,
                len - used_key - used_metadata - GAP_LEN,
            );
        }
    }
}

/// A container cut anywhere before its audio begins (in the header, in a
/// segment's length, in a segment's data, or in the reserved bytes) ends too
/// early.
pub proof fn lemma_cut_short(input: Seq<u8>, len: int)
    requires
        container(input) is Ok,
        0 <= len < input.len() - container(input)->Ok_0.music.len(),
    ensures
        container(input.take(len)) == Err::<FileView, ParseError>(ParseError::EndOfFile),
{
    if len >= HEADER_LEN {
        assert(input.take(len).take(8) =~= input.take(8));
        lemma_body_cut_short(input.skip(HEADER_LEN as int), len - HEADER_LEN);
    }
}

/// Parsing is a function of the bytes. Two outcomes of parsing the same
/// bytes, from whichever shape of source, are the same failure, or handles
/// that hold the same buffers and still do once the audio and the metadata
/// have been asked for.
pub proof fn lemma_parsed_alike(
    input: Seq<u8>,
    first: Result<NCMFile, ParseError>,
    second: Result<NCMFile, ParseError>,
)
    requires
        parsed(first, input),
        parsed(second, input),
    ensures
        first is Ok <==> second is Ok,
        first is Err ==> first->Err_0 == second->Err_0,
        first is Ok ==> first->Ok_0@ == second->Ok_0@,
        first is Ok ==> after_metadata(after_music(first->Ok_0@)) == after_metadata(
            after_music(second->Ok_0@),
        ),
{
}

/// Whether the first eight of ten header bytes are the magic.
pub fn is_magic(header: &[u8]) -> (r: bool)
    requires
        header@.len() >= 8,
    ensures
        r == (header@.take(8) == magic()),
{
    let r = header[0] == 0x43 && header[1] == 0x54 && header[2] == 0x45 && header[3] == 0x4e
        && header[4] == 0x46 && header[5] == 0x44 && header[6] == 0x41 && header[7] == 0x4d;
    proof {
        if r {
            assert(header@.take(8) =~= magic());
        } else {
        }
    }
    r
}

/// Parses a container from a forward sequence of bytes.
#[verifier::loop_isolation(false)]
pub fn from_iter(iter: ByteIter) -> (r: Result<NCMFile, ParseError>)
    ensures
        parsed(r, iter.remaining()),
{
    let mut cursor = iter;
    let ghost input = iter.remaining();
    let mut header: Vec<u8> = Vec::new();
    while header.len() < HEADER_LEN
        invariant
            header@.len() <= HEADER_LEN,
            header@.len() <= input.len(),
            header@ == input.take(header@.len() as int),
            cursor.remaining() == input.skip(header@.len() as int),
        decreases HEADER_LEN - header@.len(),
    {
        match cursor.next() {
            Some(byte) => {
                let ghost before = header@.len() as int;
                header.push(byte);
                proof {
                    assert(header@ =~= input.take(before + 1));
                    assert(cursor.remaining() =~= input.skip(before + 1));
                }
            },
            None => {
                return Err(ParseError::EndOfFile);
            },
        }
    }
    proof {
        assert(header@.take(8) =~= input.take(8));
    }
    if !is_magic(header.as_slice()) {
        return Err(ParseError::InvalidHeader);
    }
    let key_segment = match read_segment_iter(&mut cursor, KEY_SALT) {
        Some(data) => data,
        None => {
            return Err(ParseError::EndOfFile);
        },
    };
    let metadata = match read_segment_iter(&mut cursor, METADATA_SALT) {
        Some(data) => data,
        None => {
            return Err(ParseError::EndOfFile);
        },
    };
    let ghost after_metadata = cursor.remaining();
    let mut skipped: usize = 0;
    while skipped < GAP_LEN
        invariant
            skipped <= GAP_LEN,
            skipped <= after_metadata.len(),
            cursor.remaining() == after_metadata.skip(skipped as int),
        decreases GAP_LEN - skipped,
    {
        match cursor.next() {
            Some(_) => {
                proof {
                    assert(after_metadata.skip(skipped as int).skip(1) =~= after_metadata.skip(
                        skipped + 1,
                    ));
                }
            },
            None => {
                return Err(ParseError::EndOfFile);
            },
        }
        skipped = skipped + 1;
    }
    let image = match read_segment_iter(&mut cursor, IMAGE_SALT) {
        Some(data) => data,
        None => {
            return Err(ParseError::EndOfFile);
        },
    };
    let mut music: Vec<u8> = Vec::new();
    let ghost audio = cursor.remaining();
    let mut more = true;
    while more
        invariant
            music@.len() <= audio.len(),
            music@ == audio.take(music@.len() as int),
            cursor.remaining() == audio.skip(music@.len() as int),
            !more ==> music@.len() == audio.len(),
        decreases audio.len() - music@.len() + (if more { 1int } else { 0int }),
    {
        match cursor.next() {
            Some(byte) => {
                let ghost before = music@.len() as int;
                music.push(byte);
                proof {
                    assert(music@ =~= audio.take(before + 1));
                    assert(cursor.remaining() =~= audio.skip(before + 1));
                }
            },
            None => {
                more = false;
            },
        }
    }
    proof {
        assert(music@ =~= audio);
    }
    Ok(NCMFile::from_segments(key_segment, metadata, image, music))
}

/// Parses a container from a stream of bytes.
pub fn from_reader(reader: ByteReader) -> (r: Result<NCMFile, ParseError>)
    ensures
        parsed(r, reader.remaining()),
{
    let mut reader = reader;
    let ghost input = reader.remaining();
    let header = match reader.read_exact(HEADER_LEN) {
        Some(header) => header,
        None => {
            return Err(ParseError::EndOfFile);
        },
    };
    proof {
        assert(header@.take(8) =~= input.take(8));
    }
    if !is_magic(header.as_slice()) {
        return Err(ParseError::InvalidHeader);
    }
    let key_segment = match read_segment_reader(&mut reader, KEY_SALT) {
        Some(data) => data,
        None => {
            return Err(ParseError::EndOfFile);
        },
    };
    let metadata = match read_segment_reader(&mut reader, METADATA_SALT) {
        Some(data) => data,
        None => {
            return Err(ParseError::EndOfFile);
        },
    };
    match reader.read_exact(GAP_LEN) {
        Some(_) => {},
        None => {
            return Err(ParseError::EndOfFile);
        },
    }
    let image = match read_segment_reader(&mut reader, IMAGE_SALT) {
        Some(data) => data,
        None => {
            return Err(ParseError::EndOfFile);
        },
    };
    let music = reader.read_to_end();
    Ok(NCMFile::from_segments(key_segment, metadata, image, music))
}

} // verus!
