//! The handle on one parsed container: its four buffers, and for each of the
//! two wrapped ones whether it is still as it was read or has been decrypted.

use vstd::prelude::*;
use crate::envelope::{
    key_material,
    metadata_document,
    unwrap_key,
    unwrap_metadata,
    whole_blocks,
};
use crate::error::ParseError;
use crate::json::json_document;
use crate::keystream::{cipher_in_place, ciphered};
use crate::metadata::{agrees, document_record, MetadataView, NCMMetadata};

verus! {

/// The state of a buffer that is read in wrapped form.
#[derive(Debug, Clone, Copy, PartialEq, Eq, Structural)]
pub enum BufferState {
    /// As it was read from the container.
    Raw,
    /// Decrypted, once and for good.
    Decrypted,
}

/// All that was read from one container.
#[derive(Debug, Clone)]
pub struct NCMFile {
    music_state: BufferState,
    metadata_state: BufferState,
    key_segment: Vec<u8>,
    metadata: Vec<u8>,
    image: Vec<u8>,
    music: Vec<u8>,
}

/// The mathematical value of an [`NCMFile`].
pub struct FileView {
    /// The wrapped key of the audio cipher.
    pub key_segment: Seq<u8>,
    /// The metadata: the wrapped segment while raw, the plain document once
    /// decrypted.
    pub metadata: Seq<u8>,
    /// The cover image, which is never ciphered.
    pub image: Seq<u8>,
    /// The audio: ciphered while raw, plain once decrypted.
    pub music: Seq<u8>,
    /// Whether the audio has been deciphered.
    pub music_state: BufferState,
    /// Whether the metadata has been unwrapped.
    pub metadata_state: BufferState,
}

/// The handle as parsing leaves it: both buffers raw.
pub open spec fn fresh(
    key_segment: Seq<u8>,
    metadata: Seq<u8>,
    image: Seq<u8>,
    music: Seq<u8>,
) -> FileView {
    FileView {
        key_segment,
        metadata,
        image,
        music,
        music_state: BufferState::Raw,
        metadata_state: BufferState::Raw,
    }
}

/// What asking for the audio returns: the audio as it stands once it is
/// decrypted; while it is raw, the audio deciphered under the unwrapped key,
/// or the failure to unwrap that key.
pub open spec fn music_result(file: FileView) -> Result<Seq<u8>, ParseError> {
    match file.music_state {
        BufferState::Decrypted => Ok(file.music),
        BufferState::Raw => match key_material(file.key_segment) {
            Some(key) => Ok(ciphered(key, file.music)),
            None => Err(ParseError::DecryptRC4KeyFailed),
        },
    }
}

/// The handle after the audio was asked for: decrypted, with the plain audio
/// in place, where that succeeded; as it was where it failed.
pub open spec fn after_music(file: FileView) -> FileView {
    match music_result(file) {
        Ok(music) => FileView { music, music_state: BufferState::Decrypted, ..file },
        Err(_) => file,
    }
}

/// What asking for the metadata returns: the metadata as it stands once it
/// is decrypted; while it is raw, the unwrapped document, or the failure to
/// unwrap it.
pub open spec fn metadata_result(file: FileView) -> Result<Seq<u8>, ParseError> {
    match file.metadata_state {
        BufferState::Decrypted => Ok(file.metadata),
        BufferState::Raw => match metadata_document(file.metadata) {
            Some(document) => Ok(document),
            None => Err(ParseError::DecryptMetadataFailed),
        },
    }
}

/// The handle after the metadata was asked for: decrypted, with the document
/// in place of the wrapped segment, where that succeeded; as it was where it
/// failed.
pub open spec fn after_metadata(file: FileView) -> FileView {
    match metadata_result(file) {
        Ok(metadata) => FileView { metadata, metadata_state: BufferState::Decrypted, ..file },
        Err(_) => file,
    }
}

/// What asking for the typed record returns: the failure to unwrap the
/// metadata, or what the document describes.
pub open spec fn parsed_result(file: FileView) -> Result<MetadataView, ParseError> {
    match metadata_result(file) {
        Ok(document) => document_record(document),
        Err(e) => Err(e),
    }
}

/// Asking for the audio a second time changes nothing and returns what the
/// first time returned: the same bytes, or the same failure.
pub proof fn lemma_music_idempotent(file: FileView)
    ensures
        after_music(after_music(file)) == after_music(file),
        music_result(after_music(file)) == music_result(file),
{
}

/// Asking for the metadata a second time changes nothing and returns what
/// the first time returned: the same bytes, or the same failure.
pub proof fn lemma_metadata_idempotent(file: FileView)
    ensures
        after_metadata(after_metadata(file)) == after_metadata(file),
        metadata_result(after_metadata(file)) == metadata_result(file),
        parsed_result(after_metadata(file)) == parsed_result(file),
{
}

/// Bytes are handed out as decrypted only: whenever asking succeeds, the
/// buffer is marked decrypted and holds the bytes that were returned; a
/// failure leaves the handle as it was, the buffer still raw.
pub proof fn lemma_success_means_decrypted(file: FileView)
    ensures
        music_result(file) is Ok ==> after_music(file).music_state == BufferState::Decrypted
            && after_music(file).music == music_result(file)->Ok_0,
        music_result(file) is Err ==> after_music(file) == file && file.music_state
            == BufferState::Raw,
        metadata_result(file) is Ok ==> after_metadata(file).metadata_state
            == BufferState::Decrypted && after_metadata(file).metadata == metadata_result(
            file,
        )->Ok_0,
        metadata_result(file) is Err ==> after_metadata(file) == file && file.metadata_state
            == BufferState::Raw,
{
}

/// The audio and the metadata do not touch each other, nor the image: in
/// whichever order they are asked for, the handle ends the same.
pub proof fn lemma_buffers_independent(file: FileView)
    ensures
        after_music(after_metadata(file)) == after_metadata(after_music(file)),
        after_metadata(file).music == file.music,
        after_metadata(file).image == file.image,
        after_music(file).metadata == file.metadata,
        after_music(file).image == file.image,
        music_result(after_metadata(file)) == music_result(file),
        metadata_result(after_music(file)) == metadata_result(file),
{
}

/// A document without a title that is a string gives no record, and asking
/// for the record leaves the audio and the image as they were.
pub proof fn lemma_record_needs_title(file: FileView)
    requires
        metadata_result(file) is Ok,
        json_document(metadata_result(file)->Ok_0) is Some,
        json_document(metadata_result(file)->Ok_0)->Some_0.member("musicName"@).as_text()
            is None,
    ensures
        parsed_result(file) == Err::<MetadataView, ParseError>(
            ParseError::ParseMetadataFailed("Failed parsing [musicName]."),
        ),
        after_metadata(file).music == file.music,
        after_metadata(file).image == file.image,
{
}

impl View for NCMFile {
    type V = FileView;

    closed spec fn view(&self) -> FileView {
        FileView {
            key_segment: self.key_segment@,
            metadata: self.metadata@,
            image: self.image@,
            music: self.music@,
            music_state: self.music_state,
            metadata_state: self.metadata_state,
        }
    }
}

impl NCMFile {
    /// A handle on the four buffers of a container, both wrapped ones raw.
    pub(crate) fn from_segments(
        key_segment: Vec<u8>,
        metadata: Vec<u8>,
        image: Vec<u8>,
        music: Vec<u8>,
    ) -> (file: NCMFile)
        ensures
            file@ == fresh(key_segment@, metadata@, image@, music@),
    {
        NCMFile {
            music_state: BufferState::Raw,
            metadata_state: BufferState::Raw,
            key_segment,
            metadata,
            image,
            music,
        }
    }

    /// The plain audio. The first call that can unwrap the key deciphers the
    /// audio in place; later calls return it as it stands. A call that cannot
    /// unwrap the key fails and changes nothing, as it does when the key
    /// segment is no whole number of blocks.
    pub fn get_music(&mut self) -> (r: Result<&Vec<u8>, ParseError>)
        ensures
            final(self)@ == after_music(old(self)@),
            match r {
                Ok(music) => music_result(old(self)@) == Ok::<Seq<u8>, ParseError>(music@),
                Err(e) => music_result(old(self)@) == Err::<Seq<u8>, ParseError>(e),
            },
            old(self)@.music_state == BufferState::Raw && !whole_blocks(old(self)@.key_segment)
                ==> r is Err,
    {
        match self.music_state {
            BufferState::Decrypted => {
                return Ok(&self.music);
            },
            BufferState::Raw => {},
        }
        let key = match unwrap_key(self.key_segment.as_slice()) {
            Ok(key) => key,
            Err(e) => {
                return Err(e);
            },
        };
        cipher_in_place(key.as_slice(), &mut self.music);
        self.music_state = BufferState::Decrypted;
        Ok(&self.music)
    }

    /// The cover image.
    pub fn get_image(&self) -> (r: Result<&Vec<u8>, core::convert::Infallible>)
        ensures
            r is Ok,
            r->Ok_0@ == self@.image,
    {
        Ok(&self.image)
    }

    /// The plain metadata document. The first call that can unwrap the
    /// metadata puts the document in place of the wrapped segment; later calls
    /// return it as it stands. A call that cannot unwrap it fails and changes
    /// nothing.
    pub fn get_metadata(&mut self) -> (r: Result<&Vec<u8>, ParseError>)
        ensures
            final(self)@ == after_metadata(old(self)@),
            match r {
                Ok(document) => metadata_result(old(self)@) == Ok::<Seq<u8>, ParseError>(
                    document@,
                ),
                Err(e) => metadata_result(old(self)@) == Err::<Seq<u8>, ParseError>(e),
            },
    {
        match self.metadata_state {
            BufferState::Decrypted => {
                return Ok(&self.metadata);
            },
            BufferState::Raw => {},
        }
        let document = match unwrap_metadata(self.metadata.as_slice()) {
            Ok(document) => document,
            Err(e) => {
                return Err(e);
            },
        };
        self.metadata = document;
        self.metadata_state = BufferState::Decrypted;
        Ok(&self.metadata)
    }

    /// The cover image.
    pub fn get_image_unchecked(&self) -> (r: &Vec<u8>)
        ensures
            r@ == self@.image,
    {
        &self.image
    }

    /// The audio as it stands: ciphered until `get_music` has deciphered it.
    pub fn get_music_unchecked(&self) -> (r: &Vec<u8>)
        ensures
            r@ == self@.music,
    {
        &self.music
    }

    /// The metadata as it stands: wrapped until `get_metadata` has unwrapped
    /// it.
    pub fn get_metadata_unchecked(&self) -> (r: &Vec<u8>)
        ensures
            r@ == self@.metadata,
    {
        &self.metadata
    }

    /// The typed record that the metadata document describes. Unwraps the
    /// metadata as `get_metadata` does.
    pub fn get_parsed_metadata(&mut self) -> (r: Result<NCMMetadata, ParseError>)
        ensures
            final(self)@ == after_metadata(old(self)@),
            agrees(r, parsed_result(old(self)@)),
    {
        match self.get_metadata() {
            Ok(document) => NCMMetadata::new(document.as_slice()),
            Err(e) => Err(e),
        }
    }
}

} // verus!
