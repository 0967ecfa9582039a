//! The typed record that a container's metadata document describes.

use vstd::prelude::*;
use vstd::string::*;
use crate::decimal::{decimal_text, decimal_u64, parse_u64, u64_text};
use crate::error::ParseError;
use crate::json::{json_document, JsonNumber, JsonNumberView, JsonValue, JsonView};

verus! {

/// The description of one track.
#[derive(Debug, Clone)]
pub struct NCMMetadata {
    /// Kept as text: an id may be too large for a number, or no number.
    pub music_id: String,
    pub music_name: String,
    /// Each artist's name and id.
    pub artists: Vec<(String, u64)>,
    pub album_id: u64,
    pub album_name: String,
    pub album_pic_doc_id: u64,
    pub album_pic_url: String,
    pub bitrate: u64,
    pub mp3_doc_id: Option<String>,
    pub duration: u64,
    /// 0 where the document names none.
    pub mv_id: u64,
    pub alias: Vec<String>,
    pub trans_names: Vec<String>,
    /// The audio's file extension.
    pub format: String,
    pub fee: Option<u64>,
    pub flag: Option<u64>,
}

/// The mathematical value of an [`NCMMetadata`].
pub struct MetadataView {
    pub music_id: Seq<char>,
    pub music_name: Seq<char>,
    pub artists: Seq<(Seq<char>, u64)>,
    pub album_id: u64,
    pub album_name: Seq<char>,
    pub album_pic_doc_id: u64,
    pub album_pic_url: Seq<char>,
    pub bitrate: u64,
    pub mp3_doc_id: Option<Seq<char>>,
    pub duration: u64,
    pub mv_id: u64,
    pub alias: Seq<Seq<char>>,
    pub trans_names: Seq<Seq<char>>,
    pub format: Seq<char>,
    pub fee: Option<u64>,
    pub flag: Option<u64>,
}

/// The characters of each string of a list.
pub open spec fn text_views(texts: Seq<String>) -> Seq<Seq<char>> {
    Seq::new(texts.len(), |i: int| texts[i]@)
}

/// Each artist with the name as its characters.
pub open spec fn artist_views(artists: Seq<(String, u64)>) -> Seq<(Seq<char>, u64)> {
    Seq::new(artists.len(), |i: int| (artists[i].0@, artists[i].1))
}

/// The characters of a string that may be missing.
pub open spec fn optional_text_view(text: Option<String>) -> Option<Seq<char>> {
    match text {
        Some(s) => Some(s@),
        None => None,
    }
}

impl View for NCMMetadata {
    type V = MetadataView;

    open spec fn view(&self) -> MetadataView {
        MetadataView {
            music_id: self.music_id@,
            music_name: self.music_name@,
            artists: artist_views(self.artists@),
            album_id: self.album_id,
            album_name: self.album_name@,
            album_pic_doc_id: self.album_pic_doc_id,
            album_pic_url: self.album_pic_url@,
            bitrate: self.bitrate,
            mp3_doc_id: optional_text_view(self.mp3_doc_id),
            duration: self.duration,
            mv_id: self.mv_id,
            alias: text_views(self.alias@),
            trans_names: text_views(self.trans_names@),
            format: self.format@,
            fee: self.fee,
            flag: self.flag,
        }
    }
}

/// An id that a document writes as a number or as decimal text.
pub open spec fn id_of(value: JsonView) -> Option<u64> {
    match value.as_u64() {
        Some(n) => Some(n),
        None => match value.as_text() {
            Some(text) => decimal_u64(text),
            None => None,
        },
    }
}

/// A track id as text: a string as it stands, a number as JSON writes it.
/// Anything else is no track id.
pub open spec fn track_id_of(value: JsonView) -> Option<Seq<char>> {
    match value {
        JsonView::Text(text) => Some(text),
        JsonView::Number(JsonNumberView::Unsigned(n)) => Some(decimal_text(n as nat)),
        JsonView::Number(JsonNumberView::Other(text)) => Some(text),
        _ => None,
    }
}

/// One artist: an array of at least two items, a name and an id.
pub open spec fn artist_of(value: JsonView) -> Option<(Seq<char>, u64)> {
    match value.as_list() {
        Some(items) => if items.len() >= 2 && items[0].as_text() is Some && id_of(items[1])
            is Some {
            Some((items[0].as_text()->Some_0, id_of(items[1])->Some_0))
        } else {
            None
        },
        None => None,
    }
}

/// The artists of an array in which every item is an artist.
pub open spec fn artists_of(value: JsonView) -> Option<Seq<(Seq<char>, u64)>> {
    match value.as_list() {
        Some(items) => if forall|i: int| 0 <= i < items.len() ==> artist_of(#[trigger] items[i]) is Some {
            Some(Seq::new(items.len(), |i: int| artist_of(items[i])->Some_0))
        } else {
            None
        },
        None => None,
    }
}

/// The strings of an array in which every item is a string.
pub open spec fn texts_of(value: JsonView) -> Option<Seq<Seq<char>>> {
    match value.as_list() {
        Some(items) => if forall|i: int| 0 <= i < items.len() ==> (#[trigger] items[i]).as_text() is Some {
            Some(Seq::new(items.len(), |i: int| items[i].as_text()->Some_0))
        } else {
            None
        },
        None => None,
    }
}

/// The flag of a document: its own member `flag`, or else that of its member
/// `privilege`.
pub open spec fn flag_of(doc: JsonView) -> Option<u64> {
    match doc.member("flag"@).as_u64() {
        Some(n) => Some(n),
        None => doc.member("privilege"@).member("flag"@).as_u64(),
    }
}

/// The record that a document describes, or the failure that names the first
/// field, in the order below, that is missing or of the wrong shape.
pub open spec fn record_of(doc: JsonView) -> Result<MetadataView, ParseError> {
    if doc.member("musicName"@).as_text() is None {
        Err(ParseError::ParseMetadataFailed("Failed parsing [musicName]."))
    } else if track_id_of(doc.member("musicId"@)) is None {
        Err(ParseError::ParseMetadataFailed("Failed parsing [musicId]."))
    } else if artists_of(doc.member("artist"@)) is None {
        Err(ParseError::ParseMetadataFailed("Failed parsing [artist]."))
    } else if id_of(doc.member("albumId"@)) is None {
        Err(ParseError::ParseMetadataFailed("Failed parsing [albumId]."))
    } else if doc.member("album"@).as_text() is None {
        Err(ParseError::ParseMetadataFailed("Failed parsing [album]."))
    } else if id_of(doc.member("albumPicDocId"@)) is None {
        Err(ParseError::ParseMetadataFailed("Failed parsing [albumPicDocId]."))
    } else if doc.member("albumPic"@).as_text() is None {
        Err(ParseError::ParseMetadataFailed("Failed parsing [albumPic]."))
    } else if doc.member("bitrate"@).as_u64() is None {
        Err(ParseError::ParseMetadataFailed("Failed parsing [bitrate]."))
    } else if doc.member("duration"@).as_u64() is None {
        Err(ParseError::ParseMetadataFailed("Failed parsing [duration]."))
    } else if texts_of(doc.member("alias"@)) is None {
        Err(ParseError::ParseMetadataFailed("Failed parsing [alias]."))
    } else if texts_of(doc.member("transNames"@)) is None {
        Err(ParseError::ParseMetadataFailed("Failed parsing [transNames]."))
    } else if doc.member("format"@).as_text() is None {
        Err(ParseError::ParseMetadataFailed("Failed parsing [format]."))
    } else {
        Ok(
            MetadataView {
                music_id: track_id_of(doc.member("musicId"@))->Some_0,
                music_name: doc.member("musicName"@).as_text()->Some_0,
                artists: artists_of(doc.member("artist"@))->Some_0,
                album_id: id_of(doc.member("albumId"@))->Some_0,
                album_name: doc.member("album"@).as_text()->Some_0,
                album_pic_doc_id: id_of(doc.member("albumPicDocId"@))->Some_0,
                album_pic_url: doc.member("albumPic"@).as_text()->Some_0,
                bitrate: doc.member("bitrate"@).as_u64()->Some_0,
                mp3_doc_id: doc.member("mp3DocId"@).as_text(),
                duration: doc.member("duration"@).as_u64()->Some_0,
                mv_id: match id_of(doc.member("mvId"@)) {
                    Some(id) => id,
                    None => 0,
                },
                alias: texts_of(doc.member("alias"@))->Some_0,
                trans_names: texts_of(doc.member("transNames"@))->Some_0,
                format: doc.member("format"@).as_text()->Some_0,
                fee: doc.member("fee"@).as_u64(),
                flag: flag_of(doc),
            },
        )
    }
}

/// Where the last `.` of `text` stands, if it holds one.
pub open spec fn last_dot(text: Seq<char>) -> Option<int>
    decreases text.len(),
{
    if text.len() == 0 {
        None
    } else if text.last() == '.' {
        Some(text.len() - 1)
    } else {
        last_dot(text.drop_last())
    }
}

/// The file extension that an address ends in: what follows its last `.`.
pub open spec fn extension_of(address: Seq<char>) -> Option<Seq<char>> {
    match last_dot(address) {
        Some(at) => Some(address.skip(at + 1)),
        None => None,
    }
}

/// The record that a metadata document describes: bytes that are no JSON
/// fail, any JSON gives what `record_of` says of it.
pub open spec fn document_record(bytes: Seq<u8>) -> Result<MetadataView, ParseError> {
    match json_document(bytes) {
        Some(doc) => record_of(doc),
        None => Err(ParseError::ParseMetadataFailed("Cannot read the ncm metadata.")),
    }
}

/// Whether an outcome is the one that the specification gives.
pub open spec fn agrees(
    outcome: Result<NCMMetadata, ParseError>,
    expected: Result<MetadataView, ParseError>,
) -> bool {
    match outcome {
        Ok(record) => expected == Ok::<MetadataView, ParseError>(record@),
        Err(e) => expected == Err::<MetadataView, ParseError>(e),
    }
}

/// The track id that a value writes: a string, or a number as text.
pub fn track_id_value(value: Option<&JsonValue>) -> (r: Option<String>)
    ensures
        optional_text_view(r) == track_id_of(
            match value {
                Some(v) => v@,
                None => JsonView::Null,
            },
        ),
{
    match value {
        Some(JsonValue::Text(text)) => Some(text.clone()),
        Some(JsonValue::Number(JsonNumber::Unsigned(n))) => Some(u64_text(*n)),
        Some(JsonValue::Number(JsonNumber::Other(text))) => Some(text.clone()),
        _ => None,
    }
}

/// The id that a value writes, as a number or as decimal text.
pub fn id_value(value: Option<&JsonValue>) -> (r: Option<u64>)
    ensures
        r == id_of(
            match value {
                Some(v) => v@,
                None => JsonView::Null,
            },
        ),
{
    match value {
        Some(v) => match v.as_u64() {
            Some(n) => Some(n),
            None => match v.as_str() {
                Some(text) => parse_u64(text.as_str()),
                None => None,
            },
        },
        None => None,
    }
}

/// A copy of the string that a value holds.
pub fn text_value(value: Option<&JsonValue>) -> (r: Option<String>)
    ensures
        optional_text_view(r) == (match value {
            Some(v) => v@,
            None => JsonView::Null,
        }).as_text(),
{
    match value {
        Some(v) => match v.as_str() {
            Some(text) => Some(text.clone()),
            None => None,
        },
        None => None,
    }
}

/// The number from 0 to `u64::MAX` that a value holds.
pub fn u64_value(value: Option<&JsonValue>) -> (r: Option<u64>)
    ensures
        r == (match value {
            Some(v) => v@,
            None => JsonView::Null,
        }).as_u64(),
{
    match value {
        Some(v) => v.as_u64(),
        None => None,
    }
}

/// The strings of an array of strings.
pub fn texts_value(value: Option<&JsonValue>) -> (r: Option<Vec<String>>)
    ensures
        match r {
            Some(texts) => texts_of(
                match value {
                    Some(v) => v@,
                    None => JsonView::Null,
                },
            ) == Some(text_views(texts@)),
            None => texts_of(
                match value {
                    Some(v) => v@,
                    None => JsonView::Null,
                },
            ) is None,
        },
{
    let items = match value {
        Some(v) => match v.as_array() {
            Some(items) => items,
            None => {
                return None;
            },
        },
        None => {
            return None;
        },
    };
    let ghost views = value->Some_0@.as_list()->Some_0;
    let mut texts: Vec<String> = Vec::new();
    let mut i: usize = 0;
    while i < items.len()
        invariant
            i <= items@.len(),
            value is Some,
            value->Some_0@.as_list() == Some(views),
            views.len() == items@.len(),
            forall|k: int| 0 <= k < items@.len() ==> #[trigger] views[k] == items@[k]@,
            texts@.len() == i,
            forall|k: int| 0 <= k < i ==> (#[trigger] views[k]).as_text() == Some(texts@[k]@),
        decreases items@.len() - i,
    {
        match items[i].as_str() {
            Some(text) => {
                texts.push(text.clone());
            },
            None => {
                assert(views[i as int].as_text() is None);
                return None;
            },
        }
        i = i + 1;
    }
    Some(texts)
}

/// One artist: the name and the id of an array that starts with both.
pub fn artist_value(value: &JsonValue) -> (r: Option<(String, u64)>)
    ensures
        match r {
            Some(artist) => artist_of(value@) == Some((artist.0@, artist.1)),
            None => artist_of(value@) is None,
        },
{
    let items = match value.as_array() {
        Some(items) => items,
        None => {
            return None;
        },
    };
    if items.len() < 2 {
        return None;
    }
    let name = match text_value(Some(&items[0])) {
        Some(name) => name,
        None => {
            return None;
        },
    };
    let id = match id_value(Some(&items[1])) {
        Some(id) => id,
        None => {
            return None;
        },
    };
    Some((name, id))
}

/// The artists of an array of artists.
pub fn artists_value(value: Option<&JsonValue>) -> (r: Option<Vec<(String, u64)>>)
    ensures
        match r {
            Some(artists) => artists_of(
                match value {
                    Some(v) => v@,
                    None => JsonView::Null,
                },
            ) == Some(artist_views(artists@)),
            None => artists_of(
                match value {
                    Some(v) => v@,
                    None => JsonView::Null,
                },
            ) is None,
        },
{
    let items = match value {
        Some(v) => match v.as_array() {
            Some(items) => items,
            None => {
                return None;
            },
        },
        None => {
            return None;
        },
    };
    let ghost views = value->Some_0@.as_list()->Some_0;
    let mut artists: Vec<(String, u64)> = Vec::new();
    let mut i: usize = 0;
    while i < items.len()
        invariant
            i <= items@.len(),
            value is Some,
            value->Some_0@.as_list() == Some(views),
            views.len() == items@.len(),
            forall|k: int| 0 <= k < items@.len() ==> #[trigger] views[k] == items@[k]@,
            artists@.len() == i,
            forall|k: int|
                0 <= k < i ==> artist_of(#[trigger] views[k]) == Some(
                    (artists@[k].0@, artists@[k].1),
                ),
        decreases items@.len() - i,
    {
        match artist_value(&items[i]) {
            Some(artist) => {
                artists.push(artist);
            },
            None => {
                assert(artist_of(views[i as int]) is None);
                return None;
            },
        }
        i = i + 1;
    }
    Some(artists)
}

impl NCMMetadata {
    /// The file extension of the cover image, taken from the end of the
    /// picture's address. `None` where the address holds no `.`.
    pub fn image_extension(&self) -> (r: Option<String>)
        ensures
            optional_text_view(r) == extension_of(self.album_pic_url@),
    {
        let address = self.album_pic_url.as_str();
        let len = address.unicode_len();
        let mut end: usize = len;
        assert(address@.take(len as int) =~= address@);
        while end > 0
            invariant
                end <= len,
                len == address@.len(),
                address@ == self.album_pic_url@,
                last_dot(address@) == last_dot(address@.take(end as int)),
            decreases end,
        {
            proof {
                let prefix = address@.take(end as int);
                assert(prefix.drop_last() =~= address@.take(end - 1));
            }
            if address.get_char(end - 1) == '.' {
                let extension = address.substring_char(end, len);
                return Some(extension.to_owned());
            }
            end = end - 1;
        }
        None
    }

    /// Reads the record out of a metadata document given as bytes.
    pub fn new(metadata: &[u8]) -> (r: Result<NCMMetadata, ParseError>)
        ensures
            agrees(r, document_record(metadata@)),
    {
        match JsonValue::parse(metadata) {
            Some(doc) => NCMMetadata::from_json(&doc),
            None => Err(ParseError::ParseMetadataFailed("Cannot read the ncm metadata.")),
        }
    }

    /// Reads the record out of a metadata document.
    pub fn from_json(doc: &JsonValue) -> (r: Result<NCMMetadata, ParseError>)
        ensures
            agrees(r, record_of(doc@)),
    {
        let music_name = match text_value(doc.member("musicName")) {
            Some(text) => text,
            None => {
                return Err(ParseError::ParseMetadataFailed("Failed parsing [musicName]."));
            },
        };
        let music_id = match track_id_value(doc.member("musicId")) {
            Some(text) => text,
            None => {
                return Err(ParseError::ParseMetadataFailed("Failed parsing [musicId]."));
            },
        };
        let artists = match artists_value(doc.member("artist")) {
            Some(artists) => artists,
            None => {
                return Err(ParseError::ParseMetadataFailed("Failed parsing [artist]."));
            },
        };
        let album_id = match id_value(doc.member("albumId")) {
            Some(id) => id,
            None => {
                return Err(ParseError::ParseMetadataFailed("Failed parsing [albumId]."));
            },
        };
        let album_name = match text_value(doc.member("album")) {
            Some(text) => text,
            None => {
                return Err(ParseError::ParseMetadataFailed("Failed parsing [album]."));
            },
        };
        let album_pic_doc_id = match id_value(doc.member("albumPicDocId")) {
            Some(id) => id,
            None => {
                return Err(ParseError::ParseMetadataFailed("Failed parsing [albumPicDocId]."));
            },
        };
        let album_pic_url = match text_value(doc.member("albumPic")) {
            Some(text) => text,
            None => {
                return Err(ParseError::ParseMetadataFailed("Failed parsing [albumPic]."));
            },
        };
        let bitrate = match u64_value(doc.member("bitrate")) {
            Some(n) => n,
            None => {
                return Err(ParseError::ParseMetadataFailed("Failed parsing [bitrate]."));
            },
        };
        let mp3_doc_id = text_value(doc.member("mp3DocId"));
        let duration = match u64_value(doc.member("duration")) {
            Some(n) => n,
            None => {
                return Err(ParseError::ParseMetadataFailed("Failed parsing [duration]."));
            },
        };
        let mv_id = match id_value(doc.member("mvId")) {
            Some(id) => id,
            None => 0,
        };
        let alias = match texts_value(doc.member("alias")) {
            Some(texts) => texts,
            None => {
                return Err(ParseError::ParseMetadataFailed("Failed parsing [alias]."));
            },
        };
        let trans_names = match texts_value(doc.member("transNames")) {
            Some(texts) => texts,
            None => {
                return Err(ParseError::ParseMetadataFailed("Failed parsing [transNames]."));
            },
        };
        let format = match text_value(doc.member("format")) {
            Some(text) => text,
            None => {
                return Err(ParseError::ParseMetadataFailed("Failed parsing [format]."));
            },
        };
        let fee = u64_value(doc.member("fee"));
        let flag = match u64_value(doc.member("flag")) {
            Some(n) => Some(n),
            None => match doc.member("privilege") {
                Some(privilege) => u64_value(privilege.member("flag")),
                None => None,
            },
        };
        Ok(
            NCMMetadata {
                music_id,
                music_name,
                artists,
                album_id,
                album_name,
                album_pic_doc_id,
                album_pic_url,
                bitrate,
                mp3_doc_id,
                duration,
                mv_id,
                alias,
                trans_names,
                format,
                fee,
                flag,
            },
        )
    }
}

} // verus!
