//! Catalog records: the physical format of an album, the album record kept
//! by the local store, and the metadata that an album lookup returns.

use crate::text::{lowercase_of, same_text, to_lowercase};
use vstd::prelude::*;
use vstd::string::StringSliceAdditionalSpecFns;
use vstd::utf8::{decode_utf8, encode_utf8, encode_utf8_decode_utf8, is_char_boundary};

verus! {

/// Physical format of an album.
#[derive(Debug, Clone, Copy, PartialEq, Eq, Structural)]
pub enum Format {
    Cd,
    Lp,
    Usb,
    Tape,
}

impl Format {
    /// The lowercase name under which a format is stored and typed.
    pub open spec fn name(self) -> Seq<char> {
        match self {
            Format::Cd => seq!['c', 'd'],
            Format::Lp => seq!['l', 'p'],
            Format::Usb => seq!['u', 's', 'b'],
            Format::Tape => seq!['t', 'a', 'p', 'e'],
        }
    }

    /// The format whose name is exactly `s`, if any.
    pub open spec fn named(s: Seq<char>) -> Option<Format> {
        if s == Format::Cd.name() {
            Some(Format::Cd)
        } else if s == Format::Lp.name() {
            Some(Format::Lp)
        } else if s == Format::Usb.name() {
            Some(Format::Usb)
        } else if s == Format::Tape.name() {
            Some(Format::Tape)
        } else {
            None
        }
    }

    pub fn as_str(&self) -> (r: &'static str)
        ensures
            r@ == self.name(),
    {
        proof {
            reveal_strlit("cd");
            reveal_strlit("lp");
            reveal_strlit("usb");
            reveal_strlit("tape");
        }
        let r = match self {
            Format::Cd => "cd",
            Format::Lp => "lp",
            Format::Usb => "usb",
            Format::Tape => "tape",
        };
        assert(r@ =~= self.name());
        r
    }

    /// The format whose name is exactly `s` (already in lowercase).
    pub fn from_lowercase(s: &str) -> (r: Option<Format>)
        ensures
            r == Format::named(s@),
    {
        let cd = Format::Cd.as_str();
        let lp = Format::Lp.as_str();
        let usb = Format::Usb.as_str();
        let tape = Format::Tape.as_str();
        if same_text(s, cd) {
            Some(Format::Cd)
        } else if same_text(s, lp) {
            Some(Format::Lp)
        } else if same_text(s, usb) {
            Some(Format::Usb)
        } else if same_text(s, tape) {
            Some(Format::Tape)
        } else {
            None
        }
    }

    /// The format named by `s`, in any letter case.
    pub fn from_str(s: &str) -> (r: Option<Format>)
        ensures
            r == Format::named(lowercase_of(s@)),
    {
        let lower = to_lowercase(s);
        Format::from_lowercase(lower.as_str())
    }
}

/// The message that rejects `s` as a format name.
pub open spec fn format_error_text(s: Seq<char>) -> Seq<char> {
    "Invalid format: "@ + s + ". Valid formats are: cd, lp, usb, tape"@
}

/// Parses a format name typed on the command line, or explains which names
/// are accepted.
pub fn parse_format(s: &str) -> (r: Result<Format, String>)
    ensures
        Format::named(lowercase_of(s@)) matches Some(f) ==> r == Ok::<Format, String>(f),
        Format::named(lowercase_of(s@)) is None ==> (r matches Err(msg) && msg@ == format_error_text(s@)),
{
    match Format::from_str(s) {
        Some(f) => Ok(f),
        None => {
            proof {
                reveal_strlit("Invalid format: ");
                reveal_strlit(". Valid formats are: cd, lp, usb, tape");
            }
            let mut msg = String::from_str("Invalid format: ");
            msg.append(s);
            msg.append(". Valid formats are: cd, lp, usb, tape");
            assert(msg@ =~= format_error_text(s@));
            Err(msg)
        },
    }
}

/// One album of the collection. `id` is assigned by the local store when the
/// record is inserted and is `None` before that.
#[derive(Debug, Clone)]
pub struct Album {
    pub id: Option<i64>,
    pub artist: String,
    pub album: String,
    pub genre: String,
    pub release_date: String,
    pub format: Format,
    pub source_url: String,
    pub country: String,
    pub artwork_url: String,
}

impl Album {
    /// Two records hold the same values in every field.
    pub open spec fn same_as(self, other: Album) -> bool {
        &&& self.id == other.id
        &&& self.artist@ == other.artist@
        &&& self.album@ == other.album@
        &&& self.genre@ == other.genre@
        &&& self.release_date@ == other.release_date@
        &&& self.format == other.format
        &&& self.source_url@ == other.source_url@
        &&& self.country@ == other.country@
        &&& self.artwork_url@ == other.artwork_url@
    }

    /// A record not yet stored, made from looked-up metadata and a format.
    pub fn from_metadata(metadata: AlbumMetadata, format: Format) -> (r: Album)
        ensures
            r.id is None,
            r.artist == metadata.artist,
            r.album == metadata.album,
            r.genre == metadata.genre,
            r.release_date == metadata.release_date,
            r.format == format,
            r.source_url == metadata.source_url,
            r.country == metadata.country,
            r.artwork_url == metadata.artwork_url,
    {
        Album {
            id: None,
            artist: metadata.artist,
            album: metadata.album,
            genre: metadata.genre,
            release_date: metadata.release_date,
            format,
            source_url: metadata.source_url,
            country: metadata.country,
            artwork_url: metadata.artwork_url,
        }
    }
}

impl PartialEq for Album {
    fn eq(&self, other: &Album) -> (r: bool)
        ensures
            r == self.same_as(*other),
    {
        let same_id = match (self.id, other.id) {
            (Some(a), Some(b)) => a == b,
            (None, None) => true,
            _ => false,
        };
        same_id && self.artist == other.artist && self.album == other.album && self.genre
            == other.genre && self.release_date == other.release_date && self.format
            == other.format && self.source_url == other.source_url && self.country
            == other.country && self.artwork_url == other.artwork_url
    }
}

impl vstd::std_specs::cmp::PartialEqSpecImpl for Album {
    open spec fn obeys_eq_spec() -> bool {
        true
    }

    open spec fn eq_spec(&self, other: &Album) -> bool {
        self.same_as(*other)
    }
}

/// The descriptive fields of an album, as an album lookup reports them.
#[derive(Debug, Clone)]
pub struct AlbumMetadata {
    pub artist: String,
    pub album: String,
    pub genre: String,
    pub release_date: String,
    pub source_url: String,
    pub artwork_url: String,
    pub country: String,
}

/// The answer of the album lookup service: the matching entries.
#[derive(Debug)]
pub struct AppleMusicResponse {
    pub results: Vec<AppleMusicResult>,
}

/// One entry of a lookup answer, under the service's own field names.
#[derive(Debug, Clone)]
pub struct AppleMusicResult {
    pub artist_name: String,
    pub collection_name: String,
    pub collection_view_url: String,
    pub artwork_url_100: String,
    pub country: String,
    pub release_date: String,
    pub primary_genre_name: String,
}

impl From<AppleMusicResult> for AlbumMetadata {
    fn from(result: AppleMusicResult) -> (r: AlbumMetadata)
        ensures
            r == AlbumMetadata::from_result(result),
    {
        AlbumMetadata {
            artist: result.artist_name,
            album: result.collection_name,
            genre: result.primary_genre_name,
            release_date: result.release_date,
            source_url: result.collection_view_url,
            artwork_url: result.artwork_url_100,
            country: result.country,
        }
    }
}

impl vstd::std_specs::convert::FromSpecImpl<AppleMusicResult> for AlbumMetadata {
    open spec fn obeys_from_spec() -> bool {
        true
    }

    open spec fn from_spec(v: AppleMusicResult) -> AlbumMetadata {
        AlbumMetadata::from_result(v)
    }
}

impl AlbumMetadata {
    /// Metadata renamed field by field from a lookup entry.
    pub open spec fn from_result(v: AppleMusicResult) -> AlbumMetadata {
        AlbumMetadata {
            artist: v.artist_name,
            album: v.collection_name,
            genre: v.primary_genre_name,
            release_date: v.release_date,
            source_url: v.collection_view_url,
            artwork_url: v.artwork_url_100,
            country: v.country,
        }
    }
}

impl AppleMusicResponse {
    /// The metadata of the first entry of the answer; `None` when the lookup
    /// found no album.
    pub fn into_metadata(self) -> (r: Option<AlbumMetadata>)
        ensures
            self.results@.len() == 0 ==> r is None,
            self.results@.len() > 0 ==> r == Some(AlbumMetadata::from_result(self.results@[0])),
    {
        let mut results = self.results;
        if results.len() == 0 {
            None
        } else {
            let first = results.swap_remove(0);
            Some(AlbumMetadata::from(first))
        }
    }
}

/// The year part of a free-text release date: what precedes the first `-`;
/// without a `-`, the text of its first four UTF-8 bytes, and a text of
/// fewer bytes whole. Where the fourth byte ends inside a character, the
/// first four characters stand instead.
pub open spec fn year_part(date: Seq<char>) -> Seq<char> {
    let bytes = encode_utf8(date);
    match date.index_of_first('-') {
        Some(k) => date.take(k),
        None => if bytes.len() < 4 {
            date
        } else if is_char_boundary(bytes, 4) {
            decode_utf8(bytes.take(4))
        } else if date.len() >= 4 {
            date.take(4)
        } else {
            date
        },
    }
}

pub fn extract_year(date_str: &str) -> (r: &str)
    ensures
        r@ == year_part(date_str@),
{
    let n = date_str.unicode_len();
    let mut i: usize = 0;
    while i < n
        invariant
            n == date_str@.len(),
            i <= n,
            forall|j: int| 0 <= j < i ==> date_str@[j] != '-',
        decreases n - i,
    {
        if date_str.get_char(i) == '-' {
            proof {
                date_str@.index_of_first_ensures('-');
            }
            return date_str.substring_char(0, i);
        }
        i = i + 1;
    }
    proof {
        date_str@.index_of_first_ensures('-');
    }
    if date_str.as_bytes().len() < 4 {
        date_str
    } else if date_str.is_char_boundary(4) {
        let (head, _) = date_str.split_at(4);
        proof {
            encode_utf8_decode_utf8(head@);
            assert(encode_utf8(head@) =~= encode_utf8(date_str@).take(4));
        }
        head
    } else if n >= 4 {
        date_str.substring_char(0, 4)
    } else {
        assert(date_str@.subrange(0, n as int) =~= date_str@);
        date_str.substring_char(0, n)
    }
}

/// Prepares cover images for the embedding model.
pub struct ImageProcessor;

impl ImageProcessor {
    pub fn new() -> (r: ImageProcessor) {
        ImageProcessor
    }
}

} // verus!
