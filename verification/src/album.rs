//! The album of the day, and how one is made from the fields of a response.

use crate::json::{decode, json_document, json_texts, lookup, nested_text};
use vstd::prelude::*;
use vstd::string::StringExecFns;

verus! {

/// The address under which the streaming service keeps its albums.
pub const SPOTIFY_URL: &'static str = "https://open.spotify.com/album";

/// The key under which the generator's answer holds the album of the day.
pub const ALBUM_KEY: &'static str = "currentAlbum";

/// The key of the album's name.
pub const NAME_KEY: &'static str = "name";

/// The key of the album's artist.
pub const ARTIST_KEY: &'static str = "artist";

/// The key of the album's release date.
pub const RELEASE_KEY: &'static str = "releaseDate";

/// The key of the album's identifier at the streaming service.
pub const ID_KEY: &'static str = "spotifyId";

/// What an album is, as plain text.
pub struct AlbumView {
    pub title: Seq<char>,
    pub artist: Seq<char>,
    pub release_year: Seq<char>,
    pub streaming_link: Seq<char>,
}

/// An album: a title and an artist, neither of them empty, the release date as
/// the generator writes it, and the address at which the album can be heard.
#[derive(Debug, PartialEq, Eq)]
pub struct Album {
    title: String,
    artist: String,
    release_year: String,
    streaming_link: String,
}

impl View for Album {
    type V = AlbumView;

    closed spec fn view(&self) -> AlbumView {
        AlbumView {
            title: self.title@,
            artist: self.artist@,
            release_year: self.release_year@,
            streaming_link: self.streaming_link@,
        }
    }
}

impl Clone for Album {
    fn clone(&self) -> (copy: Album)
        ensures
            copy@ == self@,
    {
        proof {
            use_type_invariant(self);
        }
        Album {
            title: self.title.clone(),
            artist: self.artist.clone(),
            release_year: self.release_year.clone(),
            streaming_link: self.streaming_link.clone(),
        }
    }
}

/// The fields of the generator's answer that an album is made from.
#[derive(Clone, Copy, Debug, PartialEq, Eq, Structural)]
pub enum Field {
    Name,
    Artist,
    ReleaseDate,
    SpotifyId,
}

/// What can be wrong with an answer that arrived.
#[derive(Clone, Copy, Debug, PartialEq, Eq, Structural)]
pub enum Defect {
    /// The body is no JSON document.
    NotJson,
    /// The field is absent, or holds something other than a string.
    Missing(Field),
    /// The field holds the empty string where a name is required.
    Blank(Field),
}

/// The key under which the answer holds the field, beneath the album's key.
pub open spec fn key_of(field: Field) -> Seq<char> {
    match field {
        Field::Name => NAME_KEY@,
        Field::Artist => ARTIST_KEY@,
        Field::ReleaseDate => RELEASE_KEY@,
        Field::SpotifyId => ID_KEY@,
    }
}

/// The words for a defect.
pub open spec fn defect_text(defect: Defect) -> Seq<char> {
    match defect {
        Defect::NotJson => "the response is not JSON"@,
        Defect::Missing(field) => "the response has no "@ + key_of(field),
        Defect::Blank(field) => "the response has an empty "@ + key_of(field),
    }
}

impl Field {
    /// The key under which the answer holds the field, beneath the album's key.
    pub fn key(&self) -> (key: &'static str)
        ensures
            key@ == key_of(*self),
    {
        match self {
            Field::Name => NAME_KEY,
            Field::Artist => ARTIST_KEY,
            Field::ReleaseDate => RELEASE_KEY,
            Field::SpotifyId => ID_KEY,
        }
    }
}

impl Defect {
    /// The defect in words.
    pub fn describe(&self) -> (words: String)
        ensures
            words@ == defect_text(*self),
    {
        match self {
            Defect::NotJson => String::from_str("the response is not JSON"),
            Defect::Missing(field) => {
                let mut words = String::from_str("the response has no ");
                words.append(field.key());
                words
            },
            Defect::Blank(field) => {
                let mut words = String::from_str("the response has an empty ");
                words.append(field.key());
                words
            },
        }
    }
}

/// The four fields as they were found in an answer: each a string, or nothing.
#[derive(Debug, PartialEq, Eq)]
pub struct AlbumFields {
    pub name: Option<String>,
    pub artist: Option<String>,
    pub release_date: Option<String>,
    pub spotify_id: Option<String>,
}

/// The four fields as plain text.
pub struct FieldsView {
    pub name: Option<Seq<char>>,
    pub artist: Option<Seq<char>>,
    pub release_date: Option<Seq<char>>,
    pub spotify_id: Option<Seq<char>>,
}

/// The text of a string that may be absent.
pub open spec fn text_view(text: Option<String>) -> Option<Seq<char>> {
    match text {
        Some(s) => Some(s@),
        None => None,
    }
}

impl View for AlbumFields {
    type V = FieldsView;

    open spec fn view(&self) -> FieldsView {
        FieldsView {
            name: text_view(self.name),
            artist: text_view(self.artist),
            release_date: text_view(self.release_date),
            spotify_id: text_view(self.spotify_id),
        }
    }
}

/// The address at which the album with the given identifier can be heard.
pub open spec fn streaming_link(id: Seq<char>) -> Seq<char> {
    SPOTIFY_URL@ + "/"@ + id
}

/// The album that the fields make, or the first thing wrong with them: the
/// fields are looked at in the order name, artist, release date, identifier.
pub open spec fn album_of(fields: FieldsView) -> Result<AlbumView, Defect> {
    if fields.name is None {
        Err(Defect::Missing(Field::Name))
    } else if fields.name->0.len() == 0 {
        Err(Defect::Blank(Field::Name))
    } else if fields.artist is None {
        Err(Defect::Missing(Field::Artist))
    } else if fields.artist->0.len() == 0 {
        Err(Defect::Blank(Field::Artist))
    } else if fields.release_date is None {
        Err(Defect::Missing(Field::ReleaseDate))
    } else if fields.spotify_id is None {
        Err(Defect::Missing(Field::SpotifyId))
    } else {
        Ok(
            AlbumView {
                title: fields.name->0,
                artist: fields.artist->0,
                release_year: fields.release_date->0,
                streaming_link: streaming_link(fields.spotify_id->0),
            },
        )
    }
}

/// The four fields as the strings of a document hold them: each under the
/// album's key and its own.
pub open spec fn fields_of(texts: Map<Seq<Seq<char>>, Seq<char>>) -> FieldsView {
    FieldsView {
        name: lookup(texts, seq![ALBUM_KEY@, NAME_KEY@]),
        artist: lookup(texts, seq![ALBUM_KEY@, ARTIST_KEY@]),
        release_date: lookup(texts, seq![ALBUM_KEY@, RELEASE_KEY@]),
        spotify_id: lookup(texts, seq![ALBUM_KEY@, ID_KEY@]),
    }
}

/// The album that a body makes, or what is wrong with it.
pub open spec fn album_of_body(body: Seq<u8>) -> Result<AlbumView, Defect> {
    match json_document(body) {
        Some(texts) => album_of(fields_of(texts)),
        None => Err(Defect::NotJson),
    }
}

/// An album or a defect, the album as plain text.
pub open spec fn parsed_view(parsed: Result<Album, Defect>) -> Result<AlbumView, Defect> {
    match parsed {
        Ok(album) => Ok(album@),
        Err(defect) => Err(defect),
    }
}

/// Reads the four fields out of a decoded answer.
pub fn read_fields(document: &serde_json::Value) -> (fields: AlbumFields)
    ensures
        fields@ == fields_of(json_texts(*document)),
{
    AlbumFields {
        name: nested_text(document, ALBUM_KEY, NAME_KEY),
        artist: nested_text(document, ALBUM_KEY, ARTIST_KEY),
        release_date: nested_text(document, ALBUM_KEY, RELEASE_KEY),
        spotify_id: nested_text(document, ALBUM_KEY, ID_KEY),
    }
}

/// Makes the album from the body of an answer, or says what is wrong with the
/// body: that it is no JSON document, or the first field that is amiss.
pub fn parse_album(body: &[u8]) -> (parsed: Result<Album, Defect>)
    ensures
        parsed_view(parsed) == album_of_body(body@),
{
    match decode(body) {
        Ok(document) => Album::from_fields(read_fields(&document)),
        Err(_) => Err(Defect::NotJson),
    }
}

impl Album {
    #[verifier::type_invariant]
    spec fn named(self) -> bool {
        self.title@.len() > 0 && self.artist@.len() > 0
    }

    /// An album of the given parts, unless the title or the artist is empty.
    pub fn new(title: &str, artist: &str, release_year: &str, streaming_link: &str) -> (album:
        Option<Album>)
        ensures
            album is Some <==> title@.len() > 0 && artist@.len() > 0,
            album matches Some(made) ==> made@ == (AlbumView {
                title: title@,
                artist: artist@,
                release_year: release_year@,
                streaming_link: streaming_link@,
            }),
    {
        if title.is_empty() || artist.is_empty() {
            None
        } else {
            Some(
                Album {
                    title: String::from_str(title),
                    artist: String::from_str(artist),
                    release_year: String::from_str(release_year),
                    streaming_link: String::from_str(streaming_link),
                },
            )
        }
    }

    /// Makes the album from the fields of an answer, or names the first field
    /// that is amiss. The streaming link is the service's address, a slash, and
    /// the identifier.
    pub fn from_fields(fields: AlbumFields) -> (parsed: Result<Album, Defect>)
        ensures
            parsed_view(parsed) == album_of(fields@),
    {
        let AlbumFields { name, artist, release_date, spotify_id } = fields;
        let title = match name {
            Some(text) => text,
            None => { return Err(Defect::Missing(Field::Name)); },
        };
        if title.as_str().is_empty() {
            return Err(Defect::Blank(Field::Name));
        }
        let artist = match artist {
            Some(text) => text,
            None => { return Err(Defect::Missing(Field::Artist)); },
        };
        if artist.as_str().is_empty() {
            return Err(Defect::Blank(Field::Artist));
        }
        let release_year = match release_date {
            Some(text) => text,
            None => { return Err(Defect::Missing(Field::ReleaseDate)); },
        };
        let id = match spotify_id {
            Some(text) => text,
            None => { return Err(Defect::Missing(Field::SpotifyId)); },
        };
        let mut link = String::from_str(SPOTIFY_URL);
        link.append("/");
        link.append(id.as_str());
        Ok(Album { title, artist, release_year, streaming_link: link })
    }

    /// The album's title; never empty.
    pub fn title(&self) -> (title: &str)
        ensures
            title@ == self@.title,
            title@.len() > 0,
    {
        proof {
            use_type_invariant(self);
        }
        self.title.as_str()
    }

    /// The album's artist; never empty.
    pub fn artist(&self) -> (artist: &str)
        ensures
            artist@ == self@.artist,
            artist@.len() > 0,
    {
        proof {
            use_type_invariant(self);
        }
        self.artist.as_str()
    }

    /// The release date, as the generator writes it.
    pub fn release_year(&self) -> (release_year: &str)
        ensures
            release_year@ == self@.release_year,
    {
        self.release_year.as_str()
    }

    /// The address at which the album can be heard.
    pub fn streaming_link(&self) -> (link: &str)
        ensures
            link@ == self@.streaming_link,
    {
        self.streaming_link.as_str()
    }
}

} // verus!
