use album_notifier::album::{
    parse_album, read_fields, Album, AlbumFields, Defect, Field, ALBUM_KEY, SPOTIFY_URL,
};
use album_notifier::json::nested_text;

fn text(value: &str) -> Option<String> {
    Some(String::from(value))
}

fn complete() -> AlbumFields {
    AlbumFields {
        name: text("OK Computer"),
        artist: text("Radiohead"),
        release_date: text("1997-05-21"),
        spotify_id: text("XYZ"),
    }
}

const COMPLETE_BODY: &[u8] = br#"{"name": "friends", "currentAlbum": {"name": "OK Computer",
    "artist": "Radiohead", "releaseDate": "1997-05-21", "spotifyId": "XYZ", "genres": ["rock"]}}"#;

#[test]
fn new_album_keeps_its_parts() {
    let album = Album::new("OK Computer", "Radiohead", "1997-05-21", "https://open.spotify.com/album/XYZ")
        .unwrap();
    assert_eq!(album.title(), "OK Computer");
    assert_eq!(album.artist(), "Radiohead");
    assert_eq!(album.release_year(), "1997-05-21");
    assert_eq!(album.streaming_link(), "https://open.spotify.com/album/XYZ");
    assert_eq!(album.clone(), album);
}

#[test]
fn new_album_needs_a_title_and_an_artist() {
    assert_eq!(Album::new("", "Radiohead", "1997", "link"), None);
    assert_eq!(Album::new("OK Computer", "", "1997", "link"), None);
    assert_eq!(Album::new("", "", "", ""), None);
    assert!(Album::new("a", "b", "", "").is_some());
}

#[test]
fn fields_make_the_album_with_its_link() {
    let album = Album::from_fields(complete()).unwrap();
    assert_eq!(
        Some(album),
        Album::new("OK Computer", "Radiohead", "1997-05-21", "https://open.spotify.com/album/XYZ")
    );
    assert_eq!(SPOTIFY_URL, "https://open.spotify.com/album");
}

#[test]
fn an_empty_identifier_or_date_is_taken_as_it_is() {
    let album = Album::from_fields(AlbumFields {
        release_date: text(""),
        spotify_id: text(""),
        ..complete()
    })
    .unwrap();
    assert_eq!(album.release_year(), "");
    assert_eq!(album.streaming_link(), "https://open.spotify.com/album/");
}

#[test]
fn each_missing_field_is_named() {
    assert_eq!(
        Album::from_fields(AlbumFields { name: None, ..complete() }),
        Err(Defect::Missing(Field::Name))
    );
    assert_eq!(
        Album::from_fields(AlbumFields { artist: None, ..complete() }),
        Err(Defect::Missing(Field::Artist))
    );
    assert_eq!(
        Album::from_fields(AlbumFields { release_date: None, ..complete() }),
        Err(Defect::Missing(Field::ReleaseDate))
    );
    assert_eq!(
        Album::from_fields(AlbumFields { spotify_id: None, ..complete() }),
        Err(Defect::Missing(Field::SpotifyId))
    );
}

#[test]
fn blank_names_are_defects() {
    assert_eq!(
        Album::from_fields(AlbumFields { name: text(""), ..complete() }),
        Err(Defect::Blank(Field::Name))
    );
    assert_eq!(
        Album::from_fields(AlbumFields { artist: text(""), ..complete() }),
        Err(Defect::Blank(Field::Artist))
    );
}

#[test]
fn the_first_defect_in_order_is_reported() {
    let nothing = AlbumFields { name: None, artist: None, release_date: None, spotify_id: None };
    assert_eq!(Album::from_fields(nothing), Err(Defect::Missing(Field::Name)));
    assert_eq!(
        Album::from_fields(AlbumFields { name: text(""), artist: None, ..complete() }),
        Err(Defect::Blank(Field::Name))
    );
    assert_eq!(
        Album::from_fields(AlbumFields { artist: text(""), release_date: None, ..complete() }),
        Err(Defect::Blank(Field::Artist))
    );
    assert_eq!(
        Album::from_fields(AlbumFields { release_date: None, spotify_id: None, ..complete() }),
        Err(Defect::Missing(Field::ReleaseDate))
    );
}

#[test]
fn nested_text_finds_strings_under_two_keys() {
    let document: serde_json::Value = serde_json::from_slice(COMPLETE_BODY).unwrap();
    assert_eq!(nested_text(&document, "currentAlbum", "name"), text("OK Computer"));
    assert_eq!(nested_text(&document, "currentAlbum", "artist"), text("Radiohead"));
    assert_eq!(nested_text(&document, "currentAlbum", "genres"), None);
    assert_eq!(nested_text(&document, "currentAlbum", "label"), None);
    assert_eq!(nested_text(&document, "name", "name"), None);
    assert_eq!(nested_text(&document, "history", "name"), None);
}

#[test]
fn read_fields_takes_the_four_strings() {
    let document: serde_json::Value = serde_json::from_slice(COMPLETE_BODY).unwrap();
    assert_eq!(read_fields(&document), complete());
    let partial: serde_json::Value =
        serde_json::from_str(r#"{"currentAlbum": {"name": 7, "artist": null, "spotifyId": "Q"}}"#).unwrap();
    assert_eq!(
        read_fields(&partial),
        AlbumFields { name: None, artist: None, release_date: None, spotify_id: text("Q") }
    );
    assert_eq!(ALBUM_KEY, "currentAlbum");
}

#[test]
fn parse_album_reads_a_complete_body() {
    let album = parse_album(COMPLETE_BODY).unwrap();
    assert_eq!(album.title(), "OK Computer");
    assert_eq!(album.artist(), "Radiohead");
    assert_eq!(album.release_year(), "1997-05-21");
    assert_eq!(album.streaming_link(), "https://open.spotify.com/album/XYZ");
}

#[test]
fn parse_album_decodes_escapes() {
    let body = r#"{"currentAlbum": {"name": "Caf\u00e9 \"Bleu\"", "artist": "A\\B",
        "releaseDate": "1984", "spotifyId": "id\/1"}}"#;
    let album = parse_album(body.as_bytes()).unwrap();
    assert_eq!(album.title(), "Caf\u{e9} \"Bleu\"");
    assert_eq!(album.artist(), "A\\B");
    assert_eq!(album.streaming_link(), "https://open.spotify.com/album/id/1");
}

#[test]
fn parse_album_rejects_what_is_not_json() {
    assert_eq!(parse_album(b""), Err(Defect::NotJson));
    assert_eq!(parse_album(b"<html>Bad Gateway</html>"), Err(Defect::NotJson));
    assert_eq!(parse_album(br#"{"currentAlbum": {"name": "x""#), Err(Defect::NotJson));
    assert_eq!(parse_album(br#"{"currentAlbum": {}} trailing"#), Err(Defect::NotJson));
    assert_eq!(parse_album(&[0xff, 0xfe]), Err(Defect::NotJson));
}

#[test]
fn parse_album_names_what_the_document_lacks() {
    assert_eq!(parse_album(b"{}"), Err(Defect::Missing(Field::Name)));
    assert_eq!(parse_album(b"[]"), Err(Defect::Missing(Field::Name)));
    assert_eq!(parse_album(b"null"), Err(Defect::Missing(Field::Name)));
    assert_eq!(parse_album(br#"{"currentAlbum": null}"#), Err(Defect::Missing(Field::Name)));
    assert_eq!(
        parse_album(br#"{"currentAlbum": {"name": "OK Computer", "releaseDate": "1997", "spotifyId": "X"}}"#),
        Err(Defect::Missing(Field::Artist))
    );
    assert_eq!(
        parse_album(br#"{"currentAlbum": {"name": "OK Computer", "artist": ["Radiohead"]}}"#),
        Err(Defect::Missing(Field::Artist))
    );
    assert_eq!(
        parse_album(br#"{"currentAlbum": {"name": "OK Computer", "artist": "Radiohead", "releaseDate": 1997}}"#),
        Err(Defect::Missing(Field::ReleaseDate))
    );
    assert_eq!(
        parse_album(br#"{"currentAlbum": {"name": "OK Computer", "artist": "Radiohead", "releaseDate": "1997"}}"#),
        Err(Defect::Missing(Field::SpotifyId))
    );
    assert_eq!(
        parse_album(br#"{"currentAlbum": {"name": "", "artist": "Radiohead", "releaseDate": "1997", "spotifyId": "X"}}"#),
        Err(Defect::Blank(Field::Name))
    );
}

#[test]
fn a_repeated_key_counts_once_with_its_last_value() {
    let body = br#"{"currentAlbum": {"name": "first", "name": "second", "artist": "a",
        "releaseDate": "d", "spotifyId": "i"}}"#;
    assert_eq!(parse_album(body).unwrap().title(), "second");
}

#[test]
fn defects_in_words() {
    assert_eq!(Defect::NotJson.describe(), "the response is not JSON");
    assert_eq!(Defect::Missing(Field::Artist).describe(), "the response has no artist");
    assert_eq!(Defect::Missing(Field::ReleaseDate).describe(), "the response has no releaseDate");
    assert_eq!(Defect::Blank(Field::Name).describe(), "the response has an empty name");
    assert_eq!(Field::SpotifyId.key(), "spotifyId");
}
