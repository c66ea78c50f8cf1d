//! The tag: its layout in 128 bytes, and its place at the end of a stream.

use crate::error::ReadError;
use crate::genre;
use crate::text::{chars_of, ends_in_no_nul, trim_nul, ISO_8859_1};
use vstd::prelude::*;
use vstd::slice::{slice_subrange, slice_to_vec};
use vstd::string::StringExecFns;

verus! {

/// The number of bytes of a tag.
pub const TAG_SIZE: usize = 128;

/// The number of bytes of the title, of the artist, of the album and of the
/// comment.
pub const TEXT_WIDTH: usize = 30;

/// The number of bytes of the year.
pub const YEAR_WIDTH: usize = 4;

/// Where the title begins.
pub const TITLE_OFFSET: usize = 3;

/// Where the artist begins.
pub const ARTIST_OFFSET: usize = 33;

/// Where the album begins.
pub const ALBUM_OFFSET: usize = 63;

/// Where the year begins.
pub const YEAR_OFFSET: usize = 93;

/// Where the comment begins.
pub const COMMENT_OFFSET: usize = 97;

/// Where the genre code stands.
pub const GENRE_OFFSET: usize = 127;

/// A tag as a mathematical value: the bytes of each text and the genre code.
pub struct TagView {
    pub title: Seq<u8>,
    pub artist: Seq<u8>,
    pub album: Seq<u8>,
    pub year: Seq<u8>,
    pub comment: Seq<u8>,
    pub genre: u8,
}

/// The three bytes that open every tag: the letters T, A, G.
pub open spec fn marker() -> Seq<u8> {
    seq!['T' as u8, 'A' as u8, 'G' as u8]
}

/// A text in a field of `width` bytes: its first `width` bytes, then zero bytes
/// up to the width.
pub open spec fn field(text: Seq<u8>, width: nat) -> Seq<u8> {
    Seq::new(width, |i: int| if i < text.len() { text[i] } else { 0u8 })
}

/// The 128 bytes of a tag.
pub open spec fn encode(tag: TagView) -> Seq<u8> {
    marker() + field(tag.title, TEXT_WIDTH as nat) + field(tag.artist, TEXT_WIDTH as nat) + field(
        tag.album,
        TEXT_WIDTH as nat,
    ) + field(tag.year, YEAR_WIDTH as nat) + field(tag.comment, TEXT_WIDTH as nat) + seq![tag.genre]
}

/// Whether `block` is a tag: 128 bytes that begin with the marker.
pub open spec fn is_tag(block: Seq<u8>) -> bool {
    block.len() == TAG_SIZE && block.subrange(0, TITLE_OFFSET as int) == marker()
}

/// The tag that `block` holds, where it is one. Each text is its field without
/// the zero bytes at the field's end.
pub open spec fn decode(block: Seq<u8>) -> Option<TagView> {
    if is_tag(block) {
        Some(
            TagView {
                title: trim_nul(block.subrange(TITLE_OFFSET as int, ARTIST_OFFSET as int)),
                artist: trim_nul(block.subrange(ARTIST_OFFSET as int, ALBUM_OFFSET as int)),
                album: trim_nul(block.subrange(ALBUM_OFFSET as int, YEAR_OFFSET as int)),
                year: trim_nul(block.subrange(YEAR_OFFSET as int, COMMENT_OFFSET as int)),
                comment: trim_nul(block.subrange(COMMENT_OFFSET as int, GENRE_OFFSET as int)),
                genre: block[GENRE_OFFSET as int],
            },
        )
    } else {
        None
    }
}

/// A text as a tag keeps it: cut to the width of its field, and without the
/// zero bytes at its end.
pub open spec fn kept(text: Seq<u8>, width: nat) -> Seq<u8> {
    trim_nul(
        if text.len() <= width {
            text
        } else {
            text.take(width as int)
        },
    )
}

/// The tag with each text as a tag keeps it.
pub open spec fn normalize(tag: TagView) -> TagView {
    TagView {
        title: kept(tag.title, TEXT_WIDTH as nat),
        artist: kept(tag.artist, TEXT_WIDTH as nat),
        album: kept(tag.album, TEXT_WIDTH as nat),
        year: kept(tag.year, YEAR_WIDTH as nat),
        comment: kept(tag.comment, TEXT_WIDTH as nat),
        genre: tag.genre,
    }
}

/// Whether each text of the tag is within the width of its field.
pub open spec fn fits(tag: TagView) -> bool {
    &&& tag.title.len() <= TEXT_WIDTH
    &&& tag.artist.len() <= TEXT_WIDTH
    &&& tag.album.len() <= TEXT_WIDTH
    &&& tag.year.len() <= YEAR_WIDTH
    &&& tag.comment.len() <= TEXT_WIDTH
}

/// The tag with each text without the zero bytes at its end.
pub open spec fn trim_texts(tag: TagView) -> TagView {
    TagView {
        title: trim_nul(tag.title),
        artist: trim_nul(tag.artist),
        album: trim_nul(tag.album),
        year: trim_nul(tag.year),
        comment: trim_nul(tag.comment),
        genre: tag.genre,
    }
}

/// Whether no text of the tag ends in a zero byte.
pub open spec fn trimmed(tag: TagView) -> bool {
    &&& ends_in_no_nul(tag.title)
    &&& ends_in_no_nul(tag.artist)
    &&& ends_in_no_nul(tag.album)
    &&& ends_in_no_nul(tag.year)
    &&& ends_in_no_nul(tag.comment)
}

/// The last 128 bytes of a stream that has as many.
pub open spec fn tail(stream: Seq<u8>) -> Seq<u8> {
    stream.subrange(stream.len() - TAG_SIZE, stream.len() as int)
}

/// Whether a stream ends in a tag.
pub open spec fn has_tag(stream: Seq<u8>) -> bool {
    stream.len() >= TAG_SIZE && is_tag(tail(stream))
}

/// The stream without the tag at its end, or the whole stream where it ends in
/// none.
pub open spec fn strip_tag(stream: Seq<u8>) -> Seq<u8> {
    if has_tag(stream) {
        stream.subrange(0, stream.len() - TAG_SIZE)
    } else {
        stream
    }
}

/// The stream with `tag` in place of the tag at its end, or after its end where
/// it has none.
pub open spec fn replace_tag(stream: Seq<u8>, tag: TagView) -> Seq<u8> {
    strip_tag(stream) + encode(tag)
}

/// A tag as six lines of text, one for each of its parts.
pub open spec fn render(tag: TagView) -> Seq<char> {
    "Song title: "@ + chars_of(tag.title) + "\nArtist: "@ + chars_of(tag.artist) + "\nAlbum: "@
        + chars_of(tag.album) + "\nYear: "@ + chars_of(tag.year) + "\nComment: "@ + chars_of(
        tag.comment,
    ) + "\nGenre: "@ + genre::genre_name(tag.genre)
}

/// An ID3v1 tag: title, artist, album, year and comment of a song, and the
/// code of its genre.
///
/// A text may be longer than its field in the tag. Writing the tag cuts it to
/// the field's width.
#[derive(Debug)]
pub struct ID3v1 {
    title: ISO_8859_1,
    artist: ISO_8859_1,
    album: ISO_8859_1,
    year: ISO_8859_1,
    comment: ISO_8859_1,
    genre: u8,
}

impl View for ID3v1 {
    type V = TagView;

    closed spec fn view(&self) -> TagView {
        TagView {
            title: self.title@,
            artist: self.artist@,
            album: self.album@,
            year: self.year@,
            comment: self.comment@,
            genre: self.genre,
        }
    }
}

impl ID3v1 {
    /// A tag with the given parts.
    pub fn new(
        title: ISO_8859_1,
        artist: ISO_8859_1,
        album: ISO_8859_1,
        year: ISO_8859_1,
        comment: ISO_8859_1,
        genre: u8,
    ) -> (tag: ID3v1)
        ensures
            tag@ == (TagView {
                title: title@,
                artist: artist@,
                album: album@,
                year: year@,
                comment: comment@,
                genre,
            }),
    {
        ID3v1 { title, artist, album, year, comment, genre }
    }

    /// Reads the tag at the end of a stream, given the stream's bytes.
    ///
    /// Fails with `ReadError::TooShort` where the stream has fewer than 128
    /// bytes, and with `ReadError::ID3` where its last 128 bytes do not begin
    /// with the marker.
    pub fn read(source: &[u8]) -> (result: Result<ID3v1, ReadError>)
        ensures
            match result {
                Ok(tag) => has_tag(source@) && decode(tail(source@)) == Some(tag@),
                Err(ReadError::TooShort) => source@.len() < TAG_SIZE,
                Err(ReadError::ID3) => source@.len() >= TAG_SIZE && !has_tag(source@),
                Err(ReadError::IO(_)) => false,
            },
    {
        let len = source.len();
        if len < TAG_SIZE {
            return Err(ReadError::TooShort);
        }
        let buff = slice_to_vec(slice_subrange(source, len - TAG_SIZE, len));
        ID3v1::try_from(buff)
    }

    /// Where the last 128 bytes of a stream of `len` bytes begin, or 0 for a
    /// shorter stream. From there to the end of the stream is all that `read`
    /// needs to see.
    pub fn tail_start(len: u64) -> (start: u64)
        ensures
            len >= TAG_SIZE ==> start == len - TAG_SIZE,
            len < TAG_SIZE ==> start == 0,
    {
        if len >= TAG_SIZE as u64 {
            len - TAG_SIZE as u64
        } else {
            0
        }
    }

    /// The bytes of a stream without the tag at its end. A stream that ends in
    /// no tag is returned whole.
    pub fn get_contents_without_tag(from: &[u8]) -> (contents: Vec<u8>)
        ensures
            contents@ == strip_tag(from@),
    {
        let end_position = if ID3v1::read(from).is_ok() {
            from.len() - TAG_SIZE
        } else {
            from.len()
        };
        slice_to_vec(slice_subrange(from, 0, end_position))
    }

    /// Puts this tag at the end of a stream, in place of the tag that the
    /// stream ends in, if it ends in one. The bytes before it stay as they are.
    pub fn write(self, destination: &mut Vec<u8>)
        ensures
            final(destination)@ == replace_tag(old(destination)@, self@),
    {
        let mut contents = ID3v1::get_contents_without_tag(destination.as_slice());
        let mut block: Vec<u8> = self.into();
        contents.append(&mut block);
        *destination = contents;
    }

    /// The tag as six lines of text: song title, artist, album, year, comment
    /// and the name of the genre, each after its label.
    pub fn to_string(&self) -> (text: String)
        ensures
            text@ == render(self@),
    {
        let mut text = String::from_str("Song title: ");
        text.append(self.title.to_string().as_str());
        text.append("\nArtist: ");
        text.append(self.artist.to_string().as_str());
        text.append("\nAlbum: ");
        text.append(self.album.to_string().as_str());
        text.append("\nYear: ");
        text.append(self.year.to_string().as_str());
        text.append("\nComment: ");
        text.append(self.comment.to_string().as_str());
        text.append("\nGenre: ");
        text.append(self.get_genre_str());
        text
    }

    /// The song's title.
    pub fn title(&self) -> (title: &ISO_8859_1)
        ensures
            title@ == self@.title,
    {
        &self.title
    }

    /// The artist.
    pub fn artist(&self) -> (artist: &ISO_8859_1)
        ensures
            artist@ == self@.artist,
    {
        &self.artist
    }

    /// The album.
    pub fn album(&self) -> (album: &ISO_8859_1)
        ensures
            album@ == self@.album,
    {
        &self.album
    }

    /// The year.
    pub fn year(&self) -> (year: &ISO_8859_1)
        ensures
            year@ == self@.year,
    {
        &self.year
    }

    /// The comment.
    pub fn comment(&self) -> (comment: &ISO_8859_1)
        ensures
            comment@ == self@.comment,
    {
        &self.comment
    }

    /// The code of the genre.
    pub fn genre(&self) -> (genre: u8)
        ensures
            genre == self@.genre,
    {
        self.genre
    }

    /// The display name of the tag's genre.
    pub fn get_genre_str(&self) -> (name: &'static str)
        ensures
            name@ == genre::genre_name(self@.genre),
    {
        genre::name(self.genre)
    }
}

/// Appends a text in a field of `width` bytes.
fn push_field(block: &mut Vec<u8>, text: &ISO_8859_1, width: usize)
    ensures
        final(block)@ == old(block)@ + field(text@, width as nat),
{
    let bytes = text.as_bytes();
    let mut i: usize = 0;
    while i < width
        invariant
            i <= width,
            bytes@ == text@,
            block@ == old(block)@ + field(text@, width as nat).take(i as int),
        decreases width - i,
    {
        let byte: u8 = if i < bytes.len() {
            bytes[i]
        } else {
            0
        };
        block.push(byte);
        i += 1;
    }
}

impl Clone for ID3v1 {
    fn clone(&self) -> (tag: ID3v1)
        ensures
            tag@ == self@,
    {
        ID3v1 {
            title: self.title.clone(),
            artist: self.artist.clone(),
            album: self.album.clone(),
            year: self.year.clone(),
            comment: self.comment.clone(),
            genre: self.genre,
        }
    }
}

impl PartialEq for ID3v1 {
    /// Two tags are equal where they have the same texts and the same genre
    /// code.
    fn eq(&self, other: &ID3v1) -> (equal: bool) {
        self.title == other.title && self.artist == other.artist && self.album == other.album
            && self.year == other.year && self.comment == other.comment && self.genre
            == other.genre
    }
}

impl vstd::std_specs::cmp::PartialEqSpecImpl for ID3v1 {
    open spec fn obeys_eq_spec() -> bool {
        true
    }

    open spec fn eq_spec(&self, other: &ID3v1) -> bool {
        self@ == other@
    }
}

impl Eq for ID3v1 {

}

impl TryFrom<Vec<u8>> for ID3v1 {
    type Error = ReadError;

    /// Reads a tag from the 128 bytes that hold it. Fails with
    /// `ReadError::ID3` where `value` has another length or does not begin with
    /// the marker.
    fn try_from(value: Vec<u8>) -> (result: Result<ID3v1, ReadError>)
        ensures
            result is Ok <==> is_tag(value@),
            result matches Ok(tag) ==> decode(value@) == Some(tag@),
            result matches Err(err) ==> err is ID3,
    {
        if value.len() != TAG_SIZE {
            return Err(ReadError::ID3);
        }
        let block = value.as_slice();
        if block[0] != 'T' as u8 || block[1] != 'A' as u8 || block[2] != 'G' as u8 {
            return Err(ReadError::ID3);
        }
        assert(block@.subrange(0, 3) =~= marker());

        let title = ISO_8859_1::from_padded(slice_subrange(block, TITLE_OFFSET, ARTIST_OFFSET));
        let artist = ISO_8859_1::from_padded(slice_subrange(block, ARTIST_OFFSET, ALBUM_OFFSET));
        let album = ISO_8859_1::from_padded(slice_subrange(block, ALBUM_OFFSET, YEAR_OFFSET));
        let year = ISO_8859_1::from_padded(slice_subrange(block, YEAR_OFFSET, COMMENT_OFFSET));
        let comment = ISO_8859_1::from_padded(slice_subrange(block, COMMENT_OFFSET, GENRE_OFFSET));
        let genre = block[GENRE_OFFSET];

        Ok(ID3v1 { title, artist, album, year, comment, genre })
    }
}

impl vstd::std_specs::convert::TryFromSpecImpl<Vec<u8>> for ID3v1 {
    /// A tag can only be described through its view, so `try_from` states its
    /// result in its own postcondition.
    open spec fn obeys_try_from_spec() -> bool {
        false
    }

    open spec fn try_from_spec(value: Vec<u8>) -> Result<ID3v1, ReadError> {
        arbitrary()
    }
}

impl From<ID3v1> for Vec<u8> {
    /// Writes a tag as its 128 bytes. A text longer than its field is cut to the
    /// field's width, a shorter one is followed by zero bytes.
    fn from(tags: ID3v1) -> (result: Vec<u8>)
        ensures
            result@ == encode(tags@),
    {
        let mut result: Vec<u8> = Vec::with_capacity(TAG_SIZE);
        result.push('T' as u8);
        result.push('A' as u8);
        result.push('G' as u8);

        push_field(&mut result, &tags.title, TEXT_WIDTH);
        push_field(&mut result, &tags.artist, TEXT_WIDTH);
        push_field(&mut result, &tags.album, TEXT_WIDTH);
        push_field(&mut result, &tags.year, YEAR_WIDTH);
        push_field(&mut result, &tags.comment, TEXT_WIDTH);

        result.push(tags.genre);
        result
    }
}

impl vstd::std_specs::convert::FromSpecImpl<ID3v1> for Vec<u8> {
    /// A vector can only be described through its view, so `from` states its
    /// result in its own postcondition.
    open spec fn obeys_from_spec() -> bool {
        false
    }

    open spec fn from_spec(tags: ID3v1) -> Vec<u8> {
        arbitrary()
    }
}

} // verus!
