//! What holds of the layout, of reading back what was written, and of a tag's
//! place at the end of a stream.

use crate::tag::{
    decode, encode, field, fits, has_tag, is_tag, kept, marker, normalize, replace_tag, strip_tag,
    tail, trim_texts, trimmed, TagView, ALBUM_OFFSET, ARTIST_OFFSET, COMMENT_OFFSET, GENRE_OFFSET,
    TAG_SIZE, TEXT_WIDTH, TITLE_OFFSET, YEAR_OFFSET, YEAR_WIDTH,
};
use crate::text::{
    lemma_trim_nul_idempotent, lemma_trim_nul_ignores_padding, lemma_trim_nul_is_own_when_trimmed,
    lemma_trim_nul_is_shortest_prefix, trim_nul,
};
use vstd::prelude::*;

verus! {

/// A field is as wide as asked, whatever the length of its text.
pub proof fn lemma_field_len(text: Seq<u8>, width: nat)
    ensures
        field(text, width).len() == width,
{
}

/// A text that is at least as long as its field is cut: the field holds the
/// first `width` bytes of the text and nothing else.
pub proof fn lemma_field_truncates(text: Seq<u8>, width: nat)
    requires
        text.len() >= width,
    ensures
        field(text, width) == text.take(width as int),
{
}

/// A text that is no longer than its field is followed by zero bytes up to
/// the field's width, and trimming the field gives what trimming the text
/// gives: the text itself where it does not end in a zero byte, and the empty
/// text for the empty text.
pub proof fn lemma_field_pads(text: Seq<u8>, width: nat)
    requires
        text.len() <= width,
    ensures
        field(text, width) == text + Seq::new((width - text.len()) as nat, |i: int| 0u8),
        trim_nul(field(text, width)) == trim_nul(text),
        text.len() == 0 ==> trim_nul(field(text, width)) == Seq::<u8>::empty(),
        text.len() > 0 && text.last() != 0 ==> trim_nul(field(text, width)) == text,
{
    assert(field(text, width).take(text.len() as int) =~= text);
    lemma_trim_nul_ignores_padding(text, field(text, width));
}

/// The encoded tag has 128 bytes: the marker, then each text in its own
/// field, then the genre code. No text reaches into the field after it.
pub proof fn lemma_encode_layout(tag: TagView)
    ensures
        encode(tag).len() == TAG_SIZE,
        encode(tag).subrange(0, TITLE_OFFSET as int) == marker(),
        encode(tag).subrange(TITLE_OFFSET as int, ARTIST_OFFSET as int) == field(
            tag.title,
            TEXT_WIDTH as nat,
        ),
        encode(tag).subrange(ARTIST_OFFSET as int, ALBUM_OFFSET as int) == field(
            tag.artist,
            TEXT_WIDTH as nat,
        ),
        encode(tag).subrange(ALBUM_OFFSET as int, YEAR_OFFSET as int) == field(
            tag.album,
            TEXT_WIDTH as nat,
        ),
        encode(tag).subrange(YEAR_OFFSET as int, COMMENT_OFFSET as int) == field(
            tag.year,
            YEAR_WIDTH as nat,
        ),
        encode(tag).subrange(COMMENT_OFFSET as int, GENRE_OFFSET as int) == field(
            tag.comment,
            TEXT_WIDTH as nat,
        ),
        encode(tag)[GENRE_OFFSET as int] == tag.genre,
        is_tag(encode(tag)),
{
    assert(encode(tag).subrange(0, TITLE_OFFSET as int) =~= marker());
}

/// Trimming a field gives the text as it is kept: cut to the width, then
/// trimmed.
pub proof fn lemma_trim_field(text: Seq<u8>, width: nat)
    ensures
        trim_nul(field(text, width)) == kept(text, width),
{
    if text.len() <= width {
        lemma_field_pads(text, width);
    } else {
        lemma_field_truncates(text, width);
    }
}

/// Decoding an encoded tag succeeds, and gives the tag with each text as it
/// is kept.
pub proof fn lemma_decode_encode(tag: TagView)
    ensures
        decode(encode(tag)) == Some(normalize(tag)),
{
    lemma_encode_layout(tag);
    lemma_trim_field(tag.title, TEXT_WIDTH as nat);
    lemma_trim_field(tag.artist, TEXT_WIDTH as nat);
    lemma_trim_field(tag.album, TEXT_WIDTH as nat);
    lemma_trim_field(tag.year, YEAR_WIDTH as nat);
    lemma_trim_field(tag.comment, TEXT_WIDTH as nat);
}

/// A tag whose texts fit their fields comes back from encoding and decoding
/// as it was, but for the zero bytes at the end of its texts. Where no text
/// ends in a zero byte, it comes back unchanged.
pub proof fn lemma_round_trip(tag: TagView)
    requires
        fits(tag),
    ensures
        decode(encode(tag)) == Some(trim_texts(tag)),
        trimmed(tag) ==> decode(encode(tag)) == Some(tag),
{
    lemma_decode_encode(tag);
    lemma_trim_nul_is_own_when_trimmed(tag.title);
    lemma_trim_nul_is_own_when_trimmed(tag.artist);
    lemma_trim_nul_is_own_when_trimmed(tag.album);
    lemma_trim_nul_is_own_when_trimmed(tag.year);
    lemma_trim_nul_is_own_when_trimmed(tag.comment);
}

/// Encoding and decoding a second time changes nothing more.
pub proof fn lemma_normalize_idempotent(tag: TagView)
    ensures
        normalize(normalize(tag)) == normalize(tag),
        fits(normalize(tag)),
        trimmed(normalize(tag)),
{
    lemma_kept_is_stable(tag.title, TEXT_WIDTH as nat);
    lemma_kept_is_stable(tag.artist, TEXT_WIDTH as nat);
    lemma_kept_is_stable(tag.album, TEXT_WIDTH as nat);
    lemma_kept_is_stable(tag.year, YEAR_WIDTH as nat);
    lemma_kept_is_stable(tag.comment, TEXT_WIDTH as nat);
}

/// A text as it is kept fits the width, ends in no zero byte, and is kept as
/// it is.
pub proof fn lemma_kept_is_stable(text: Seq<u8>, width: nat)
    ensures
        kept(text, width).len() <= width,
        kept(text, width).len() > 0 ==> kept(text, width).last() != 0,
        kept(kept(text, width), width) == kept(text, width),
{
    let cut = if text.len() <= width {
        text
    } else {
        text.take(width as int)
    };
    lemma_trim_nul_is_shortest_prefix(cut);
    lemma_trim_nul_idempotent(cut);
}

/// 128 bytes that do not begin with the marker are no tag, whatever the 125
/// bytes after them are.
pub proof fn lemma_decode_rejects_other_marker(block: Seq<u8>)
    requires
        block.len() == TAG_SIZE,
        block.subrange(0, TITLE_OFFSET as int) != marker(),
    ensures
        decode(block) is None,
{
}

/// Nothing but 128 bytes is a tag.
pub proof fn lemma_decode_rejects_other_length(block: Seq<u8>)
    requires
        block.len() != TAG_SIZE,
    ensures
        decode(block) is None,
{
}

/// Stripping takes the last 128 bytes off a stream that ends in a tag and
/// nothing off any other stream, such as one with fewer than 128 bytes or one
/// whose last 128 bytes do not begin with the marker.
pub proof fn lemma_strip_tag(stream: Seq<u8>)
    ensures
        has_tag(stream) ==> strip_tag(stream).len() == stream.len() - TAG_SIZE
            && strip_tag(stream) + tail(stream) == stream,
        !has_tag(stream) ==> strip_tag(stream) == stream,
        stream.len() < TAG_SIZE ==> strip_tag(stream) == stream,
        stream.len() >= TAG_SIZE && tail(stream).subrange(0, TITLE_OFFSET as int) != marker()
            ==> strip_tag(stream) == stream,
{
}

/// Whether a stream ends in a tag, and in which, depends on its last 128
/// bytes alone.
pub proof fn lemma_tag_is_in_tail(before: Seq<u8>, end: Seq<u8>)
    requires
        end.len() >= TAG_SIZE,
    ensures
        tail(before + end) == tail(end),
        has_tag(before + end) == has_tag(end),
        strip_tag(before + end) == before + strip_tag(end),
{
    assert(tail(before + end) =~= tail(end));
}

/// A stream followed by an encoded tag ends in that tag, and stripping gives
/// the stream back.
pub proof fn lemma_strip_appended_tag(stream: Seq<u8>, tag: TagView)
    ensures
        has_tag(stream + encode(tag)),
        tail(stream + encode(tag)) == encode(tag),
        strip_tag(stream + encode(tag)) == stream,
{
    lemma_encode_layout(tag);
    assert(tail(stream + encode(tag)) =~= encode(tag));
}

/// After a tag was put in place, the stream is 128 bytes longer than it was
/// without its old tag, the bytes before the tag are as they were, and the
/// stream ends in the new tag, which reads back with each text as it is kept.
pub proof fn lemma_replace_tag(stream: Seq<u8>, tag: TagView)
    ensures
        replace_tag(stream, tag).len() == strip_tag(stream).len() + TAG_SIZE,
        has_tag(stream) ==> replace_tag(stream, tag).len() == stream.len(),
        !has_tag(stream) ==> replace_tag(stream, tag).len() == stream.len() + TAG_SIZE,
        replace_tag(stream, tag).take(strip_tag(stream).len() as int) == strip_tag(stream),
        has_tag(replace_tag(stream, tag)),
        strip_tag(replace_tag(stream, tag)) == strip_tag(stream),
        decode(tail(replace_tag(stream, tag))) == Some(normalize(tag)),
{
    lemma_encode_layout(tag);
    lemma_strip_appended_tag(strip_tag(stream), tag);
    lemma_decode_encode(tag);
}

/// Putting the same tag in place twice gives what putting it in place once
/// gives, and a later tag takes the place of an earlier one.
pub proof fn lemma_replace_tag_twice(stream: Seq<u8>, first: TagView, second: TagView)
    ensures
        replace_tag(replace_tag(stream, first), second) == replace_tag(stream, second),
        replace_tag(replace_tag(stream, first), first) == replace_tag(stream, first),
{
    lemma_strip_appended_tag(strip_tag(stream), first);
}

} // verus!
