//! The table of genre names.

use vstd::prelude::*;

verus! {

/// The name shown for a code that has no entry in the table.
pub open spec fn unknown_name() -> Seq<char> {
    "Unknown"@
}

/// The name shown for a code in the range that the table leaves out.
pub open spec fn unsupported_name() -> Seq<char> {
    "Unsupported"@
}

/// Whether `code` lies in the range 28 to 191, which the table leaves out.
pub open spec fn is_unsupported(code: u8) -> bool {
    28 <= code <= 191
}

/// The display name of a genre code.
///
/// Codes 0 to 27 have a fixed name, except for 24, which has none and shows as
/// "Unknown". Codes 28 to 191 show as "Unsupported". Every code from 192 on shows
/// as "Unknown".
pub open spec fn genre_name(code: u8) -> Seq<char> {
    match code {
        0u8 => "Blues"@,
        1u8 => "Classic rock"@,
        2u8 => "Country"@,
        3u8 => "Dance"@,
        4u8 => "Disco"@,
        5u8 => "Funk"@,
        6u8 => "Grunge"@,
        7u8 => "Hip-hop"@,
        8u8 => "Jazz"@,
        9u8 => "Metal"@,
        10u8 => "New age"@,
        11u8 => "Oldies"@,
        12u8 => "Other"@,
        13u8 => "Pop"@,
        14u8 => "Rhythm and blues"@,
        15u8 => "Rap"@,
        16u8 => "Reggae"@,
        17u8 => "Rock"@,
        18u8 => "Techno"@,
        19u8 => "Industrial"@,
        20u8 => "Alternative"@,
        21u8 => "Ska"@,
        22u8 => "Death Metal"@,
        23u8 => "Soundtrack"@,
        25u8 => "Euro-techno"@,
        26u8 => "Ambient"@,
        27u8 => "Trip-hop"@,
        _ => if is_unsupported(code) {
            unsupported_name()
        } else {
            unknown_name()
        },
    }
}

/// Looks up the display name of a genre code.
pub fn name(code: u8) -> (result: &'static str)
    ensures
        result@ == genre_name(code),
{
    match code {
        0 => "Blues",
        1 => "Classic rock",
        2 => "Country",
        3 => "Dance",
        4 => "Disco",
        5 => "Funk",
        6 => "Grunge",
        7 => "Hip-hop",
        8 => "Jazz",
        9 => "Metal",
        10 => "New age",
        11 => "Oldies",
        12 => "Other",
        13 => "Pop",
        14 => "Rhythm and blues",
        15 => "Rap",
        16 => "Reggae",
        17 => "Rock",
        18 => "Techno",
        19 => "Industrial",
        20 => "Alternative",
        21 => "Ska",
        22 => "Death Metal",
        23 => "Soundtrack",
        25 => "Euro-techno",
        26 => "Ambient",
        27 => "Trip-hop",
        28..=191 => "Unsupported",
        _ => "Unknown",
    }
}

} // verus!
