//! Item identifiers and the parsing of item URIs.

use librespot_core::spotify_id::{SpotifyAudioType, SpotifyId};
use vstd::prelude::*;
use vstd::string::*;

verus! {

/// The category that an item's URI assigns to it.
#[derive(Clone, Copy, Debug, PartialEq, Eq, Structural)]
pub enum ItemKind {
    Track,
    Podcast,
    /// Any category the backend cannot play.
    NonPlayable,
}

/// A parsed, typed reference to an item, as opposed to its raw URI.
#[derive(Clone, Copy, Debug, PartialEq, Eq, Structural)]
pub struct ItemId {
    pub id: u128,
    pub kind: ItemKind,
}

impl ItemId {
    /// Whether the backend can be asked to load this item.
    pub open spec fn playable(self) -> bool {
        !(self.kind is NonPlayable)
    }

    /// Whether the backend can be asked to load this item.
    pub fn is_playable(&self) -> (b: bool)
        ensures
            b == self.playable(),
    {
        match self.kind {
            ItemKind::NonPlayable => false,
            _ => true,
        }
    }
}

/// Number of base-62 digits in the identifier that ends an item URI.
pub const ID_DIGITS: usize = 22;

/// The value of one base-62 digit: `0-9`, then `a-z`, then `A-Z`.
pub open spec fn base62_digit(c: char) -> Option<u8> {
    if '0' <= c <= '9' {
        Some((c as u32 - '0' as u32) as u8)
    } else if 'a' <= c <= 'z' {
        Some((c as u32 - 'a' as u32 + 10) as u8)
    } else if 'A' <= c <= 'Z' {
        Some((c as u32 - 'A' as u32 + 36) as u8)
    } else {
        None
    }
}

/// Whether every character of `s` is a base-62 digit.
pub open spec fn is_base62(s: Seq<char>) -> bool {
    forall|i: int| 0 <= i < s.len() ==> (#[trigger] base62_digit(s[i])) is Some
}

/// The number that `s` denotes in base 62, most significant digit first.
/// A character that is no digit counts as zero.
pub open spec fn base62_value(s: Seq<char>) -> nat
    decreases s.len(),
{
    if s.len() == 0 {
        0
    } else {
        base62_value(s.drop_last()) * 62 + match base62_digit(s.last()) {
            Some(d) => d as nat,
            None => 0,
        }
    }
}

/// The last `ID_DIGITS` characters of `uri`.
pub open spec fn id_part(uri: Seq<char>) -> Seq<char>
    recommends
        uri.len() >= ID_DIGITS,
{
    uri.subrange(uri.len() - ID_DIGITS, uri.len() as int)
}

/// Whether `uri` ends in a full-length base-62 identifier that does not fit
/// in 128 bits.
pub open spec fn id_exceeds_u128(uri: Seq<char>) -> bool {
    &&& uri.len() >= ID_DIGITS
    &&& is_base62(id_part(uri))
    &&& base62_value(id_part(uri)) > u128::MAX
}

/// The value of `c` as a base-62 digit, if it is one.
pub fn digit_value(c: char) -> (d: Option<u8>)
    ensures
        d == base62_digit(c),
{
    if '0' <= c && c <= '9' {
        Some((c as u32 - '0' as u32) as u8)
    } else if 'a' <= c && c <= 'z' {
        Some((c as u32 - 'a' as u32 + 10) as u8)
    } else if 'A' <= c && c <= 'Z' {
        Some((c as u32 - 'A' as u32 + 36) as u8)
    } else {
        None
    }
}

/// Whether `uri` ends in a full-length base-62 identifier too large for 128
/// bits. Such an identifier names no item.
pub fn id_out_of_range(uri: &str) -> (b: bool)
    ensures
        b == id_exceeds_u128(uri@),
{
    let n = uri.unicode_len();
    if n < ID_DIGITS {
        return false;
    }
    let start = n - ID_DIGITS;
    let mut acc: u128 = 0;
    let mut overflow = false;
    let mut i = start;
    while i < n
        invariant
            n == uri@.len(),
            start == n - ID_DIGITS,
            start <= i <= n,
            forall|j: int| start <= j < i ==> (#[trigger] base62_digit(uri@[j])) is Some,
            !overflow ==> acc == base62_value(uri@.subrange(start as int, i as int)),
            overflow ==> base62_value(uri@.subrange(start as int, i as int)) > u128::MAX,
        decreases n - i,
    {
        let c = uri.get_char(i);
        let ghost before = uri@.subrange(start as int, i as int);
        let ghost after = uri@.subrange(start as int, i + 1);
        assert(after.drop_last() == before);
        match digit_value(c) {
            None => {
                assert(id_part(uri@)[i - start] == uri@[i as int]);
                return false;
            },
            Some(d) => {
                if !overflow {
                    match acc.checked_mul(62) {
                        None => {
                            overflow = true;
                        },
                        Some(m) => match m.checked_add(d as u128) {
                            None => {
                                overflow = true;
                            },
                            Some(v) => {
                                acc = v;
                            },
                        },
                    }
                }
            },
        }
        i += 1;
    }
    overflow
}

/// The category that goes with the word between the scheme and the
/// identifier of a URI.
pub open spec fn kind_named(word: Seq<char>) -> ItemKind {
    if word == "track"@ {
        ItemKind::Track
    } else if word == "episode"@ {
        ItemKind::Podcast
    } else {
        ItemKind::NonPlayable
    }
}

/// The identifier that `uri` names, if any. A URI names an item where it
/// reads `spotify:`, any text, a colon, and `ID_DIGITS` base-62 digits whose
/// value fits in 128 bits. The text in the middle decides the category, the
/// digits are the identifier.
pub open spec fn item_of_uri(uri: Seq<char>) -> Option<ItemId> {
    let n = uri.len() as int;
    if n >= 9 + ID_DIGITS && uri.subrange(0, 8) == "spotify:"@ && uri[n - ID_DIGITS - 1] == ':'
        && is_base62(id_part(uri)) && base62_value(id_part(uri)) <= u128::MAX {
        Some(
            ItemId {
                id: base62_value(id_part(uri)) as u128,
                kind: kind_named(uri.subrange(8, n - ID_DIGITS - 1)),
            },
        )
    } else {
        None
    }
}

/// Calls `SpotifyId::from_uri` and hands the identifier over field by field.
/// Nothing is proved of it. The contract restates what the parser's source
/// does: it strips `spotify:`, wants a colon before the last 22 bytes, reads
/// those as base-62 digits and derives the category from the text before the
/// colon. The parser accumulates the digits in a `u128` with unchecked
/// arithmetic, which 22 digits can overflow; such a URI is kept away from it.
#[verifier::external_body]
fn spotify_id_from_uri(uri: &str) -> (r: Option<ItemId>)
    requires
        !id_exceeds_u128(uri@),
    ensures
        r == item_of_uri(uri@),
{
    match SpotifyId::from_uri(uri) {
        Ok(id) => Some(ItemId {
            id: id.id,
            kind: match id.audio_type {
                SpotifyAudioType::Track => ItemKind::Track,
                SpotifyAudioType::Podcast => ItemKind::Podcast,
                SpotifyAudioType::NonPlayable => ItemKind::NonPlayable,
            },
        }),
        Err(_) => None,
    }
}

/// Parses an item URI into a typed identifier. An identifier too large for
/// 128 bits is refused here; everything else is left to the backend
/// library's parser.
pub fn parse_uri(uri: &str) -> (r: Option<ItemId>)
    ensures
        r == item_of_uri(uri@),
{
    if id_out_of_range(uri) {
        None
    } else {
        spotify_id_from_uri(uri)
    }
}

} // verus!
