//! The cursor that leads from one page of a listing to the next: the place of the last job on the
//! page, in a form that can stand in a URL.

use crate::api::error::{ApiError, ApiFault};
use crate::ids::{format_uuid, parse_uuid, uuid_parsed, uuid_text};
use crate::text::{chars_of, find_from, first_place, join3, lemma_first_place, text_of};
use crate::time::Timestamp;
use base64::engine::general_purpose::URL_SAFE_NO_PAD;
use base64::Engine;
use chrono::DateTime;
use vstd::prelude::*;
use vstd::utf8::{decode_utf8, encode_utf8, valid_utf8};

verus! {

// ---------------------------------------------------------------------------------------------
// Base64
// ---------------------------------------------------------------------------------------------

/// The URL-safe Base64 form of some bytes, without padding.
pub uninterp spec fn base64_text(bytes: Seq<u8>) -> Seq<char>;

/// The bytes that a URL-safe Base64 text without padding stands for, if it is one.
pub uninterp spec fn base64_bytes(text: Seq<char>) -> Option<Seq<u8>>;

/// Calls `encode` of `URL_SAFE_NO_PAD`. The text is a function of the bytes, which `base64_text`
/// names, and `decode` gives the bytes back.
#[verifier::external_body]
fn base64_encode(bytes: &[u8]) -> (text: String)
    ensures
        text@ == base64_text(bytes@),
        base64_bytes(text@) == Some(bytes@),
{
    URL_SAFE_NO_PAD.encode(bytes)
}

/// Calls `decode` of `URL_SAFE_NO_PAD`. What it accepts, and what it makes of it, is a function of the
/// text, which `base64_bytes` names.
#[verifier::external_body]
fn base64_decode(text: &str) -> (r: Option<Vec<u8>>)
    ensures
        match r {
            Some(bytes) => base64_bytes(text@) == Some(bytes@),
            None => base64_bytes(text@) is None,
        },
{
    URL_SAFE_NO_PAD.decode(text).ok()
}

/// Calls `String::from_utf8`, which accepts valid UTF-8 and nothing else.
#[verifier::external_body]
fn text_from_utf8(bytes: Vec<u8>) -> (r: Option<String>)
    ensures
        match r {
            Some(text) => valid_utf8(bytes@) && text@ == decode_utf8(bytes@),
            None => !valid_utf8(bytes@),
        },
{
    String::from_utf8(bytes).ok()
}

// ---------------------------------------------------------------------------------------------
// Points in time as text
// ---------------------------------------------------------------------------------------------

impl Timestamp {
    /// The point in time has a date, in the years from -262143 to 262142. Only the last second of a
    /// minute can be a leap second.
    pub open spec fn has_date(self) -> bool {
        &&& -8_334_601_228_800 <= self.secs <= 8_210_266_876_799
        &&& self.nanos < 1_000_000_000 || (self.nanos < 2_000_000_000 && self.secs as int % 60 == 59)
    }

    /// The year is one from 0 to 9999.
    pub open spec fn in_four_digit_year(self) -> bool {
        -62_167_219_200 <= self.secs <= 253_402_300_799
    }
}

/// What `DateTime::<Utc>::to_rfc3339` prints of a point in time.
pub uninterp spec fn rfc3339_text(secs: i64, nanos: u32) -> Seq<char>;

/// The point in time, in seconds and nanoseconds, that `DateTime::parse_from_rfc3339` reads from a
/// text, if it accepts the text.
pub uninterp spec fn rfc3339_parsed(text: Seq<char>) -> Option<(i64, u32)>;

/// Calls `DateTime::from_timestamp` and `to_rfc3339`. The text is a function of the point in time, which
/// `rfc3339_text` names. It holds digits, signs, colons, a `T` and a full stop, and in particular no
/// vertical bar. Where the year has four digits, `parse_from_rfc3339` reads the same point in time
/// back.
#[verifier::external_body]
fn format_rfc3339(at: Timestamp) -> (text: String)
    requires
        at.has_date(),
    ensures
        text@ == rfc3339_text(at.secs, at.nanos),
        !text@.contains('|'),
        at.in_four_digit_year() ==> rfc3339_parsed(text@) == Some((at.secs, at.nanos)),
{
    DateTime::from_timestamp(at.secs, at.nanos).unwrap_or_default().to_rfc3339()
}

/// Calls `DateTime::parse_from_rfc3339`. What it accepts, and what it makes of it, is a function of the
/// text, which `rfc3339_parsed` names.
#[verifier::external_body]
fn parse_rfc3339(text: &str) -> (r: Option<Timestamp>)
    ensures
        match r {
            Some(at) => rfc3339_parsed(text@) == Some((at.secs, at.nanos)),
            None => rfc3339_parsed(text@) is None,
        },
{
    match DateTime::parse_from_rfc3339(text) {
        Ok(at) => Some(Timestamp { secs: at.timestamp(), nanos: at.timestamp_subsec_nanos() }),
        Err(_) => None,
    }
}

// ---------------------------------------------------------------------------------------------
// Cursors
// ---------------------------------------------------------------------------------------------

/// What a cursor says before it is put into Base64.
pub open spec fn cursor_plain(created_at: Timestamp, id: u128) -> Seq<char> {
    rfc3339_text(created_at.secs, created_at.nanos) + seq!['|'] + uuid_text(id)
}

/// The cursor of a place.
pub open spec fn cursor_text(created_at: Timestamp, id: u128) -> Seq<char> {
    base64_text(encode_utf8(cursor_plain(created_at, id)))
}

/// The place that a text names: a point in time and an identifier, with a vertical bar between them.
pub open spec fn plain_place(s: Seq<char>) -> Option<(Timestamp, u128)> {
    let bar = first_place(s, '|');
    if bar < 0 || bar >= s.len() {
        None
    } else {
        match (rfc3339_parsed(s.take(bar)), uuid_parsed(s.skip(bar + 1))) {
            (Some(at), Some(id)) => Some((Timestamp { secs: at.0, nanos: at.1 }, id)),
            _ => None,
        }
    }
}

/// The place that a cursor names, if it names one.
pub open spec fn cursor_place(cursor: Seq<char>) -> Option<(Timestamp, u128)> {
    match base64_bytes(cursor) {
        Some(bytes) => if valid_utf8(bytes) {
            plain_place(decode_utf8(bytes))
        } else {
            None
        },
        None => None,
    }
}

/// The cursor of a place. As long as the year has four digits, the cursor leads back to that place.
pub fn encode_cursor(created_at: Timestamp, id: u128) -> (cursor: String)
    requires
        created_at.has_date(),
    ensures
        cursor@ == cursor_text(created_at, id),
        created_at.in_four_digit_year() ==> cursor_place(cursor@) == Some((created_at, id)),
{
    let time = format_rfc3339(created_at);
    let name = format_uuid(id);
    let plain = join3(&time, "|", &name);
    proof {
        reveal_strlit("|");
        assert("|"@ =~= seq!['|']);
        let bar = time@.len() as int;
        assert forall|i: int| 0 <= i < bar implies plain@[i] != '|' by {
            assert(time@.contains(time@[i]));
        }
        lemma_first_place(plain@, '|', bar);
        assert(plain@.take(bar) =~= time@);
        assert(plain@.skip(bar + 1) =~= name@);
        vstd::utf8::encode_utf8_valid_utf8(plain@);
        vstd::utf8::encode_utf8_decode_utf8(plain@);
    }
    base64_encode(plain.as_str().as_bytes())
}

/// The place that a cursor names.
pub fn decode_cursor(cursor: &str) -> (r: Result<(Timestamp, u128), ApiError>)
    ensures
        match cursor_place(cursor@) {
            Some(place) => r == Ok::<(Timestamp, u128), ApiError>(place),
            None => r matches Err(e) && e@ == ApiFault::invalid_argument("invalid cursor"@),
        },
{
    match place_of(cursor) {
        Some(place) => Ok(place),
        None => Err(ApiError::invalid_argument("invalid cursor".to_string())),
    }
}

fn place_of(cursor: &str) -> (r: Option<(Timestamp, u128)>)
    ensures
        r == cursor_place(cursor@),
{
    let bytes = base64_decode(cursor)?;
    let plain = text_from_utf8(bytes)?;
    let (time, name) = split_at_bar(&plain)?;
    let at = parse_rfc3339(&time)?;
    let id = parse_uuid(&name)?;
    Some((at, id))
}

/// What stands before and after the first vertical bar.
pub fn split_at_bar(s: &str) -> (r: Option<(String, String)>)
    ensures
        match r {
            Some(parts) => {
                &&& 0 <= first_place(s@, '|') < s@.len()
                &&& parts.0@ == s@.take(first_place(s@, '|'))
                &&& parts.1@ == s@.skip(first_place(s@, '|') + 1)
            },
            None => first_place(s@, '|') >= s@.len(),
        },
{
    let x = chars_of(s);
    assert(x@.skip(0) =~= x@);
    let bar: usize = find_from(&x, 0, '|');
    if bar == x.len() {
        return None;
    }
    let before = text_of(&x, 0, bar);
    let after = text_of(&x, bar + 1, x.len());
    assert(before@ =~= s@.take(bar as int));
    assert(after@ =~= s@.skip(bar + 1));
    Some((before, after))
}

/// The point in time stands before the first vertical bar, and the identifier after it.
pub proof fn law_places_stand_around_the_first_bar(time: Seq<char>, name: Seq<char>)
    requires
        !time.contains('|'),
    ensures
        ({
            let place = plain_place(time + seq!['|'] + name);
            &&& place is Some <==> rfc3339_parsed(time) is Some && uuid_parsed(name) is Some
            &&& place matches Some(p) ==> rfc3339_parsed(time) == Some((p.0.secs, p.0.nanos))
                && uuid_parsed(name) == Some(p.1)
        }),
        plain_place(time) is None,
{
    let s = time + seq!['|'] + name;
    let bar = time.len() as int;
    assert forall|i: int| 0 <= i < bar implies time[i] != '|' && s[i] != '|' by {
        assert(time.contains(time[i]));
    }
    lemma_first_place(s, '|', bar);
    lemma_first_place(time, '|', bar);
    assert(s.take(bar) =~= time);
    assert(s.skip(bar + 1) =~= name);
}

/// Where the round trips of its parts hold, a cursor leads back to the place that it was made of.
pub proof fn law_cursors_lead_back_to_their_place(created_at: Timestamp, id: u128)
    requires
        !rfc3339_text(created_at.secs, created_at.nanos).contains('|'),
        rfc3339_parsed(rfc3339_text(created_at.secs, created_at.nanos)) == Some(
            (created_at.secs, created_at.nanos),
        ),
        uuid_parsed(uuid_text(id)) == Some(id),
        base64_bytes(cursor_text(created_at, id)) == Some(
            encode_utf8(cursor_plain(created_at, id)),
        ),
    ensures
        cursor_place(cursor_text(created_at, id)) == Some((created_at, id)),
{
    let plain = cursor_plain(created_at, id);
    law_places_stand_around_the_first_bar(
        rfc3339_text(created_at.secs, created_at.nanos),
        uuid_text(id),
    );
    vstd::utf8::encode_utf8_valid_utf8(plain);
    vstd::utf8::encode_utf8_decode_utf8(plain);
}

} // verus!
