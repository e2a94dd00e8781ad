//! Identifiers and timestamps: UUID-backed ids, their textual forms and
//! the clock.
use vstd::prelude::*;
use crate::text::push_char;

verus! {

/// The lowercase hexadecimal digit for a value below sixteen.
pub open spec fn hex_digit(d: nat) -> char {
    if d < 10 {
        (d + 48) as char
    } else {
        (d + 87) as char
    }
}

/// The lowest `width` hexadecimal digits of `x`, most significant first.
pub open spec fn hex_text(x: nat, width: nat) -> Seq<char>
    decreases width,
{
    if width == 0 {
        Seq::empty()
    } else {
        hex_text(x / 16, (width - 1) as nat).push(hex_digit(x % 16))
    }
}

/// The hyphenated form of a UUID: 32 lowercase hex digits in groups of
/// 8-4-4-4-12.
pub open spec fn uuid_text(x: u128) -> Seq<char> {
    let h = hex_text(x as nat, 32);
    h.subrange(0, 8) + seq!['-'] + h.subrange(8, 12) + seq!['-'] + h.subrange(12, 16) + seq!['-']
        + h.subrange(16, 20) + seq!['-'] + h.subrange(20, 32)
}

/// Renders a UUID in its hyphenated form (`uuid::Uuid::hyphenated`).
/// Claimed: the text is the 32 lowercase hex digits of the value, most
/// significant first, grouped 8-4-4-4-12 by hyphens, as the crate documents.
#[verifier::external_body]
pub(crate) fn uuid_string(x: u128) -> (s: String)
    ensures
        s@ == uuid_text(x),
{
    uuid::Uuid::from_u128(x).hyphenated().to_string()
}

/// A fresh time-ordered UUID (`uuid::Uuid::now_v7`). Claimed: it is not the
/// nil UUID (its version field is 7); nothing else, since it depends on the
/// clock and on randomness.
#[verifier::external_body]
pub(crate) fn new_uuid_v7() -> (x: u128)
    ensures
        x != 0,
{
    uuid::Uuid::now_v7().as_u128()
}

/// The current time as milliseconds since the Unix epoch
/// (`chrono::Utc::now`). Nothing is claimed of the value.
#[verifier::external_body]
pub(crate) fn now_millis() -> (t: i64) {
    chrono::Utc::now().timestamp_millis()
}

/// The name for what `chrono` prints for a UTC instant, given in
/// milliseconds since the epoch, with the format `%Y-%m-%dT%H:%M:%SZ`;
/// `None` for an instant outside chrono's range.
pub uninterp spec fn utc_seconds_text(millis: i64) -> Option<Seq<char>>;

/// Formats a UTC instant as `%Y-%m-%dT%H:%M:%SZ` through `chrono`
/// (`DateTime::from_timestamp_millis` then `format`). Claimed: the result
/// is `utc_seconds_text(millis)`, a function of the instant alone.
#[verifier::external_body]
pub(crate) fn utc_seconds_string(millis: i64) -> (r: Option<String>)
    ensures
        match r {
            Some(s) => utc_seconds_text(millis) == Some(s@),
            None => utc_seconds_text(millis) is None,
        },
{
    match chrono::DateTime::from_timestamp_millis(millis) {
        Some(d) => Some(d.format("%Y-%m-%dT%H:%M:%SZ").to_string()),
        None => None,
    }
}

/// `name(` + hyphenated uuid + `)`: how a newtype id around a UUID prints
/// with `{:?}`.
pub open spec fn id_debug_text(name: Seq<char>, id: u128) -> Seq<char> {
    name.push('(') + uuid_text(id) + seq![')']
}

/// Appends `name(uuid)`.
pub fn push_id_debug(out: &mut String, name: &str, id: u128)
    ensures
        final(out)@ == old(out)@ + id_debug_text(name@, id),
{
    out.append(name);
    push_char(out, '(');
    let u = uuid_string(id);
    out.append(u.as_str());
    push_char(out, ')');
    assert(out@ =~= old(out)@ + id_debug_text(name@, id));
}

} // verus!
