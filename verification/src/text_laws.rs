//! What holds of texts, cookies, ratings and points in time.

use crate::auth::{clear_session_headers, session_headers};
use crate::clock::{rfc3339_text, Timestamp};
use crate::errors::{AppError, Failure};
use crate::headers::{cookie_headers, fits_header, header_lines, lines_under, set_cookie_headers};
use crate::models::AuthSession;
use crate::rating::{
    double_value, is_between, lemma_between_one_and_five, validate_rating,
};
use crate::text::{ascii_lowered, is_white_space, occurs, occurs_at, trimmed};
use crate::value::{Json, Number, Value};
use axum::http::{HeaderMap, HeaderValue};
use vstd::prelude::*;

verus! {

/// What is printable in ASCII is no white space but for the blank; the tab, the line feed, the
/// carriage return and the blanks of other widths are.
pub proof fn law_white_space(c: char)
    ensures
        (c as u32) < 128 ==> (is_white_space(c) <==> 9 <= c as u32 <= 13 || c as u32 == 32),
        (c as u32) >= 128 ==> (is_white_space(c) <==> {
            let code = c as u32;
            ||| code == 0x85 || code == 0xa0 || code == 0x1680
            ||| 0x2000 <= code <= 0x200a
            ||| code == 0x2028 || code == 0x2029 || code == 0x202f
            ||| code == 0x205f || code == 0x3000
        }),
{
}

/// Three texts, one after the other.
pub open spec fn joined(before: Seq<char>, part: Seq<char>, after: Seq<char>) -> Seq<char> {
    before + part + after
}

/// All of the text is white space.
pub open spec fn is_blank(text: Seq<char>) -> bool {
    forall|i: int| 0 <= i < text.len() ==> is_white_space(#[trigger] text[i])
}

/// To trim a text takes nothing off but white space at its ends.
pub proof fn law_trim_takes_white_space(text: Seq<char>)
    ensures
        exists|before: Seq<char>, after: Seq<char>|
            is_blank(before) && is_blank(after) && text == #[trigger] joined(
                before,
                trimmed(text),
                after,
            ),
        trimmed(text).len() == 0 <==> is_blank(text),
    decreases text.len(),
{
    let inner = trimmed(text);
    if text.len() > 0 && is_white_space(text.first()) {
        let rest = text.drop_first();
        law_trim_takes_white_space(rest);
        let (b, a): (Seq<char>, Seq<char>) = choose|b: Seq<char>, a: Seq<char>|
            is_blank(b) && is_blank(a) && rest == #[trigger] joined(b, inner, a);
        let before = seq![text.first()] + b;
        assert(is_blank(before));
        assert(text =~= seq![text.first()] + rest);
        assert(text =~= joined(before, inner, a));
        assert(is_blank(rest) ==> is_blank(text)) by {
            assert forall|i: int| is_blank(rest) && 0 <= i < text.len() implies is_white_space(
                #[trigger] text[i],
            ) by {
                if i > 0 {
                    assert(rest[i - 1] == text[i]);
                }
            }
        }
        assert forall|i: int| is_blank(text) && 0 <= i < rest.len() implies is_white_space(
            #[trigger] rest[i],
        ) by {
            assert(rest[i] == text[i + 1]);
        }
    } else if text.len() > 0 && is_white_space(text.last()) {
        let rest = text.drop_last();
        law_trim_takes_white_space(rest);
        let (b, a): (Seq<char>, Seq<char>) = choose|b: Seq<char>, a: Seq<char>|
            is_blank(b) && is_blank(a) && rest == #[trigger] joined(b, inner, a);
        let after = a.push(text.last());
        assert(is_blank(after));
        assert(text =~= rest.push(text.last()));
        assert(text =~= joined(b, inner, after));
        assert forall|i: int| is_blank(rest) && 0 <= i < text.len() implies is_white_space(
            #[trigger] text[i],
        ) by {
            if i < rest.len() {
                assert(rest[i] == text[i]);
            }
        }
        assert forall|i: int| is_blank(text) && 0 <= i < rest.len() implies is_white_space(
            #[trigger] rest[i],
        ) by {
            assert(rest[i] == text[i]);
        }
    } else {
        let none = Seq::<char>::empty();
        assert(is_blank(none));
        assert(text =~= joined(none, inner, none));
        if text.len() > 0 {
            assert(!is_white_space(text[0]));
        }
    }
}

/// Lower case in ASCII changes the capitals, each into the letter that is 32 places on, and leaves
/// every other character and the length as they are.
pub proof fn law_ascii_lowered(text: Seq<char>, at: int)
    requires
        0 <= at < text.len(),
    ensures
        ascii_lowered(text).len() == text.len(),
        65 <= text[at] as u32 <= 90 ==> ascii_lowered(text)[at] as u32 == text[at] as u32 + 32,
        !(65 <= text[at] as u32 <= 90) ==> ascii_lowered(text)[at] == text[at],
{
}

/// A text occurs in another just when the other is made of it and what stands around it.
pub proof fn law_occurs(text: Seq<char>, part: Seq<char>)
    ensures
        occurs(text, part) <==> exists|before: Seq<char>, after: Seq<char>|
            text == #[trigger] joined(before, part, after),
{
    if occurs(text, part) {
        let at = choose|at: int| occurs_at(text, part, at);
        let before = text.take(at);
        let after = text.skip(at + part.len());
        assert forall|i: int| 0 <= i < text.len() implies text[i] == joined(
            before,
            part,
            after,
        )[i] by {
            if at <= i < at + part.len() {
                assert(text.subrange(at, at + part.len())[i - at] == part[i - at]);
            }
        }
        assert(text =~= joined(before, part, after));
    }
    if exists|before: Seq<char>, after: Seq<char>| text == #[trigger] joined(before, part, after) {
        let (before, after): (Seq<char>, Seq<char>) = choose|
            before: Seq<char>,
            after: Seq<char>,
        | text == #[trigger] joined(before, part, after);
        let at = before.len() as int;
        assert(text.subrange(at, at + part.len()) =~= part);
        assert(occurs_at(text, part, at));
    }
}

/// Every character has a code that a header takes: none below 32 but the tab, and not 127.
pub open spec fn is_header_text(text: Seq<char>) -> bool {
    forall|i: int|
        0 <= i < text.len() ==> ((#[trigger] text[i]) as int == 9 || (text[i] as int >= 32
            && text[i] as int != 127))
}

/// The values under `set-cookie`, and no value under any other name, for a list of cookies.
pub open spec fn sets(headers: HeaderMap<HeaderValue>, cookies: Seq<String>) -> bool {
    let lines = cookies.filter(|cookie: String| is_header_text(cookie@)).map_values(
        |cookie: String| vstd::utf8::encode_utf8(cookie@),
    );
    &&& forall|name: Seq<char>| #[trigger]
        header_lines(headers).contains_key(name) <==> name == "set-cookie"@ && lines.len() > 0
    &&& lines.len() > 0 ==> header_lines(headers)["set-cookie"@] == lines
}

/// The headers that a list of cookies makes are those of the cookies that a header takes, all of
/// them and in their order.
pub proof fn law_cookie_headers(headers: HeaderMap<HeaderValue>, cookies: Seq<String>)
    requires
        header_lines(headers) == cookie_headers(cookies),
    ensures
        sets(headers, cookies),
{
    crate::laws::law_cookies(cookies);
    let takes = |cookie: String| is_header_text(cookie@);
    let fits = |cookie: String| fits_header(cookie@);
    assert forall|cookie: String| #[trigger] takes(cookie) == fits(cookie) by {
        let text = cookie@;
        if is_header_text(text) {
            assert forall|i: int| 0 <= i < text.len() implies {
                ||| (#[trigger] text[i]) >= '\u{20}' && text[i] != '\u{7f}'
                ||| text[i] == '\u{9}'
            } by {}
            assert(fits_header(text));
        }
        if fits_header(text) {
            assert forall|i: int| 0 <= i < text.len() implies ((#[trigger] text[i]) as int == 9 || (
            text[i] as int >= 32 && text[i] as int != 127)) by {}
            assert(is_header_text(text));
        }
    }
    assert(takes =~= fits);
}

/// The cookies of a session, and those that end one, all become headers.
pub proof fn law_session_cookies(
    session: AuthSession,
    cookies: Vec<String>,
    opened: HeaderMap<HeaderValue>,
    ended: HeaderMap<HeaderValue>,
    set: HeaderMap<HeaderValue>,
)
    requires
        call_ensures(session_headers, (&session,), opened),
        call_ensures(clear_session_headers, (&cookies,), ended),
        call_ensures(set_cookie_headers, (&cookies,), set),
    ensures
        sets(opened, session.cookies@),
        sets(ended, cookies@),
        sets(set, cookies@),
{
    law_cookie_headers(opened, session.cookies@);
    law_cookie_headers(ended, cookies@);
    law_cookie_headers(set, cookies@);
}

/// The values under a name are found under it, and there are none where the name is not.
pub proof fn law_lines_under(lines: Map<Seq<char>, Seq<Seq<u8>>>, name: Seq<char>)
    ensures
        lines.contains_key(name) ==> lines_under(lines, name) == lines[name],
        !lines.contains_key(name) ==> lines_under(lines, name).len() == 0,
{
}

/// The ratings are the doubles from 1 to 5, both included; by their bit patterns these are the ones
/// from that of 1 to that of 5, and anything else is refused with one message.
pub proof fn law_validate_rating(rating: u64, result: Result<(), AppError>)
    requires
        call_ensures(validate_rating, (rating,), result),
    ensures
        result is Ok <==> 0x3ff0_0000_0000_0000 <= rating <= 0x4014_0000_0000_0000,
        result is Ok <==> is_between(rating, 1, 5),
        result matches Err(error) ==> error@ == Failure::BadRequest(
            "Rating must be between 1 and 5"@,
        ),
{
    lemma_between_one_and_five(rating);
}

/// A double that is a number is itself in JSON, and one that is none is null: by its bit pattern
/// without the sign it is a number just when it is below that of infinity.
pub proof fn law_double_value(bits: u64, value: Value)
    requires
        call_ensures(double_value, (bits,), value),
    ensures
        bits % 0x8000_0000_0000_0000 < 0x7ff0_0000_0000_0000 ==> value@ == Json::Number(
            Number::Float(bits),
        ),
        bits % 0x8000_0000_0000_0000 >= 0x7ff0_0000_0000_0000 ==> value@ == Json::Null,
{
    assert((bits / 0x10_0000_0000_0000) % 0x800 != 0x7ff <==> bits % 0x8000_0000_0000_0000
        < 0x7ff0_0000_0000_0000) by (bit_vector);
}

/// Every second that has a date makes a point in time, and no other one does.
pub proof fn law_time(secs: i64, nanos: u32, time: Option<Timestamp>)
    requires
        call_ensures(Timestamp::new, (secs, nanos), time),
    ensures
        time is Some <==> -8334601228800 <= secs <= 8210266876799 && nanos <= 999_999_999,
        time matches Some(time) ==> time.secs() == secs && time.nanos() == nanos,
{
}

/// A point in time is written as its seconds and nanoseconds are, and one that lies some seconds
/// before it as so many seconds less are.
pub proof fn law_time_written(
    secs: i64,
    nanos: u32,
    seconds: u32,
    time: Option<Timestamp>,
    earlier: Timestamp,
    text: String,
    earlier_text: String,
)
    requires
        call_ensures(Timestamp::new, (secs, nanos), time),
        time is Some,
        call_ensures(Timestamp::before, (time->0, seconds), earlier),
        call_ensures(Timestamp::to_rfc3339, (time->0,), text),
        call_ensures(Timestamp::to_rfc3339, (earlier,), earlier_text),
    ensures
        text@ == rfc3339_text(secs, nanos),
        earlier_text@ == rfc3339_text((secs - seconds) as i64, nanos),
{
}

} // verus!
