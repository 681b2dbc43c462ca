//! Laws of the encoding: what holds of every input, proved from the
//! definitions that the writers' contracts are stated over.

use vstd::prelude::*;
use crate::encode::{
    Outcome, chain, decimal, escape, escape_byte, escape_within, fits, header_line,
    header_outcome, hex_upper, method_outcome, refused, request_line, request_line_outcome, sp,
    status_line, status_line_outcome, uri_outcome, valid_method, valid_uri, valid_version,
};
use crate::grammar::{is_field_value, is_token, is_unreserved, is_uri_plain};
use crate::types::{Error, Method, Uri, Version};

verus! {

/// The value of an upper-case hexadecimal digit.
pub open spec fn hex_value(d: u8) -> int {
    if 0x30 <= d <= 0x39 {
        d - 0x30
    } else {
        d - 0x41 + 10
    }
}

/// Percent-decoding: `%` and two hexadecimal digits stand for one byte,
/// every other byte stands for itself.
pub open spec fn unescape(e: Seq<u8>) -> Seq<u8>
    decreases e.len(),
{
    if e.len() == 0 {
        Seq::empty()
    } else if e[0] == 0x25 && e.len() >= 3 {
        seq![(hex_value(e[1]) * 16 + hex_value(e[2])) as u8] + unescape(e.skip(3))
    } else {
        seq![e[0]] + unescape(e.skip(1))
    }
}

/// The number of leading bytes of `s` whose percent-encoding fits into
/// `room` bytes.
pub open spec fn fitting(s: Seq<u8>, room: int) -> int
    decreases s.len(),
{
    if s.len() == 0 || escape_byte(s[0]).len() > room {
        0
    } else {
        1 + fitting(s.skip(1), room - escape_byte(s[0]).len())
    }
}

/// The percent-encoding of a sequence is the encoding of its parts, one
/// after the other.
pub proof fn lemma_escape_concat(a: Seq<u8>, b: Seq<u8>)
    ensures
        escape(a + b) == escape(a) + escape(b),
    decreases a.len(),
{
    if a.len() == 0 {
        assert(a + b =~= b);
        assert(escape(a) + escape(b) =~= escape(b));
    } else {
        lemma_escape_concat(a.skip(1), b);
        assert((a + b).skip(1) =~= a.skip(1) + b);
        assert((a + b)[0] == a[0]);
        assert(escape_byte(a[0]) + (escape(a.skip(1)) + escape(b)) =~= escape_byte(a[0]) + escape(
            a.skip(1),
        ) + escape(b));
    }
}

/// An identifier made of unreserved characters only is encoded as itself.
pub proof fn law_unreserved_is_verbatim(s: Seq<u8>)
    requires
        forall|i: int| 0 <= i < s.len() ==> is_unreserved(#[trigger] s[i]),
    ensures
        escape(s) == s,
    decreases s.len(),
{
    if s.len() == 0 {
        assert(escape(s) =~= s);
    } else {
        let rest = s.skip(1);
        assert forall|i: int| 0 <= i < rest.len() implies is_unreserved(#[trigger] rest[i]) by {
            assert(rest[i] == s[i + 1]);
        }
        law_unreserved_is_verbatim(rest);
        assert(is_unreserved(s[0]));
        assert(seq![s[0]] + rest =~= s);
    }
}

/// A space is encoded as the three bytes `%20`, wherever it stands.
pub proof fn law_space_is_percent_20(before: Seq<u8>, after: Seq<u8>)
    ensures
        escape(before + seq![0x20u8] + after) == escape(before) + seq![0x25u8, 0x32u8, 0x30u8]
            + escape(after),
{
    let space = seq![0x20u8];
    lemma_escape_concat(before + space, after);
    lemma_escape_concat(before, space);
    assert(space.skip(1) =~= Seq::<u8>::empty());
    assert(escape(space) =~= seq![0x25u8, 0x32u8, 0x30u8]) by {
        assert(escape(space.skip(1)) =~= Seq::<u8>::empty());
        assert(escape_byte(0x20u8) =~= seq![0x25u8, 0x32u8, 0x30u8]);
    }
}

/// Decoding the percent-encoding of any byte sequence gives the sequence
/// back.
pub proof fn law_round_trip(s: Seq<u8>)
    ensures
        unescape(escape(s)) == s,
    decreases s.len(),
{
    if s.len() == 0 {
        assert(unescape(escape(s)) =~= s);
    } else {
        let b = s[0];
        let rest = escape(s.skip(1));
        let e = escape(s);
        law_round_trip(s.skip(1));
        if is_uri_plain(b) {
            assert(e.skip(1) =~= rest);
            assert(e[0] == b);
            assert(seq![b] + s.skip(1) =~= s);
        } else {
            let hi = hex_upper(b as int / 16);
            let lo = hex_upper(b as int % 16);
            assert(e.skip(3) =~= rest);
            assert(e[0] == 0x25 && e[1] == hi && e[2] == lo);
            assert(hex_value(hi) == b as int / 16);
            assert(hex_value(lo) == b as int % 16);
            assert(seq![b] + s.skip(1) =~= s);
        }
    }
}

/// An encoding that fits is written whole.
pub proof fn lemma_escape_within_whole(s: Seq<u8>, room: int)
    requires
        escape(s).len() <= room,
    ensures
        escape_within(s, room) == escape(s),
    decreases s.len(),
{
    if s.len() > 0 {
        lemma_escape_within_whole(s.skip(1), room - escape_byte(s[0]).len());
    }
}

/// What is written of an encoding that does not fit is the encoding of the
/// bytes that fit, and the next byte's encoding is longer than the room
/// that they leave.
pub proof fn law_escape_within_is_a_prefix(s: Seq<u8>, room: int)
    requires
        0 <= room < escape(s).len(),
    ensures
        0 <= fitting(s, room) < s.len(),
        escape_within(s, room) == escape(s.take(fitting(s, room))),
        escape_within(s, room).len() <= room,
        escape(s.take(fitting(s, room) + 1)).len() > room,
    decreases s.len(),
{
    if s.len() == 0 {
    } else if escape_byte(s[0]).len() > room {
        assert(s.take(0) =~= Seq::<u8>::empty());
        assert(s.take(1).skip(1) =~= Seq::<u8>::empty());
        assert(escape(s.take(1).skip(1)) =~= Seq::<u8>::empty());
        assert(s.take(1)[0] == s[0]);
    } else {
        let first = escape_byte(s[0]);
        let k = fitting(s.skip(1), room - first.len());
        law_escape_within_is_a_prefix(s.skip(1), room - first.len());
        assert(s.take(k + 1).skip(1) =~= s.skip(1).take(k));
        assert(s.take(k + 1)[0] == s[0]);
        assert(s.take(k + 2).skip(1) =~= s.skip(1).take(k + 1));
        assert(s.take(k + 2)[0] == s[0]);
    }
}

/// An unescaped identifier without bytes is refused as invalid, whatever
/// the room.
pub proof fn law_empty_uri_is_invalid(u: Uri, room: int)
    requires
        !u.is_escaped(),
        u.bytes().len() == 0,
    ensures
        uri_outcome(u, room) == refused(Error::InvalidUri),
{
}

/// A header whose name holds a space is refused for its name, whatever
/// the value and the room, and nothing is written.
pub proof fn law_space_in_header_name(name: Seq<u8>, value: Seq<u8>, room: int, i: int)
    requires
        0 <= i < name.len(),
        name[i] == 0x20,
    ensures
        !is_token(name),
        header_outcome(name, value, room) == refused(Error::InvalidHeaderKey),
{
}

/// A header with a legal name whose value holds a carriage return or a
/// line feed is refused for its value, whatever the room, and nothing is
/// written.
pub proof fn law_line_break_in_header_value(name: Seq<u8>, value: Seq<u8>, room: int, i: int)
    requires
        is_token(name),
        0 <= i < value.len(),
        value[i] == 0x0d || value[i] == 0x0a,
    ensures
        !is_field_value(value),
        header_outcome(name, value, room) == refused(Error::InvalidHeaderValue),
{
}

/// An all-or-nothing write of exactly as many bytes as there is room
/// succeeds; with one byte more it fails and writes nothing.
pub proof fn law_exact_room(data: Seq<u8>, room: int)
    ensures
        data.len() == room ==> fits(data, room) == (Outcome { written: data, error: None }),
        data.len() == room + 1 ==> fits(data, room) == refused(Error::OutOfBuffer),
{
}

/// A legal header is written if and only if its line fits, and then the
/// line is all that is written.
pub proof fn law_header_needs_its_length(name: Seq<u8>, value: Seq<u8>, room: int)
    requires
        is_token(name),
        is_field_value(value),
    ensures
        header_line(name, value).len() == name.len() + value.len() + 4,
        name.len() + value.len() + 4 <= room ==> header_outcome(name, value, room) == (Outcome {
            written: header_line(name, value),
            error: None,
        }),
        name.len() + value.len() + 4 > room ==> header_outcome(name, value, room) == refused(
            Error::OutOfBuffer,
        ),
{
}

/// A request line is written without error if and only if its parts are
/// valid and the whole line fits, and then the whole line is written. With
/// valid parts, a line that is too long runs out of buffer.
pub proof fn law_request_line(m: Method, u: Uri, v: Version, room: int)
    ensures
        request_line_outcome(m, u, v, room).error is None <==> valid_method(m) && valid_uri(u)
            && valid_version(v) && request_line(m, u, v).len() <= room,
        request_line_outcome(m, u, v, room).error is None ==> request_line_outcome(
            m,
            u,
            v,
            room,
        ).written == request_line(m, u, v),
        valid_method(m) && valid_uri(u) && valid_version(v) && request_line(m, u, v).len() > room
            ==> request_line_outcome(m, u, v, room).error == Some(Error::OutOfBuffer),
{
    let a = method_outcome(m, room);
    let b = chain(a, fits(sp(), room - a.written.len()));
    let room_c = room - b.written.len();
    if !u.is_escaped() && u.bytes().len() > 0 && escape(u.bytes()).len() <= room_c {
        lemma_escape_within_whole(u.bytes(), room_c);
    }
    if request_line_outcome(m, u, v, room).error is None {
        assert(request_line_outcome(m, u, v, room).written =~= request_line(m, u, v));
    }
}

/// A status line is written without error if and only if its version is
/// valid and the whole line fits, and then the whole line is written. With
/// a valid version, a line that is too long runs out of buffer.
pub proof fn law_status_line(v: Version, code: nat, reason: Seq<u8>, room: int)
    ensures
        status_line_outcome(v, code, reason, room).error is None <==> valid_version(v)
            && status_line(v, code, reason).len() <= room,
        status_line_outcome(v, code, reason, room).error is None ==> status_line_outcome(
            v,
            code,
            reason,
            room,
        ).written == status_line(v, code, reason),
        valid_version(v) && status_line(v, code, reason).len() > room ==> status_line_outcome(
            v,
            code,
            reason,
            room,
        ).error == Some(Error::OutOfBuffer),
{
    if status_line_outcome(v, code, reason, room).error is None {
        assert(status_line_outcome(v, code, reason, room).written =~= status_line(
            v,
            code,
            reason,
        ));
    }
}

/// A status code below 1000 is written as one to three decimal digits.
pub proof fn law_status_digits(code: nat)
    requires
        code < 1000,
    ensures
        1 <= decimal(code).len() <= 3,
        forall|i: int| 0 <= i < decimal(code).len() ==> 0x30 <= #[trigger] decimal(code)[i] <= 0x39,
        code >= 10 ==> decimal(code)[0] != 0x30,
{
    reveal_with_fuel(decimal, 3);
}

} // verus!
