//! Values as messages show them in full.

use vstd::prelude::*;
use vstd::string::*;

use crate::error::{Error, PlacementErrorDetails};
use crate::geom::{Axis, ClampFlags, Rect};
use crate::place::adapter::{calls_of, FakeCall, FakeOp};
use crate::place::common::{
    kind_name, kind_text, order_name, order_text, AttemptRecord, AttemptTimeline,
};
use crate::place::engine::PlacementFailureContext;
use crate::smoketest::windows::{format_points, points_text};
use crate::text::{
    bool_text, bool_word, chars_of, dec, dec_int, decimal, decimal_signed, digit_char, join, joined,
    texts,
};

verus! {

/// Whether a character is a control character.
pub open spec fn is_control(c: char) -> bool {
    c as u32 <= 0x1f || 0x7f <= c as u32 <= 0x9f
}

/// The hexadecimal digit for `d`.
pub open spec fn hex_char(d: int) -> char {
    if d < 10 {
        digit_char(d)
    } else if d == 10 {
        'a'
    } else if d == 11 {
        'b'
    } else if d == 12 {
        'c'
    } else if d == 13 {
        'd'
    } else if d == 14 {
        'e'
    } else {
        'f'
    }
}

/// A number below 256 in hexadecimal.
pub open spec fn hex(n: int) -> Seq<char> {
    if n < 16 {
        seq![hex_char(n)]
    } else {
        seq![hex_char(n / 16), hex_char(n % 16)]
    }
}

/// A character between quotes: quotes, backslashes and control characters are escaped,
/// every other character stands for itself.
pub open spec fn escaped_char(c: char) -> Seq<char> {
    if c == '"' {
        seq!['\\', '"']
    } else if c == '\\' {
        seq!['\\', '\\']
    } else if c == '\n' {
        seq!['\\', 'n']
    } else if c == '\r' {
        seq!['\\', 'r']
    } else if c == '\t' {
        seq!['\\', 't']
    } else if c == '\0' {
        seq!['\\', '0']
    } else if is_control(c) {
        seq!['\\', 'u', '{'] + hex(c as int) + seq!['}']
    } else {
        seq![c]
    }
}

/// A text between quotes, without the quotes.
pub open spec fn escaped(s: Seq<char>) -> Seq<char>
    decreases s.len(),
{
    if s.len() == 0 {
        Seq::empty()
    } else {
        escaped(s.drop_last()) + escaped_char(s.last())
    }
}

/// A text in quotes.
pub open spec fn text_dump(s: Seq<char>) -> Seq<char> {
    "\""@ + escaped(s) + "\""@
}

fn hex_digit(d: u32) -> (c: char)
    requires
        d < 16,
    ensures
        c == hex_char(d as int),
{
    match d {
        0 => '0',
        1 => '1',
        2 => '2',
        3 => '3',
        4 => '4',
        5 => '5',
        6 => '6',
        7 => '7',
        8 => '8',
        9 => '9',
        10 => 'a',
        11 => 'b',
        12 => 'c',
        13 => 'd',
        14 => 'e',
        _ => 'f',
    }
}

fn push_escaped(out: &mut String, c: char)
    ensures
        final(out)@ == old(out)@ + escaped_char(c),
{
    let ghost before = out@;
    let short: Option<char> = if c == '"' {
        Some('"')
    } else if c == '\\' {
        Some('\\')
    } else if c == '\n' {
        Some('n')
    } else if c == '\r' {
        Some('r')
    } else if c == '\t' {
        Some('t')
    } else if c == '\0' {
        Some('0')
    } else {
        None
    };
    let n: u32 = c as u32;
    match short {
        Some(s) => {
            out.push('\\');
            out.push(s);
        },
        None => {
            if n <= 0x1f || (0x7f <= n && n <= 0x9f) {
                out.push('\\');
                out.push('u');
                out.push('{');
                if n >= 16 {
                    out.push(hex_digit(n / 16));
                }
                out.push(hex_digit(n % 16));
                out.push('}');
            } else {
                out.push(c);
            }
        },
    }
    assert(out@ =~= before + escaped_char(c));
}

/// A text in quotes.
pub fn dump_text(s: &str) -> (r: String)
    ensures
        r@ == text_dump(s@),
{
    let chars = chars_of(s);
    let mut out = "\"".to_owned();
    let mut i: usize = 0;
    while i < chars.len()
        invariant
            i <= chars@.len(),
            chars@ == s@,
            out@ == "\""@ + escaped(s@.take(i as int)),
        decreases chars@.len() - i,
    {
        let ghost before = out@;
        push_escaped(&mut out, chars[i]);
        assert(s@.take(i + 1).drop_last() =~= s@.take(i as int));
        assert(out@ =~= "\""@ + escaped(s@.take(i + 1)));
        i = i + 1;
    }
    assert(s@.take(i as int) =~= s@);
    out.append("\"");
    out
}

/// An optional value, given how it is shown.
pub open spec fn option_of(shown: Option<Seq<char>>) -> Seq<char> {
    match shown {
        Some(s) => "Some("@ + s + ")"@,
        None => "None"@,
    }
}

/// An optional text.
pub open spec fn optional_text_dump(t: Option<String>) -> Seq<char> {
    match t {
        Some(s) => option_of(Some(text_dump(s@))),
        None => option_of(None),
    }
}

/// An optional text.
pub fn dump_optional_text(t: &Option<String>) -> (r: String)
    ensures
        r@ == optional_text_dump(*t),
{
    match t {
        Some(s) => {
            let mut out = "Some(".to_owned();
            out.append(dump_text(s.as_str()).as_str());
            out.append(")");
            out
        },
        None => "None".to_owned(),
    }
}

/// Values in brackets.
pub open spec fn list_dump(shown: Seq<Seq<char>>) -> Seq<char> {
    "["@ + joined(shown, ", "@) + "]"@
}

/// Values in brackets.
pub fn dump_list(parts: &Vec<String>) -> (r: String)
    ensures
        r@ == list_dump(texts(parts@)),
{
    let mut out = "[".to_owned();
    out.append(join(parts, ", ").as_str());
    out.append("]");
    out
}

/// A coordinate in points, with a decimal point in any case.
pub open spec fn coord_dump(units: i64) -> Seq<char> {
    points_text(units as int) + (if units % 1024 == 0 {
        ".0"@
    } else {
        ""@
    })
}

fn dump_coord(units: i64) -> (r: String)
    ensures
        r@ == coord_dump(units),
{
    let mut out = format_points(units as i128);
    let whole: i128 = if units < 0 {
        -(units as i128)
    } else {
        units as i128
    };
    if whole % 1024 == 0 {
        out.append(".0");
    } else {
        out.append("");
    }
    out
}

/// A rectangle.
pub open spec fn rect_dump(r: Rect) -> Seq<char> {
    "Rect { x: "@ + coord_dump(r.x) + ", y: "@ + coord_dump(r.y) + ", w: "@ + coord_dump(r.w)
        + ", h: "@ + coord_dump(r.h) + " }"@
}

/// A rectangle.
pub fn dump_rect(r: &Rect) -> (s: String)
    ensures
        s@ == rect_dump(*r),
{
    let mut s = "Rect { x: ".to_owned();
    s.append(dump_coord(r.x).as_str());
    s.append(", y: ");
    s.append(dump_coord(r.y).as_str());
    s.append(", w: ");
    s.append(dump_coord(r.w).as_str());
    s.append(", h: ");
    s.append(dump_coord(r.h).as_str());
    s.append(" }");
    s
}

/// Edges that coincide.
pub open spec fn flags_dump(f: ClampFlags) -> Seq<char> {
    "ClampFlags { left: "@ + bool_word(f.left) + ", right: "@ + bool_word(f.right) + ", bottom: "@
        + bool_word(f.bottom) + ", top: "@ + bool_word(f.top) + " }"@
}

fn dump_flags(f: &ClampFlags) -> (s: String)
    ensures
        s@ == flags_dump(*f),
{
    let mut s = "ClampFlags { left: ".to_owned();
    s.append(bool_text(f.left));
    s.append(", right: ");
    s.append(bool_text(f.right));
    s.append(", bottom: ");
    s.append(bool_text(f.bottom));
    s.append(", top: ");
    s.append(bool_text(f.top));
    s.append(" }");
    s
}

/// An attempt.
pub open spec fn attempt_dump(a: AttemptRecord) -> Seq<char> {
    "AttemptRecord { kind: "@ + kind_name(a.kind) + ", order: "@ + order_name(a.order)
        + ", attempt_idx: "@ + dec(a.attempt_idx as nat) + ", settle_ms: "@ + dec(
        a.settle_ms as nat,
    ) + ", verified: "@ + bool_word(a.verified) + " }"@
}

fn dump_attempt(a: &AttemptRecord) -> (s: String)
    ensures
        s@ == attempt_dump(*a),
{
    let mut s = "AttemptRecord { kind: ".to_owned();
    s.append(kind_text(a.kind));
    s.append(", order: ");
    s.append(order_text(a.order));
    s.append(", attempt_idx: ");
    s.append(decimal(a.attempt_idx as u64).as_str());
    s.append(", settle_ms: ");
    s.append(decimal(a.settle_ms).as_str());
    s.append(", verified: ");
    s.append(bool_text(a.verified));
    s.append(" }");
    s
}

/// Each attempt of a placement.
pub open spec fn attempt_dumps(attempts: Seq<AttemptRecord>) -> Seq<Seq<char>> {
    Seq::new(attempts.len(), |i: int| attempt_dump(attempts[i]))
}

/// The attempts of a placement.
pub open spec fn timeline_dump(attempts: Seq<AttemptRecord>) -> Seq<char> {
    "AttemptTimeline { entries: "@ + list_dump(attempt_dumps(attempts)) + " }"@
}

fn dump_timeline(t: &AttemptTimeline) -> (s: String)
    ensures
        s@ == timeline_dump(t@),
{
    let entries = t.entries();
    let mut parts: Vec<String> = Vec::new();
    let mut i: usize = 0;
    while i < entries.len()
        invariant
            i <= entries@.len(),
            texts(parts@) =~= attempt_dumps(entries@).take(i as int),
        decreases entries@.len() - i,
    {
        let ghost before = parts@;
        parts.push(dump_attempt(&entries[i]));
        assert(texts(parts@) =~= texts(before).push(attempt_dump(entries@[i as int])));
        i = i + 1;
    }
    assert(texts(parts@) =~= attempt_dumps(entries@));
    let mut s = "AttemptTimeline { entries: ".to_owned();
    s.append(dump_list(&parts).as_str());
    s.append(" }");
    s
}

/// The account of a placement that failed.
pub open spec fn failure_dump(f: PlacementFailureContext) -> Seq<char> {
    "PlacementFailureContext { got: "@ + rect_dump(f.got) + ", clamped: "@ + flags_dump(f.clamped)
        + ", visible_frame: "@ + rect_dump(f.visible_frame) + ", timeline: "@ + timeline_dump(
        f.timeline@,
    ) + " }"@
}

/// The account of a placement that failed.
pub fn dump_failure(f: &PlacementFailureContext) -> (s: String)
    ensures
        s@ == failure_dump(*f),
{
    let mut s = "PlacementFailureContext { got: ".to_owned();
    s.append(dump_rect(&f.got).as_str());
    s.append(", clamped: ");
    s.append(dump_flags(&f.clamped).as_str());
    s.append(", visible_frame: ");
    s.append(dump_rect(&f.visible_frame).as_str());
    s.append(", timeline: ");
    s.append(dump_timeline(&f.timeline).as_str());
    s.append(" }");
    s
}

/// A request to the scripted adapter.
pub open spec fn call_dump(call: FakeCall) -> Seq<char> {
    match call {
        FakeCall::Apply { label, pos_first } => "Apply { label: "@ + text_dump(label)
            + ", pos_first: "@ + bool_word(pos_first) + " }"@,
        FakeCall::SizeOnly { label } => "SizeOnly { label: "@ + text_dump(label) + " }"@,
        FakeCall::Nudge { label, axis } => "Nudge { label: "@ + text_dump(label) + ", axis: "@ + (
        match axis {
            Axis::Horizontal => "Horizontal"@,
            Axis::Vertical => "Vertical"@,
        }) + " }"@,
        FakeCall::Fallback { label } => "Fallback { label: "@ + text_dump(label) + " }"@,
        FakeCall::Preflight { label } => "Preflight { label: "@ + text_dump(label) + " }"@,
    }
}

fn dump_op(op: &FakeOp) -> (s: String)
    ensures
        s@ == call_dump(op@),
{
    match op {
        FakeOp::Apply { label, pos_first } => {
            let mut s = "Apply { label: ".to_owned();
            s.append(dump_text(label.as_str()).as_str());
            s.append(", pos_first: ");
            s.append(bool_text(*pos_first));
            s.append(" }");
            s
        },
        FakeOp::SizeOnly { label } => {
            let mut s = "SizeOnly { label: ".to_owned();
            s.append(dump_text(label.as_str()).as_str());
            s.append(" }");
            s
        },
        FakeOp::Nudge { label, axis } => {
            let mut s = "Nudge { label: ".to_owned();
            s.append(dump_text(label.as_str()).as_str());
            s.append(", axis: ");
            s.append(
                match axis {
                    Axis::Horizontal => "Horizontal",
                    Axis::Vertical => "Vertical",
                },
            );
            s.append(" }");
            s
        },
        FakeOp::Fallback { label } => {
            let mut s = "Fallback { label: ".to_owned();
            s.append(dump_text(label.as_str()).as_str());
            s.append(" }");
            s
        },
        FakeOp::Preflight { label } => {
            let mut s = "Preflight { label: ".to_owned();
            s.append(dump_text(label.as_str()).as_str());
            s.append(" }");
            s
        },
    }
}

/// Each request to the scripted adapter.
pub open spec fn call_dumps(calls: Seq<FakeCall>) -> Seq<Seq<char>> {
    Seq::new(calls.len(), |i: int| call_dump(calls[i]))
}

/// The requests to the scripted adapter.
pub fn dump_ops(ops: &Vec<FakeOp>) -> (s: String)
    ensures
        s@ == list_dump(call_dumps(calls_of(ops@))),
{
    let mut parts: Vec<String> = Vec::new();
    let mut i: usize = 0;
    while i < ops.len()
        invariant
            i <= ops@.len(),
            texts(parts@) =~= call_dumps(calls_of(ops@)).take(i as int),
        decreases ops@.len() - i,
    {
        let ghost before = parts@;
        parts.push(dump_op(&ops[i]));
        assert(texts(parts@) =~= texts(before).push(call_dump(ops@[i as int]@)));
        i = i + 1;
    }
    assert(texts(parts@) =~= call_dumps(calls_of(ops@)));
    dump_list(&parts)
}

impl PlacementErrorDetails {
    /// The failure in words.
    pub open spec fn words(&self) -> Seq<char> {
        "expected "@ + rect_dump(self.expected) + " got "@ + rect_dump(self.got) + " epsilon="@
            + coord_dump(self.epsilon) + " clamped="@ + self.clamped.label() + " visible_frame="@
            + rect_dump(self.visible_frame) + " timeline="@ + timeline_dump(self.timeline@)
    }

    fn in_words(&self) -> (s: String)
        ensures
            s@ == self.words(),
    {
        let mut s = "expected ".to_owned();
        s.append(dump_rect(&self.expected).as_str());
        s.append(" got ");
        s.append(dump_rect(&self.got).as_str());
        s.append(" epsilon=");
        s.append(dump_coord(self.epsilon).as_str());
        s.append(" clamped=");
        s.append(self.clamped.describe().as_str());
        s.append(" visible_frame=");
        s.append(dump_rect(&self.visible_frame).as_str());
        s.append(" timeline=");
        s.append(dump_timeline(&self.timeline).as_str());
        s
    }
}

impl Error {
    /// The error in words.
    pub open spec fn words(&self) -> Seq<char> {
        match self {
            Error::Permission => "accessibility access has not been granted"@,
            Error::MainThread => "the operation must run on the main thread"@,
            Error::AppElement => "no accessibility element exists for the application"@,
            Error::FocusedWindow => "the window is not in the accessibility window list"@,
            Error::WindowGone => "the window has gone away"@,
            Error::FullscreenActive => "the window fills a space of its own"@,
            Error::AxCode(code) => "the accessibility layer answered with status "@ + dec_int(
                *code as int,
            ),
            Error::PlacementVerificationFailed { op, details } => op@ + ": "@ + details.words(),
        }
    }

    /// The error in words.
    pub fn describe(&self) -> (s: String)
        ensures
            s@ == self.words(),
    {
        match self {
            Error::Permission => "accessibility access has not been granted".to_owned(),
            Error::MainThread => "the operation must run on the main thread".to_owned(),
            Error::AppElement => "no accessibility element exists for the application".to_owned(),
            Error::FocusedWindow => "the window is not in the accessibility window list".to_owned(),
            Error::WindowGone => "the window has gone away".to_owned(),
            Error::FullscreenActive => "the window fills a space of its own".to_owned(),
            Error::AxCode(code) => {
                let mut s = "the accessibility layer answered with status ".to_owned();
                s.append(decimal_signed(*code as i64).as_str());
                s
            },
            Error::PlacementVerificationFailed { op, details } => {
                let mut s = (*op).to_owned();
                s.append(": ");
                s.append(details.in_words().as_str());
                s
            },
        }
    }
}

} // verus!
