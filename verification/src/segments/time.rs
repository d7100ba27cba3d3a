//! The time of day, with a clock face that is right to the half hour.

use vstd::prelude::*;
use crate::color::Color;
use crate::colored_stream::{ColoredStream, StreamState};
use crate::segments::Segment;
use crate::sink::ColorableStream;
use crate::wire::{push_str, utf8};

verus! {

/// A time of day as a clock gives it: hour, minute and second, and the
/// nanoseconds into the second. During a leap second, and only then, the
/// second is 59 and the nanoseconds are a thousand million or more.
pub struct Time {
    hour: u32,
    minute: u32,
    second: u32,
    nanosecond: u32,
}

/// The hour on a clock with twelve hours: 1 to 12.
pub open spec fn hour12(hour: nat) -> nat {
    if hour % 12 == 0 {
        12
    } else {
        hour % 12
    }
}

/// The clock face that is nearest to the time, counted from one o'clock: 0 to
/// 11 are the full hours from one to twelve, 12 to 23 the half hours from
/// half past one to half past twelve. Up to a quarter past it is the hour,
/// from a quarter to it is the next hour, and between the two it is half
/// past.
pub open spec fn nearest_face(hour: nat, minute: nat) -> nat {
    if minute >= 45 {
        hour12(hour) % 12
    } else if minute > 15 {
        ((hour12(hour) - 1) % 12 + 12) as nat
    } else {
        ((hour12(hour) - 1) % 12) as nat
    }
}

/// The character of a clock face: U+1F550, one o'clock, and the 23 that
/// follow it.
pub open spec fn clock_face(face: nat) -> char {
    (0x1f550 + face) as char
}

/// The character of the digit `d`, where `d < 10`.
pub open spec fn digit_char(d: nat) -> char {
    (0x30 + d) as char
}

/// A number below a hundred in two digits.
pub open spec fn two_digits(n: nat) -> Seq<char> {
    seq![digit_char(n / 10), digit_char(n % 10)]
}

/// A number below a thousand in three digits.
pub open spec fn three_digits(n: nat) -> Seq<char> {
    seq![digit_char(n / 100), digit_char(n / 10 % 10), digit_char(n % 10)]
}

/// A time as a clock with digits shows it: `HH:MM:SS.mmm`.
pub open spec fn clock_text(hour: nat, minute: nat, second: nat, millisecond: nat) -> Seq<char> {
    two_digits(hour) + seq![':'] + two_digits(minute) + seq![':'] + two_digits(second) + seq!['.']
        + three_digits(millisecond)
}

/// Whether these are the parts of a time of day.
pub open spec fn is_time_of_day(hour: u32, minute: u32, second: u32, nanosecond: u32) -> bool {
    &&& hour < 24
    &&& minute < 60
    &&& second < 60
    &&& nanosecond < 2_000_000_000
    &&& nanosecond >= 1_000_000_000 ==> second == 59
}

/// `chrono::NaiveTime::from_hms_nano_opt`, and on the time it makes
/// `chrono::NaiveTime::format` with the pattern `%T.%3f`.
///
/// The first makes a time of the parts of a time of day, and of nothing
/// else. The second writes hour, minute and second in two digits each, with
/// colons between them, then a point and the milliseconds in three digits.
/// The second that is written is 60 during a leap second, and the
/// milliseconds are those into that second.
#[verifier::external_body]
fn format_clock(hour: u32, minute: u32, second: u32, nanosecond: u32) -> (text: Option<String>)
    ensures
        text is Some <==> is_time_of_day(hour, minute, second, nanosecond),
        text matches Some(clock) ==> clock@ == clock_text(
            hour as nat,
            minute as nat,
            (second + nanosecond / 1_000_000_000) as nat,
            (nanosecond / 1_000_000 % 1000) as nat,
        ),
{
    chrono::NaiveTime::from_hms_nano_opt(hour, minute, second, nanosecond).map(
        |time| time.format("%T.%3f").to_string(),
    )
}

/// The UTF-8 bytes of a clock face.
proof fn clock_face_in_utf8(face: nat)
    requires
        face < 24,
    ensures
        utf8(seq![clock_face(face)]) == seq![0xf0u8, 0x9fu8, 0x95u8, (0x90 + face) as u8],
{
    let scalar: u32 = (0x1f550 + face) as u32;
    let low: u8 = (0x90 + face) as u8;
    assert(clock_face(face) as u32 == scalar);
    assert(0xF0u8 | ((scalar >> 18) & 0x7) as u8 == 0xf0u8 && 0x80u8 | ((scalar >> 12) & 0x3F) as u8
        == 0x9fu8 && 0x80u8 | ((scalar >> 6) & 0x3F) as u8 == 0x95u8 && 0x80u8 | (scalar & 0x3F) as u8
        == (scalar - 0x1f4c0) as u8) by (bit_vector)
        requires
            0x1f550 <= scalar < 0x1f568,
    ;
    let text = seq![clock_face(face)];
    assert(text.drop_first() =~= Seq::<char>::empty());
    reveal_with_fuel(vstd::utf8::encode_utf8, 2);
    assert(vstd::utf8::encode_utf8(text) =~= vstd::utf8::encode_scalar(scalar) + seq![]);
    assert(utf8(text) =~= seq![0xf0u8, 0x9fu8, 0x95u8, low]);
}

impl Time {
    #[verifier::type_invariant]
    spec fn in_range(&self) -> bool {
        is_time_of_day(self.hour, self.minute, self.second, self.nanosecond)
    }

    /// The hour, 0 to 23.
    pub closed spec fn hour(&self) -> nat {
        self.hour as nat
    }

    /// The minute, 0 to 59.
    pub closed spec fn minute(&self) -> nat {
        self.minute as nat
    }

    /// The second as it is shown, 0 to 60: 60 during a leap second.
    pub closed spec fn second(&self) -> nat {
        (self.second + self.nanosecond / 1_000_000_000) as nat
    }

    /// The milliseconds into the second, 0 to 999.
    pub closed spec fn millisecond(&self) -> nat {
        (self.nanosecond / 1_000_000 % 1000) as nat
    }

    /// The time with these parts, where they are those of a time of day.
    pub fn new(hour: u32, minute: u32, second: u32, nanosecond: u32) -> (time: Option<Self>)
        ensures
            time is Some <==> is_time_of_day(hour, minute, second, nanosecond),
            time matches Some(t) ==> {
                &&& t.hour() == hour
                &&& t.minute() == minute
                &&& t.second() == second + nanosecond / 1_000_000_000
                &&& t.millisecond() == nanosecond / 1_000_000 % 1000
            },
    {
        if hour < 24 && minute < 60 && second < 60 && (nanosecond < 1_000_000_000 || (second == 59
            && nanosecond < 2_000_000_000)) {
            Some(Time { hour, minute, second, nanosecond })
        } else {
            None
        }
    }

    /// The clock face, then the time as `HH:MM:SS.mmm`, between blanks.
    pub open spec fn text(&self) -> Seq<u8> {
        utf8(" "@) + utf8(seq![clock_face(nearest_face(self.hour(), self.minute()))]) + utf8(" "@)
            + utf8(clock_text(self.hour(), self.minute(), self.second(), self.millisecond()))
            + utf8(" "@)
    }

    fn text_bytes(&self) -> (bytes: Vec<u8>)
        ensures
            bytes@ == self.text(),
    {
        proof {
            use_type_invariant(self);
        }
        let hour12: u32 = if self.hour % 12 == 0 {
            12
        } else {
            self.hour % 12
        };
        let face: u32 = if self.minute >= 45 {
            hour12 % 12
        } else if self.minute > 15 {
            (hour12 - 1) % 12 + 12
        } else {
            (hour12 - 1) % 12
        };
        assert(face == nearest_face(self.hour(), self.minute()));
        proof {
            clock_face_in_utf8(face as nat);
        }
        let mut bytes: Vec<u8> = Vec::new();
        push_str(&mut bytes, " ");
        let ghost before_face = bytes@;
        bytes.push(0xf0u8);
        bytes.push(0x9fu8);
        bytes.push(0x95u8);
        bytes.push(0x90u8 + face as u8);
        assert(bytes@ =~= before_face + utf8(seq![clock_face(face as nat)]));
        push_str(&mut bytes, " ");
        match format_clock(self.hour, self.minute, self.second, self.nanosecond) {
            Some(clock) => {
                push_str(&mut bytes, clock.as_str());
            },
            None => {
                assert(false);
            },
        }
        push_str(&mut bytes, " ");
        bytes
    }
}

impl Segment for Time {
    open spec fn rendered(&self, before: StreamState) -> StreamState {
        before.set_bg(Color { r: 80, g: 80, b: 80 }).set_fg(
            Color { r: 200, g: 200, b: 200 },
        ).write_all(self.text())
    }

    proof fn keeps_the_output(&self, before: StreamState) {
    }

    fn write<W: ColorableStream>(&mut self, w: &mut ColoredStream<W>) -> (r: Result<
        (),
        std::io::Error,
    >)
        ensures
            *final(self) == *old(self),
    {
        w.set_bg(Color::from_rgb(80, 80, 80))?;
        w.set_fg(Color::from_rgb(200, 200, 200))?;
        let text = self.text_bytes();
        w.write_all(text.as_slice())
    }
}

} // verus!
