//! The bytes that go to the terminal.
//!
//! Colours are set with truecolor SGR sequences, `ESC [ 38;2;R;G;B m` for the
//! foreground and `ESC [ 48;2;R;G;B m` for the background, and cleared with
//! `ESC [ 0 m`. Each sequence stands between the bytes `0x01` and `0x02`, which
//! tell a shell that what lies between them takes no room on the line.

use vstd::prelude::*;
use crate::color::Color;

verus! {

/// The UTF-8 bytes of a text.
pub open spec fn utf8(text: Seq<char>) -> Seq<u8> {
    vstd::utf8::encode_utf8(text)
}

/// The ASCII digit for `d`, where `d < 10`.
pub open spec fn digit(d: nat) -> u8 {
    (0x30 + d) as u8
}

/// `n` in decimal, most significant digit first, without leading zeros.
pub open spec fn decimal(n: nat) -> Seq<u8>
    decreases n,
{
    if n < 10 {
        seq![digit(n)]
    } else {
        decimal(n / 10).push(digit(n % 10))
    }
}

/// `n` in decimal, with a leading `-` when it is negative.
pub open spec fn signed_decimal(n: int) -> Seq<u8> {
    if n < 0 {
        seq![0x2du8] + decimal((-n) as nat)
    } else {
        decimal(n as nat)
    }
}

/// Opens a sequence that takes no room on the line.
pub open spec fn escape_open() -> Seq<u8> {
    seq![0x01u8, 0x1bu8, 0x5bu8]
}

/// Closes a colour sequence: `m`, then the end of what takes no room.
pub open spec fn escape_close() -> Seq<u8> {
    seq![0x6du8, 0x02u8]
}

/// The three channels of a colour as `R;G;B`.
pub open spec fn channels(c: Color) -> Seq<u8> {
    decimal(c.r as nat) + seq![0x3bu8] + decimal(c.g as nat) + seq![0x3bu8] + decimal(c.b as nat)
}

/// Sets the colour of one layer: `layer` is `3` for the foreground and `4`
/// for the background, as an ASCII digit.
pub open spec fn layer_escape(layer: u8, c: Color) -> Seq<u8> {
    escape_open() + seq![layer, 0x38u8, 0x3bu8, 0x32u8, 0x3bu8] + channels(c) + escape_close()
}

/// `\x01 ESC [ 38;2;R;G;B m \x02`
pub open spec fn fg_escape(c: Color) -> Seq<u8> {
    layer_escape(0x33u8, c)
}

/// `\x01 ESC [ 48;2;R;G;B m \x02`
pub open spec fn bg_escape(c: Color) -> Seq<u8> {
    layer_escape(0x34u8, c)
}

/// `\x01 ESC [ 0 m \x02`
pub open spec fn reset_escape() -> Seq<u8> {
    escape_open() + seq![0x30u8] + escape_close()
}

/// The arrow that is drawn where one segment ends and the next begins:
/// U+E0B0 in UTF-8.
pub open spec fn separator() -> Seq<u8> {
    seq![0xeeu8, 0x82u8, 0xb0u8]
}

/// A line feed.
pub open spec fn line_feed() -> Seq<u8> {
    seq![0x0au8]
}

/// Appends `n` in decimal.
pub fn push_decimal(buf: &mut Vec<u8>, n: u32)
    ensures
        final(buf)@ == old(buf)@ + decimal(n as nat),
    decreases n,
{
    if n >= 10 {
        push_decimal(buf, n / 10);
    }
    let d: u8 = (n % 10) as u8;
    buf.push(0x30u8 + d);
}

/// Appends `n` in decimal, with a leading `-` when it is negative.
pub fn push_signed_decimal(buf: &mut Vec<u8>, n: i32)
    ensures
        final(buf)@ == old(buf)@ + signed_decimal(n as int),
{
    if n < 0 {
        buf.push(0x2du8);
        let magnitude: u32 = (-(n as i64)) as u32;
        push_decimal(buf, magnitude);
    } else {
        push_decimal(buf, n as u32);
    }
}

/// Appends the UTF-8 bytes of `text`.
pub fn push_str(buf: &mut Vec<u8>, text: &str)
    ensures
        final(buf)@ == old(buf)@ + utf8(text@),
{
    buf.extend_from_slice(text.as_bytes());
}

fn push_channels(buf: &mut Vec<u8>, c: Color)
    ensures
        final(buf)@ == old(buf)@ + channels(c),
{
    push_decimal(buf, c.r as u32);
    buf.push(0x3bu8);
    push_decimal(buf, c.g as u32);
    buf.push(0x3bu8);
    push_decimal(buf, c.b as u32);
}

fn layer_escape_bytes(layer: u8, c: Color) -> (bytes: Vec<u8>)
    ensures
        bytes@ == layer_escape(layer, c),
{
    let mut bytes: Vec<u8> = Vec::new();
    bytes.push(0x01u8);
    bytes.push(0x1bu8);
    bytes.push(0x5bu8);
    bytes.push(layer);
    bytes.push(0x38u8);
    bytes.push(0x3bu8);
    bytes.push(0x32u8);
    bytes.push(0x3bu8);
    push_channels(&mut bytes, c);
    bytes.push(0x6du8);
    bytes.push(0x02u8);
    bytes
}

/// The sequence that sets the foreground to `c`.
pub fn fg_escape_bytes(c: Color) -> (bytes: Vec<u8>)
    ensures
        bytes@ == fg_escape(c),
{
    layer_escape_bytes(0x33u8, c)
}

/// The sequence that sets the background to `c`.
pub fn bg_escape_bytes(c: Color) -> (bytes: Vec<u8>)
    ensures
        bytes@ == bg_escape(c),
{
    layer_escape_bytes(0x34u8, c)
}

/// The sequence that clears both colours.
pub fn reset_escape_bytes() -> (bytes: Vec<u8>)
    ensures
        bytes@ == reset_escape(),
{
    let mut bytes: Vec<u8> = Vec::new();
    bytes.push(0x01u8);
    bytes.push(0x1bu8);
    bytes.push(0x5bu8);
    bytes.push(0x30u8);
    bytes.push(0x6du8);
    bytes.push(0x02u8);
    bytes
}

/// The bytes of the separator arrow.
pub fn separator_bytes() -> (bytes: Vec<u8>)
    ensures
        bytes@ == separator(),
{
    let mut bytes: Vec<u8> = Vec::new();
    bytes.push(0xeeu8);
    bytes.push(0x82u8);
    bytes.push(0xb0u8);
    bytes
}

} // verus!
