use vstd::prelude::*;

use crate::font_cache::{fonts_accounted, FontCache, FontCacheEvent};
use crate::geometry::{fits_i32, fits_i32_wide, max_i32, max_int, tdiv, tdiv_wide, Rect};
use crate::text::push_char;

verus! {

/// The point size of the countdown's font.
pub const COUNTDOWN_FONT_POINT_SIZE: i32 = 80;

/// The character of a decimal digit.
pub open spec fn digit_char(d: int) -> char {
    (48 + d) as char
}

/// The decimal digits of a number, without leading zeros.
pub open spec fn decimal(n: nat) -> Seq<char>
    decreases n,
{
    if n < 10 {
        seq![digit_char(n as int)]
    } else {
        decimal(n / 10).push(digit_char((n % 10) as int))
    }
}

/// A number written with at least two digits, a leading zero where it has one.
pub open spec fn two_digits(n: nat) -> Seq<char> {
    if n < 10 {
        seq!['0', digit_char(n as int)]
    } else {
        decimal(n)
    }
}

/// The countdown text of a number of seconds: minutes and seconds as `MM:SS`
/// under an hour, and `HH:MM:SS` from an hour on.
pub open spec fn remaining_time_text(total_seconds: nat) -> Seq<char> {
    let hours = total_seconds / 3600;
    let minutes = (total_seconds % 3600) / 60;
    let seconds = total_seconds % 60;
    if hours == 0 {
        two_digits(minutes) + seq![':'] + two_digits(seconds)
    } else {
        two_digits(hours) + seq![':'] + two_digits(minutes) + seq![':'] + two_digits(seconds)
    }
}

fn digit(d: u32) -> (c: char)
    requires
        d < 10,
    ensures
        c == digit_char(d as int),
{
    let byte: u8 = (d as u8) + 48;
    byte as char
}

fn push_decimal(out: &mut String, n: u32)
    ensures
        final(out)@ == old(out)@ + decimal(n as nat),
    decreases n,
{
    if n >= 10 {
        push_decimal(out, n / 10);
    }
    push_char(out, digit(n % 10));
    assert(n < 10 ==> n % 10 == n);
}

fn push_two_digits(out: &mut String, n: u32)
    ensures
        final(out)@ == old(out)@ + two_digits(n as nat),
{
    if n < 10 {
        push_char(out, '0');
        push_char(out, digit(n));
    } else {
        push_decimal(out, n);
    }
}

/// The text the countdown shows for a number of seconds.
pub fn format_remaining_time(total_seconds: u32) -> (text: String)
    ensures
        text@ == remaining_time_text(total_seconds as nat),
{
    let hours = total_seconds / 3600;
    let minutes = (total_seconds % 3600) / 60;
    let seconds = total_seconds % 60;
    let mut text = String::new();
    if hours == 0 {
        push_two_digits(&mut text, minutes);
        push_char(&mut text, ':');
        push_two_digits(&mut text, seconds);
    } else {
        push_two_digits(&mut text, hours);
        push_char(&mut text, ':');
        push_two_digits(&mut text, minutes);
        push_char(&mut text, ':');
        push_two_digits(&mut text, seconds);
    }
    text
}

/// Where the countdown is drawn, from the client area and the measured text:
/// the full width, centred vertically on 45 percent of the client height,
/// with a padding of a third of the text height, at least 12, above and below.
pub open spec fn countdown_area(client: Rect, text: Rect) -> Rect {
    let text_height = text.bottom - text.top;
    let center = tdiv((client.bottom - client.top) * 45, 100);
    let padding = max_int(tdiv(text_height, 3), 12);
    Rect {
        left: client.left,
        top: (center - tdiv(text_height, 2) - padding) as i32,
        right: client.right,
        bottom: (center + tdiv(text_height, 2) + padding) as i32,
    }
}

/// Whether the countdown area can be computed in `i32`.
pub open spec fn countdown_area_fits(client: Rect, text: Rect) -> bool {
    let text_height = text.bottom - text.top;
    let client_height = client.bottom - client.top;
    let center = tdiv(client_height * 45, 100);
    let padding = max_int(tdiv(text_height, 3), 12);
    &&& fits_i32(text_height)
    &&& fits_i32(client_height)
    &&& fits_i32(client_height * 45)
    &&& fits_i32(center - tdiv(text_height, 2))
    &&& fits_i32(center - tdiv(text_height, 2) - padding)
    &&& fits_i32(center + tdiv(text_height, 2))
    &&& fits_i32(center + tdiv(text_height, 2) + padding)
}

/// The rectangle the countdown is drawn in, given the client area and the
/// rectangle the text measures.
pub fn countdown_rect(client_rect: Rect, measured_rect: Rect) -> (rect: Rect)
    requires
        countdown_area_fits(client_rect, measured_rect),
    ensures
        rect == countdown_area(client_rect, measured_rect),
{
    let text_height = measured_rect.bottom - measured_rect.top;
    let client_height = client_rect.bottom - client_rect.top;
    let vertical_center = client_height * 45 / 100;
    let vertical_padding = max_i32(text_height / 3, 12);
    let mut draw_rect = client_rect;
    draw_rect.top = vertical_center - text_height / 2 - vertical_padding;
    draw_rect.bottom = vertical_center + text_height / 2 + vertical_padding;
    draw_rect
}

/// Drops the countdown's font, which must be created again at the next
/// drawing; the handle given back is the one to delete.
pub fn invalidate_countdown_font(cache: &mut FontCache) -> (released: Option<usize>)
    ensures
        released == old(cache)@.font,
        final(cache)@.font is None,
        final(cache)@.history == old(cache)@.history.push(FontCacheEvent::Release),
        fonts_accounted(final(cache)@),
{
    cache.release()
}

/// A number below 100 is written with exactly two digits.
pub proof fn lemma_two_digits_below_hundred(n: nat)
    requires
        n < 100,
    ensures
        two_digits(n).len() == 2,
        two_digits(n) == seq![digit_char((n / 10) as int), digit_char((n % 10) as int)],
{
    if n >= 10 {
        assert(decimal(n / 10) == seq![digit_char((n / 10) as int)]);
    }
}

/// Under an hour the countdown reads `MM:SS`: five characters, the colon in
/// the middle, the minutes before it and the seconds after it, each as two
/// digits.
pub proof fn lemma_countdown_text_under_an_hour(total_seconds: nat)
    requires
        total_seconds < 3600,
    ensures
        remaining_time_text(total_seconds).len() == 5,
        remaining_time_text(total_seconds)[2] == ':',
        remaining_time_text(total_seconds) == two_digits(total_seconds / 60) + seq![':'] + two_digits(
            total_seconds % 60,
        ),
{
    lemma_two_digits_below_hundred(total_seconds / 60);
    lemma_two_digits_below_hundred(total_seconds % 60);
    assert(total_seconds % 3600 == total_seconds);
}

/// From an hour on, and under a hundred hours, the countdown reads
/// `HH:MM:SS`: eight characters with colons at positions 2 and 5.
pub proof fn lemma_countdown_text_with_hours(total_seconds: nat)
    requires
        3600 <= total_seconds < 360000,
    ensures
        remaining_time_text(total_seconds).len() == 8,
        remaining_time_text(total_seconds)[2] == ':',
        remaining_time_text(total_seconds)[5] == ':',
{
    lemma_two_digits_below_hundred(total_seconds / 3600);
    lemma_two_digits_below_hundred((total_seconds % 3600) / 60);
    lemma_two_digits_below_hundred(total_seconds % 60);
}

/// Whether `countdown_rect` can be called for a client area and a measured text.
pub fn countdown_area_fits_exec(client_rect: Rect, measured_rect: Rect) -> (fits: bool)
    ensures
        fits == countdown_area_fits(client_rect, measured_rect),
{
    let text_height = measured_rect.bottom as i128 - measured_rect.top as i128;
    let client_height = client_rect.bottom as i128 - client_rect.top as i128;
    let center = tdiv_wide(client_height * 45, 100);
    let third = tdiv_wide(text_height, 3);
    let padding: i128 = if third >= 12 {
        third
    } else {
        12
    };
    let half = tdiv_wide(text_height, 2);
    fits_i32_wide(text_height) && fits_i32_wide(client_height) && fits_i32_wide(client_height * 45)
        && fits_i32_wide(center - half) && fits_i32_wide(center - half - padding) && fits_i32_wide(
        center + half,
    ) && fits_i32_wide(center + half + padding)
}

} // verus!
