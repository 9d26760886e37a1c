//! What the progress display shows while Tesseract recognises a page.

use vstd::prelude::*;
use crate::text::{decimal, decimal_digits, digit_char, lemma_decimal_read_back, lemma_pad_left, pad_left, push_char, push_padded_decimal};

verus! {

/// One look at the recognition progress: the text to print and whether the
/// watching stops.
#[derive(Debug, PartialEq, Eq)]
pub struct ProgressReport {
    pub text: String,
    pub finished: bool,
}

/// The text printed for a progress value: a carriage return, the percentage
/// right-aligned in three columns and a percent sign, then a line break once
/// the work is done.
pub open spec fn progress_text(progress: i32) -> Seq<char> {
    let line = seq!['\r'] + pad_left(decimal(progress as int), 3) + seq!['%'];
    if progress >= 100 {
        line.push('\n')
    } else {
        line
    }
}

/// Decides what to print for a progress value read from the monitor, and
/// whether to stop watching: the watch ends once progress reaches 100.
pub fn progress_report(progress: i32) -> (res: ProgressReport)
    ensures
        res.finished <==> progress >= 100,
        res.text@ == progress_text(progress),
{
    let mut text = String::new();
    push_char(&mut text, '\r');
    push_padded_decimal(&mut text, progress, 3);
    push_char(&mut text, '%');
    let finished = progress >= 100;
    if finished {
        push_char(&mut text, '\n');
    }
    assert(text@ =~= progress_text(progress));
    ProgressReport { text, finished }
}

/// The columns that the number and its padding take: three, or more for a
/// longer number.
pub open spec fn progress_columns(progress: i32) -> int {
    if decimal(progress as int).len() >= 3 {
        decimal(progress as int).len() as int
    } else {
        3
    }
}

/// For every progress value, the printed text is a carriage return, then
/// spaces, then the decimal digits of the value (after a minus sign when it
/// is negative) ending in column `progress_columns`, then a percent sign, and
/// a line break after it exactly when the value is at least 100. The number
/// shown reads back as the progress value.
pub proof fn lemma_progress_text_layout(progress: i32)
    ensures
        progress_text(progress)[0] == '\r',
        progress_text(progress)[1 + progress_columns(progress)] == '%',
        progress_text(progress).len() == 2 + progress_columns(progress) + (if progress >= 100 { 1int } else { 0int }),
        progress >= 100 ==> progress_text(progress)[2 + progress_columns(progress)] == '\n',
        progress_text(progress).subrange(1 + progress_columns(progress) - decimal(progress as int).len(), 1 + progress_columns(progress))
            == decimal(progress as int),
        forall|i: int| 1 <= i < 1 + progress_columns(progress) - decimal(progress as int).len() ==> progress_text(progress)[i] == ' ',
        progress >= 0 ==> crate::text::digits_value(decimal(progress as int)) == progress,
        progress < 0 ==> decimal(progress as int)[0] == '-' && crate::text::digits_value(decimal(progress as int).drop_first()) == -progress,
{
    let d = decimal(progress as int);
    let padded = pad_left(d, 3);
    lemma_pad_left(d, 3);
    lemma_decimal_read_back(progress as int);
    let t = progress_text(progress);
    let w = progress_columns(progress);
    assert(padded.len() == w);
    assert(t.subrange(1, 1 + w) =~= padded);
    assert(t.subrange(1 + w - d.len(), 1 + w) =~= padded.subrange(w - d.len(), w));
    assert forall|i: int| 1 <= i < 1 + w - d.len() implies t[i] == ' ' by {
        assert(t[i] == padded[i - 1]);
    }
}

/// For progress from 0 to 999, the four columns after the carriage return
/// hold the hundreds digit (or a space below 100), the tens digit (or a space
/// below 10), the units digit and a percent sign; the text ends there, or
/// with a line break from 100 on.
pub proof fn lemma_progress_text_digits(progress: i32)
    requires
        0 <= progress <= 999,
    ensures
        progress_text(progress).len() == if progress >= 100 { 6int } else { 5int },
        progress_text(progress)[0] == '\r',
        progress_text(progress)[1] == if progress >= 100 { (progress / 100 + 48) as char } else { ' ' },
        progress_text(progress)[2] == if progress >= 10 { ((progress / 10) % 10 + 48) as char } else { ' ' },
        progress_text(progress)[3] == (progress % 10 + 48) as char,
        progress_text(progress)[4] == '%',
        progress >= 100 ==> progress_text(progress)[5] == '\n',
{
    let p = progress as nat;
    let d = decimal(progress as int);
    assert(d == decimal_digits(p));
    if p < 10 {
        assert(d =~= seq![digit_char(p)]);
    } else if p < 100 {
        assert(decimal_digits(p / 10) == seq![digit_char(p / 10)]);
        assert(d =~= seq![digit_char(p / 10), digit_char(p % 10)]);
    } else {
        assert(decimal_digits(p / 100) == seq![digit_char(p / 100)]);
        assert(p / 10 / 10 == p / 100);
        assert(decimal_digits(p / 10) =~= seq![digit_char(p / 100), digit_char((p / 10) % 10)]);
        assert(d =~= seq![digit_char(p / 100), digit_char((p / 10) % 10), digit_char(p % 10)]);
    }
    let t = progress_text(progress);
    if p < 10 {
        assert(pad_left(d, 3) =~= seq![' ', ' ', digit_char(p)]);
    } else if p < 100 {
        assert(pad_left(d, 3) =~= seq![' ', digit_char(p / 10), digit_char(p % 10)]);
    }
    assert(t[1] == pad_left(d, 3)[0]);
    assert(t[2] == pad_left(d, 3)[1]);
    assert(t[3] == pad_left(d, 3)[2]);
}

} // verus!
