//! The decisions and conversions of the Tesseract API wrapper: how an
//! initialisation code becomes a result, how page levels and flags are coded
//! for the C API, how image sizes and recognised text are read back, and how
//! the arguments of page processing are checked.

pub mod monitor;
pub mod orientation;
pub mod renderer;

use vstd::prelude::*;
use vstd::string::*;
use crate::leptonica::{PixError, c_string_argument, c_string_of};
use crate::text::{decimal, push_decimal};

verus! {

/// The unit of a page-layout query: from whole blocks down to symbols.
#[derive(Debug, Clone, Copy, PartialEq, Eq, Structural)]
pub enum PageIteratorLevel {
    Block,
    Para,
    Textline,
    Word,
    Symbol,
}

impl PageIteratorLevel {
    /// The C API's number for the level: its position in declaration order.
    pub open spec fn code(self) -> u32 {
        match self {
            PageIteratorLevel::Block => 0,
            PageIteratorLevel::Para => 1,
            PageIteratorLevel::Textline => 2,
            PageIteratorLevel::Word => 3,
            PageIteratorLevel::Symbol => 4,
        }
    }

    /// The level with the C API's number `n`, if there is one.
    pub open spec fn from_code(n: u32) -> Option<PageIteratorLevel> {
        if n == 0 {
            Some(PageIteratorLevel::Block)
        } else if n == 1 {
            Some(PageIteratorLevel::Para)
        } else if n == 2 {
            Some(PageIteratorLevel::Textline)
        } else if n == 3 {
            Some(PageIteratorLevel::Word)
        } else if n == 4 {
            Some(PageIteratorLevel::Symbol)
        } else {
            None
        }
    }

    /// The level's number; always present, as every level has one.
    pub fn to_u32(&self) -> (n: Option<u32>)
        ensures
            n == Some(self.code()),
    {
        match self {
            PageIteratorLevel::Block => Some(0),
            PageIteratorLevel::Para => Some(1),
            PageIteratorLevel::Textline => Some(2),
            PageIteratorLevel::Word => Some(3),
            PageIteratorLevel::Symbol => Some(4),
        }
    }

    pub fn from_u32(n: u32) -> (res: Option<PageIteratorLevel>)
        ensures
            res == PageIteratorLevel::from_code(n),
    {
        if n == 0 {
            Some(PageIteratorLevel::Block)
        } else if n == 1 {
            Some(PageIteratorLevel::Para)
        } else if n == 2 {
            Some(PageIteratorLevel::Textline)
        } else if n == 3 {
            Some(PageIteratorLevel::Word)
        } else if n == 4 {
            Some(PageIteratorLevel::Symbol)
        } else {
            None
        }
    }
}

/// Every level survives the trip through its C number, and every C number
/// that names a level is that level's number; the numbers are the C API's,
/// block 0 through symbol 4, and distinct numbers name distinct levels.
pub proof fn lemma_page_iterator_level_code_round_trip(level: PageIteratorLevel, n: u32, m: u32)
    ensures
        PageIteratorLevel::from_code(level.code()) == Some(level),
        PageIteratorLevel::from_code(n) matches Some(l) ==> l.code() == n,
        PageIteratorLevel::from_code(n) is Some <==> n < 5,
        PageIteratorLevel::from_code(n) is Some && PageIteratorLevel::from_code(n) == PageIteratorLevel::from_code(m) ==> n == m,
        PageIteratorLevel::Block.code() == 0,
        PageIteratorLevel::Para.code() == 1,
        PageIteratorLevel::Textline.code() == 2,
        PageIteratorLevel::Word.code() == 3,
        PageIteratorLevel::Symbol.code() == 4,
{
}

/// Tesseract refused to initialise; `code` is what its initialisation returned.
#[derive(Debug, Clone, Copy, PartialEq, Eq, Structural)]
pub struct TessInitError {
    pub code: i32,
}

/// The text that names an initialisation error: `TessInitError{<code>}`.
pub open spec fn init_error_text(code: i32) -> Seq<char> {
    seq!['T', 'e', 's', 's', 'I', 'n', 'i', 't', 'E', 'r', 'r', 'o', 'r', '{'] + decimal(code as int)
        + seq!['}']
}

impl TessInitError {
    /// The error's text, as it is displayed.
    pub fn to_string(&self) -> (s: String)
        ensures
            s@ == init_error_text(self.code),
    {
        let mut s = String::from_str("TessInitError{");
        proof {
            reveal_strlit("TessInitError{");
        }
        push_decimal(&mut s, self.code);
        crate::text::push_char(&mut s, '}');
        assert(s@ =~= init_error_text(self.code));
        s
    }
}

/// The outcome of Tesseract's initialisation from the code it returned:
/// success for 0, an error carrying the code otherwise.
pub fn init_result(code: i32) -> (res: Result<(), TessInitError>)
    ensures
        res is Ok <==> code == 0,
        res matches Err(e) ==> e.code == code,
{
    if code == 0 {
        Ok(())
    } else {
        Err(TessInitError { code })
    }
}

/// The width and height of the loaded image, from the signed fields of the
/// image header when one is loaded, reinterpreted as unsigned.
pub fn image_dimensions(header: Option<(i32, i32)>) -> (res: Option<(u32, u32)>)
    ensures
        header is None ==> res is None,
        header matches Some((w, h)) ==> res == Some((w as u32, h as u32)),
{
    match header {
        None => None,
        Some((w, h)) => Some((w as u32, h as u32)),
    }
}

/// The C arguments of a component query: the level's number and the
/// text-only flag as 1 or 0.
pub fn component_images_arguments(level: PageIteratorLevel, text_only: bool) -> (res: (u32, i32))
    ensures
        res.0 == level.code(),
        res.1 == (if text_only { 1i32 } else { 0i32 }),
{
    let text_only_val: i32 = if text_only { 1 } else { 0 };
    (level.to_u32().unwrap(), text_only_val)
}

/// The C arguments of page processing: the input path and the optional retry
/// configuration as C strings, checked in that order. The retry configuration
/// is given as its path's text, or `None` when that path is not valid
/// Unicode; such a path is only turned into text once the input has passed
/// its check, and must then be text.
pub fn process_pages_arguments(input: &str, retry_config_file: Option<Option<&str>>) -> (res: Result<(String, Option<String>), PixError>)
    requires
        c_string_of(input.spec_bytes(), input@) is Ok ==> (retry_config_file matches Some(r) ==> r is Some),
    ensures
        res matches Ok((i, r)) ==> {
            &&& c_string_of(input.spec_bytes(), input@) == Ok::<Seq<char>, PixError>(i@)
            &&& match retry_config_file {
                None => r is None,
                Some(f) => r matches Some(rs) && f matches Some(fs)
                    && c_string_of(fs.spec_bytes(), fs@) == Ok::<Seq<char>, PixError>(rs@),
            }
        },
        res matches Err(e) ==> {
            ||| c_string_of(input.spec_bytes(), input@) == Err::<Seq<char>, PixError>(e)
            ||| (retry_config_file matches Some(Some(f)) && c_string_of(input.spec_bytes(), input@) is Ok
                && c_string_of(f.spec_bytes(), f@) == Err::<Seq<char>, PixError>(e))
        },
        res is Ok <==> c_string_of(input.spec_bytes(), input@) is Ok && (retry_config_file matches Some(Some(f)) ==> c_string_of(f.spec_bytes(), f@) is Ok),
{
    let input_text = c_string_argument(input)?;
    let retry_text = match retry_config_file {
        Some(f) => Some(c_string_argument(f.unwrap())?),
        None => None,
    };
    Ok((input_text, retry_text))
}

/// Whether page processing succeeded, from the status the C API returned:
/// exactly when it is 1.
pub fn pages_processed(status: i32) -> (ok: bool)
    ensures
        ok <==> status == 1,
{
    status == 1
}

/// Whether the recognised text is drawn over the page image or stands alone.
#[derive(Debug, Clone, Copy, PartialEq, Eq, Structural)]
pub enum TextOnly {
    AlsoUseImage,
    TextOnly,
}

impl TextOnly {
    /// The C API's number: its position in declaration order.
    pub open spec fn code(self) -> i32 {
        match self {
            TextOnly::AlsoUseImage => 0,
            TextOnly::TextOnly => 1,
        }
    }

    /// The choice with the C API's number `n`, if there is one.
    pub open spec fn from_code(n: i32) -> Option<TextOnly> {
        if n == 0 {
            Some(TextOnly::AlsoUseImage)
        } else if n == 1 {
            Some(TextOnly::TextOnly)
        } else {
            None
        }
    }

    /// The choice's number; always present, as every choice has one.
    pub fn to_i32(&self) -> (n: Option<i32>)
        ensures
            n == Some(self.code()),
    {
        match self {
            TextOnly::AlsoUseImage => Some(0),
            TextOnly::TextOnly => Some(1),
        }
    }

    pub fn from_i32(n: i32) -> (res: Option<TextOnly>)
        ensures
            res == TextOnly::from_code(n),
    {
        if n == 0 {
            Some(TextOnly::AlsoUseImage)
        } else if n == 1 {
            Some(TextOnly::TextOnly)
        } else {
            None
        }
    }
}

/// Every choice survives the trip through its C number, and every C number
/// that names a choice is that choice's number: 0 draws over the image, 1 is
/// text only (the C flag's false and true).
pub proof fn lemma_text_only_code_round_trip(t: TextOnly, n: i32, m: i32)
    ensures
        TextOnly::from_code(t.code()) == Some(t),
        TextOnly::from_code(n) matches Some(u) ==> u.code() == n,
        TextOnly::from_code(n) is Some <==> 0 <= n < 2,
        TextOnly::from_code(n) is Some && TextOnly::from_code(n) == TextOnly::from_code(m) ==> n == m,
        TextOnly::AlsoUseImage.code() == 0,
        TextOnly::TextOnly.code() == 1,
{
}

} // verus!
