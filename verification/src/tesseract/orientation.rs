//! The page orientation that Tesseract's layout analysis reports, decoded
//! from the numbers of its C API.

use vstd::prelude::*;

verus! {

/// Which way up the page is.
#[derive(Debug, Clone, Copy, PartialEq, Eq, Structural)]
pub enum Orientation {
    PageUp,
    PageDown,
    PageLeft,
    PageRight,
}

/// The direction in which the characters of a line follow each other.
#[derive(Debug, Clone, Copy, PartialEq, Eq, Structural)]
pub enum WritingDirection {
    LeftToRight,
    RightToLeft,
    TopToBottom,
}

/// The order in which the lines of a block follow each other.
#[derive(Debug, Clone, Copy, PartialEq, Eq, Structural)]
pub enum TextlineOrder {
    LeftToRight,
    RightToLeft,
    TopToBottom,
}

impl Orientation {
    /// The variant at position `n` of the declaration, if there is one.
    pub open spec fn from_code(n: u32) -> Option<Orientation> {
        if n == 0 {
            Some(Orientation::PageUp)
        } else if n == 1 {
            Some(Orientation::PageDown)
        } else if n == 2 {
            Some(Orientation::PageLeft)
        } else if n == 3 {
            Some(Orientation::PageRight)
        } else {
            None
        }
    }

    pub fn from_u32(n: u32) -> (res: Option<Orientation>)
        ensures
            res == Orientation::from_code(n),
    {
        if n == 0 {
            Some(Orientation::PageUp)
        } else if n == 1 {
            Some(Orientation::PageDown)
        } else if n == 2 {
            Some(Orientation::PageLeft)
        } else if n == 3 {
            Some(Orientation::PageRight)
        } else {
            None
        }
    }
}

impl WritingDirection {
    /// The variant at position `n` of the declaration, if there is one.
    pub open spec fn from_code(n: u32) -> Option<WritingDirection> {
        if n == 0 {
            Some(WritingDirection::LeftToRight)
        } else if n == 1 {
            Some(WritingDirection::RightToLeft)
        } else if n == 2 {
            Some(WritingDirection::TopToBottom)
        } else {
            None
        }
    }

    pub fn from_u32(n: u32) -> (res: Option<WritingDirection>)
        ensures
            res == WritingDirection::from_code(n),
    {
        if n == 0 {
            Some(WritingDirection::LeftToRight)
        } else if n == 1 {
            Some(WritingDirection::RightToLeft)
        } else if n == 2 {
            Some(WritingDirection::TopToBottom)
        } else {
            None
        }
    }
}

impl TextlineOrder {
    /// The variant at position `n` of the declaration, if there is one.
    pub open spec fn from_code(n: u32) -> Option<TextlineOrder> {
        if n == 0 {
            Some(TextlineOrder::LeftToRight)
        } else if n == 1 {
            Some(TextlineOrder::RightToLeft)
        } else if n == 2 {
            Some(TextlineOrder::TopToBottom)
        } else {
            None
        }
    }

    pub fn from_u32(n: u32) -> (res: Option<TextlineOrder>)
        ensures
            res == TextlineOrder::from_code(n),
    {
        if n == 0 {
            Some(TextlineOrder::LeftToRight)
        } else if n == 1 {
            Some(TextlineOrder::RightToLeft)
        } else if n == 2 {
            Some(TextlineOrder::TopToBottom)
        } else {
            None
        }
    }
}

/// Orientation numbers decode in declaration order: 0 to 3 give page up,
/// down, left and right, distinct numbers give distinct orientations, and no
/// other number decodes.
pub proof fn lemma_orientation_codes(n: u32, m: u32)
    ensures
        Orientation::from_code(n) is Some <==> n < 4,
        Orientation::from_code(n) is Some && Orientation::from_code(n) == Orientation::from_code(m) ==> n == m,
        Orientation::from_code(0) == Some(Orientation::PageUp),
        Orientation::from_code(1) == Some(Orientation::PageDown),
        Orientation::from_code(2) == Some(Orientation::PageLeft),
        Orientation::from_code(3) == Some(Orientation::PageRight),
{
}

/// Writing-direction numbers decode as the C API numbers them: 0 is left to
/// right, 1 right to left, 2 top to bottom; distinct numbers give distinct
/// directions, and no other number decodes.
pub proof fn lemma_writing_direction_codes(n: u32, m: u32)
    ensures
        WritingDirection::from_code(n) is Some <==> n < 3,
        WritingDirection::from_code(n) is Some && WritingDirection::from_code(n) == WritingDirection::from_code(m) ==> n == m,
        WritingDirection::from_code(0) == Some(WritingDirection::LeftToRight),
        WritingDirection::from_code(1) == Some(WritingDirection::RightToLeft),
        WritingDirection::from_code(2) == Some(WritingDirection::TopToBottom),
{
}

/// Textline-order numbers decode as the C API numbers them: 0 is left to
/// right, 1 right to left, 2 top to bottom; distinct numbers give distinct
/// orders, and no other number decodes.
pub proof fn lemma_textline_order_codes(n: u32, m: u32)
    ensures
        TextlineOrder::from_code(n) is Some <==> n < 3,
        TextlineOrder::from_code(n) is Some && TextlineOrder::from_code(n) == TextlineOrder::from_code(m) ==> n == m,
        TextlineOrder::from_code(0) == Some(TextlineOrder::LeftToRight),
        TextlineOrder::from_code(1) == Some(TextlineOrder::RightToLeft),
        TextlineOrder::from_code(2) == Some(TextlineOrder::TopToBottom),
{
}

/// A page's orientation as layout analysis found it. The deskew angle, a
/// 32-bit float, is carried as its IEEE-754 bit pattern.
#[derive(Debug, Clone, Copy, PartialEq, Eq, Structural)]
pub struct PageOrientation {
    pub orientation: Orientation,
    pub writing_direction: WritingDirection,
    pub textline_order: TextlineOrder,
    pub deskew_angle_bits: u32,
}

impl PageOrientation {
    /// Decodes the numbers that the C API reported. Each number must name a
    /// variant of its enum.
    pub fn from_c(orientation: u32, writing_direction: u32, textline_order: u32, deskew_angle_bits: u32) -> (res: PageOrientation)
        requires
            Orientation::from_code(orientation) is Some,
            WritingDirection::from_code(writing_direction) is Some,
            TextlineOrder::from_code(textline_order) is Some,
        ensures
            Orientation::from_code(orientation) == Some(res.orientation),
            WritingDirection::from_code(writing_direction) == Some(res.writing_direction),
            TextlineOrder::from_code(textline_order) == Some(res.textline_order),
            res.deskew_angle_bits == deskew_angle_bits,
    {
        PageOrientation {
            orientation: Orientation::from_u32(orientation).unwrap(),
            writing_direction: WritingDirection::from_u32(writing_direction).unwrap(),
            textline_order: TextlineOrder::from_u32(textline_order).unwrap(),
            deskew_angle_bits,
        }
    }
}

} // verus!
