//! Verified core of a Tesseract OCR binding: the conversions, checks and
//! formatting that surround the calls into the Tesseract C API.

pub mod leptonica;
pub mod tesseract;
pub mod text;
