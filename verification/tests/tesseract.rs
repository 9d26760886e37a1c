use leptess::leptonica::{c_string_argument, path_to_c_text, PixError};
use leptess::tesseract::monitor::progress_report;
use leptess::tesseract::orientation::{
    Orientation, PageOrientation, TextlineOrder, WritingDirection,
};
use leptess::tesseract::renderer::pdf_renderer::pdf_renderer_arguments;
use leptess::tesseract::{
    component_images_arguments, image_dimensions, init_result, pages_processed,
    process_pages_arguments, PageIteratorLevel, TessInitError, TextOnly,
};
use leptess::text::{first_nul, push_decimal, push_padded_decimal, text_from_bytes};

#[test]
fn page_iterator_level_round_trips_through_its_number() {
    let levels = [
        PageIteratorLevel::Block,
        PageIteratorLevel::Para,
        PageIteratorLevel::Textline,
        PageIteratorLevel::Word,
        PageIteratorLevel::Symbol,
    ];
    for (i, level) in levels.iter().enumerate() {
        assert_eq!(level.to_u32(), Some(i as u32));
        assert_eq!(PageIteratorLevel::from_u32(i as u32), Some(*level));
    }
    assert_eq!(PageIteratorLevel::from_u32(5), None);
    assert_eq!(PageIteratorLevel::from_u32(u32::MAX), None);
}

#[test]
fn text_only_round_trips_through_its_number() {
    assert_eq!(TextOnly::AlsoUseImage.to_i32(), Some(0));
    assert_eq!(TextOnly::TextOnly.to_i32(), Some(1));
    assert_eq!(TextOnly::from_i32(0), Some(TextOnly::AlsoUseImage));
    assert_eq!(TextOnly::from_i32(1), Some(TextOnly::TextOnly));
    assert_eq!(TextOnly::from_i32(2), None);
    assert_eq!(TextOnly::from_i32(-1), None);
}

#[test]
fn orientation_enums_decode_in_declaration_order() {
    assert_eq!(Orientation::from_u32(0), Some(Orientation::PageUp));
    assert_eq!(Orientation::from_u32(1), Some(Orientation::PageDown));
    assert_eq!(Orientation::from_u32(2), Some(Orientation::PageLeft));
    assert_eq!(Orientation::from_u32(3), Some(Orientation::PageRight));
    assert_eq!(Orientation::from_u32(4), None);
    assert_eq!(WritingDirection::from_u32(2), Some(WritingDirection::TopToBottom));
    assert_eq!(WritingDirection::from_u32(3), None);
    assert_eq!(TextlineOrder::from_u32(1), Some(TextlineOrder::RightToLeft));
    assert_eq!(TextlineOrder::from_u32(3), None);
}

#[test]
fn page_orientation_from_c_decodes_each_field() {
    let bits = (-1.5f32).to_bits();
    let o = PageOrientation::from_c(0, 0, 2, bits);
    assert_eq!(o.orientation, Orientation::PageUp);
    assert_eq!(o.writing_direction, WritingDirection::LeftToRight);
    assert_eq!(o.textline_order, TextlineOrder::TopToBottom);
    assert_eq!(f32::from_bits(o.deskew_angle_bits), -1.5f32);
}

#[test]
fn init_result_is_ok_only_for_zero() {
    assert_eq!(init_result(0), Ok(()));
    assert_eq!(init_result(-1), Err(TessInitError { code: -1 }));
    assert_eq!(init_result(7), Err(TessInitError { code: 7 }));
}

#[test]
fn init_error_text_shows_the_code() {
    assert_eq!(TessInitError { code: -1 }.to_string(), "TessInitError{-1}");
    assert_eq!(TessInitError { code: 0 }.to_string(), "TessInitError{0}");
    assert_eq!(TessInitError { code: 1234 }.to_string(), "TessInitError{1234}");
    assert_eq!(
        TessInitError { code: i32::MIN }.to_string(),
        "TessInitError{-2147483648}"
    );
    assert_eq!(
        TessInitError { code: i32::MAX }.to_string(),
        "TessInitError{2147483647}"
    );
}

#[test]
fn image_dimensions_of_the_loaded_image() {
    assert_eq!(image_dimensions(Some((442, 852))), Some((442, 852)));
    assert_eq!(image_dimensions(None), None);
    assert_eq!(image_dimensions(Some((-1, 0))), Some((u32::MAX, 0)));
}

#[test]
fn recognized_text_accepts_utf8_only() {
    assert_eq!(text_from_bytes(b"Hello\n").unwrap(), "Hello\n");
    assert_eq!(text_from_bytes("d\u{e9}j\u{e0} vu".as_bytes()).unwrap(), "d\u{e9}j\u{e0} vu");
    assert_eq!(text_from_bytes(b"").unwrap(), "");
    let err = text_from_bytes(&[b'a', b'b', 0xff, b'c']).unwrap_err();
    assert_eq!(err.valid_up_to(), 2);
    let err = text_from_bytes(&[0xe2, 0x82]).unwrap_err();
    assert_eq!(err.valid_up_to(), 0);
    assert_eq!(err.error_len(), None);
}

#[test]
fn component_images_arguments_code_level_and_flag() {
    assert_eq!(component_images_arguments(PageIteratorLevel::Word, true), (3, 1));
    assert_eq!(component_images_arguments(PageIteratorLevel::Block, false), (0, 0));
    assert_eq!(component_images_arguments(PageIteratorLevel::Symbol, false), (4, 0));
}

#[test]
fn process_pages_arguments_check_input_then_retry_config() {
    assert_eq!(
        process_pages_arguments("tests/di.png", None),
        Ok(("tests/di.png".to_string(), None))
    );
    assert_eq!(
        process_pages_arguments("in.png", Some(Some("retry.cfg"))),
        Ok(("in.png".to_string(), Some("retry.cfg".to_string())))
    );
    assert_eq!(
        process_pages_arguments("in\0.png", Some(Some("re\0try"))),
        Err(PixError::InteriorNul { position: 2 })
    );
    assert_eq!(
        process_pages_arguments("in.png", Some(Some("re\0try"))),
        Err(PixError::InteriorNul { position: 2 })
    );
    assert_eq!(
        process_pages_arguments("a\0b\0", None),
        Err(PixError::InteriorNul { position: 1 })
    );
}

#[test]
fn pages_processed_only_for_status_one() {
    assert!(pages_processed(1));
    assert!(!pages_processed(0));
    assert!(!pages_processed(-1));
    assert!(!pages_processed(2));
}

#[test]
fn progress_report_right_aligns_the_percentage() {
    let r = progress_report(5);
    assert_eq!(r.text, "\r  5%");
    assert!(!r.finished);
    let r = progress_report(42);
    assert_eq!(r.text, "\r 42%");
    assert!(!r.finished);
    let r = progress_report(-3);
    assert_eq!(r.text, "\r -3%");
    assert!(!r.finished);
    let r = progress_report(99);
    assert!(!r.finished);
}

#[test]
fn progress_report_finishes_at_one_hundred() {
    let r = progress_report(100);
    assert_eq!(r.text, "\r100%\n");
    assert!(r.finished);
    let r = progress_report(1234);
    assert_eq!(r.text, "\r1234%\n");
    assert!(r.finished);
}

#[test]
fn pdf_renderer_arguments_default_to_stdout() {
    let a = pdf_renderer_arguments(None, Some("tests/tessdata"), TextOnly::AlsoUseImage).unwrap();
    assert_eq!(a.output, "stdout");
    assert_eq!(a.datadir, "tests/tessdata");
    assert_eq!(a.textonly, 0);
    let a = pdf_renderer_arguments(Some(Some("di")), Some("tests/tessdata"), TextOnly::TextOnly)
        .unwrap();
    assert_eq!(a.output, "di");
    assert_eq!(a.textonly, 1);
}

#[test]
fn pdf_renderer_arguments_report_the_first_failure() {
    assert_eq!(
        pdf_renderer_arguments(Some(None), Some("data\0"), TextOnly::TextOnly),
        Err(PixError::InvalidUtf8Path)
    );
    assert_eq!(
        pdf_renderer_arguments(Some(Some("out\0")), None, TextOnly::TextOnly),
        Err(PixError::InteriorNul { position: 3 })
    );
    assert_eq!(
        pdf_renderer_arguments(Some(Some("out")), None, TextOnly::TextOnly),
        Err(PixError::InvalidUtf8Path)
    );
    assert_eq!(
        pdf_renderer_arguments(None, Some("\0data"), TextOnly::AlsoUseImage),
        Err(PixError::InteriorNul { position: 0 })
    );
}

#[test]
fn process_pages_arguments_check_the_input_before_the_retry_path() {
    assert_eq!(
        process_pages_arguments("in\0.png", Some(None)),
        Err(PixError::InteriorNul { position: 2 })
    );
}

#[test]
fn c_string_argument_rejects_nul() {
    assert_eq!(c_string_argument("eng"), Ok("eng".to_string()));
    assert_eq!(c_string_argument(""), Ok(String::new()));
    assert_eq!(c_string_argument("e\0ng"), Err(PixError::InteriorNul { position: 1 }));
}

#[test]
fn path_to_c_text_checks_utf8_then_nul() {
    assert_eq!(path_to_c_text(Some("tests/di.png")), Ok("tests/di.png".to_string()));
    assert_eq!(path_to_c_text(None), Err(PixError::InvalidUtf8Path));
    assert_eq!(path_to_c_text(Some("a\0")), Err(PixError::InteriorNul { position: 1 }));
}

#[test]
fn first_nul_finds_the_earliest() {
    assert_eq!(first_nul(b""), None);
    assert_eq!(first_nul(b"abc"), None);
    assert_eq!(first_nul(b"\0"), Some(0));
    assert_eq!(first_nul(b"ab\0c\0"), Some(2));
}

#[test]
fn decimal_rendering_matches_std_formatting() {
    for n in [0, 7, -7, 10, 99, 100, -100, 65536, i32::MIN, i32::MAX] {
        let mut s = String::from("x");
        push_decimal(&mut s, n);
        assert_eq!(s, format!("x{}", n));
        let mut p = String::new();
        push_padded_decimal(&mut p, n, 3);
        assert_eq!(p, format!("{:3}", n));
        let mut w = String::new();
        push_padded_decimal(&mut w, n, 12);
        assert_eq!(w, format!("{:12}", n));
    }
}
