use statisch::font::{
    lookup_format, make_font_face, make_font_face_block, make_font_file_name, make_font_name,
    require_format, FontFormatError,
};

#[test]
fn format_table_has_four_rows() {
    assert_eq!(lookup_format("ttf"), Some("truetype".to_string()));
    assert_eq!(lookup_format("woff"), Some("woff".to_string()));
    assert_eq!(lookup_format("woff2"), Some("woff2".to_string()));
    assert_eq!(lookup_format("eot"), Some("embedded-opentype".to_string()));
}

#[test]
fn format_table_has_no_other_rows() {
    assert_eq!(lookup_format("otf"), None);
    assert_eq!(lookup_format(""), None);
    assert_eq!(lookup_format("TTF"), None);
    assert_eq!(lookup_format("woff3"), None);
    assert_eq!(lookup_format("truetype"), None);
}

#[test]
fn required_format_of_known_extension() {
    assert_eq!(require_format(&Some("eot".to_string())), Ok("embedded-opentype".to_string()));
}

#[test]
fn required_format_of_unknown_extension() {
    assert_eq!(require_format(&Some("otf".to_string())), Err(FontFormatError::UnknownExtension));
}

#[test]
fn required_format_of_missing_extension() {
    assert_eq!(require_format(&None), Err(FontFormatError::MissingExtension));
}

#[test]
fn font_file_name_keeps_the_extension() {
    assert_eq!(make_font_file_name("woff2"), "custom-font.woff2");
    assert_eq!(make_font_file_name(""), "custom-font.");
}

#[test]
fn font_face_block_text() {
    assert_eq!(
        make_font_face_block("ttf", "truetype"),
        "@font-face {\n    font-family: \"custom-font\";\n    src: url(\"custom-font.ttf\") format(\"truetype\");\n}\n\nbody {\n    font-family: \"custom-font\", Fallback, sans-serif;\n}"
    );
}

#[test]
fn error_messages() {
    assert_eq!(FontFormatError::MissingExtension.message(), "Font did not have a file extension");
    assert_eq!(FontFormatError::UnknownExtension.message(), "Invalid font format");
}

#[test]
fn font_face_of_known_extension() {
    assert_eq!(
        make_font_face(&Some("eot".to_string())),
        Ok(make_font_face_block("eot", "embedded-opentype"))
    );
    let block = make_font_face(&Some("woff".to_string())).unwrap();
    assert!(block.contains("src: url(\"custom-font.woff\") format(\"woff\");"));
}

#[test]
fn font_face_of_unknown_or_missing_extension() {
    assert_eq!(make_font_face(&Some("otf".to_string())), Err(FontFormatError::UnknownExtension));
    assert_eq!(make_font_face(&Some(String::new())), Err(FontFormatError::UnknownExtension));
    assert_eq!(make_font_face(&None), Err(FontFormatError::MissingExtension));
}

#[test]
fn font_name_of_extension() {
    assert_eq!(make_font_name(&Some("ttf".to_string())), Some("custom-font.ttf".to_string()));
    assert_eq!(make_font_name(&Some("otf".to_string())), Some("custom-font.otf".to_string()));
    assert_eq!(make_font_name(&None), None);
}
