//! Custom fonts: the extension of a font path, the CSS format token that
//! belongs to it, the name the font file is published under, and the
//! `@font-face` block that registers it.

use vstd::prelude::*;
use vstd::string::*;

verus! {

/// Why no format can be derived for a configured font.
#[derive(Debug, Clone, Copy, PartialEq, Eq, Structural)]
pub enum FontFormatError {
    /// The font path has no file extension.
    MissingExtension,
    /// The font path has an extension that is not in the format table.
    UnknownExtension,
}

impl FontFormatError {
    /// A short description of the failure, fit for a terminal.
    pub fn message(&self) -> (r: String)
        ensures
            r@ == match *self {
                FontFormatError::MissingExtension => "Font did not have a file extension"@,
                FontFormatError::UnknownExtension => "Invalid font format"@,
            },
    {
        match self {
            FontFormatError::MissingExtension => "Font did not have a file extension".to_string(),
            FontFormatError::UnknownExtension => "Invalid font format".to_string(),
        }
    }
}

/// The view of a text result.
pub open spec fn text_result(r: Result<String, FontFormatError>) -> Result<
    Seq<char>,
    FontFormatError,
> {
    match r {
        Ok(text) => Ok(text@),
        Err(e) => Err(e),
    }
}

/// The view of an optional text result.
pub open spec fn optional_text_result(r: Result<Option<String>, FontFormatError>) -> Result<
    Option<Seq<char>>,
    FontFormatError,
> {
    match r {
        Ok(text) => Ok(text.deep_view()),
        Err(e) => Err(e),
    }
}

/// The file extension of a path, as `std::path::Path::extension` reads it:
/// the part of the final component after its last dot, if there is one.
pub uninterp spec fn path_extension(path: Seq<char>) -> Option<Seq<char>>;

/// The file extension of `path`.
///
/// Calls `std::path::Path::extension` on the path made of `path`; the
/// contract only names what that call returns. The path is UTF-8, so its
/// extension is too and converts to a `String` unchanged.
#[verifier::external_body]
pub(crate) fn extension_of(path: &str) -> (r: Option<String>)
    ensures
        r.deep_view() == path_extension(path@),
{
    let extension = std::path::Path::new(path).extension()?;
    Some(extension.to_string_lossy().into_owned())
}

/// The table from font file extensions to CSS format tokens.
pub open spec fn extension_format(extension: Seq<char>) -> Option<Seq<char>> {
    if extension == "ttf"@ {
        Some("truetype"@)
    } else if extension == "woff"@ {
        Some("woff"@)
    } else if extension == "woff2"@ {
        Some("woff2"@)
    } else if extension == "eot"@ {
        Some("embedded-opentype"@)
    } else {
        None
    }
}

/// The format token that an extension stands for, or the reason there is
/// none: the extension is missing, or the table does not list it.
pub open spec fn required_format(extension: Option<Seq<char>>) -> Result<
    Seq<char>,
    FontFormatError,
> {
    match extension {
        None => Err(FontFormatError::MissingExtension),
        Some(e) => match extension_format(e) {
            Some(format) => Ok(format),
            None => Err(FontFormatError::UnknownExtension),
        },
    }
}

/// The name under which a font file with the given extension is published.
pub open spec fn font_file_name(extension: Seq<char>) -> Seq<char> {
    "custom-font."@ + extension
}

/// The `@font-face` rule for a font with the given extension and format,
/// followed by the rule that applies the family to the document body.
pub open spec fn font_face_block(extension: Seq<char>, format: Seq<char>) -> Seq<char> {
    "@font-face {\n    font-family: \"custom-font\";\n    src: url(\""@ + font_file_name(extension)
        + "\") format(\""@ + format
        + "\");\n}\n\nbody {\n    font-family: \"custom-font\", Fallback, sans-serif;\n}"@
}

/// The font-face block of a font whose path has the given extension.
pub open spec fn font_face(extension: Option<Seq<char>>) -> Result<Seq<char>, FontFormatError> {
    match required_format(extension) {
        Ok(format) => Ok(font_face_block(extension.unwrap(), format)),
        Err(e) => Err(e),
    }
}

/// The published name of a font whose path has the given extension: none
/// where the path has no extension.
pub open spec fn font_name(extension: Option<Seq<char>>) -> Option<Seq<char>> {
    match extension {
        Some(e) => Some(font_file_name(e)),
        None => None,
    }
}

/// The format token of a configured font: none without a font, otherwise
/// the token that the table gives for the extension of the font path.
pub open spec fn font_format_of(font: Option<Seq<char>>) -> Result<
    Option<Seq<char>>,
    FontFormatError,
> {
    match font {
        None => Ok(None),
        Some(path) => match required_format(path_extension(path)) {
            Ok(format) => Ok(Some(format)),
            Err(e) => Err(e),
        },
    }
}

/// The font-face segment of the stylesheet: empty without a font,
/// otherwise the font-face block for the extension of the font path.
pub open spec fn font_face_of(font: Option<Seq<char>>) -> Result<Seq<char>, FontFormatError> {
    match font {
        None => Ok(Seq::empty()),
        Some(path) => font_face(path_extension(path)),
    }
}

/// The name under which the configured font is published: none without a
/// font or for a font path without an extension.
pub open spec fn font_name_of(font: Option<Seq<char>>) -> Option<Seq<char>> {
    match font {
        None => None,
        Some(path) => font_name(path_extension(path)),
    }
}

/// The font-face segment can be made exactly for the fonts that have a
/// format, and fails for the others as the format does.
pub proof fn lemma_font_face_fails_as_format(font: Option<Seq<char>>)
    ensures
        font_face_of(font) is Ok <==> font_format_of(font) is Ok,
        font_face_of(font) is Err ==> font_format_of(font) is Err && font_face_of(font)->Err_0
            == font_format_of(font)->Err_0,
{
}

/// A font is published under a name exactly where its path has an
/// extension, whether or not the table lists it.
pub proof fn lemma_font_name_needs_extension(path: Seq<char>)
    ensures
        font_name_of(Some(path)) is Some <==> path_extension(path) is Some,
{
}

/// A format is given for the four extensions of the table and for no other.
pub proof fn lemma_format_table_is_closed(extension: Seq<char>)
    ensures
        extension_format(extension) is Some <==> extension == "ttf"@ || extension == "woff"@
            || extension == "woff2"@ || extension == "eot"@,
{
}

/// Every row of the table is in force: no extension hides another.
pub proof fn lemma_format_table_rows()
    ensures
        extension_format("ttf"@) == Some("truetype"@),
        extension_format("woff"@) == Some("woff"@),
        extension_format("woff2"@) == Some("woff2"@),
        extension_format("eot"@) == Some("embedded-opentype"@),
{
    reveal_strlit("ttf");
    reveal_strlit("woff");
    reveal_strlit("woff2");
    reveal_strlit("eot");
    assert("eot"@[0] != "ttf"@[0]);
}

/// Whether two string slices hold the same text.
fn same_text(a: &str, b: &str) -> (r: bool)
    ensures
        r == (a@ == b@),
{
    String::from_str(a) == String::from_str(b)
}

/// Looks an extension up in the format table.
pub fn lookup_format(extension: &str) -> (r: Option<String>)
    ensures
        r.deep_view() == extension_format(extension@),
{
    if same_text(extension, "ttf") {
        Some("truetype".to_string())
    } else if same_text(extension, "woff") {
        Some("woff".to_string())
    } else if same_text(extension, "woff2") {
        Some("woff2".to_string())
    } else if same_text(extension, "eot") {
        Some("embedded-opentype".to_string())
    } else {
        None
    }
}

/// The format token for the extension of a font path, or the reason there
/// is none.
pub fn require_format(extension: &Option<String>) -> (r: Result<String, FontFormatError>)
    ensures
        text_result(r) == required_format(extension.deep_view()),
{
    match extension {
        None => Err(FontFormatError::MissingExtension),
        Some(e) => match lookup_format(e.as_str()) {
            Some(format) => Ok(format),
            None => Err(FontFormatError::UnknownExtension),
        },
    }
}

/// The published file name of a font with the given extension.
pub fn make_font_file_name(extension: &str) -> (r: String)
    ensures
        r@ == font_file_name(extension@),
{
    let mut name = "custom-font.".to_string();
    name.append(extension);
    name
}

/// The `@font-face` block for a font with the given extension and format.
pub fn make_font_face_block(extension: &str, format: &str) -> (r: String)
    ensures
        r@ == font_face_block(extension@, format@),
{
    let mut block = "@font-face {\n    font-family: \"custom-font\";\n    src: url(\"".to_string();
    let name = make_font_file_name(extension);
    block.append(name.as_str());
    block.append("\") format(\"");
    block.append(format);
    block.append("\");\n}\n\nbody {\n    font-family: \"custom-font\", Fallback, sans-serif;\n}");
    block
}

/// The font-face block of a font whose path has the given extension, or
/// the reason there is none.
pub fn make_font_face(extension: &Option<String>) -> (r: Result<String, FontFormatError>)
    ensures
        text_result(r) == font_face(extension.deep_view()),
{
    match extension {
        None => Err(FontFormatError::MissingExtension),
        Some(e) => match lookup_format(e.as_str()) {
            Some(format) => Ok(make_font_face_block(e.as_str(), format.as_str())),
            None => Err(FontFormatError::UnknownExtension),
        },
    }
}

/// The published name of a font whose path has the given extension.
pub fn make_font_name(extension: &Option<String>) -> (r: Option<String>)
    ensures
        r.deep_view() == font_name(extension.deep_view()),
{
    match extension {
        Some(e) => Some(make_font_file_name(e.as_str())),
        None => None,
    }
}

} // verus!
