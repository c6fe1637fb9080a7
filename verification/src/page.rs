//! The renderer: turns one configuration into the HTML document, the
//! stylesheet and the names of the files that go with them.

use crate::config::{Config, ConfigView};
use crate::font::{
    extension_of, font_face_of, font_name_of, make_font_face, make_font_name, text_result,
    FontFormatError,
};
use crate::markup::{
    page_markup, push_applications_section, push_bookmarks_section, push_page_close,
    push_page_open,
};
use crate::resources::{BASE_CSS, FAVICON_NAME, STYLESHEET_NAME};
use vstd::prelude::*;
use vstd::string::*;

verus! {

/// The stylesheet of a configuration: the theme's style text, the
/// font-face segment and the base style text, in this order.
pub open spec fn stylesheet_of(config: ConfigView) -> Result<Seq<char>, FontFormatError> {
    match font_face_of(config.font) {
        Ok(font_face) => Ok(config.theme.css() + font_face + BASE_CSS@),
        Err(e) => Err(e),
    }
}

/// Generator of the page for one configuration.
pub struct Page {
    config: Config,
}

impl View for Page {
    type V = ConfigView;

    closed spec fn view(&self) -> ConfigView {
        self.config@
    }
}

impl Page {
    /// A page for the given configuration.
    pub fn new(config: Config) -> (r: Self)
        ensures
            r@ == config@,
    {
        Page { config }
    }

    /// The HTML document.
    pub fn render(&self) -> (r: String)
        ensures
            r@ == page_markup(self@),
    {
        let mut out = String::new();
        push_page_open(&mut out, self.config.title().as_str());
        push_applications_section(&mut out, &self.config.applications());
        push_bookmarks_section(&mut out, &self.config.bookmarks());
        push_page_close(&mut out);
        assert(out@ =~= page_markup(self@));
        out
    }

    /// The font-face segment of the stylesheet.
    pub fn font_face_style(&self) -> (r: Result<String, FontFormatError>)
        ensures
            text_result(r) == font_face_of(self@.font),
    {
        match self.config.font() {
            None => Ok(String::new()),
            Some(path) => make_font_face(&extension_of(path.as_str())),
        }
    }

    /// The name under which the configured font is published.
    pub fn font_name(&self) -> (r: Option<String>)
        ensures
            r.deep_view() == font_name_of(self@.font),
    {
        match self.config.font() {
            None => None,
            Some(path) => make_font_name(&extension_of(path.as_str())),
        }
    }

    /// The path of the configured font.
    pub fn font(&self) -> (r: Option<String>)
        ensures
            r.deep_view() == self@.font,
    {
        self.config.font()
    }

    /// The stylesheet.
    pub fn stylesheet(&self) -> (r: Result<String, FontFormatError>)
        ensures
            text_result(r) == stylesheet_of(self@),
    {
        match self.font_face_style() {
            Ok(font_face) => {
                let mut sheet = self.config.theme().style_header();
                sheet.append(font_face.as_str());
                sheet.append(BASE_CSS);
                Ok(sheet)
            },
            Err(e) => Err(e),
        }
    }

    /// The name under which the stylesheet is published.
    pub fn stylesheet_name(&self) -> (r: &'static str)
        ensures
            r@ == STYLESHEET_NAME@,
    {
        STYLESHEET_NAME
    }

    /// The path of the configured favicon.
    pub fn favicon(&self) -> (r: Option<&String>)
        ensures
            r.deep_view() == self@.favicon,
    {
        self.config.favicon()
    }

    /// The name under which the favicon is published.
    pub fn favicon_name(&self) -> (r: &'static str)
        ensures
            r@ == FAVICON_NAME@,
    {
        FAVICON_NAME
    }
}

/// Without a font the font-face segment is empty, and the stylesheet is
/// the theme's style text followed by the base style text.
pub proof fn lemma_stylesheet_without_font(config: ConfigView)
    requires
        config.font is None,
    ensures
        font_face_of(config.font) == Ok::<Seq<char>, FontFormatError>(Seq::empty()),
        stylesheet_of(config) == Ok::<Seq<char>, FontFormatError>(config.theme.css() + BASE_CSS@),
{
    assert(config.theme.css() + Seq::<char>::empty() + BASE_CSS@ =~= config.theme.css()
        + BASE_CSS@);
}

/// The stylesheet is the theme's style text, the font-face segment and the
/// base style text, in this order; it fails where the segment fails, with
/// the same error.
pub proof fn lemma_stylesheet_is_joined(config: ConfigView)
    ensures
        match font_face_of(config.font) {
            Ok(segment) => stylesheet_of(config) == Ok::<Seq<char>, FontFormatError>(
                config.theme.css() + segment + BASE_CSS@,
            ),
            Err(e) => stylesheet_of(config) == Err::<Seq<char>, FontFormatError>(e),
        },
{
}

/// Rendering is a function of the configuration: any two results of
/// [`Page::render`], on one page or on two pages for the same
/// configuration, hold the same text.
pub proof fn lemma_render_is_deterministic(one: Page, other: Page, first: String, second: String)
    requires
        one@ == other@,
        call_ensures(Page::render, (&one,), first),
        call_ensures(Page::render, (&other,), second),
    ensures
        first@ == second@,
{
}

/// Composing the stylesheet is a function of the configuration: any two
/// results of [`Page::stylesheet`], on one page or on two pages for the
/// same configuration, are the same text or the same failure.
pub proof fn lemma_stylesheet_is_deterministic(
    one: Page,
    other: Page,
    first: Result<String, FontFormatError>,
    second: Result<String, FontFormatError>,
)
    requires
        one@ == other@,
        call_ensures(Page::stylesheet, (&one,), first),
        call_ensures(Page::stylesheet, (&other,), second),
    ensures
        text_result(first) == text_result(second),
{
}

} // verus!
