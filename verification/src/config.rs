//! The configuration model: applications, bookmark sections, theme and the
//! page-wide settings, each optional field with its default.

use crate::font::{
    extension_of, font_format_of, optional_text_result, require_format, FontFormatError,
};
use crate::resources::GRUVBOX_CSS;
use vstd::prelude::*;
use vstd::string::*;

verus! {

/// Link target of an application or bookmark that names none.
pub fn default_target() -> (r: String)
    ensures
        r@ == "_blank"@,
{
    "_blank".to_string()
}

/// Icon of an application that names none.
pub fn default_icon() -> (r: String)
    ensures
        r@ == "ic:baseline-person"@,
{
    "ic:baseline-person".to_string()
}

/// Theme of a page that names none.
pub fn default_theme() -> (r: Theme)
    ensures
        r == Theme::Gruvbox,
{
    Theme::Gruvbox
}

/// Title of a page that names none.
pub fn default_title() -> (r: String)
    ensures
        r@ == "Statisch"@,
{
    "Statisch".to_string()
}

/// A given text, or the default where none is given.
pub open spec fn text_or(given: Option<Seq<char>>, default: Seq<char>) -> Seq<char> {
    match given {
        Some(text) => text,
        None => default,
    }
}

/// A given list, or the empty list where none is given.
pub open spec fn list_or_empty<T>(given: Option<Seq<T>>) -> Seq<T> {
    match given {
        Some(list) => list,
        None => Seq::empty(),
    }
}

/// One entry of the applications grid.
#[derive(Debug, PartialEq, Eq)]
pub struct Application {
    /// Name shown beside the icon.
    pub name: String,
    /// Address the entry links to.
    pub link: String,
    /// Icon identifier.
    pub icon: String,
    /// Link target.
    pub target: String,
}

/// Mathematical model of an [`Application`].
pub struct ApplicationView {
    pub name: Seq<char>,
    pub link: Seq<char>,
    pub icon: Seq<char>,
    pub target: Seq<char>,
}

impl View for Application {
    type V = ApplicationView;

    open spec fn view(&self) -> ApplicationView {
        ApplicationView {
            name: self.name@,
            link: self.link@,
            icon: self.icon@,
            target: self.target@,
        }
    }
}

impl DeepView for Application {
    type V = ApplicationView;

    open spec fn deep_view(&self) -> ApplicationView {
        self@
    }
}

impl Clone for Application {
    fn clone(&self) -> (r: Self)
        ensures
            r@ == self@,
    {
        Application {
            name: self.name.clone(),
            link: self.link.clone(),
            icon: self.icon.clone(),
            target: self.target.clone(),
        }
    }
}

/// The application that a document entry with these fields describes.
pub open spec fn resolved_application(
    name: Seq<char>,
    link: Seq<char>,
    icon: Option<Seq<char>>,
    target: Option<Seq<char>>,
) -> ApplicationView {
    ApplicationView {
        name,
        link,
        icon: text_or(icon, "ic:baseline-person"@),
        target: text_or(target, "_blank"@),
    }
}

impl Application {
    /// Builds an application from the fields of a document entry; an absent
    /// icon or target takes its default.
    pub fn new(name: String, link: String, icon: Option<String>, target: Option<String>) -> (r:
        Self)
        ensures
            r@ == resolved_application(name@, link@, icon.deep_view(), target.deep_view()),
    {
        let icon = match icon {
            Some(icon) => icon,
            None => default_icon(),
        };
        let target = match target {
            Some(target) => target,
            None => default_target(),
        };
        Application { name, link, icon, target }
    }
}

/// One bookmark of a section.
#[derive(Debug, PartialEq, Eq)]
pub struct Bookmark {
    /// Name shown as the link text.
    pub name: String,
    /// Address the bookmark links to.
    pub link: String,
    /// Link target.
    pub target: String,
}

/// Mathematical model of a [`Bookmark`].
pub struct BookmarkView {
    pub name: Seq<char>,
    pub link: Seq<char>,
    pub target: Seq<char>,
}

impl View for Bookmark {
    type V = BookmarkView;

    open spec fn view(&self) -> BookmarkView {
        BookmarkView { name: self.name@, link: self.link@, target: self.target@ }
    }
}

impl DeepView for Bookmark {
    type V = BookmarkView;

    open spec fn deep_view(&self) -> BookmarkView {
        self@
    }
}

impl Clone for Bookmark {
    fn clone(&self) -> (r: Self)
        ensures
            r@ == self@,
    {
        Bookmark { name: self.name.clone(), link: self.link.clone(), target: self.target.clone() }
    }
}

/// The bookmark that a document entry with these fields describes.
pub open spec fn resolved_bookmark(
    name: Seq<char>,
    link: Seq<char>,
    target: Option<Seq<char>>,
) -> BookmarkView {
    BookmarkView { name, link, target: text_or(target, "_blank"@) }
}

impl Bookmark {
    /// Builds a bookmark from the fields of a document entry; an absent
    /// target takes its default.
    pub fn new(name: String, link: String, target: Option<String>) -> (r: Self)
        ensures
            r@ == resolved_bookmark(name@, link@, target.deep_view()),
    {
        let target = match target {
            Some(target) => target,
            None => default_target(),
        };
        Bookmark { name, link, target }
    }
}

/// A named group of bookmarks, shown as one column.
#[derive(Debug, PartialEq, Eq)]
pub struct BookmarkSection {
    name: String,
    marks: Vec<Bookmark>,
}

/// Mathematical model of a [`BookmarkSection`].
pub struct SectionView {
    pub name: Seq<char>,
    pub marks: Seq<BookmarkView>,
}

impl View for BookmarkSection {
    type V = SectionView;

    closed spec fn view(&self) -> SectionView {
        SectionView { name: self.name@, marks: self.marks.deep_view() }
    }
}

impl DeepView for BookmarkSection {
    type V = SectionView;

    open spec fn deep_view(&self) -> SectionView {
        self@
    }
}

impl Clone for BookmarkSection {
    fn clone(&self) -> (r: Self)
        ensures
            r@ == self@,
    {
        let marks = self.marks.clone();
        BookmarkSection { name: self.name.clone(), marks }
    }
}

/// The section that a document entry with these fields describes.
pub open spec fn resolved_section(name: Seq<char>, marks: Option<Seq<BookmarkView>>) -> SectionView {
    SectionView { name, marks: list_or_empty(marks) }
}

impl BookmarkSection {
    /// Builds a section from the fields of a document entry; absent marks
    /// are an empty list.
    pub fn new(name: String, marks: Option<Vec<Bookmark>>) -> (r: Self)
        ensures
            r@ == resolved_section(name@, marks.deep_view()),
    {
        let ghost given = marks.deep_view();
        let marks = match marks {
            Some(marks) => marks,
            None => Vec::new(),
        };
        assert(marks.deep_view() =~= list_or_empty(given));
        BookmarkSection { name, marks }
    }

    /// The name of the section.
    pub fn name(&self) -> (r: String)
        ensures
            r@ == self@.name,
    {
        self.name.clone()
    }

    /// The bookmarks of the section, in order.
    pub fn marks(&self) -> (r: Vec<Bookmark>)
        ensures
            r.deep_view() == self@.marks,
    {
        self.marks.clone()
    }
}

/// Colour scheme of the page.
#[derive(Debug, Clone, Copy, PartialEq, Eq, Structural)]
pub enum Theme {
    Gruvbox,
}

impl Theme {
    /// The style text that belongs to the theme.
    pub open spec fn css(self) -> Seq<char> {
        match self {
            Theme::Gruvbox => GRUVBOX_CSS@,
        }
    }

    /// The theme's style text.
    pub fn style_header(&self) -> (r: String)
        ensures
            r@ == self.css(),
    {
        match self {
            Theme::Gruvbox => GRUVBOX_CSS.to_string(),
        }
    }
}

/// Page-wide configuration.
#[derive(Debug, PartialEq, Eq)]
pub struct Config {
    title: String,
    theme: Theme,
    font: Option<String>,
    applications: Vec<Application>,
    bookmarks: Vec<BookmarkSection>,
    favicon: Option<String>,
}

/// Mathematical model of a [`Config`].
pub struct ConfigView {
    pub title: Seq<char>,
    pub theme: Theme,
    pub font: Option<Seq<char>>,
    pub applications: Seq<ApplicationView>,
    pub bookmarks: Seq<SectionView>,
    pub favicon: Option<Seq<char>>,
}

impl View for Config {
    type V = ConfigView;

    closed spec fn view(&self) -> ConfigView {
        ConfigView {
            title: self.title@,
            theme: self.theme,
            font: self.font.deep_view(),
            applications: self.applications.deep_view(),
            bookmarks: self.bookmarks.deep_view(),
            favicon: self.favicon.deep_view(),
        }
    }
}

/// The configuration that a document with these top-level fields describes.
pub open spec fn resolved_config(
    title: Option<Seq<char>>,
    theme: Option<Theme>,
    font: Option<Seq<char>>,
    applications: Option<Seq<ApplicationView>>,
    bookmarks: Option<Seq<SectionView>>,
    favicon: Option<Seq<char>>,
) -> ConfigView {
    ConfigView {
        title: text_or(title, "Statisch"@),
        theme: match theme {
            Some(theme) => theme,
            None => Theme::Gruvbox,
        },
        font,
        applications: list_or_empty(applications),
        bookmarks: list_or_empty(bookmarks),
        favicon,
    }
}

/// The configuration used where no document is given.
pub open spec fn default_config() -> ConfigView {
    ConfigView {
        title: "Statisch"@,
        theme: Theme::Gruvbox,
        font: None,
        applications: Seq::empty(),
        bookmarks: Seq::empty(),
        favicon: None,
    }
}

/// A document that gives none of the optional fields describes the
/// default configuration.
pub proof fn lemma_absent_fields_give_defaults()
    ensures
        resolved_config(None, None, None, None, None, None) == default_config(),
{
}

impl Config {
    /// Builds a configuration from the top-level fields of a document; each
    /// absent field takes its default.
    pub fn new(
        title: Option<String>,
        theme: Option<Theme>,
        font: Option<String>,
        applications: Option<Vec<Application>>,
        bookmarks: Option<Vec<BookmarkSection>>,
        favicon: Option<String>,
    ) -> (r: Self)
        ensures
            r@ == resolved_config(
                title.deep_view(),
                theme,
                font.deep_view(),
                applications.deep_view(),
                bookmarks.deep_view(),
                favicon.deep_view(),
            ),
    {
        let ghost given_applications = applications.deep_view();
        let ghost given_bookmarks = bookmarks.deep_view();
        let title = match title {
            Some(title) => title,
            None => default_title(),
        };
        let theme = match theme {
            Some(theme) => theme,
            None => default_theme(),
        };
        let applications = match applications {
            Some(applications) => applications,
            None => Vec::new(),
        };
        let bookmarks = match bookmarks {
            Some(bookmarks) => bookmarks,
            None => Vec::new(),
        };
        assert(applications.deep_view() =~= list_or_empty(given_applications));
        assert(bookmarks.deep_view() =~= list_or_empty(given_bookmarks));
        Config { title, theme, font, applications, bookmarks, favicon }
    }

    /// The configuration used where no document is given.
    pub fn default() -> (r: Self)
        ensures
            r@ == default_config(),
    {
        Config::new(None, None, None, None, None, None)
    }

    /// The page title.
    pub fn title(&self) -> (r: String)
        ensures
            r@ == self@.title,
    {
        self.title.clone()
    }

    /// The applications, in order.
    pub fn applications(&self) -> (r: Vec<Application>)
        ensures
            r.deep_view() == self@.applications,
    {
        self.applications.clone()
    }

    /// The bookmark sections, in order.
    pub fn bookmarks(&self) -> (r: Vec<BookmarkSection>)
        ensures
            r.deep_view() == self@.bookmarks,
    {
        self.bookmarks.clone()
    }

    /// The theme.
    pub fn theme(&self) -> (r: Theme)
        ensures
            r == self@.theme,
    {
        self.theme
    }

    /// The path of the custom font, if one is configured.
    pub fn font(&self) -> (r: Option<String>)
        ensures
            r.deep_view() == self@.font,
    {
        self.font.clone()
    }

    /// The path of the favicon, if one is configured.
    pub fn favicon(&self) -> (r: Option<&String>)
        ensures
            r.deep_view() == self@.favicon,
    {
        self.favicon.as_ref()
    }

    /// The CSS format token of the configured font.
    pub fn font_format(&self) -> (r: Result<Option<String>, FontFormatError>)
        ensures
            optional_text_result(r) == font_format_of(self@.font),
    {
        match &self.font {
            None => Ok(None),
            Some(path) => {
                let extension = extension_of(path.as_str());
                match require_format(&extension) {
                    Ok(format) => Ok(Some(format)),
                    Err(e) => Err(e),
                }
            },
        }
    }
}

} // verus!
