use statisch::config::{Application, Bookmark, BookmarkSection, Config, Theme};
use statisch::font::FontFormatError;
use statisch::page::Page;
use statisch::resources::{BASE_CSS, GRUVBOX_CSS};

const HEAD: &str = "<!DOCTYPE html><html><head><title>Statisch</title><meta charset=\"utf-8\"><meta name=\"viewport\" content=\"width=device-width, initial-scale=1, shrink-to-fit=no\"><link rel=\"stylesheet\" href=\"style.css\"></head><body><div class=\"container\">";
const TAIL: &str = "</div><script src=\"https://code.iconify.design/2/2.1.0/iconify.min.js\"></script></body></html>";

fn app(name: &str, link: &str) -> Application {
    Application::new(name.to_string(), link.to_string(), None, None)
}

fn mark(name: &str, link: &str) -> Bookmark {
    Bookmark::new(name.to_string(), link.to_string(), None)
}

fn page_with(applications: Vec<Application>, bookmarks: Vec<BookmarkSection>) -> Page {
    Page::new(Config::new(None, None, None, Some(applications), Some(bookmarks), None))
}

fn page_with_font(path: &str) -> Page {
    Page::new(Config::new(None, None, Some(path.to_string()), None, None, None))
}

#[test]
fn default_page_has_only_the_frame() {
    let page = Page::new(Config::default());
    assert_eq!(page.render(), format!("{}{}", HEAD, TAIL));
}

#[test]
fn page_with_both_sections() {
    let page = page_with(
        vec![
            Application::new(
                "Mail".to_string(),
                "https://mail.example".to_string(),
                Some("ic:baseline-mail".to_string()),
                Some("_self".to_string()),
            ),
            app("Files", "https://files.example"),
        ],
        vec![
            BookmarkSection::new(
                "News".to_string(),
                Some(vec![
                    mark("Paper", "https://paper.example"),
                    Bookmark::new(
                        "Radio".to_string(),
                        "https://radio.example".to_string(),
                        Some("_top".to_string()),
                    ),
                ]),
            ),
            BookmarkSection::new("Empty".to_string(), None),
        ],
    );
    let expected = format!(
        "{}{}{}{}",
        HEAD,
        "<h4>Applications</h4><div class=\"grid\"><div class=\"row\"><span class=\"iconify\" data-icon=\"ic:baseline-mail\" data-width=\"28\"></span><a href=\"https://mail.example\" target=\"_self\" class=\"app-name\">Mail</a></div><div class=\"row\"><span class=\"iconify\" data-icon=\"ic:baseline-person\" data-width=\"28\"></span><a href=\"https://files.example\" target=\"_blank\" class=\"app-name\">Files</a></div></div>",
        "<h4 class=\"mb-0\">Bookmarks</h4><div class=\"grid\"><div class=\"col bookmark-section-header\"><h5 class=\"mb-1\">News</h5><div class=\"bookmark-item\"><a href=\"https://paper.example\" target=\"_blank\">Paper</a></div><div class=\"bookmark-item\"><a href=\"https://radio.example\" target=\"_top\">Radio</a></div></div><div class=\"col bookmark-section-header\"><h5 class=\"mb-1\">Empty</h5></div></div>",
        TAIL
    );
    assert_eq!(page.render(), expected);
}

#[test]
fn text_and_attribute_values_are_escaped() {
    let page = Page::new(Config::new(
        Some("a<b & \"c\">'d'".to_string()),
        None,
        None,
        Some(vec![Application::new(
            "R&D <lab>".to_string(),
            "https://lab.example/?a=1&b=\"2\"".to_string(),
            Some("ic:\"x\"".to_string()),
            Some("<top>".to_string()),
        )]),
        Some(vec![BookmarkSection::new(
            "<News>".to_string(),
            Some(vec![Bookmark::new(
                "P&P".to_string(),
                "https://p.example/?q=<>".to_string(),
                Some("\"".to_string()),
            )]),
        )]),
        None,
    ));
    let html = page.render();
    assert!(html.contains("<title>a&lt;b &amp; &quot;c&quot;&gt;'d'</title>"));
    assert!(html.contains("data-icon=\"ic:&quot;x&quot;\""));
    assert!(html.contains(
        "<a href=\"https://lab.example/?a=1&amp;b=&quot;2&quot;\" target=\"&lt;top&gt;\" class=\"app-name\">R&amp;D &lt;lab&gt;</a>"
    ));
    assert!(html.contains("<h5 class=\"mb-1\">&lt;News&gt;</h5>"));
    assert!(html.contains("<a href=\"https://p.example/?q=&lt;&gt;\" target=\"&quot;\">P&amp;P</a>"));
}

#[test]
fn text_outside_ascii_is_kept() {
    let page = Page::new(Config::new(Some("Caf\u{e9} \u{2603}".to_string()), None, None, None, None, None));
    assert!(page.render().contains("<title>Caf\u{e9} \u{2603}</title>"));
}

#[test]
fn no_applications_no_applications_section() {
    let page = Page::new(Config::new(
        Some("Applications".to_string()),
        None,
        None,
        None,
        Some(vec![BookmarkSection::new(
            "Applications".to_string(),
            Some(vec![mark("<h4>Applications</h4>", "<div class=\"row\">")]),
        )]),
        None,
    ));
    let html = page.render();
    assert!(!html.contains("<h4>Applications</h4>"));
    assert!(!html.contains("<div class=\"row\">"));
    assert!(!html.contains("iconify\""));
    assert!(html.contains("<h4 class=\"mb-0\">Bookmarks</h4>"));
}

#[test]
fn no_bookmarks_no_bookmarks_section() {
    let page = Page::new(Config::new(
        Some("Bookmarks".to_string()),
        None,
        None,
        Some(vec![app("Bookmarks", "<h4 class=\"mb-0\">Bookmarks</h4>")]),
        None,
        None,
    ));
    let html = page.render();
    assert!(!html.contains("<h4 class=\"mb-0\">Bookmarks</h4>"));
    assert!(!html.contains("<div class=\"col bookmark-section-header\">"));
    assert!(!html.contains("<div class=\"bookmark-item\">"));
    assert!(html.contains("<h4>Applications</h4>"));
}

#[test]
fn applications_appear_in_list_order() {
    let names = ["Zeta", "Alpha", "Mid", "Alpha"];
    let apps: Vec<Application> = names
        .iter()
        .enumerate()
        .map(|(i, name)| app(name, &format!("https://{}.example", i)))
        .collect();
    let html = page_with(apps, vec![]).render();
    let mut from = 0;
    for (i, name) in names.iter().enumerate() {
        let row = format!(
            "<div class=\"row\"><span class=\"iconify\" data-icon=\"ic:baseline-person\" data-width=\"28\"></span><a href=\"https://{}.example\" target=\"_blank\" class=\"app-name\">{}</a></div>",
            i, name
        );
        let at = html[from..].find(&row).expect("row is missing or out of order");
        from += at + row.len();
    }
    assert_eq!(html.matches("<div class=\"row\">").count(), names.len());
}

#[test]
fn application_row_links_to_its_application() {
    let apps = vec![
        Application::new(
            "One".to_string(),
            "https://one.example".to_string(),
            None,
            Some("_self".to_string()),
        ),
        app("Two", "https://two.example"),
    ];
    let html = page_with(apps, vec![]).render();
    assert!(html.contains("<a href=\"https://one.example\" target=\"_self\" class=\"app-name\">One</a>"));
    assert!(html.contains("<a href=\"https://two.example\" target=\"_blank\" class=\"app-name\">Two</a>"));
}

#[test]
fn bookmark_sections_and_marks_appear_in_list_order() {
    let html = page_with(
        vec![],
        vec![
            BookmarkSection::new(
                "B".to_string(),
                Some(vec![mark("b2", "https://b2.example"), mark("b1", "https://b1.example")]),
            ),
            BookmarkSection::new("A".to_string(), Some(vec![mark("a1", "https://a1.example")])),
        ],
    )
    .render();
    let order = [">B</h5>", ">b2</a>", ">b1</a>", ">A</h5>", ">a1</a>"];
    let mut from = 0;
    for piece in order {
        let at = html[from..].find(piece).expect("entry is missing or out of order");
        from += at + piece.len();
    }
}

#[test]
fn home_page_with_one_application() {
    let config = Config::new(
        Some("Home".to_string()),
        None,
        None,
        Some(vec![Application::new(
            "Mail".to_string(),
            "https://mail.example".to_string(),
            Some("ic:baseline-mail".to_string()),
            Some("_blank".to_string()),
        )]),
        Some(vec![]),
        None,
    );
    let html = Page::new(config).render();
    assert!(html.contains("<title>Home</title>"));
    assert!(html.contains("<a href=\"https://mail.example\" target=\"_blank\" class=\"app-name\">Mail</a>"));
    assert!(html.contains("data-icon=\"ic:baseline-mail\""));
    assert!(!html.contains("Bookmarks"));
}

#[test]
fn woff2_font_names_and_block() {
    let page = page_with_font("assets/inter.woff2");
    assert_eq!(page.font_name(), Some("custom-font.woff2".to_string()));
    let block = page.font_face_style().unwrap();
    assert!(block.contains("format(\"woff2\")"));
    assert!(block.contains("src: url(\"custom-font.woff2\")"));
    assert_eq!(
        block,
        "@font-face {\n    font-family: \"custom-font\";\n    src: url(\"custom-font.woff2\") format(\"woff2\");\n}\n\nbody {\n    font-family: \"custom-font\", Fallback, sans-serif;\n}"
    );
}

#[test]
fn font_face_style_without_font_is_empty() {
    assert_eq!(Page::new(Config::default()).font_face_style(), Ok(String::new()));
}

#[test]
fn font_face_style_fails_on_bad_fonts() {
    assert_eq!(
        page_with_font("font.otf").font_face_style(),
        Err(FontFormatError::UnknownExtension)
    );
    assert_eq!(page_with_font("font").font_face_style(), Err(FontFormatError::MissingExtension));
}

#[test]
fn font_name_follows_the_extension() {
    assert_eq!(Page::new(Config::default()).font_name(), None);
    assert_eq!(page_with_font("font").font_name(), None);
    assert_eq!(page_with_font("a/b.c/font.eot").font_name(), Some("custom-font.eot".to_string()));
    assert_eq!(page_with_font("font.otf").font_name(), Some("custom-font.otf".to_string()));
}

#[test]
fn font_path_is_handed_through() {
    assert_eq!(Page::new(Config::default()).font(), None);
    assert_eq!(page_with_font("a/font.ttf").font(), Some("a/font.ttf".to_string()));
}

#[test]
fn favicon_path_is_handed_through() {
    assert_eq!(Page::new(Config::default()).favicon(), None);
    let page = Page::new(Config::new(None, None, None, None, None, Some("img/fav.png".to_string())));
    assert_eq!(page.favicon(), Some(&"img/fav.png".to_string()));
}

#[test]
fn output_names_are_fixed() {
    let page = page_with_font("font.ttf");
    assert_eq!(page.stylesheet_name(), "style.css");
    assert_eq!(page.favicon_name(), "favicon.ico");
}

#[test]
fn stylesheet_without_font_is_theme_then_base() {
    let page = Page::new(Config::default());
    assert_eq!(page.font_face_style(), Ok(String::new()));
    assert_eq!(page.stylesheet(), Ok(format!("{}{}", GRUVBOX_CSS, BASE_CSS)));
}

#[test]
fn stylesheet_with_font_is_theme_block_base() {
    let page = page_with_font("font.ttf");
    let sheet = page.stylesheet().unwrap();
    let block = page.font_face_style().unwrap();
    assert!(!block.is_empty());
    assert_eq!(
        sheet,
        format!("{}{}{}", Theme::Gruvbox.style_header(), block, BASE_CSS)
    );
    let theme_at = sheet.find(GRUVBOX_CSS).unwrap();
    let block_at = sheet.find(&block).unwrap();
    let base_at = sheet.find(BASE_CSS).unwrap();
    assert!(theme_at < block_at && block_at < base_at);
}

#[test]
fn stylesheet_fails_on_bad_fonts() {
    assert_eq!(page_with_font("font.otf").stylesheet(), Err(FontFormatError::UnknownExtension));
    assert_eq!(page_with_font("font").stylesheet(), Err(FontFormatError::MissingExtension));
}

#[test]
fn bad_font_does_not_stop_rendering() {
    assert_eq!(page_with_font("font.otf").render(), format!("{}{}", HEAD, TAIL));
}

#[test]
fn rendering_twice_gives_the_same_text() {
    let page = page_with(
        vec![app("Mail", "https://mail.example")],
        vec![BookmarkSection::new("News".to_string(), Some(vec![mark("a", "https://a.example")]))],
    );
    assert_eq!(page.render(), page.render());
    assert_eq!(page.stylesheet(), page.stylesheet());
    let failing = page_with_font("font.otf");
    assert_eq!(failing.stylesheet(), failing.stylesheet());
}

#[test]
fn base_styles_leave_the_body_font_alone() {
    let body_rule = BASE_CSS.split("body {").nth(1).unwrap().split('}').next().unwrap();
    assert!(!body_rule.contains("font-family"));
}
