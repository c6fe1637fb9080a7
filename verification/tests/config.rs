use statisch::config::{
    default_icon, default_target, default_theme, default_title, Application, Bookmark,
    BookmarkSection, Config, Theme,
};
use statisch::font::FontFormatError;
use statisch::resources::GRUVBOX_CSS;

fn config_with_font(path: &str) -> Config {
    Config::new(None, None, Some(path.to_string()), None, None, None)
}

#[test]
fn documented_defaults() {
    assert_eq!(default_target(), "_blank");
    assert_eq!(default_icon(), "ic:baseline-person");
    assert_eq!(default_title(), "Statisch");
    assert_eq!(default_theme(), Theme::Gruvbox);
}

#[test]
fn default_config_is_all_defaults() {
    let config = Config::default();
    assert_eq!(config.title(), "Statisch");
    assert_eq!(config.theme(), Theme::Gruvbox);
    assert_eq!(config.font(), None);
    assert_eq!(config.favicon(), None);
    assert!(config.applications().is_empty());
    assert!(config.bookmarks().is_empty());
}

#[test]
fn absent_fields_give_the_default_config() {
    let config = Config::new(None, None, None, None, None, None);
    assert_eq!(config, Config::default());
}

#[test]
fn given_fields_are_kept() {
    let app = Application::new(
        "Mail".to_string(),
        "https://mail.example".to_string(),
        Some("ic:baseline-mail".to_string()),
        Some("_self".to_string()),
    );
    let section = BookmarkSection::new(
        "News".to_string(),
        Some(vec![Bookmark::new(
            "Paper".to_string(),
            "https://paper.example".to_string(),
            Some("_top".to_string()),
        )]),
    );
    let config = Config::new(
        Some("Home".to_string()),
        Some(Theme::Gruvbox),
        Some("fonts/body.woff".to_string()),
        Some(vec![app.clone()]),
        Some(vec![section.clone()]),
        Some("img/icon.png".to_string()),
    );
    assert_eq!(config.title(), "Home");
    assert_eq!(config.theme(), Theme::Gruvbox);
    assert_eq!(config.font(), Some("fonts/body.woff".to_string()));
    assert_eq!(config.favicon(), Some(&"img/icon.png".to_string()));
    assert_eq!(config.applications(), vec![app]);
    assert_eq!(config.bookmarks(), vec![section]);
    assert_ne!(config, Config::default());
}

#[test]
fn application_without_icon_and_target_takes_defaults() {
    let app = Application::new("Mail".to_string(), "https://mail.example".to_string(), None, None);
    assert_eq!(app.name, "Mail");
    assert_eq!(app.link, "https://mail.example");
    assert_eq!(app.icon, "ic:baseline-person");
    assert_eq!(app.target, "_blank");
}

#[test]
fn application_keeps_given_icon_and_target() {
    let app = Application::new(
        "Mail".to_string(),
        "https://mail.example".to_string(),
        Some("ic:baseline-mail".to_string()),
        Some("_self".to_string()),
    );
    assert_eq!(app.icon, "ic:baseline-mail");
    assert_eq!(app.target, "_self");
}

#[test]
fn bookmark_without_target_opens_in_a_new_tab() {
    let mark = Bookmark::new("Paper".to_string(), "https://paper.example".to_string(), None);
    assert_eq!(mark.name, "Paper");
    assert_eq!(mark.link, "https://paper.example");
    assert_eq!(mark.target, "_blank");
    let kept = Bookmark::new("a".to_string(), "b".to_string(), Some("_parent".to_string()));
    assert_eq!(kept.target, "_parent");
}

#[test]
fn section_without_marks_is_empty() {
    let section = BookmarkSection::new("News".to_string(), None);
    assert_eq!(section.name(), "News");
    assert!(section.marks().is_empty());
}

#[test]
fn section_keeps_marks_in_order() {
    let first = Bookmark::new("a".to_string(), "https://a.example".to_string(), None);
    let second = Bookmark::new("b".to_string(), "https://b.example".to_string(), None);
    let section =
        BookmarkSection::new("News".to_string(), Some(vec![first.clone(), second.clone()]));
    assert_eq!(section.marks(), vec![first, second]);
}

#[test]
fn clones_are_equal() {
    let app = Application::new("Mail".to_string(), "https://mail.example".to_string(), None, None);
    assert_eq!(app.clone(), app);
    let mark = Bookmark::new("a".to_string(), "https://a.example".to_string(), None);
    assert_eq!(mark.clone(), mark);
    let section = BookmarkSection::new("News".to_string(), Some(vec![mark]));
    assert_eq!(section.clone(), section);
}

#[test]
fn gruvbox_style_header_is_its_bundled_text() {
    let css = Theme::Gruvbox.style_header();
    assert_eq!(css, GRUVBOX_CSS);
    assert!(css.contains("--color-background: #282828;"));
    assert!(css.ends_with("}\n"));
}

#[test]
fn font_format_without_font_is_absent() {
    assert_eq!(Config::default().font_format(), Ok(None));
}

#[test]
fn font_format_follows_the_extension_table() {
    assert_eq!(config_with_font("font.ttf").font_format(), Ok(Some("truetype".to_string())));
    assert_eq!(config_with_font("font.woff").font_format(), Ok(Some("woff".to_string())));
    assert_eq!(config_with_font("font.woff2").font_format(), Ok(Some("woff2".to_string())));
    assert_eq!(
        config_with_font("font.eot").font_format(),
        Ok(Some("embedded-opentype".to_string()))
    );
}

#[test]
fn font_format_rejects_other_extensions() {
    assert_eq!(config_with_font("font.otf").font_format(), Err(FontFormatError::UnknownExtension));
    assert_eq!(config_with_font("font.TTF").font_format(), Err(FontFormatError::UnknownExtension));
    assert_eq!(config_with_font("font.ttf2").font_format(), Err(FontFormatError::UnknownExtension));
}

#[test]
fn font_format_rejects_a_missing_extension() {
    assert_eq!(config_with_font("font").font_format(), Err(FontFormatError::MissingExtension));
    assert_eq!(config_with_font(".woff2").font_format(), Err(FontFormatError::MissingExtension));
    assert_eq!(
        config_with_font("fonts.ttf/body").font_format(),
        Err(FontFormatError::MissingExtension)
    );
}

#[test]
fn font_format_reads_the_last_extension_of_the_file_name() {
    assert_eq!(
        config_with_font("/srv/fonts.d/body.min.woff2").font_format(),
        Ok(Some("woff2".to_string()))
    );
}
