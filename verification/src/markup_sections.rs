//! The two sections are optional: each shows its header and its entries
//! where its list has entries, and leaves no trace in the document where
//! it has none.

use crate::config::{ApplicationView, BookmarkView, ConfigView, SectionView};
use crate::escape::escaped;
use crate::markup::{
    application_row, application_rows, applications_section, bookmark_column, bookmark_columns,
    bookmark_item, bookmark_items, bookmarks_section, page_close, page_markup, page_open,
};
use crate::occurrence::{
    lemma_departing_text_lacks, lemma_escaped_tags_depart, lemma_joined_tags_depart,
    lemma_occurs_between, lemma_occurs_with_more_after, lemma_occurs_with_more_before, occurs_in,
    tags_depart,
};
use crate::resources::STYLESHEET_NAME;
use vstd::prelude::*;

verus! {

/// Whether `pattern` opens like a mark of the applications section: like
/// its header, or like the opening of a row.
spec fn opens_like_applications_mark(pattern: Seq<char>) -> bool {
    &&& pattern.len() > 14
    &&& pattern[0] == '<'
    &&& {
        ||| pattern[1] == 'h' && pattern[2] == '4' && pattern[3] == '>'
        ||| pattern[1] == 'd' && pattern[12] == 'r'
    }
}

/// Whether `pattern` opens like a mark of the bookmarks section: like its
/// header, like the opening of a column, or like the opening of a line.
spec fn opens_like_bookmarks_mark(pattern: Seq<char>) -> bool {
    &&& pattern.len() > 14
    &&& pattern[0] == '<'
    &&& {
        ||| pattern[1] == 'h' && pattern[2] == '4' && pattern[3] == ' '
        ||| pattern[1] == 'd' && pattern[12] == 'c' && pattern[14] == 'l'
        ||| pattern[1] == 'd' && pattern[12] == 'b'
    }
}

/// The tags of the document's opening depart from every mark.
proof fn lemma_page_open_departs(title: Seq<char>, pattern: Seq<char>)
    requires
        opens_like_applications_mark(pattern) || opens_like_bookmarks_mark(pattern),
    ensures
        tags_depart(page_open(title), pattern),
{
    let head = "<!DOCTYPE html><html><head><title>"@;
    let meta =
        "</title><meta charset=\"utf-8\"><meta name=\"viewport\" content=\"width=device-width, initial-scale=1, shrink-to-fit=no\"><link rel=\"stylesheet\" href=\""@;
    let body = "\"></head><body><div class=\"container\">"@;
    assert(tags_depart(head, pattern)) by {
        reveal_strlit("<!DOCTYPE html><html><head><title>");
    }
    assert(tags_depart(meta, pattern)) by {
        reveal_strlit(
            "</title><meta charset=\"utf-8\"><meta name=\"viewport\" content=\"width=device-width, initial-scale=1, shrink-to-fit=no\"><link rel=\"stylesheet\" href=\"",
        );
    }
    assert(tags_depart(STYLESHEET_NAME@, pattern)) by {
        reveal_strlit("style.css");
    }
    assert(tags_depart(body, pattern)) by {
        reveal_strlit("\"></head><body><div class=\"container\">");
    }
    lemma_escaped_tags_depart(title, pattern);
    lemma_joined_tags_depart(head, escaped(title), pattern);
    lemma_joined_tags_depart(head + escaped(title), meta, pattern);
    lemma_joined_tags_depart(head + escaped(title) + meta, STYLESHEET_NAME@, pattern);
    lemma_joined_tags_depart(head + escaped(title) + meta + STYLESHEET_NAME@, body, pattern);
}

/// The tags of the document's closing depart from every mark.
proof fn lemma_page_close_departs(pattern: Seq<char>)
    requires
        opens_like_applications_mark(pattern) || opens_like_bookmarks_mark(pattern),
    ensures
        tags_depart(page_close(), pattern),
{
    reveal_strlit(
        "</div><script src=\"https://code.iconify.design/2/2.1.0/iconify.min.js\"></script></body></html>",
    );
}

/// The tags of an application row depart from the marks of the bookmarks section.
proof fn lemma_application_row_departs(app: ApplicationView, pattern: Seq<char>)
    requires
        opens_like_bookmarks_mark(pattern),
    ensures
        tags_depart(application_row(app), pattern),
{
    let open = "<div class=\"row\"><span class=\"iconify\" data-icon=\""@;
    let link = "\" data-width=\"28\"></span><a href=\""@;
    let target = "\" target=\""@;
    let name = "\" class=\"app-name\">"@;
    let close = "</a></div>"@;
    assert(tags_depart(open, pattern)) by {
        reveal_strlit("<div class=\"row\"><span class=\"iconify\" data-icon=\"");
    }
    assert(tags_depart(link, pattern)) by {
        reveal_strlit("\" data-width=\"28\"></span><a href=\"");
    }
    assert(tags_depart(target, pattern)) by {
        reveal_strlit("\" target=\"");
    }
    assert(tags_depart(name, pattern)) by {
        reveal_strlit("\" class=\"app-name\">");
    }
    assert(tags_depart(close, pattern)) by {
        reveal_strlit("</a></div>");
    }
    lemma_escaped_tags_depart(app.icon, pattern);
    lemma_escaped_tags_depart(app.link, pattern);
    lemma_escaped_tags_depart(app.target, pattern);
    lemma_escaped_tags_depart(app.name, pattern);
    let a = open + escaped(app.icon);
    lemma_joined_tags_depart(open, escaped(app.icon), pattern);
    let b = a + link;
    lemma_joined_tags_depart(a, link, pattern);
    let c = b + escaped(app.link);
    lemma_joined_tags_depart(b, escaped(app.link), pattern);
    let d = c + target;
    lemma_joined_tags_depart(c, target, pattern);
    let e = d + escaped(app.target);
    lemma_joined_tags_depart(d, escaped(app.target), pattern);
    let f = e + name;
    lemma_joined_tags_depart(e, name, pattern);
    let g = f + escaped(app.name);
    lemma_joined_tags_depart(f, escaped(app.name), pattern);
    lemma_joined_tags_depart(g, close, pattern);
}

/// The tags of the application rows depart from the marks of the bookmarks section.
proof fn lemma_application_rows_depart(apps: Seq<ApplicationView>, pattern: Seq<char>)
    requires
        opens_like_bookmarks_mark(pattern),
    ensures
        tags_depart(application_rows(apps), pattern),
    decreases apps.len(),
{
    if apps.len() > 0 {
        lemma_application_rows_depart(apps.drop_last(), pattern);
        lemma_application_row_departs(apps.last(), pattern);
        lemma_joined_tags_depart(
            application_rows(apps.drop_last()),
            application_row(apps.last()),
            pattern,
        );
    }
}

/// The tags of the applications section depart from the marks of the bookmarks section.
proof fn lemma_applications_section_departs(apps: Seq<ApplicationView>, pattern: Seq<char>)
    requires
        opens_like_bookmarks_mark(pattern),
    ensures
        tags_depart(applications_section(apps), pattern),
{
    if apps.len() > 0 {
        let open = "<h4>Applications</h4><div class=\"grid\">"@;
        let close = "</div>"@;
        assert(tags_depart(open, pattern)) by {
            reveal_strlit("<h4>Applications</h4><div class=\"grid\">");
        }
        assert(tags_depart(close, pattern)) by {
            reveal_strlit("</div>");
        }
        lemma_application_rows_depart(apps, pattern);
        lemma_joined_tags_depart(open, application_rows(apps), pattern);
        lemma_joined_tags_depart(open + application_rows(apps), close, pattern);
    }
}

/// The tags of a bookmark line depart from the marks of the applications section.
proof fn lemma_bookmark_item_departs(mark: BookmarkView, pattern: Seq<char>)
    requires
        opens_like_applications_mark(pattern),
    ensures
        tags_depart(bookmark_item(mark), pattern),
{
    let open = "<div class=\"bookmark-item\"><a href=\""@;
    let target = "\" target=\""@;
    let name = "\">"@;
    let close = "</a></div>"@;
    assert(tags_depart(open, pattern)) by {
        reveal_strlit("<div class=\"bookmark-item\"><a href=\"");
    }
    assert(tags_depart(target, pattern)) by {
        reveal_strlit("\" target=\"");
    }
    assert(tags_depart(name, pattern)) by {
        reveal_strlit("\">");
    }
    assert(tags_depart(close, pattern)) by {
        reveal_strlit("</a></div>");
    }
    lemma_escaped_tags_depart(mark.link, pattern);
    lemma_escaped_tags_depart(mark.target, pattern);
    lemma_escaped_tags_depart(mark.name, pattern);
    let a = open + escaped(mark.link);
    lemma_joined_tags_depart(open, escaped(mark.link), pattern);
    let b = a + target;
    lemma_joined_tags_depart(a, target, pattern);
    let c = b + escaped(mark.target);
    lemma_joined_tags_depart(b, escaped(mark.target), pattern);
    let d = c + name;
    lemma_joined_tags_depart(c, name, pattern);
    let e = d + escaped(mark.name);
    lemma_joined_tags_depart(d, escaped(mark.name), pattern);
    lemma_joined_tags_depart(e, close, pattern);
}

/// The tags of the lines of a column depart from the marks of the applications section.
proof fn lemma_bookmark_items_depart(marks: Seq<BookmarkView>, pattern: Seq<char>)
    requires
        opens_like_applications_mark(pattern),
    ensures
        tags_depart(bookmark_items(marks), pattern),
    decreases marks.len(),
{
    if marks.len() > 0 {
        lemma_bookmark_items_depart(marks.drop_last(), pattern);
        lemma_bookmark_item_departs(marks.last(), pattern);
        lemma_joined_tags_depart(
            bookmark_items(marks.drop_last()),
            bookmark_item(marks.last()),
            pattern,
        );
    }
}

/// The tags of a bookmark column depart from the marks of the applications section.
proof fn lemma_bookmark_column_departs(section: SectionView, pattern: Seq<char>)
    requires
        opens_like_applications_mark(pattern),
    ensures
        tags_depart(bookmark_column(section), pattern),
{
    let open = "<div class=\"col bookmark-section-header\"><h5 class=\"mb-1\">"@;
    let items = "</h5>"@;
    let close = "</div>"@;
    assert(tags_depart(open, pattern)) by {
        reveal_strlit("<div class=\"col bookmark-section-header\"><h5 class=\"mb-1\">");
    }
    assert(tags_depart(items, pattern)) by {
        reveal_strlit("</h5>");
    }
    assert(tags_depart(close, pattern)) by {
        reveal_strlit("</div>");
    }
    lemma_escaped_tags_depart(section.name, pattern);
    lemma_bookmark_items_depart(section.marks, pattern);
    let a = open + escaped(section.name);
    lemma_joined_tags_depart(open, escaped(section.name), pattern);
    let b = a + items;
    lemma_joined_tags_depart(a, items, pattern);
    let c = b + bookmark_items(section.marks);
    lemma_joined_tags_depart(b, bookmark_items(section.marks), pattern);
    lemma_joined_tags_depart(c, close, pattern);
}

/// The tags of the bookmark columns depart from the marks of the applications section.
proof fn lemma_bookmark_columns_depart(sections: Seq<SectionView>, pattern: Seq<char>)
    requires
        opens_like_applications_mark(pattern),
    ensures
        tags_depart(bookmark_columns(sections), pattern),
    decreases sections.len(),
{
    if sections.len() > 0 {
        lemma_bookmark_columns_depart(sections.drop_last(), pattern);
        lemma_bookmark_column_departs(sections.last(), pattern);
        lemma_joined_tags_depart(
            bookmark_columns(sections.drop_last()),
            bookmark_column(sections.last()),
            pattern,
        );
    }
}

/// The tags of the bookmarks section depart from the marks of the applications section.
proof fn lemma_bookmarks_section_departs(sections: Seq<SectionView>, pattern: Seq<char>)
    requires
        opens_like_applications_mark(pattern),
    ensures
        tags_depart(bookmarks_section(sections), pattern),
{
    if sections.len() > 0 {
        let open = "<h4 class=\"mb-0\">Bookmarks</h4><div class=\"grid\">"@;
        let close = "</div>"@;
        assert(tags_depart(open, pattern)) by {
            reveal_strlit("<h4 class=\"mb-0\">Bookmarks</h4><div class=\"grid\">");
        }
        assert(tags_depart(close, pattern)) by {
            reveal_strlit("</div>");
        }
        lemma_bookmark_columns_depart(sections, pattern);
        lemma_joined_tags_depart(open, bookmark_columns(sections), pattern);
        lemma_joined_tags_depart(open + bookmark_columns(sections), close, pattern);
    }
}

/// A mark of the applications section occurs nowhere in the document of a
/// configuration without applications.
proof fn lemma_applications_mark_absent(config: ConfigView, pattern: Seq<char>)
    requires
        config.applications.len() == 0,
        opens_like_applications_mark(pattern),
    ensures
        !occurs_in(page_markup(config), pattern),
{
    let open = page_open(config.title);
    let bookmarks = bookmarks_section(config.bookmarks);
    lemma_page_open_departs(config.title, pattern);
    lemma_bookmarks_section_departs(config.bookmarks, pattern);
    lemma_page_close_departs(pattern);
    lemma_joined_tags_depart(open, applications_section(config.applications), pattern);
    lemma_joined_tags_depart(open + applications_section(config.applications), bookmarks, pattern);
    lemma_joined_tags_depart(
        open + applications_section(config.applications) + bookmarks,
        page_close(),
        pattern,
    );
    lemma_departing_text_lacks(page_markup(config), pattern);
}

/// A mark of the bookmarks section occurs nowhere in the document of a
/// configuration without bookmark sections.
proof fn lemma_bookmarks_mark_absent(config: ConfigView, pattern: Seq<char>)
    requires
        config.bookmarks.len() == 0,
        opens_like_bookmarks_mark(pattern),
    ensures
        !occurs_in(page_markup(config), pattern),
{
    let open = page_open(config.title);
    let applications = applications_section(config.applications);
    lemma_page_open_departs(config.title, pattern);
    lemma_applications_section_departs(config.applications, pattern);
    lemma_page_close_departs(pattern);
    lemma_joined_tags_depart(open, applications, pattern);
    lemma_joined_tags_depart(open + applications, bookmarks_section(config.bookmarks), pattern);
    lemma_joined_tags_depart(
        open + applications + bookmarks_section(config.bookmarks),
        page_close(),
        pattern,
    );
    lemma_departing_text_lacks(page_markup(config), pattern);
}

/// A configuration without applications contributes nothing for them: the
/// document is its opening, the bookmarks section and its closing, and
/// holds neither the applications header nor the opening of a row.
pub proof fn lemma_no_applications_no_trace(config: ConfigView)
    requires
        config.applications.len() == 0,
    ensures
        page_markup(config) == page_open(config.title) + bookmarks_section(config.bookmarks)
            + page_close(),
        !occurs_in(page_markup(config), "<h4>Applications</h4>"@),
        !occurs_in(page_markup(config), "<div class=\"row\">"@),
{
    assert(page_markup(config) =~= page_open(config.title) + bookmarks_section(config.bookmarks)
        + page_close());
    reveal_strlit("<h4>Applications</h4>");
    reveal_strlit("<div class=\"row\">");
    lemma_applications_mark_absent(config, "<h4>Applications</h4>"@);
    lemma_applications_mark_absent(config, "<div class=\"row\">"@);
}

/// A configuration without bookmark sections contributes nothing for them:
/// the document is its opening, the applications section and its closing,
/// and holds neither the bookmarks header nor the opening of a column or
/// of a line in one.
pub proof fn lemma_no_bookmarks_no_trace(config: ConfigView)
    requires
        config.bookmarks.len() == 0,
    ensures
        page_markup(config) == page_open(config.title) + applications_section(
            config.applications,
        ) + page_close(),
        !occurs_in(page_markup(config), "<h4 class=\"mb-0\">Bookmarks</h4>"@),
        !occurs_in(page_markup(config), "<div class=\"col bookmark-section-header\">"@),
        !occurs_in(page_markup(config), "<div class=\"bookmark-item\">"@),
{
    assert(page_markup(config) =~= page_open(config.title) + applications_section(
        config.applications,
    ) + page_close());
    reveal_strlit("<h4 class=\"mb-0\">Bookmarks</h4>");
    reveal_strlit("<div class=\"col bookmark-section-header\">");
    reveal_strlit("<div class=\"bookmark-item\">");
    lemma_bookmarks_mark_absent(config, "<h4 class=\"mb-0\">Bookmarks</h4>"@);
    lemma_bookmarks_mark_absent(config, "<div class=\"col bookmark-section-header\">"@);
    lemma_bookmarks_mark_absent(config, "<div class=\"bookmark-item\">"@);
}

/// What occurs in the applications section occurs in the document.
proof fn lemma_applications_section_is_shown(config: ConfigView, pattern: Seq<char>)
    requires
        occurs_in(applications_section(config.applications), pattern),
    ensures
        occurs_in(page_markup(config), pattern),
{
    let open = page_open(config.title);
    let applications = applications_section(config.applications);
    let bookmarks = bookmarks_section(config.bookmarks);
    lemma_occurs_with_more_before(open, applications, pattern);
    lemma_occurs_with_more_after(open + applications, bookmarks, pattern);
    lemma_occurs_with_more_after(open + applications + bookmarks, page_close(), pattern);
}

/// What occurs in the bookmarks section occurs in the document.
proof fn lemma_bookmarks_section_is_shown(config: ConfigView, pattern: Seq<char>)
    requires
        occurs_in(bookmarks_section(config.bookmarks), pattern),
    ensures
        occurs_in(page_markup(config), pattern),
{
    let open = page_open(config.title) + applications_section(config.applications);
    let bookmarks = bookmarks_section(config.bookmarks);
    lemma_occurs_with_more_before(open, bookmarks, pattern);
    lemma_occurs_with_more_after(open + bookmarks, page_close(), pattern);
}

/// A configuration with applications shows the applications header and
/// the opening of a row.
pub proof fn lemma_applications_leave_trace(config: ConfigView)
    requires
        config.applications.len() > 0,
    ensures
        occurs_in(page_markup(config), "<h4>Applications</h4>"@),
        occurs_in(page_markup(config), "<div class=\"row\">"@),
{
    let apps = config.applications;
    let open = "<h4>Applications</h4><div class=\"grid\">"@;
    let rows = application_rows(apps);
    let close = "</div>"@;
    let header = "<h4>Applications</h4>"@;
    assert(occurs_in(open + rows + close, header)) by {
        reveal_strlit("<h4>Applications</h4><div class=\"grid\">");
        reveal_strlit("<h4>Applications</h4>");
        reveal_strlit("<div class=\"grid\">");
        assert(open =~= Seq::empty() + header + "<div class=\"grid\">"@);
        lemma_occurs_between(Seq::empty(), header, "<div class=\"grid\">"@);
        lemma_occurs_with_more_after(open, rows, header);
        lemma_occurs_with_more_after(open + rows, close, header);
    }
    lemma_applications_section_is_shown(config, header);
    let row = "<div class=\"row\">"@;
    assert(occurs_in(open + rows + close, row)) by {
        lemma_application_row_opens(apps.last());
        lemma_occurs_with_more_before(
            application_rows(apps.drop_last()),
            application_row(apps.last()),
            row,
        );
        lemma_occurs_with_more_before(open, rows, row);
        lemma_occurs_with_more_after(open + rows, close, row);
    }
    lemma_applications_section_is_shown(config, row);
}

/// The row of an application holds the opening of a row.
proof fn lemma_application_row_opens(app: ApplicationView)
    ensures
        occurs_in(application_row(app), "<div class=\"row\">"@),
{
    let row = "<div class=\"row\">"@;
    let icon = "<span class=\"iconify\" data-icon=\""@;
    let open = "<div class=\"row\"><span class=\"iconify\" data-icon=\""@;
    assert(open =~= Seq::empty() + row + icon) by {
        reveal_strlit("<div class=\"row\"><span class=\"iconify\" data-icon=\"");
        reveal_strlit("<div class=\"row\">");
        reveal_strlit("<span class=\"iconify\" data-icon=\"");
    }
    lemma_occurs_between(Seq::empty(), row, icon);
    let a = open + escaped(app.icon);
    lemma_occurs_with_more_after(open, escaped(app.icon), row);
    let b = a + "\" data-width=\"28\"></span><a href=\""@;
    lemma_occurs_with_more_after(a, "\" data-width=\"28\"></span><a href=\""@, row);
    let c = b + escaped(app.link);
    lemma_occurs_with_more_after(b, escaped(app.link), row);
    let d = c + "\" target=\""@;
    lemma_occurs_with_more_after(c, "\" target=\""@, row);
    let e = d + escaped(app.target);
    lemma_occurs_with_more_after(d, escaped(app.target), row);
    let f = e + "\" class=\"app-name\">"@;
    lemma_occurs_with_more_after(e, "\" class=\"app-name\">"@, row);
    let g = f + escaped(app.name);
    lemma_occurs_with_more_after(f, escaped(app.name), row);
    lemma_occurs_with_more_after(g, "</a></div>"@, row);
}

/// The column of a section holds the opening of a column.
proof fn lemma_bookmark_column_opens(section: SectionView)
    ensures
        occurs_in(bookmark_column(section), "<div class=\"col bookmark-section-header\">"@),
{
    let column = "<div class=\"col bookmark-section-header\">"@;
    let name = "<h5 class=\"mb-1\">"@;
    let open = "<div class=\"col bookmark-section-header\"><h5 class=\"mb-1\">"@;
    assert(open =~= Seq::empty() + column + name) by {
        reveal_strlit("<div class=\"col bookmark-section-header\"><h5 class=\"mb-1\">");
        reveal_strlit("<div class=\"col bookmark-section-header\">");
        reveal_strlit("<h5 class=\"mb-1\">");
    }
    lemma_occurs_between(Seq::empty(), column, name);
    let a = open + escaped(section.name);
    lemma_occurs_with_more_after(open, escaped(section.name), column);
    let b = a + "</h5>"@;
    lemma_occurs_with_more_after(a, "</h5>"@, column);
    let c = b + bookmark_items(section.marks);
    lemma_occurs_with_more_after(b, bookmark_items(section.marks), column);
    lemma_occurs_with_more_after(c, "</div>"@, column);
}

/// A configuration with bookmark sections shows the bookmarks header and
/// the opening of a column.
pub proof fn lemma_bookmarks_leave_trace(config: ConfigView)
    requires
        config.bookmarks.len() > 0,
    ensures
        occurs_in(page_markup(config), "<h4 class=\"mb-0\">Bookmarks</h4>"@),
        occurs_in(page_markup(config), "<div class=\"col bookmark-section-header\">"@),
{
    let sections = config.bookmarks;
    let open = "<h4 class=\"mb-0\">Bookmarks</h4><div class=\"grid\">"@;
    let columns = bookmark_columns(sections);
    let close = "</div>"@;
    let header = "<h4 class=\"mb-0\">Bookmarks</h4>"@;
    assert(occurs_in(open + columns + close, header)) by {
        reveal_strlit("<h4 class=\"mb-0\">Bookmarks</h4><div class=\"grid\">");
        reveal_strlit("<h4 class=\"mb-0\">Bookmarks</h4>");
        reveal_strlit("<div class=\"grid\">");
        assert(open =~= Seq::empty() + header + "<div class=\"grid\">"@);
        lemma_occurs_between(Seq::empty(), header, "<div class=\"grid\">"@);
        lemma_occurs_with_more_after(open, columns, header);
        lemma_occurs_with_more_after(open + columns, close, header);
    }
    lemma_bookmarks_section_is_shown(config, header);
    let column = "<div class=\"col bookmark-section-header\">"@;
    assert(occurs_in(open + columns + close, column)) by {
        lemma_bookmark_column_opens(sections.last());
        lemma_occurs_with_more_before(
            bookmark_columns(sections.drop_last()),
            bookmark_column(sections.last()),
            column,
        );
        lemma_occurs_with_more_before(open, columns, column);
        lemma_occurs_with_more_after(open + columns, close, column);
    }
    lemma_bookmarks_section_is_shown(config, column);
}

} // verus!
