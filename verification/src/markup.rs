//! The markup of the page: what each part of a configuration contributes to
//! the document, and the functions that write those parts.

use crate::config::{
    Application, ApplicationView, Bookmark, BookmarkSection, BookmarkView, ConfigView, SectionView,
};
use crate::escape::{escaped, push_escaped};
use crate::resources::STYLESHEET_NAME;
use vstd::prelude::*;
use vstd::string::*;

verus! {

/// One row of the applications grid: the icon, then the link.
pub open spec fn application_row(app: ApplicationView) -> Seq<char> {
    "<div class=\"row\"><span class=\"iconify\" data-icon=\""@ + escaped(app.icon)
        + "\" data-width=\"28\"></span><a href=\""@ + escaped(app.link) + "\" target=\""@
        + escaped(app.target) + "\" class=\"app-name\">"@ + escaped(app.name) + "</a></div>"@
}

/// The rows of the applications grid, one per application, in list order.
pub open spec fn application_rows(apps: Seq<ApplicationView>) -> Seq<char>
    decreases apps.len(),
{
    if apps.len() == 0 {
        Seq::empty()
    } else {
        application_rows(apps.drop_last()) + application_row(apps.last())
    }
}

/// The applications section: nothing for an empty list, otherwise the
/// header and the grid of rows.
pub open spec fn applications_section(apps: Seq<ApplicationView>) -> Seq<char> {
    if apps.len() == 0 {
        Seq::empty()
    } else {
        "<h4>Applications</h4><div class=\"grid\">"@ + application_rows(apps) + "</div>"@
    }
}

/// One line of a bookmark column: the link of a bookmark.
pub open spec fn bookmark_item(mark: BookmarkView) -> Seq<char> {
    "<div class=\"bookmark-item\"><a href=\""@ + escaped(mark.link) + "\" target=\""@ + escaped(
        mark.target,
    ) + "\">"@ + escaped(mark.name) + "</a></div>"@
}

/// The lines of a bookmark column, one per bookmark, in list order.
pub open spec fn bookmark_items(marks: Seq<BookmarkView>) -> Seq<char>
    decreases marks.len(),
{
    if marks.len() == 0 {
        Seq::empty()
    } else {
        bookmark_items(marks.drop_last()) + bookmark_item(marks.last())
    }
}

/// One column of the bookmarks grid: the name of the section, then its bookmarks.
pub open spec fn bookmark_column(section: SectionView) -> Seq<char> {
    "<div class=\"col bookmark-section-header\"><h5 class=\"mb-1\">"@ + escaped(section.name)
        + "</h5>"@ + bookmark_items(section.marks) + "</div>"@
}

/// The columns of the bookmarks grid, one per section, in list order.
pub open spec fn bookmark_columns(sections: Seq<SectionView>) -> Seq<char>
    decreases sections.len(),
{
    if sections.len() == 0 {
        Seq::empty()
    } else {
        bookmark_columns(sections.drop_last()) + bookmark_column(sections.last())
    }
}

/// The bookmarks section: nothing for an empty list, otherwise the header
/// and the grid of columns.
pub open spec fn bookmarks_section(sections: Seq<SectionView>) -> Seq<char> {
    if sections.len() == 0 {
        Seq::empty()
    } else {
        "<h4 class=\"mb-0\">Bookmarks</h4><div class=\"grid\">"@ + bookmark_columns(sections)
            + "</div>"@
    }
}

/// The document up to and including the opening of the container.
pub open spec fn page_open(title: Seq<char>) -> Seq<char> {
    "<!DOCTYPE html><html><head><title>"@ + escaped(title)
        + "</title><meta charset=\"utf-8\"><meta name=\"viewport\" content=\"width=device-width, initial-scale=1, shrink-to-fit=no\"><link rel=\"stylesheet\" href=\""@
        + STYLESHEET_NAME@ + "\"></head><body><div class=\"container\">"@
}

/// The document from the closing of the container on.
pub open spec fn page_close() -> Seq<char> {
    "</div><script src=\"https://code.iconify.design/2/2.1.0/iconify.min.js\"></script></body></html>"@
}

/// The whole document for a configuration.
pub open spec fn page_markup(config: ConfigView) -> Seq<char> {
    page_open(config.title) + applications_section(config.applications) + bookmarks_section(
        config.bookmarks,
    ) + page_close()
}

/// Appends the row of one application.
pub(crate) fn push_application_row(out: &mut String, app: &Application)
    ensures
        final(out)@ == old(out)@ + application_row(app@),
{
    out.append("<div class=\"row\"><span class=\"iconify\" data-icon=\"");
    push_escaped(out, app.icon.as_str());
    out.append("\" data-width=\"28\"></span><a href=\"");
    push_escaped(out, app.link.as_str());
    out.append("\" target=\"");
    push_escaped(out, app.target.as_str());
    out.append("\" class=\"app-name\">");
    push_escaped(out, app.name.as_str());
    out.append("</a></div>");
    assert(out@ =~= old(out)@ + application_row(app@));
}

/// Appends the applications section.
pub(crate) fn push_applications_section(out: &mut String, apps: &Vec<Application>)
    ensures
        final(out)@ == old(out)@ + applications_section(apps.deep_view()),
{
    if apps.len() > 0 {
        out.append("<h4>Applications</h4><div class=\"grid\">");
        let ghost before = out@;
        let mut i: usize = 0;
        while i < apps.len()
            invariant
                i <= apps.len(),
                out@ == before + application_rows(apps.deep_view().take(i as int)),
            decreases apps.len() - i,
        {
            push_application_row(out, &apps[i]);
            proof {
                let shown = apps.deep_view().take(i + 1);
                assert(shown.drop_last() =~= apps.deep_view().take(i as int));
                assert(shown.last() == apps[i as int]@);
                assert(out@ =~= before + application_rows(shown));
            }
            i += 1;
        }
        out.append("</div>");
        proof {
            assert(apps.deep_view().take(apps.len() as int) =~= apps.deep_view());
            assert(out@ =~= old(out)@ + applications_section(apps.deep_view()));
        }
    } else {
        assert(out@ =~= old(out)@ + applications_section(apps.deep_view()));
    }
}

/// Appends the line of one bookmark.
pub(crate) fn push_bookmark_item(out: &mut String, mark: &Bookmark)
    ensures
        final(out)@ == old(out)@ + bookmark_item(mark@),
{
    out.append("<div class=\"bookmark-item\"><a href=\"");
    push_escaped(out, mark.link.as_str());
    out.append("\" target=\"");
    push_escaped(out, mark.target.as_str());
    out.append("\">");
    push_escaped(out, mark.name.as_str());
    out.append("</a></div>");
    assert(out@ =~= old(out)@ + bookmark_item(mark@));
}

/// Appends the column of one bookmark section.
pub(crate) fn push_bookmark_column(out: &mut String, section: &BookmarkSection)
    ensures
        final(out)@ == old(out)@ + bookmark_column(section@),
{
    out.append("<div class=\"col bookmark-section-header\"><h5 class=\"mb-1\">");
    push_escaped(out, section.name().as_str());
    out.append("</h5>");
    let ghost before = out@;
    let marks = section.marks();
    let mut i: usize = 0;
    while i < marks.len()
        invariant
            i <= marks.len(),
            marks.deep_view() == section@.marks,
            out@ == before + bookmark_items(marks.deep_view().take(i as int)),
        decreases marks.len() - i,
    {
        push_bookmark_item(out, &marks[i]);
        proof {
            let shown = marks.deep_view().take(i + 1);
            assert(shown.drop_last() =~= marks.deep_view().take(i as int));
            assert(shown.last() == marks[i as int]@);
            assert(out@ =~= before + bookmark_items(shown));
        }
        i += 1;
    }
    out.append("</div>");
    proof {
        assert(marks.deep_view().take(marks.len() as int) =~= marks.deep_view());
        assert(out@ =~= old(out)@ + bookmark_column(section@));
    }
}

/// Appends the bookmarks section.
pub(crate) fn push_bookmarks_section(out: &mut String, sections: &Vec<BookmarkSection>)
    ensures
        final(out)@ == old(out)@ + bookmarks_section(sections.deep_view()),
{
    if sections.len() > 0 {
        out.append("<h4 class=\"mb-0\">Bookmarks</h4><div class=\"grid\">");
        let ghost before = out@;
        let mut i: usize = 0;
        while i < sections.len()
            invariant
                i <= sections.len(),
                out@ == before + bookmark_columns(sections.deep_view().take(i as int)),
            decreases sections.len() - i,
        {
            push_bookmark_column(out, &sections[i]);
            proof {
                let shown = sections.deep_view().take(i + 1);
                assert(shown.drop_last() =~= sections.deep_view().take(i as int));
                assert(shown.last() == sections[i as int]@);
                assert(out@ =~= before + bookmark_columns(shown));
            }
            i += 1;
        }
        out.append("</div>");
        proof {
            assert(sections.deep_view().take(sections.len() as int) =~= sections.deep_view());
            assert(out@ =~= old(out)@ + bookmarks_section(sections.deep_view()));
        }
    } else {
        assert(out@ =~= old(out)@ + bookmarks_section(sections.deep_view()));
    }
}

/// Appends the document up to and including the opening of the container.
pub(crate) fn push_page_open(out: &mut String, title: &str)
    ensures
        final(out)@ == old(out)@ + page_open(title@),
{
    out.append("<!DOCTYPE html><html><head><title>");
    push_escaped(out, title);
    out.append(
        "</title><meta charset=\"utf-8\"><meta name=\"viewport\" content=\"width=device-width, initial-scale=1, shrink-to-fit=no\"><link rel=\"stylesheet\" href=\"",
    );
    out.append(STYLESHEET_NAME);
    out.append("\"></head><body><div class=\"container\">");
    assert(out@ =~= old(out)@ + page_open(title@));
}

/// Appends the document from the closing of the container on.
pub(crate) fn push_page_close(out: &mut String)
    ensures
        final(out)@ == old(out)@ + page_close(),
{
    out.append(
        "</div><script src=\"https://code.iconify.design/2/2.1.0/iconify.min.js\"></script></body></html>",
    );
}

} // verus!
