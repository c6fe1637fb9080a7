//! What the document shows: the title, the entries of each list in the
//! order of the list, and in each application row the link of its
//! application.

use crate::config::{
    resolved_application, ApplicationView, BookmarkView, ConfigView, SectionView,
};
use crate::escape::{escaped, lemma_escaped_plain};
use crate::markup::{
    application_row, application_rows, applications_section, bookmark_column, bookmark_columns,
    bookmark_item, bookmark_items, bookmarks_section, page_close, page_markup, page_open,
};
use crate::occurrence::{lemma_occurs_between, occurs_in};
use crate::resources::STYLESHEET_NAME;
use vstd::prelude::*;

verus! {

/// The document shows the escaped title in its title element.
pub proof fn lemma_page_shows_title(config: ConfigView)
    ensures
        occurs_in(page_markup(config), "<title>"@ + escaped(config.title) + "</title>"@),
{
    let shown = "<title>"@ + escaped(config.title) + "</title>"@;
    let before = "<!DOCTYPE html><html><head>"@;
    let meta =
        "<meta charset=\"utf-8\"><meta name=\"viewport\" content=\"width=device-width, initial-scale=1, shrink-to-fit=no\"><link rel=\"stylesheet\" href=\""@;
    assert("<!DOCTYPE html><html><head><title>"@ =~= before + "<title>"@) by {
        reveal_strlit("<!DOCTYPE html><html><head><title>");
        reveal_strlit("<!DOCTYPE html><html><head>");
        reveal_strlit("<title>");
    }
    assert("</title><meta charset=\"utf-8\"><meta name=\"viewport\" content=\"width=device-width, initial-scale=1, shrink-to-fit=no\"><link rel=\"stylesheet\" href=\""@
        =~= "</title>"@ + meta) by {
        reveal_strlit(
            "</title><meta charset=\"utf-8\"><meta name=\"viewport\" content=\"width=device-width, initial-scale=1, shrink-to-fit=no\"><link rel=\"stylesheet\" href=\"",
        );
        reveal_strlit("</title>");
        reveal_strlit(
            "<meta charset=\"utf-8\"><meta name=\"viewport\" content=\"width=device-width, initial-scale=1, shrink-to-fit=no\"><link rel=\"stylesheet\" href=\"",
        );
    }
    let after = meta + STYLESHEET_NAME@ + "\"></head><body><div class=\"container\">"@
        + applications_section(config.applications) + bookmarks_section(config.bookmarks)
        + page_close();
    assert(page_markup(config) =~= before + shown + after);
    lemma_occurs_between(before, shown, after);
}

/// The rows of a joined list are the rows of its first part followed by
/// the rows of its second part.
pub proof fn lemma_application_rows_joined(
    first: Seq<ApplicationView>,
    second: Seq<ApplicationView>,
)
    ensures
        application_rows(first + second) == application_rows(first) + application_rows(second),
    decreases second.len(),
{
    if second.len() == 0 {
        assert(first + second =~= first);
        assert(application_rows(first) + application_rows(second) =~= application_rows(first));
    } else {
        lemma_application_rows_joined(first, second.drop_last());
        assert((first + second).drop_last() =~= first + second.drop_last());
        assert((first + second).last() == second.last());
        assert(application_rows(first + second) =~= application_rows(first) + application_rows(
            second,
        ));
    }
}

/// The row of the application at `index` stands after the rows of all
/// applications before it and before the rows of all applications after it.
pub proof fn lemma_application_row_in_order(apps: Seq<ApplicationView>, index: int)
    requires
        0 <= index < apps.len(),
    ensures
        application_rows(apps) == application_rows(apps.take(index)) + application_row(apps[index])
            + application_rows(apps.skip(index + 1)),
{
    let before = apps.take(index);
    let here = seq![apps[index]];
    let after = apps.skip(index + 1);
    assert(apps =~= before + here + after);
    lemma_application_rows_joined(before + here, after);
    lemma_application_rows_joined(before, here);
    assert(application_rows(here.drop_last()) =~= Seq::<char>::empty());
    assert(application_rows(here) =~= application_row(apps[index]));
}

/// The link of a row is its application's: the row holds an anchor whose
/// address and target are the escaped link and target of the application,
/// and whose text is its escaped name.
pub proof fn lemma_row_links_to_application(app: ApplicationView)
    ensures
        occurs_in(
            application_row(app),
            "<a href=\""@ + escaped(app.link) + "\" target=\""@ + escaped(app.target)
                + "\" class=\"app-name\">"@ + escaped(app.name) + "</a>"@,
        ),
{
    let anchor = "<a href=\""@ + escaped(app.link) + "\" target=\""@ + escaped(app.target)
        + "\" class=\"app-name\">"@ + escaped(app.name) + "</a>"@;
    let before = "<div class=\"row\"><span class=\"iconify\" data-icon=\""@ + escaped(app.icon)
        + "\" data-width=\"28\"></span>"@;
    let after = "</div>"@;
    assert("\" data-width=\"28\"></span><a href=\""@ =~= "\" data-width=\"28\"></span>"@
        + "<a href=\""@) by {
        reveal_strlit("\" data-width=\"28\"></span><a href=\"");
        reveal_strlit("\" data-width=\"28\"></span>");
        reveal_strlit("<a href=\"");
    }
    assert("</a></div>"@ =~= "</a>"@ + "</div>"@) by {
        reveal_strlit("</a></div>");
        reveal_strlit("</a>");
        reveal_strlit("</div>");
    }
    assert(application_row(app) =~= before + anchor + after);
    lemma_occurs_between(before, anchor, after);
}

/// An application whose document entry names no target opens in a new
/// tab: the anchor of its row has the target `_blank`.
pub proof fn lemma_row_without_target_opens_blank(
    name: Seq<char>,
    link: Seq<char>,
    icon: Option<Seq<char>>,
)
    ensures
        occurs_in(
            application_row(resolved_application(name, link, icon, None)),
            "<a href=\""@ + escaped(link) + "\" target=\"_blank\" class=\"app-name\">"@ + escaped(
                name,
            ) + "</a>"@,
        ),
{
    let app = resolved_application(name, link, icon, None);
    lemma_row_links_to_application(app);
    assert(escaped("_blank"@) == "_blank"@) by {
        reveal_strlit("_blank");
        lemma_escaped_plain("_blank"@);
    }
    assert("\" target=\""@ + "_blank"@ + "\" class=\"app-name\">"@
        =~= "\" target=\"_blank\" class=\"app-name\">"@) by {
        reveal_strlit("\" target=\"");
        reveal_strlit("_blank");
        reveal_strlit("\" class=\"app-name\">");
        reveal_strlit("\" target=\"_blank\" class=\"app-name\">");
    }
    assert("<a href=\""@ + escaped(link) + "\" target=\""@ + escaped(app.target)
        + "\" class=\"app-name\">"@ + escaped(name) + "</a>"@ =~= "<a href=\""@ + escaped(link)
        + "\" target=\"_blank\" class=\"app-name\">"@ + escaped(name) + "</a>"@);
}

/// The document shows the applications in list order: between the header
/// of the applications grid and its closing stand the rows of all
/// applications before `index`, the row of the application at `index`, and
/// the rows of all applications after it.
pub proof fn lemma_page_shows_applications_in_order(config: ConfigView, index: int)
    requires
        0 <= index < config.applications.len(),
    ensures
        page_markup(config) == page_open(config.title)
            + "<h4>Applications</h4><div class=\"grid\">"@ + application_rows(
            config.applications.take(index),
        ) + application_row(config.applications[index]) + application_rows(
            config.applications.skip(index + 1),
        ) + "</div>"@ + bookmarks_section(config.bookmarks) + page_close(),
{
    lemma_application_row_in_order(config.applications, index);
    assert(page_markup(config) =~= page_open(config.title)
        + "<h4>Applications</h4><div class=\"grid\">"@ + application_rows(
        config.applications.take(index),
    ) + application_row(config.applications[index]) + application_rows(
        config.applications.skip(index + 1),
    ) + "</div>"@ + bookmarks_section(config.bookmarks) + page_close());
}

/// The lines of a joined list of bookmarks are the lines of its first part
/// followed by the lines of its second part.
pub proof fn lemma_bookmark_items_joined(first: Seq<BookmarkView>, second: Seq<BookmarkView>)
    ensures
        bookmark_items(first + second) == bookmark_items(first) + bookmark_items(second),
    decreases second.len(),
{
    if second.len() == 0 {
        assert(first + second =~= first);
        assert(bookmark_items(first) + bookmark_items(second) =~= bookmark_items(first));
    } else {
        lemma_bookmark_items_joined(first, second.drop_last());
        assert((first + second).drop_last() =~= first + second.drop_last());
        assert((first + second).last() == second.last());
        assert(bookmark_items(first + second) =~= bookmark_items(first) + bookmark_items(second));
    }
}

/// The line of the bookmark at `index` stands after the lines of all
/// bookmarks before it and before the lines of all bookmarks after it.
pub proof fn lemma_bookmark_item_in_order(marks: Seq<BookmarkView>, index: int)
    requires
        0 <= index < marks.len(),
    ensures
        bookmark_items(marks) == bookmark_items(marks.take(index)) + bookmark_item(marks[index])
            + bookmark_items(marks.skip(index + 1)),
{
    let before = marks.take(index);
    let here = seq![marks[index]];
    let after = marks.skip(index + 1);
    assert(marks =~= before + here + after);
    lemma_bookmark_items_joined(before + here, after);
    lemma_bookmark_items_joined(before, here);
    assert(bookmark_items(here.drop_last()) =~= Seq::<char>::empty());
    assert(bookmark_items(here) =~= bookmark_item(marks[index]));
}

/// The columns of a joined list of sections are the columns of its first
/// part followed by the columns of its second part.
pub proof fn lemma_bookmark_columns_joined(first: Seq<SectionView>, second: Seq<SectionView>)
    ensures
        bookmark_columns(first + second) == bookmark_columns(first) + bookmark_columns(second),
    decreases second.len(),
{
    if second.len() == 0 {
        assert(first + second =~= first);
        assert(bookmark_columns(first) + bookmark_columns(second) =~= bookmark_columns(first));
    } else {
        lemma_bookmark_columns_joined(first, second.drop_last());
        assert((first + second).drop_last() =~= first + second.drop_last());
        assert((first + second).last() == second.last());
        assert(bookmark_columns(first + second) =~= bookmark_columns(first) + bookmark_columns(
            second,
        ));
    }
}

/// The column of the section at `index` stands after the columns of all
/// sections before it and before the columns of all sections after it.
pub proof fn lemma_bookmark_column_in_order(sections: Seq<SectionView>, index: int)
    requires
        0 <= index < sections.len(),
    ensures
        bookmark_columns(sections) == bookmark_columns(sections.take(index)) + bookmark_column(
            sections[index],
        ) + bookmark_columns(sections.skip(index + 1)),
{
    let before = sections.take(index);
    let here = seq![sections[index]];
    let after = sections.skip(index + 1);
    assert(sections =~= before + here + after);
    lemma_bookmark_columns_joined(before + here, after);
    lemma_bookmark_columns_joined(before, here);
    assert(bookmark_columns(here.drop_last()) =~= Seq::<char>::empty());
    assert(bookmark_columns(here) =~= bookmark_column(sections[index]));
}

} // verus!
