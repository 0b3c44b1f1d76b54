//! Reading a parsed document into the page model. The document is
//! `scraper`'s; this module selects in it and copies out the texts and
//! attributes that the extraction rules look at.

use vstd::prelude::*;
use scraper::{ElementRef, Selector};
use crate::page::{
    AssignmentPage, Cell, InfoScreen, Link, PropertyRow, PropertyValue, SubmissionPage,
    UploadPage,
};
use crate::text::chars_of;

verus! {

/// `scraper::ElementRef`: an element of a parsed document.
#[verifier::external_type_specification]
#[verifier::external_body]
pub struct ExElementRef<'a>(scraper::ElementRef<'a>);

/// `scraper::Selector`: a parsed group of CSS selectors.
#[verifier::external_type_specification]
#[verifier::external_body]
pub struct ExSelector(scraper::Selector);

/// The selector that `scraper` reads from a text, or `None` where it reads
/// none.
pub uninterp spec fn parsed_selector(css: Seq<char>) -> Option<Selector>;

/// The elements below `scope` that match `selector`, in the order in which
/// `scraper` finds them.
pub uninterp spec fn matches(scope: ElementRef<'_>, selector: Selector) -> Seq<ElementRef<'_>>;

/// The text below an element, as `scraper` collects it.
pub uninterp spec fn element_text(element: ElementRef<'_>) -> Seq<char>;

/// The value of the attribute `name` of an element, if it has that
/// attribute.
pub uninterp spec fn element_attribute(element: ElementRef<'_>, name: Seq<char>) -> Option<
    Seq<char>,
>;

/// The children of an element that are elements, in order.
pub uninterp spec fn element_children(element: ElementRef<'_>) -> Seq<ElementRef<'_>>;

/// `scraper::Selector::parse`: the selector that a text writes, or `None`
/// where the text is no selector group. The result is a function of the
/// text alone.
#[verifier::external_body]
pub(crate) fn compile(css: &str) -> (r: Option<Selector>)
    ensures
        r == parsed_selector(css@),
{
    Selector::parse(css).ok()
}

/// `scraper::ElementRef::select`, collected: the elements below `scope`
/// that match `selector`. The result is a function of the two.
#[verifier::external_body]
pub(crate) fn select_all<'a>(scope: ElementRef<'a>, selector: &Selector) -> (r: Vec<
    ElementRef<'a>,
>)
    ensures
        r@ == matches(scope, *selector),
{
    scope.select(selector).collect()
}

/// `scraper::ElementRef::text`, collected: the text nodes below `element`,
/// joined. The result is a function of the element alone.
#[verifier::external_body]
pub(crate) fn text_of(element: ElementRef<'_>) -> (r: String)
    ensures
        r@ == element_text(element),
{
    element.text().collect()
}

/// `scraper::ElementRef::attr`: the value of an attribute of `element`.
/// The result is a function of the element and the name.
#[verifier::external_body]
pub(crate) fn attribute(element: ElementRef<'_>, name: &str) -> (r: Option<String>)
    ensures
        chars_of(r) == element_attribute(element, name@),
{
    element.attr(name).map(|value| value.to_string())
}

/// `scraper::ElementRef::child_elements`, collected: the children of
/// `element` that are elements, in order. The result is a function of the
/// element alone.
#[verifier::external_body]
pub(crate) fn children_of<'a>(element: ElementRef<'a>) -> (r: Vec<ElementRef<'a>>)
    ensures
        r@ == element_children(element),
{
    element.child_elements().collect()
}

/// The elements below `scope` that the selector `css` matches; none where
/// `css` is no selector.
pub open spec fn selected(scope: ElementRef<'_>, css: Seq<char>) -> Seq<ElementRef<'_>> {
    match parsed_selector(css) {
        Some(selector) => matches(scope, selector),
        None => Seq::empty(),
    }
}

/// The text of the first element below `scope` that `css` matches.
pub open spec fn first_text_in(scope: ElementRef<'_>, css: Seq<char>) -> Option<Seq<char>> {
    let found = selected(scope, css);
    if found.len() > 0 {
        Some(element_text(found[0]))
    } else {
        None
    }
}

/// The attribute `name` of the first element below `scope` that `css`
/// matches.
pub open spec fn first_attribute_in(
    scope: ElementRef<'_>,
    css: Seq<char>,
    name: Seq<char>,
) -> Option<Seq<char>> {
    let found = selected(scope, css);
    if found.len() > 0 {
        element_attribute(found[0], name)
    } else {
        None
    }
}

/// The attribute `name` of the first child of `element`.
pub open spec fn first_child_attribute(element: ElementRef<'_>, name: Seq<char>) -> Option<
    Seq<char>,
> {
    let children = element_children(element);
    if children.len() > 0 {
        element_attribute(children[0], name)
    } else {
        None
    }
}

/// Whether `cell` holds what the rules read of the column `element`: its
/// text, and the `href` and the `value` of its first child.
pub open spec fn is_cell_of(element: ElementRef<'_>, cell: Cell) -> bool {
    &&& cell.text@ == element_text(element)
    &&& chars_of(cell.href) == first_child_attribute(element, "href"@)
    &&& chars_of(cell.value) == first_child_attribute(element, "value"@)
}

/// Whether `cells` are the columns of `row`: one cell for each child of
/// the row, in order.
pub open spec fn are_cells_of(row: ElementRef<'_>, cells: Seq<Cell>) -> bool {
    &&& cells.len() == element_children(row).len()
    &&& forall|i: int|
        0 <= i < cells.len() ==> is_cell_of(element_children(row)[i], #[trigger] cells[i])
}

/// Whether `value` holds what the rules read of the value `element`: its
/// text, and of the first `a` below it the `href`.
pub open spec fn is_value_of(element: ElementRef<'_>, value: PropertyValue) -> bool {
    let links = selected(element, "a"@);
    &&& value.text@ == element_text(element)
    &&& match value.link {
        None => links.len() == 0,
        Some(link) => links.len() > 0 && chars_of(link.href) == element_attribute(
            links[0],
            "href"@,
        ),
    }
}

/// Whether `row` holds what the rules read of the row `element`: the text
/// of its first label, its first value, and its columns.
pub open spec fn is_row_of(element: ElementRef<'_>, row: PropertyRow) -> bool {
    let values = selected(element, ".il_InfoScreenPropertyValue"@);
    &&& chars_of(row.key) == first_text_in(element, ".il_InfoScreenProperty"@)
    &&& match row.value {
        None => values.len() == 0,
        Some(value) => values.len() > 0 && is_value_of(values[0], value),
    }
    &&& are_cells_of(element, row.cells@)
}

/// Whether `screen` holds what the rules read of the block `element`: the
/// text of its first heading, the text of its first value, and one row for
/// each `.form-group` below it, in order.
pub open spec fn is_screen_of(element: ElementRef<'_>, screen: InfoScreen) -> bool {
    let found = selected(element, ".form-group"@);
    &&& chars_of(screen.heading) == first_text_in(element, ".ilHeader"@)
    &&& chars_of(screen.first_value) == first_text_in(element, ".il_InfoScreenPropertyValue"@)
    &&& screen.rows@.len() == found.len()
    &&& forall|i: int|
        0 <= i < found.len() ==> is_row_of(found[i], #[trigger] screen.rows@[i])
}

/// Whether `page` holds what the rules read of an assignment's page below
/// `root`: the text of the first `.ilAssignmentHeader`, and one block for
/// each `.ilInfoScreenSec`, in order.
pub open spec fn is_assignment_page_of(root: ElementRef<'_>, page: AssignmentPage) -> bool {
    let found = selected(root, ".ilInfoScreenSec"@);
    &&& chars_of(page.name) == first_text_in(root, ".ilAssignmentHeader"@)
    &&& page.screens@.len() == found.len()
    &&& forall|i: int|
        0 <= i < found.len() ==> is_screen_of(found[i], #[trigger] page.screens@[i])
}

/// Whether `page` holds what the rules read of the page of submitted files
/// below `root`: the columns of each `form tbody tr`, in order, the `action`
/// of the first form in the content, and the `data-action` of the first
/// button in the navigation bar.
pub open spec fn is_submission_page_of(root: ElementRef<'_>, page: SubmissionPage) -> bool {
    let found = selected(root, "form tbody tr"@);
    &&& page.rows@.len() == found.len()
    &&& forall|i: int|
        0 <= i < found.len() ==> are_cells_of(found[i], (#[trigger] page.rows@[i])@)
    &&& chars_of(page.delete_action) == first_attribute_in(
        root,
        "div#ilContentContainer form"@,
        "action"@,
    )
    &&& chars_of(page.upload_form) == first_attribute_in(
        root,
        "nav div.navbar-header button"@,
        "data-action"@,
    )
}

/// Whether `page` holds what the rules read of the page of the upload form
/// below `root`: the `action` of the first form in the content.
pub open spec fn is_upload_page_of(root: ElementRef<'_>, page: UploadPage) -> bool {
    chars_of(page.action) == first_attribute_in(root, "div#ilContentContainer form"@, "action"@)
}

/// The elements below `scope` that the selector `css` matches; none where
/// `css` is no selector.
fn select<'a>(scope: ElementRef<'a>, css: &str) -> (r: Vec<ElementRef<'a>>)
    ensures
        r@ == selected(scope, css@),
{
    match compile(css) {
        Some(selector) => select_all(scope, &selector),
        None => Vec::new(),
    }
}

/// The text of the first element below `scope` that `css` matches.
fn first_text(scope: ElementRef<'_>, css: &str) -> (r: Option<String>)
    ensures
        chars_of(r) == first_text_in(scope, css@),
{
    let found = select(scope, css);
    if found.len() > 0 {
        Some(text_of(found[0]))
    } else {
        None
    }
}

/// An attribute of the first element below `scope` that `css` matches.
fn first_attribute(scope: ElementRef<'_>, css: &str, name: &str) -> (r: Option<String>)
    ensures
        chars_of(r) == first_attribute_in(scope, css@, name@),
{
    let found = select(scope, css);
    if found.len() > 0 {
        attribute(found[0], name)
    } else {
        None
    }
}

/// A column: its text, and the link address and form value of its first
/// child.
fn read_cell(element: ElementRef<'_>) -> (r: Cell)
    ensures
        is_cell_of(element, r),
{
    let children = children_of(element);
    if children.len() > 0 {
        Cell {
            text: text_of(element),
            href: attribute(children[0], "href"),
            value: attribute(children[0], "value"),
        }
    } else {
        Cell { text: text_of(element), href: None, value: None }
    }
}

/// The columns of a row: its child elements.
fn read_cells(row: ElementRef<'_>) -> (r: Vec<Cell>)
    ensures
        are_cells_of(row, r@),
{
    let children = children_of(row);
    let mut cells: Vec<Cell> = Vec::new();
    let mut i: usize = 0;
    while i < children.len()
        invariant
            i <= children@.len(),
            children@ == element_children(row),
            cells@.len() == i,
            forall|k: int| 0 <= k < i ==> is_cell_of(children@[k], #[trigger] cells@[k]),
        decreases children@.len() - i,
    {
        cells.push(read_cell(children[i]));
        i += 1;
    }
    cells
}

/// A value: its text and the first link below it.
fn read_value(element: ElementRef<'_>) -> (r: PropertyValue)
    ensures
        is_value_of(element, r),
{
    let links = select(element, "a");
    let link: Option<Link> = if links.len() > 0 {
        Some(Link { href: attribute(links[0], "href") })
    } else {
        None
    };
    PropertyValue { text: text_of(element), link }
}

/// A row of a block: label, value and columns.
fn read_row(row: ElementRef<'_>) -> (r: PropertyRow)
    ensures
        is_row_of(row, r),
{
    let values = select(row, ".il_InfoScreenPropertyValue");
    let value: Option<PropertyValue> = if values.len() > 0 {
        Some(read_value(values[0]))
    } else {
        None
    };
    PropertyRow { key: first_text(row, ".il_InfoScreenProperty"), value, cells: read_cells(row) }
}

/// A block: heading, first value and rows.
fn read_screen(screen: ElementRef<'_>) -> (r: InfoScreen)
    ensures
        is_screen_of(screen, r),
{
    let found = select(screen, ".form-group");
    let mut rows: Vec<PropertyRow> = Vec::new();
    let mut i: usize = 0;
    while i < found.len()
        invariant
            i <= found@.len(),
            found@ == selected(screen, ".form-group"@),
            rows@.len() == i,
            forall|k: int| 0 <= k < i ==> is_row_of(found@[k], #[trigger] rows@[k]),
        decreases found@.len() - i,
    {
        rows.push(read_row(found[i]));
        i += 1;
    }
    InfoScreen {
        heading: first_text(screen, ".ilHeader"),
        first_value: first_text(screen, ".il_InfoScreenPropertyValue"),
        rows,
    }
}

/// The detail page of an assignment, as far as the rules look at it: its
/// name and its blocks.
pub fn read_assignment_page(root: ElementRef<'_>) -> (r: AssignmentPage)
    ensures
        is_assignment_page_of(root, r),
{
    let found = select(root, ".ilInfoScreenSec");
    let mut screens: Vec<InfoScreen> = Vec::new();
    let mut i: usize = 0;
    while i < found.len()
        invariant
            i <= found@.len(),
            found@ == selected(root, ".ilInfoScreenSec"@),
            screens@.len() == i,
            forall|k: int| 0 <= k < i ==> is_screen_of(found@[k], #[trigger] screens@[k]),
        decreases found@.len() - i,
    {
        screens.push(read_screen(found[i]));
        i += 1;
    }
    AssignmentPage { name: first_text(root, ".ilAssignmentHeader"), screens }
}

/// The page of submitted files, as far as the rules look at it: the rows
/// of the table and where the two forms go.
pub fn read_submission_page(root: ElementRef<'_>) -> (r: SubmissionPage)
    ensures
        is_submission_page_of(root, r),
{
    let found = select(root, "form tbody tr");
    let mut rows: Vec<Vec<Cell>> = Vec::new();
    let mut i: usize = 0;
    while i < found.len()
        invariant
            i <= found@.len(),
            found@ == selected(root, "form tbody tr"@),
            rows@.len() == i,
            forall|k: int| 0 <= k < i ==> are_cells_of(found@[k], (#[trigger] rows@[k])@),
        decreases found@.len() - i,
    {
        rows.push(read_cells(found[i]));
        i += 1;
    }
    SubmissionPage {
        rows,
        delete_action: first_attribute(root, "div#ilContentContainer form", "action"),
        upload_form: first_attribute(root, "nav div.navbar-header button", "data-action"),
    }
}

/// The page of the upload form, as far as the rules look at it: where the
/// form goes.
pub fn read_upload_page(root: ElementRef<'_>) -> (r: UploadPage)
    ensures
        is_upload_page_of(root, r),
{
    UploadPage { action: first_attribute(root, "div#ilContentContainer form", "action") }
}

} // verus!
