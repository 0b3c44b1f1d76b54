//! An assignment, read from its detail page.

use vstd::prelude::*;
use vstd::string::*;
use crate::clock::now;
use scraper::ElementRef;
use crate::date::{date_outcome, parse_date_at, DateError, LocalInstant};
use crate::dom::{is_assignment_page_of, read_assignment_page};
use crate::element::IliasElement;
use crate::error::{ExtractionError, Field};
use crate::file::{file_views, File, FileView};
use crate::page::{
    find_screen, find_value, first_screen, labelled_value, AssignmentPage, InfoScreen,
    LookupError, PropertyRow,
};
use crate::exercise::submission::{AssignmentSubmission, AssignmentSubmissionView};
use crate::reference::{Reference, ReferenceError, Resolution};
use crate::text::{chars_of, trim, trimmed};

verus! {

/// The headings of the block of instructions.
pub open spec fn instruction_names() -> Seq<&'static str> {
    seq!["Arbeitsanweisung", "Work Instructions"]
}

/// The headings of the schedule.
pub open spec fn schedule_names() -> Seq<&'static str> {
    seq!["Schedule", "Terminplan"]
}

/// The labels of the start of the time for handing in.
pub open spec fn start_labels() -> Seq<&'static str> {
    seq!["Startzeit", "Start Time"]
}

/// The labels of the end of the time for handing in.
pub open spec fn end_labels() -> Seq<&'static str> {
    seq!["Abgabetermin", "Edit Until"]
}

/// The headings of the block of attached files.
pub open spec fn attachment_names() -> Seq<&'static str> {
    seq!["Dateien", "Files"]
}

/// The headings of the block of the submission.
pub open spec fn submission_names() -> Seq<&'static str> {
    seq!["Ihre Einreichung", "Your Submission"]
}

/// The labels of the link to the submitted files.
pub open spec fn submitted_labels() -> Seq<&'static str> {
    seq!["Abgegebene Dateien", "Submitted Files"]
}

/// The instructions: the first value of the block of instructions, where
/// the page has that block and the block has a value.
pub open spec fn instructions_in(screens: Seq<InfoScreen>) -> Option<Seq<char>> {
    let i = first_screen(screens, instruction_names(), 0);
    if i >= screens.len() {
        None
    } else {
        chars_of(screens[i].first_value)
    }
}

/// The trimmed text of the value that one of `labels` labels in `screen`.
pub open spec fn labelled_text(screen: InfoScreen, labels: Seq<&str>, field: Field) -> Result<
    Seq<char>,
    ExtractionError,
> {
    match labelled_value(screen, labels) {
        Ok(value) => Ok(trimmed(value.text@)),
        Err(LookupError::NoSuchLabel) => Err(ExtractionError::LocalizationMismatch(field)),
        Err(LookupError::NoValue) => Err(ExtractionError::StructuralMismatch(field)),
    }
}

/// The attachments that `rows` list. A row of fewer than two columns is a
/// separator; of any other the first column names the file and the second
/// must hold the link to it.
pub open spec fn attachment_files(rows: Seq<PropertyRow>) -> Result<Seq<FileView>, ExtractionError>
    decreases rows.len(),
{
    if rows.len() == 0 {
        Ok(Seq::empty())
    } else {
        match attachment_files(rows.drop_last()) {
            Err(e) => Err(e),
            Ok(files) => {
                let cells = rows.last().cells@;
                if cells.len() < 2 {
                    Ok(files)
                } else {
                    match cells[1].href {
                        None => Err(ExtractionError::StructuralMismatch(Field::Attachment)),
                        Some(href) => Ok(
                            files.push(
                                FileView {
                                    name: cells[0].text@,
                                    description: Seq::empty(),
                                    id: None,
                                    download_querypath: Some(href@),
                                    date: None,
                                },
                            ),
                        ),
                    }
                }
            },
        }
    }
}

/// The attachments of a page, or `None` where it has no block of files.
pub open spec fn attachments_in(screens: Seq<InfoScreen>) -> Result<
    Option<Seq<FileView>>,
    ExtractionError,
> {
    let i = first_screen(screens, attachment_names(), 0);
    if i >= screens.len() {
        Ok(None)
    } else {
        match attachment_files(screens[i].rows@) {
            Ok(files) => Ok(Some(files)),
            Err(e) => Err(e),
        }
    }
}

/// The address of the page of submitted files, or `None` where the page
/// has no block for the submission or the block's value holds no link.
pub open spec fn submission_link(screens: Seq<InfoScreen>) -> Result<
    Option<Seq<char>>,
    ExtractionError,
> {
    let i = first_screen(screens, submission_names(), 0);
    if i >= screens.len() {
        Ok(None)
    } else {
        match labelled_value(screens[i], submitted_labels()) {
            Err(LookupError::NoSuchLabel) => Err(
                ExtractionError::LocalizationMismatch(Field::SubmittedFiles),
            ),
            Err(LookupError::NoValue) => Err(
                ExtractionError::StructuralMismatch(Field::SubmittedFiles),
            ),
            Ok(value) => match value.link {
                None => Ok(None),
                Some(link) => match link.href {
                    None => Err(ExtractionError::StructuralMismatch(Field::SubmittedFiles)),
                    Some(href) => Ok(Some(href@)),
                },
            },
        }
    }
}

/// What an assignment's page says, before its dates are read.
#[derive(Clone, Debug, PartialEq, Eq)]
pub struct AssignmentDraft {
    pub name: String,
    pub instructions: Option<String>,
    pub start: String,
    pub end: String,
    pub attachments: Vec<File>,
    pub submission_page: Option<String>,
}

/// A draft, with its texts as sequences of characters.
pub struct AssignmentDraftView {
    pub name: Seq<char>,
    pub instructions: Option<Seq<char>>,
    pub start: Seq<char>,
    pub end: Seq<char>,
    pub attachments: Seq<FileView>,
    pub submission_page: Option<Seq<char>>,
}

impl View for AssignmentDraft {
    type V = AssignmentDraftView;

    open spec fn view(&self) -> AssignmentDraftView {
        AssignmentDraftView {
            name: self.name@,
            instructions: chars_of(self.instructions),
            start: self.start@,
            end: self.end@,
            attachments: file_views(self.attachments@),
            submission_page: chars_of(self.submission_page),
        }
    }
}

/// What `page` says of an assignment. The name and the schedule with both
/// of its dates must be there. The instructions, the attachments and the
/// link to the submission may be missing with their blocks; a block that is
/// there must be well formed.
pub open spec fn draft_of(page: AssignmentPage) -> Result<AssignmentDraftView, ExtractionError> {
    let screens = page.screens@;
    let schedule = first_screen(screens, schedule_names(), 0);
    match page.name {
        None => Err(ExtractionError::StructuralMismatch(Field::Name)),
        Some(name) => if schedule >= screens.len() {
            Err(ExtractionError::StructuralMismatch(Field::Schedule))
        } else {
            match labelled_text(screens[schedule], start_labels(), Field::StartTime) {
                Err(e) => Err(e),
                Ok(start) => match labelled_text(screens[schedule], end_labels(), Field::EndTime) {
                    Err(e) => Err(e),
                    Ok(end) => match attachments_in(screens) {
                        Err(e) => Err(e),
                        Ok(attachments) => match submission_link(screens) {
                            Err(e) => Err(e),
                            Ok(submission_page) => Ok(
                                AssignmentDraftView {
                                    name: name@,
                                    instructions: instructions_in(screens),
                                    start,
                                    end,
                                    attachments: match attachments {
                                        Some(files) => files,
                                        None => Seq::empty(),
                                    },
                                    submission_page,
                                },
                            ),
                        },
                    },
                },
            }
        },
    }
}

/// The instructions of a page, where it has any.
pub fn extract_instructions(screens: &Vec<InfoScreen>) -> (r: Option<String>)
    ensures
        chars_of(r) == instructions_in(screens@),
{
    let names: &[&str] = &["Arbeitsanweisung", "Work Instructions"];
    assert(names@ =~= instruction_names());
    match find_screen(screens, names) {
        None => None,
        Some(screen) => match &screen.first_value {
            None => None,
            Some(text) => Some(text.clone()),
        },
    }
}

/// The trimmed text of the value that one of `labels` labels in `screen`.
pub fn extract_text<'a>(screen: &'a InfoScreen, labels: &[&str], field: Field) -> (r: Result<
    &'a str,
    ExtractionError,
>)
    ensures
        match r {
            Ok(text) => labelled_text(*screen, labels@, field) == Ok::<Seq<char>, ExtractionError>(
                text@,
            ),
            Err(e) => labelled_text(*screen, labels@, field) == Err::<Seq<char>, ExtractionError>(
                e,
            ),
        },
{
    match find_value(screen, labels) {
        Ok(value) => Ok(trim(value.text.as_str())),
        Err(LookupError::NoSuchLabel) => Err(ExtractionError::LocalizationMismatch(field)),
        Err(LookupError::NoValue) => Err(ExtractionError::StructuralMismatch(field)),
    }
}

/// The attachments that the rows of a block of files list.
pub fn extract_attachment_files(rows: &Vec<PropertyRow>) -> (r: Result<Vec<File>, ExtractionError>)
    ensures
        match r {
            Ok(files) => attachment_files(rows@) == Ok::<Seq<FileView>, ExtractionError>(
                file_views(files@),
            ),
            Err(e) => attachment_files(rows@) == Err::<Seq<FileView>, ExtractionError>(e),
        },
{
    let mut files: Vec<File> = Vec::new();
    let mut i: usize = 0;
    assert(rows@.take(0) =~= Seq::empty());
    assert(file_views(files@) =~= Seq::empty());
    while i < rows.len()
        invariant
            i <= rows@.len(),
            attachment_files(rows@.take(i as int)) == Ok::<Seq<FileView>, ExtractionError>(
                file_views(files@),
            ),
        decreases rows@.len() - i,
    {
        let row = &rows[i];
        proof {
            assert(rows@.take(i + 1).drop_last() =~= rows@.take(i as int));
            assert(rows@.take(i + 1).last() == rows@[i as int]);
        }
        if row.cells.len() >= 2 {
            match &row.cells[1].href {
                None => {
                    proof {
                        lemma_attachment_error_stays(rows@, i + 1);
                    }
                    return Err(ExtractionError::StructuralMismatch(Field::Attachment));
                },
                Some(href) => {
                    let file = File {
                        name: row.cells[0].text.clone(),
                        description: String::new(),
                        id: None,
                        download_querypath: Some(href.clone()),
                        date: None,
                    };
                    let ghost before = files@;
                    files.push(file);
                    assert(file_views(files@) =~= file_views(before).push(file@));
                },
            }
        }
        i += 1;
    }
    assert(rows@.take(rows@.len() as int) =~= rows@);
    Ok(files)
}

/// A row that cannot be read spoils every list that holds it.
pub proof fn lemma_attachment_error_stays(rows: Seq<PropertyRow>, n: int)
    requires
        0 <= n <= rows.len(),
        attachment_files(rows.take(n)) is Err,
    ensures
        attachment_files(rows) == attachment_files(rows.take(n)),
    decreases rows.len() - n,
{
    if n < rows.len() {
        assert(rows.take(n + 1).drop_last() =~= rows.take(n));
        lemma_attachment_error_stays(rows, n + 1);
    } else {
        assert(rows.take(n) =~= rows);
    }
}

/// The attachments of a page, or `None` where it has no block of files.
pub fn extract_attachments(screens: &Vec<InfoScreen>) -> (r: Result<
    Option<Vec<File>>,
    ExtractionError,
>)
    ensures
        match r {
            Ok(Some(files)) => attachments_in(screens@) == Ok::<
                Option<Seq<FileView>>,
                ExtractionError,
            >(Some(file_views(files@))),
            Ok(None) => attachments_in(screens@) == Ok::<Option<Seq<FileView>>, ExtractionError>(
                None,
            ),
            Err(e) => attachments_in(screens@) == Err::<Option<Seq<FileView>>, ExtractionError>(e),
        },
{
    let names: &[&str] = &["Dateien", "Files"];
    assert(names@ =~= attachment_names());
    match find_screen(screens, names) {
        None => Ok(None),
        Some(screen) => match extract_attachment_files(&screen.rows) {
            Ok(files) => Ok(Some(files)),
            Err(e) => Err(e),
        },
    }
}

/// The address of the page of submitted files, where the page links to it.
pub fn extract_submission_link(screens: &Vec<InfoScreen>) -> (r: Result<
    Option<String>,
    ExtractionError,
>)
    ensures
        match r {
            Ok(link) => submission_link(screens@) == Ok::<Option<Seq<char>>, ExtractionError>(
                chars_of(link),
            ),
            Err(e) => submission_link(screens@) == Err::<Option<Seq<char>>, ExtractionError>(e),
        },
{
    let names: &[&str] = &["Ihre Einreichung", "Your Submission"];
    assert(names@ =~= submission_names());
    let labels: &[&str] = &["Abgegebene Dateien", "Submitted Files"];
    assert(labels@ =~= submitted_labels());
    match find_screen(screens, names) {
        None => Ok(None),
        Some(screen) => match find_value(screen, labels) {
            Err(LookupError::NoSuchLabel) => Err(
                ExtractionError::LocalizationMismatch(Field::SubmittedFiles),
            ),
            Err(LookupError::NoValue) => Err(
                ExtractionError::StructuralMismatch(Field::SubmittedFiles),
            ),
            Ok(value) => match &value.link {
                None => Ok(None),
                Some(link) => match &link.href {
                    None => Err(ExtractionError::StructuralMismatch(Field::SubmittedFiles)),
                    Some(href) => Ok(Some(href.clone())),
                },
            },
        },
    }
}

impl AssignmentDraft {
    /// Reads what `page` says of an assignment.
    pub fn from_page(page: &AssignmentPage) -> (r: Result<AssignmentDraft, ExtractionError>)
        ensures
            match r {
                Ok(draft) => draft_of(*page) == Ok::<AssignmentDraftView, ExtractionError>(draft@),
                Err(e) => draft_of(*page) == Err::<AssignmentDraftView, ExtractionError>(e),
            },
    {
        let name: String = match &page.name {
            None => { return Err(ExtractionError::StructuralMismatch(Field::Name)); },
            Some(name) => name.clone(),
        };
        let instructions: Option<String> = extract_instructions(&page.screens);
        let names: &[&str] = &["Schedule", "Terminplan"];
        assert(names@ =~= schedule_names());
        let schedule: &InfoScreen = match find_screen(&page.screens, names) {
            None => { return Err(ExtractionError::StructuralMismatch(Field::Schedule)); },
            Some(screen) => screen,
        };
        let labels: &[&str] = &["Startzeit", "Start Time"];
        assert(labels@ =~= start_labels());
        let start: String = match extract_text(schedule, labels, Field::StartTime) {
            Err(e) => { return Err(e); },
            Ok(text) => String::from_str(text),
        };
        let labels: &[&str] = &["Abgabetermin", "Edit Until"];
        assert(labels@ =~= end_labels());
        let end: String = match extract_text(schedule, labels, Field::EndTime) {
            Err(e) => { return Err(e); },
            Ok(text) => String::from_str(text),
        };
        let attachments: Vec<File> = match extract_attachments(&page.screens) {
            Err(e) => { return Err(e); },
            Ok(None) => {
                let none: Vec<File> = Vec::new();
                assert(file_views(none@) =~= Seq::empty());
                none
            },
            Ok(Some(files)) => files,
        };
        let submission_page: Option<String> = match extract_submission_link(&page.screens) {
            Err(e) => { return Err(e); },
            Ok(link) => link,
        };
        Ok(AssignmentDraft { name, instructions, start, end, attachments, submission_page })
    }
}

/// An assignment of an exercise. All of it is fixed when the page is read,
/// but for the link to the submission, which is followed on demand.
#[derive(Debug)]
pub struct Assignment {
    pub name: String,
    pub instructions: Option<String>,
    pub submission_start_date: LocalInstant,
    pub submission_end_date: LocalInstant,
    pub attachments: Vec<File>,
    submission: Reference<AssignmentSubmission>,
}

/// An assignment, with its texts as sequences of characters and its link
/// as the address or the submission that it holds.
pub struct AssignmentView {
    pub name: Seq<char>,
    pub instructions: Option<Seq<char>>,
    pub submission_start_date: LocalInstant,
    pub submission_end_date: LocalInstant,
    pub attachments: Seq<FileView>,
    /// The address of the page of the submission, while it is not read.
    pub submission_page: Option<Seq<char>>,
    /// The submission, once it is read.
    pub submission: Option<AssignmentSubmissionView>,
}

impl AssignmentView {
    /// Whether `now` lies between the start and the end of the time for
    /// handing in, both included.
    pub open spec fn is_active_at(self, now: LocalInstant) -> bool {
        self.submission_start_date.is_not_after(now) && now.is_not_after(self.submission_end_date)
    }

    /// The assignment after a submission was handed in for its link: a
    /// link that was not followed holds it, anything else is unchanged.
    pub open spec fn stored(self, submission: AssignmentSubmissionView) -> AssignmentView {
        if self.submission_page is Some {
            AssignmentView { submission_page: None, submission: Some(submission), ..self }
        } else {
            self
        }
    }
}

impl View for Assignment {
    type V = AssignmentView;

    closed spec fn view(&self) -> AssignmentView {
        AssignmentView {
            name: self.name@,
            instructions: chars_of(self.instructions),
            submission_start_date: self.submission_start_date,
            submission_end_date: self.submission_end_date,
            attachments: file_views(self.attachments@),
            submission_page: self.submission.pending(),
            submission: match self.submission {
                Reference::Resolved(s) => Some(s@),
                _ => None,
            },
        }
    }
}

/// The assignment that a draft and the readings of its two dates give: the
/// start is looked at before the end.
pub open spec fn assembled(
    draft: AssignmentDraftView,
    start: Result<LocalInstant, DateError>,
    end: Result<LocalInstant, DateError>,
) -> Result<AssignmentView, ExtractionError> {
    match start {
        Err(e) => Err(ExtractionError::DateGrammar(Field::StartTime, e)),
        Ok(start) => match end {
            Err(e) => Err(ExtractionError::DateGrammar(Field::EndTime, e)),
            Ok(end) => Ok(
                AssignmentView {
                    name: draft.name,
                    instructions: draft.instructions,
                    submission_start_date: start,
                    submission_end_date: end,
                    attachments: draft.attachments,
                    submission_page: draft.submission_page,
                    submission: None,
                },
            ),
        },
    }
}

/// Whether `r` holds what `expected` says.
pub open spec fn assignment_is(
    expected: Result<AssignmentView, ExtractionError>,
    r: Result<Assignment, ExtractionError>,
) -> bool {
    match r {
        Ok(assignment) => expected == Ok::<AssignmentView, ExtractionError>(assignment@),
        Err(e) => expected == Err::<AssignmentView, ExtractionError>(e),
    }
}

/// Whether `r` is one of the results that reading `page` at `now` may have:
/// the page's own error, or what the draft and some reading of its two
/// dates give.
pub open spec fn assignment_read(
    page: AssignmentPage,
    now: LocalInstant,
    r: Result<Assignment, ExtractionError>,
) -> bool {
    match draft_of(page) {
        Err(e) => r matches Err(x) && x == e,
        Ok(draft) => exists|
            start: Result<LocalInstant, DateError>,
            end: Result<LocalInstant, DateError>,
        |
            date_outcome(draft.start, now, start) && date_outcome(draft.end, now, end)
                && #[trigger] assignment_is(assembled(draft, start, end), r),
    }
}

impl Assignment {
    /// Puts a draft and the readings of its two dates together.
    pub fn assemble(
        draft: AssignmentDraft,
        start: Result<LocalInstant, DateError>,
        end: Result<LocalInstant, DateError>,
    ) -> (r: Result<Assignment, ExtractionError>)
        ensures
            assignment_is(assembled(draft@, start, end), r),
    {
        let start: LocalInstant = match start {
            Err(e) => { return Err(ExtractionError::DateGrammar(Field::StartTime, e)); },
            Ok(instant) => instant,
        };
        let end: LocalInstant = match end {
            Err(e) => { return Err(ExtractionError::DateGrammar(Field::EndTime, e)); },
            Ok(instant) => instant,
        };
        Ok(
            Assignment {
                name: draft.name,
                instructions: draft.instructions,
                submission_start_date: start,
                submission_end_date: end,
                attachments: draft.attachments,
                submission: Reference::from_optional_querypath(draft.submission_page),
            },
        )
    }

    /// Reads an assignment from its page, with relative dates counted from
    /// `now`. The link to the submission is kept, not followed.
    pub fn from_page(page: &AssignmentPage, now: &LocalInstant) -> (r: Result<
        Assignment,
        ExtractionError,
    >)
        ensures
            assignment_read(*page, *now, r),
    {
        let draft: AssignmentDraft = match AssignmentDraft::from_page(page) {
            Err(e) => { return Err(e); },
            Ok(draft) => draft,
        };
        let start = parse_date_at(draft.start.as_str(), now);
        let end = parse_date_at(draft.end.as_str(), now);
        let ghost view = draft@;
        let r = Assignment::assemble(draft, start, end);
        assert(assignment_is(assembled(view, start, end), r));
        r
    }

    /// Whether `now` lies in the time for handing in, both ends included.
    pub fn is_active_at(&self, now: &LocalInstant) -> (r: bool)
        ensures
            r == self@.is_active_at(*now),
    {
        now.not_after(&self.submission_end_date) && self.submission_start_date.not_after(now)
    }

    /// Whether the current instant lies in the time for handing in.
    pub fn is_active(&self) -> (r: bool)
        ensures
            exists|at: LocalInstant| r == #[trigger] self@.is_active_at(at),
    {
        let at: LocalInstant = now();
        let r = self.is_active_at(&at);
        assert(r == self@.is_active_at(at));
        r
    }

    /// The name of the assignment.
    pub fn name(&self) -> (r: &String)
        ensures
            r@ == self@.name,
    {
        &self.name
    }

    /// The instructions, where the page has any.
    pub fn instructions(&self) -> (r: &Option<String>)
        ensures
            chars_of(*r) == self@.instructions,
    {
        &self.instructions
    }

    /// The instant from which on work can be handed in.
    pub fn submission_start_date(&self) -> (r: LocalInstant)
        ensures
            r == self@.submission_start_date,
    {
        self.submission_start_date
    }

    /// The instant until which work can be handed in.
    pub fn submission_end_date(&self) -> (r: LocalInstant)
        ensures
            r == self@.submission_end_date,
    {
        self.submission_end_date
    }

    /// The files that come with the assignment, in the order of the page.
    pub fn attachments(&self) -> (r: &Vec<File>)
        ensures
            file_views(r@) == self@.attachments,
    {
        &self.attachments
    }

    /// The link to the submission.
    pub fn submission(&self) -> (r: &Reference<AssignmentSubmission>)
        ensures
            match *r {
                Reference::Unavailable => self@.submission_page is None && self@.submission is None,
                Reference::Unresolved(q) => self@.submission_page == Some(q@) && self@.submission
                    is None,
                Reference::Resolved(s) => self@.submission_page is None && self@.submission
                    == Some(s@),
            },
    {
        &self.submission
    }

    /// What is known of the submission: `None` where the assignment links
    /// to none, else the submission itself or the address to read it from.
    pub fn get_submission(&self) -> (r: Option<Resolution<'_, AssignmentSubmission>>)
        ensures
            match r {
                None => self@.submission_page is None && self@.submission is None,
                Some(Resolution::Fetch(q)) => self@.submission_page == Some(q@) && self@.submission
                    is None,
                Some(Resolution::Ready(s)) => self@.submission_page is None && self@.submission
                    == Some(s@),
            },
    {
        match self.submission.resolve() {
            Ok(resolution) => Some(resolution),
            Err(_) => None,
        }
    }

    /// Takes the submission that was read from the linked page. Nothing
    /// but the link changes, and the link only if it was not followed yet.
    pub fn set_submission(&mut self, submission: AssignmentSubmission) -> (r: Result<
        (),
        ReferenceError,
    >)
        ensures
            final(self)@ == old(self)@.stored(submission@),
            match r {
                Ok(_) => old(self)@.submission_page is Some,
                Err(ReferenceError::Unavailable) => old(self)@.submission_page is None && old(
                    self,
                )@.submission is None,
                Err(ReferenceError::AlreadyResolved) => old(self)@.submission is Some,
            },
    {
        self.submission.store(submission)
    }
}

/// The address of the assignment with the id `id`.
pub open spec fn assignment_querypath(id: Seq<char>) -> Seq<char> {
    "goto.php?target="@ + "ass"@ + "_"@ + id + "&client_id=produktiv"@
}

impl IliasElement for Assignment {
    /// Assignments are tagged `ass`.
    fn type_identifier() -> (r: Option<&'static str>)
        ensures
            r matches Some(tag) && tag@ == "ass"@,
    {
        Some("ass")
    }

    /// The address that leads to the assignment with the id `id`.
    fn querypath_from_id(id: &str) -> (r: Option<String>)
        ensures
            r matches Some(q) && q@ == assignment_querypath(id@),
    {
        let mut text: String = String::from_str("goto.php?target=");
        text.append("ass");
        text.append("_");
        text.append(id);
        text.append("&client_id=produktiv");
        Some(text)
    }

    /// Reads an assignment from its detail page, with relative dates
    /// counted from the current instant.
    fn parse(element: ElementRef<'_>) -> (r: Result<Assignment, ExtractionError>)
        ensures
            exists|page: AssignmentPage, at: LocalInstant|
                is_assignment_page_of(element, page) && #[trigger] assignment_read(page, at, r),
    {
        let page: AssignmentPage = read_assignment_page(element);
        let at: LocalInstant = now();
        let r = Assignment::from_page(&page, &at);
        assert(is_assignment_page_of(element, page) && assignment_read(page, at, r));
        r
    }
}

/// An assignment follows its link at most once: after a submission is
/// stored, no address is left to fetch and a second submission changes
/// nothing.
pub proof fn lemma_submission_stored_once(
    assignment: AssignmentView,
    first: AssignmentSubmissionView,
    second: AssignmentSubmissionView,
)
    requires
        assignment.submission_page is Some,
    ensures
        assignment.stored(first).submission == Some(first),
        assignment.stored(first).submission_page is None,
        assignment.stored(first).stored(second) == assignment.stored(first),
{
}

} // verus!
