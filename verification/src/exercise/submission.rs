//! What was handed in for an assignment, read from the page that lists it,
//! and the requests that delete files from it or add files to it.

use vstd::prelude::*;
use vstd::string::*;
use scraper::ElementRef;
use crate::clock::now;
use crate::date::{date_outcome, parse_date_at, DateError, LocalInstant};
use crate::dom::{
    is_submission_page_of, is_upload_page_of, read_submission_page, read_upload_page,
};
use crate::error::{ExtractionError, Field};
use crate::file::{file_views, File, FileView};
use crate::local_file::NamedLocalFile;
use crate::page::{Cell, SubmissionPage, UploadPage};
use crate::request::{
    field_views, part_views, CallerContractViolation, FormRequest, MultipartRequest, Part,
    PartView,
};
use crate::text::{decimal, decimal_digits};

verus! {

/// How each column that may hold a date was read.
pub type Readings = Vec<Result<LocalInstant, DateError>>;

/// Whether `readings` are what reading the columns of a row from the third
/// on, as dates at the instant `now`, may give.
pub open spec fn row_read(
    cells: Seq<Cell>,
    now: LocalInstant,
    readings: Seq<Result<LocalInstant, DateError>>,
) -> bool {
    &&& readings.len() == if cells.len() < 2 {
        0
    } else {
        cells.len() - 2
    }
    &&& forall|k: int|
        0 <= k < readings.len() ==> date_outcome(cells[k + 2].text@, now, #[trigger] readings[k])
}

/// Whether `readings` are what reading the date columns of every row may
/// give.
pub open spec fn rows_read(
    rows: Seq<Vec<Cell>>,
    now: LocalInstant,
    readings: Seq<Seq<Result<LocalInstant, DateError>>>,
) -> bool {
    &&& readings.len() == rows.len()
    &&& forall|i: int| 0 <= i < rows.len() ==> row_read(rows[i]@, now, #[trigger] readings[i])
}

/// The index of the first reading at or after `from` that is a date, or
/// the number of readings.
pub open spec fn first_date(readings: Seq<Result<LocalInstant, DateError>>, from: int) -> int
    decreases readings.len() - from,
{
    if 0 <= from < readings.len() && readings[from] is Err {
        first_date(readings, from + 1)
    } else {
        from
    }
}

/// The file of a row of the table, or `None` for a separator: a row of
/// fewer than two columns. The first column holds the box whose value is the
/// file's id, the second the name. Of the columns that follow, the first
/// that reads as a date is the date, and one more must come after it: the
/// last holds the link to the file.
pub open spec fn submitted_file(
    cells: Seq<Cell>,
    readings: Seq<Result<LocalInstant, DateError>>,
) -> Option<Result<FileView, ExtractionError>> {
    let j = first_date(readings, 0);
    if cells.len() < 2 {
        None
    } else {
        Some(
            match cells[0].value {
                None => Err(ExtractionError::StructuralMismatch(Field::SubmissionId)),
                Some(id) => if j >= readings.len() {
                    Err(ExtractionError::StructuralMismatch(Field::SubmissionDate))
                } else if j + 1 >= readings.len() {
                    Err(ExtractionError::StructuralMismatch(Field::Download))
                } else {
                    match cells.last().href {
                        None => Err(ExtractionError::StructuralMismatch(Field::Download)),
                        Some(href) => Ok(
                            FileView {
                                name: cells[1].text@,
                                description: Seq::empty(),
                                id: Some(id@),
                                download_querypath: Some(href@),
                                date: Some(readings[j]->Ok_0),
                            },
                        ),
                    }
                },
            },
        )
    }
}

/// The files of the first `n` rows, in order, or the error of the first
/// row that cannot be read.
pub open spec fn submitted_files(
    rows: Seq<Vec<Cell>>,
    readings: Seq<Seq<Result<LocalInstant, DateError>>>,
    n: int,
) -> Result<Seq<FileView>, ExtractionError>
    decreases n,
{
    if n <= 0 {
        Ok(Seq::empty())
    } else {
        match submitted_files(rows, readings, n - 1) {
            Err(e) => Err(e),
            Ok(files) => match submitted_file(rows[n - 1]@, readings[n - 1]) {
                None => Ok(files),
                Some(Err(e)) => Err(e),
                Some(Ok(file)) => Ok(files.push(file)),
            },
        }
    }
}

/// What the page of submitted files says, before the upload form is read.
#[derive(Clone, Debug, PartialEq, Eq)]
pub struct SubmissionDraft {
    pub submissions: Vec<File>,
    pub delete_querypath: String,
    /// The address of the page with the upload form: the next to fetch.
    pub upload_form: String,
}

/// A draft, with its texts as sequences of characters.
pub struct SubmissionDraftView {
    pub submissions: Seq<FileView>,
    pub delete_querypath: Seq<char>,
    pub upload_form: Seq<char>,
}

impl View for SubmissionDraft {
    type V = SubmissionDraftView;

    open spec fn view(&self) -> SubmissionDraftView {
        SubmissionDraftView {
            submissions: file_views(self.submissions@),
            delete_querypath: self.delete_querypath@,
            upload_form: self.upload_form@,
        }
    }
}

/// What `page` says of a submission, given how its date columns were read.
pub open spec fn submission_draft_of(
    page: SubmissionPage,
    readings: Seq<Seq<Result<LocalInstant, DateError>>>,
) -> Result<SubmissionDraftView, ExtractionError> {
    match submitted_files(page.rows@, readings, page.rows@.len() as int) {
        Err(e) => Err(e),
        Ok(submissions) => match page.delete_action {
            None => Err(ExtractionError::StructuralMismatch(Field::DeleteForm)),
            Some(delete) => match page.upload_form {
                None => Err(ExtractionError::StructuralMismatch(Field::UploadButton)),
                Some(upload) => Ok(
                    SubmissionDraftView {
                        submissions,
                        delete_querypath: delete@,
                        upload_form: upload@,
                    },
                ),
            },
        },
    }
}

/// Whether `r` is one of the results that reading `page` at `now` may have.
pub open spec fn submission_read(
    page: SubmissionPage,
    now: LocalInstant,
    r: Result<SubmissionDraft, ExtractionError>,
) -> bool {
    exists|readings: Seq<Seq<Result<LocalInstant, DateError>>>|
        rows_read(page.rows@, now, readings) && #[trigger] draft_is(
            submission_draft_of(page, readings),
            r,
        )
}

/// Whether `r` holds what `expected` says.
pub open spec fn draft_is(
    expected: Result<SubmissionDraftView, ExtractionError>,
    r: Result<SubmissionDraft, ExtractionError>,
) -> bool {
    match r {
        Ok(draft) => expected == Ok::<SubmissionDraftView, ExtractionError>(draft@),
        Err(e) => expected == Err::<SubmissionDraftView, ExtractionError>(e),
    }
}

/// Reads the columns of a row, from the third on, as dates.
pub fn read_dates(cells: &Vec<Cell>, now: &LocalInstant) -> (r: Readings)
    ensures
        row_read(cells@, *now, r@),
{
    let mut readings: Readings = Vec::new();
    let mut k: usize = 2;
    while k < cells.len()
        invariant
            2 <= k,
            cells@.len() >= 2 ==> k <= cells@.len(),
            readings@.len() == if cells@.len() < 2 {
                0
            } else {
                k - 2
            },
            forall|i: int|
                0 <= i < readings@.len() ==> date_outcome(
                    cells@[i + 2].text@,
                    *now,
                    #[trigger] readings@[i],
                ),
        decreases cells@.len() - k,
    {
        let reading = parse_date_at(cells[k].text.as_str(), now);
        readings.push(reading);
        k += 1;
    }
    readings
}

/// The index of the first reading that is a date, or the number of
/// readings.
pub fn find_date(readings: &Readings) -> (r: usize)
    ensures
        r == first_date(readings@, 0),
        r <= readings@.len(),
        r < readings@.len() ==> (readings@[r as int] is Ok),
{
    let mut j: usize = 0;
    while j < readings.len() && readings[j].is_err()
        invariant
            j <= readings@.len(),
            first_date(readings@, 0) == first_date(readings@, j as int),
        decreases readings@.len() - j,
    {
        j += 1;
    }
    j
}

/// The file of a row of the table, given how its date columns were read.
pub fn file_of_row(cells: &Vec<Cell>, readings: &Readings) -> (r: Option<
    Result<File, ExtractionError>,
>)
    ensures
        match r {
            None => submitted_file(cells@, readings@) is None,
            Some(Ok(file)) => submitted_file(cells@, readings@) == Some(
                Ok::<FileView, ExtractionError>(file@),
            ),
            Some(Err(e)) => submitted_file(cells@, readings@) == Some(
                Err::<FileView, ExtractionError>(e),
            ),
        },
{
    if cells.len() < 2 {
        return None;
    }
    let id: String = match &cells[0].value {
        None => {
            return Some(Err(ExtractionError::StructuralMismatch(Field::SubmissionId)));
        },
        Some(id) => id.clone(),
    };
    let j: usize = find_date(readings);
    if j >= readings.len() {
        return Some(Err(ExtractionError::StructuralMismatch(Field::SubmissionDate)));
    }
    if readings.len() - j < 2 {
        return Some(Err(ExtractionError::StructuralMismatch(Field::Download)));
    }
    let date: LocalInstant = match readings[j] {
        Ok(date) => date,
        Err(_) => {
            return Some(Err(ExtractionError::StructuralMismatch(Field::SubmissionDate)));
        },
    };
    let href: String = match &cells[cells.len() - 1].href {
        None => {
            return Some(Err(ExtractionError::StructuralMismatch(Field::Download)));
        },
        Some(href) => href.clone(),
    };
    Some(
        Ok(
            File {
                name: cells[1].text.clone(),
                description: String::new(),
                id: Some(id),
                download_querypath: Some(href),
                date: Some(date),
            },
        ),
    )
}

/// A row that cannot be read spoils every list that holds it.
pub proof fn lemma_submitted_error_stays(
    rows: Seq<Vec<Cell>>,
    readings: Seq<Seq<Result<LocalInstant, DateError>>>,
    n: int,
    m: int,
)
    requires
        0 <= n <= m,
        submitted_files(rows, readings, n) is Err,
    ensures
        submitted_files(rows, readings, m) == submitted_files(rows, readings, n),
    decreases m - n,
{
    if n < m {
        lemma_submitted_error_stays(rows, readings, n, m - 1);
    }
}

impl SubmissionDraft {
    /// Reads the page of submitted files, with relative dates counted from
    /// `now`.
    pub fn from_page(page: &SubmissionPage, now: &LocalInstant) -> (r: Result<
        SubmissionDraft,
        ExtractionError,
    >)
        ensures
            submission_read(*page, *now, r),
    {
        let mut all: Vec<Readings> = Vec::new();
        let mut i: usize = 0;
        while i < page.rows.len()
            invariant
                i <= page.rows@.len(),
                all@.len() == i,
                forall|k: int|
                    0 <= k < i ==> row_read(page.rows@[k]@, *now, (#[trigger] all@[k])@),
            decreases page.rows@.len() - i,
        {
            let readings: Readings = read_dates(&page.rows[i], now);
            all.push(readings);
            i += 1;
        }
        let ghost readings: Seq<Seq<Result<LocalInstant, DateError>>> = all@.map_values(
            |r: Readings| r@,
        );
        assert(rows_read(page.rows@, *now, readings));
        let r = SubmissionDraft::from_readings(page, &all);
        assert(draft_is(submission_draft_of(*page, readings), r));
        r
    }

    /// Reads the page of submitted files, given how the date columns of
    /// each of its rows were read.
    pub fn from_readings(page: &SubmissionPage, readings: &Vec<Readings>) -> (r: Result<
        SubmissionDraft,
        ExtractionError,
    >)
        requires
            readings@.len() == page.rows@.len(),
        ensures
            draft_is(submission_draft_of(*page, readings@.map_values(|r: Readings| r@)), r),
    {
        let ghost read: Seq<Seq<Result<LocalInstant, DateError>>> = readings@.map_values(
            |r: Readings| r@,
        );
        let mut files: Vec<File> = Vec::new();
        let mut i: usize = 0;
        assert(file_views(files@) =~= Seq::empty());
        while i < page.rows.len()
            invariant
                i <= page.rows@.len(),
                readings@.len() == page.rows@.len(),
                read == readings@.map_values(|r: Readings| r@),
                submitted_files(page.rows@, read, i as int) == Ok::<
                    Seq<FileView>,
                    ExtractionError,
                >(file_views(files@)),
            decreases page.rows@.len() - i,
        {
            assert(read[i as int] == readings@[i as int]@);
            match file_of_row(&page.rows[i], &readings[i]) {
                None => {},
                Some(Err(e)) => {
                    proof {
                        lemma_submitted_error_stays(
                            page.rows@,
                            read,
                            i + 1,
                            page.rows@.len() as int,
                        );
                    }
                    return Err(e);
                },
                Some(Ok(file)) => {
                    let ghost before = files@;
                    files.push(file);
                    assert(file_views(files@) =~= file_views(before).push(file@));
                },
            }
            i += 1;
        }
        let delete_querypath: String = match &page.delete_action {
            None => { return Err(ExtractionError::StructuralMismatch(Field::DeleteForm)); },
            Some(action) => action.clone(),
        };
        let upload_form: String = match &page.upload_form {
            None => { return Err(ExtractionError::StructuralMismatch(Field::UploadButton)); },
            Some(address) => address.clone(),
        };
        Ok(SubmissionDraft { submissions: files, delete_querypath, upload_form })
    }
}

/// What was handed in for an assignment, and where the forms go that
/// change it. Neither request changes `submissions`: the page has to be
/// read again to see what the platform made of one.
#[derive(Clone, Debug, PartialEq, Eq)]
pub struct AssignmentSubmission {
    pub submissions: Vec<File>,
    delete_querypath: String,
    upload_querypath: String,
}

/// A submission, with its texts as sequences of characters.
pub struct AssignmentSubmissionView {
    pub submissions: Seq<FileView>,
    pub delete_querypath: Seq<char>,
    pub upload_querypath: Seq<char>,
}

impl View for AssignmentSubmission {
    type V = AssignmentSubmissionView;

    closed spec fn view(&self) -> AssignmentSubmissionView {
        AssignmentSubmissionView {
            submissions: file_views(self.submissions@),
            delete_querypath: self.delete_querypath@,
            upload_querypath: self.upload_querypath@,
        }
    }
}

/// The index of the first file at or after `from` that has no id, or the
/// number of files.
pub open spec fn first_without_id(files: Seq<&File>, from: int) -> int
    decreases files.len() - from,
{
    if 0 <= from < files.len() && files[from].id is Some {
        first_without_id(files, from + 1)
    } else {
        from
    }
}

/// The fields of the form that deletes `files`: one per file with its id,
/// then the command.
pub open spec fn delete_fields(files: Seq<&File>) -> Seq<(Seq<char>, Seq<char>)> {
    Seq::new(
        files.len() + 1,
        |i: int|
            if i < files.len() {
                ("delivered[]"@, files[i].id->0@)
            } else {
                ("cmd[deleteDelivered]"@, "Löschen"@)
            },
    )
}

/// The name of the field that carries the file at position `index`.
pub open spec fn upload_field(index: nat) -> Seq<char> {
    "deliver["@ + decimal_digits(index) + "]"@
}

/// The parts of the body that uploads `files`: one per file, in order, then
/// the command and the hash field.
pub open spec fn upload_parts(files: Seq<NamedLocalFile>) -> Seq<PartView> {
    Seq::new(
        files.len() + 2,
        |i: int|
            if i < files.len() {
                PartView::File {
                    field: upload_field(i as nat),
                    path: files[i].path@,
                    filename: files[i].name@,
                }
            } else if i == files.len() {
                PartView::Text { field: "cmd[uploadFile]"@, value: "Hochladen"@ }
            } else {
                PartView::Text { field: "ilfilehash"@, value: "aaaa"@ }
            },
    )
}

/// Whether `r` is what a draft and the page of the upload form give: the
/// draft with the address that the form is sent to, which must be there.
pub open spec fn finished(
    draft: SubmissionDraftView,
    upload: UploadPage,
    r: Result<AssignmentSubmission, ExtractionError>,
) -> bool {
    match upload.action {
        None => r matches Err(e) && e == ExtractionError::StructuralMismatch(Field::UploadForm),
        Some(action) => r matches Ok(submission) && submission@ == (AssignmentSubmissionView {
            submissions: draft.submissions,
            delete_querypath: draft.delete_querypath,
            upload_querypath: action@,
        }),
    }
}

impl SubmissionDraft {
    /// Completes the draft with the page of the upload form.
    pub fn finish(self, upload: &UploadPage) -> (r: Result<AssignmentSubmission, ExtractionError>)
        ensures
            finished(self@, *upload, r),
    {
        match &upload.action {
            None => Err(ExtractionError::StructuralMismatch(Field::UploadForm)),
            Some(action) => Ok(
                AssignmentSubmission {
                    submissions: self.submissions,
                    delete_querypath: self.delete_querypath,
                    upload_querypath: action.clone(),
                },
            ),
        }
    }
}

impl SubmissionDraft {
    /// Completes the draft with the page of the upload form, fetched from
    /// the address `upload_form`.
    pub fn complete(self, upload_page: ElementRef<'_>) -> (r: Result<
        AssignmentSubmission,
        ExtractionError,
    >)
        ensures
            exists|page: UploadPage|
                is_upload_page_of(upload_page, page) && #[trigger] finished(self@, page, r),
    {
        let page: UploadPage = read_upload_page(upload_page);
        let ghost draft = self@;
        let r = self.finish(&page);
        assert(is_upload_page_of(upload_page, page) && finished(draft, page, r));
        r
    }
}

impl AssignmentSubmission {
    /// Reads the page of submitted files, with relative dates counted from
    /// the current instant. What comes back names the page of the upload
    /// form, which completes it.
    pub fn parse_submissions_page(submission_page: ElementRef<'_>) -> (r: Result<
        SubmissionDraft,
        ExtractionError,
    >)
        ensures
            exists|page: SubmissionPage, at: LocalInstant|
                is_submission_page_of(submission_page, page) && #[trigger] submission_read(
                    page,
                    at,
                    r,
                ),
    {
        let page: SubmissionPage = read_submission_page(submission_page);
        let at: LocalInstant = now();
        let r = SubmissionDraft::from_page(&page, &at);
        assert(is_submission_page_of(submission_page, page) && submission_read(page, at, r));
        r
    }

    /// The files that were handed in.
    pub fn files(&self) -> (r: &Vec<File>)
        ensures
            file_views(r@) == self@.submissions,
    {
        &self.submissions
    }

    /// Where the form that deletes files is sent.
    pub fn delete_querypath(&self) -> (r: &String)
        ensures
            r@ == self@.delete_querypath,
    {
        &self.delete_querypath
    }

    /// Where the body that uploads files is sent.
    pub fn upload_querypath(&self) -> (r: &String)
        ensures
            r@ == self@.upload_querypath,
    {
        &self.upload_querypath
    }

    /// The form that deletes `files` from the submission. Every file must
    /// have an id; where one has none there is no form to send.
    pub fn delete_files(&self, files: &[&File]) -> (r: Result<
        FormRequest,
        CallerContractViolation,
    >)
        ensures
            match r {
                Ok(request) => {
                    &&& first_without_id(files@, 0) == files@.len()
                    &&& request.querypath@ == self@.delete_querypath
                    &&& request.fields@.len() == files@.len() + 1
                    &&& field_views(request.fields@) == delete_fields(files@)
                },
                Err(violation) => violation.index == first_without_id(files@, 0)
                    && violation.index < files@.len(),
            },
    {
        let mut fields: Vec<(String, String)> = Vec::new();
        let mut i: usize = 0;
        while i < files.len()
            invariant
                i <= files@.len(),
                first_without_id(files@, 0) == first_without_id(files@, i as int),
                fields@.len() == i,
                forall|k: int| 0 <= k < i ==> (#[trigger] files@[k]).id is Some,
                forall|k: int| 0 <= k < i ==> (#[trigger] fields@[k]).0@ == "delivered[]"@,
                forall|k: int| 0 <= k < i ==> (#[trigger] fields@[k]).1@ == files@[k].id->0@,
            decreases files@.len() - i,
        {
            let id: String = match &files[i].id {
                None => {
                    return Err(CallerContractViolation { index: i });
                },
                Some(id) => id.clone(),
            };
            fields.push((String::from_str("delivered[]"), id));
            i += 1;
        }
        fields.push((String::from_str("cmd[deleteDelivered]"), String::from_str("Löschen")));
        assert(field_views(fields@) =~= delete_fields(files@));
        Ok(FormRequest { querypath: self.delete_querypath.clone(), fields })
    }

    /// The one body that uploads `files` to the submission.
    pub fn upload_files(&self, files: &[NamedLocalFile]) -> (r: MultipartRequest)
        ensures
            r.querypath@ == self@.upload_querypath,
            r.parts@.len() == files@.len() + 2,
            part_views(r.parts@) == upload_parts(files@),
    {
        let mut parts: Vec<Part> = Vec::new();
        let mut i: usize = 0;
        while i < files.len()
            invariant
                i <= files@.len(),
                parts@.len() == i,
                forall|k: int|
                    0 <= k < i ==> (#[trigger] parts@[k])@ == upload_parts(files@)[k],
            decreases files@.len() - i,
        {
            let mut field: String = String::from_str("deliver[");
            let number: String = decimal(i);
            field.append(number.as_str());
            field.append("]");
            assert(field@ =~= upload_field(i as nat));
            parts.push(
                Part::File { field, path: files[i].path.clone(), filename: files[i].name.clone() },
            );
            i += 1;
        }
        parts.push(
            Part::Text {
                field: String::from_str("cmd[uploadFile]"),
                value: String::from_str("Hochladen"),
            },
        );
        parts.push(
            Part::Text { field: String::from_str("ilfilehash"), value: String::from_str("aaaa") },
        );
        assert(part_views(parts@) =~= upload_parts(files@));
        MultipartRequest { querypath: self.upload_querypath.clone(), parts }
    }
}

} // verus!
