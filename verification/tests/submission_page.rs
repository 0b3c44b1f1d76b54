use ilias::date::{CivilDate, DateError, LocalInstant, WallTime};
use ilias::error::{ExtractionError, Field};
use ilias::exercise::submission::{
    file_of_row, find_date, read_dates, AssignmentSubmission, SubmissionDraft,
};
use ilias::file::File;
use ilias::local_file::NamedLocalFile;
use ilias::page::{Cell, SubmissionPage, UploadPage};
use ilias::request::{CallerContractViolation, Part};
use scraper::Html;

fn text(s: &str) -> Option<String> {
    Some(s.to_string())
}

fn cell(t: &str) -> Cell {
    Cell { text: t.to_string(), href: None, value: None }
}

fn id_cell(id: &str) -> Cell {
    Cell { text: String::new(), href: None, value: text(id) }
}

fn link_cell(href: &str) -> Cell {
    Cell { text: "Download".to_string(), href: text(href), value: None }
}

fn now() -> LocalInstant {
    LocalInstant {
        wall: WallTime { date: CivilDate { year: 2024, month: 3, day: 15 }, hour: 12, minute: 0, second: 0 },
        seconds: 0,
        nanos: 0,
    }
}

fn at(seconds: i64) -> LocalInstant {
    LocalInstant { wall: now().wall, seconds, nanos: 0 }
}

fn row(id: &str, name: &str, date: &str, href: &str) -> Vec<Cell> {
    vec![id_cell(id), cell(name), cell(date), link_cell(href)]
}

fn page(rows: Vec<Vec<Cell>>) -> SubmissionPage {
    SubmissionPage { rows, delete_action: text("ilias.php?cmd=delete"), upload_form: text("ilias.php?cmd=form") }
}

fn handed_in(id: Option<&str>, name: &str) -> File {
    File {
        name: name.to_string(),
        description: String::new(),
        id: id.map(|i| i.to_string()),
        download_querypath: None,
        date: None,
    }
}

fn submission() -> AssignmentSubmission {
    let draft = SubmissionDraft {
        submissions: vec![handed_in(Some("1"), "a.pdf")],
        delete_querypath: "ilias.php?cmd=delete".to_string(),
        upload_form: "ilias.php?cmd=form".to_string(),
    };
    draft.finish(&UploadPage { action: text("ilias.php?cmd=upload") }).unwrap()
}

#[test]
fn rows_become_files() {
    let p = page(vec![
        row("4711", "solution.pdf", "14. Mär 2024, 09:00", "dl?4711"),
        vec![cell("separator")],
        row("4712", "notes.txt", "Yesterday, 18:30", "dl?4712"),
    ]);
    let draft = SubmissionDraft::from_page(&p, &now()).unwrap();
    assert_eq!(draft.delete_querypath, "ilias.php?cmd=delete");
    assert_eq!(draft.upload_form, "ilias.php?cmd=form");
    assert_eq!(draft.submissions.len(), 2);
    let first = &draft.submissions[0];
    assert_eq!(first.id, text("4711"));
    assert_eq!(first.name, "solution.pdf");
    assert_eq!(first.description, "");
    assert_eq!(first.download_querypath, text("dl?4711"));
    assert_eq!(
        first.date.unwrap().wall,
        WallTime { date: CivilDate { year: 2024, month: 3, day: 14 }, hour: 9, minute: 0, second: 0 }
    );
    let second = &draft.submissions[1];
    assert_eq!(second.id, text("4712"));
    assert_eq!(
        second.date.unwrap().wall,
        WallTime { date: CivilDate { year: 2024, month: 3, day: 14 }, hour: 18, minute: 30, second: 0 }
    );
}

#[test]
fn columns_that_are_no_date_are_passed_over() {
    let cells = vec![
        id_cell("1"),
        cell("a.pdf"),
        cell("12 KB"),
        cell("pdf, small"),
        cell("Today, 10:00"),
        cell("x"),
        link_cell("dl?1"),
    ];
    let readings = read_dates(&cells, &now());
    assert_eq!(readings.len(), 5);
    assert_eq!(readings[0], Err(DateError::MissingSeparator));
    assert_eq!(readings[1], Err(DateError::InvalidTime));
    assert!(readings[2].is_ok());
    assert_eq!(find_date(&readings), 2);
    let file = file_of_row(&cells, &readings).unwrap().unwrap();
    assert_eq!(file.date.unwrap().wall.hour, 10);
    assert_eq!(file.download_querypath, text("dl?1"));
}

#[test]
fn file_of_a_row_from_given_readings() {
    let cells = row("9", "x.txt", "whatever", "dl?9");
    let file = file_of_row(&cells, &vec![Ok(at(77)), Err(DateError::InvalidDate)]).unwrap().unwrap();
    assert_eq!(
        file,
        File {
            name: "x.txt".to_string(),
            description: String::new(),
            id: text("9"),
            download_querypath: text("dl?9"),
            date: Some(at(77)),
        }
    );
    let two = file_of_row(&cells, &vec![Err(DateError::InvalidDate), Ok(at(5))]);
    assert_eq!(two, Some(Err(ExtractionError::StructuralMismatch(Field::Download))));
    let none = file_of_row(&cells, &vec![Err(DateError::InvalidDate), Err(DateError::InvalidTime)]);
    assert_eq!(none, Some(Err(ExtractionError::StructuralMismatch(Field::SubmissionDate))));
    assert_eq!(file_of_row(&vec![cell("x")], &vec![]), None);
    assert_eq!(file_of_row(&vec![], &vec![]), None);
}

#[test]
fn malformed_rows_are_errors() {
    let no_id = vec![cell(""), cell("a"), cell("Today, 10:00"), link_cell("dl")];
    assert_eq!(
        SubmissionDraft::from_page(&page(vec![no_id]), &now()),
        Err(ExtractionError::StructuralMismatch(Field::SubmissionId))
    );
    let no_date = vec![id_cell("1"), cell("a"), cell("never"), link_cell("dl")];
    assert_eq!(
        SubmissionDraft::from_page(&page(vec![no_date]), &now()),
        Err(ExtractionError::StructuralMismatch(Field::SubmissionDate))
    );
    let two_columns = vec![id_cell("1"), cell("a")];
    assert_eq!(
        SubmissionDraft::from_page(&page(vec![two_columns]), &now()),
        Err(ExtractionError::StructuralMismatch(Field::SubmissionDate))
    );
    let date_last = vec![id_cell("1"), cell("a"), cell("Today, 10:00")];
    assert_eq!(
        SubmissionDraft::from_page(&page(vec![date_last]), &now()),
        Err(ExtractionError::StructuralMismatch(Field::Download))
    );
    let no_link = vec![id_cell("1"), cell("a"), cell("Today, 10:00"), cell("no link")];
    assert_eq!(
        SubmissionDraft::from_page(&page(vec![no_link]), &now()),
        Err(ExtractionError::StructuralMismatch(Field::Download))
    );
}

#[test]
fn forms_must_be_on_the_page() {
    let mut p = page(vec![]);
    p.delete_action = None;
    assert_eq!(
        SubmissionDraft::from_page(&p, &now()),
        Err(ExtractionError::StructuralMismatch(Field::DeleteForm))
    );
    let mut p = page(vec![]);
    p.upload_form = None;
    assert_eq!(
        SubmissionDraft::from_page(&p, &now()),
        Err(ExtractionError::StructuralMismatch(Field::UploadButton))
    );
    let draft = SubmissionDraft::from_page(&page(vec![]), &now()).unwrap();
    assert_eq!(draft.submissions, vec![]);
    assert_eq!(
        draft.finish(&UploadPage { action: None }),
        Err(ExtractionError::StructuralMismatch(Field::UploadForm))
    );
}

#[test]
fn finishing_keeps_the_draft() {
    let p = page(vec![row("1", "a.pdf", "Today, 10:00", "dl?1")]);
    let draft = SubmissionDraft::from_page(&p, &now()).unwrap();
    let files = draft.submissions.clone();
    let s = draft.finish(&UploadPage { action: text("ilias.php?cmd=upload") }).unwrap();
    assert_eq!(s.submissions, files);
    assert_eq!(s.files(), &files);
    assert_eq!(s.delete_querypath(), "ilias.php?cmd=delete");
    assert_eq!(s.upload_querypath(), "ilias.php?cmd=upload");
}

#[test]
fn deleting_a_file_without_id_is_refused() {
    let s = submission();
    let with = handed_in(Some("1"), "a.pdf");
    let without = handed_in(None, "b.pdf");
    assert_eq!(s.delete_files(&[&without]), Err(CallerContractViolation { index: 0 }));
    assert_eq!(s.delete_files(&[&with, &without, &without]), Err(CallerContractViolation { index: 1 }));
}

#[test]
fn deleting_sends_one_field_per_file_and_the_command() {
    let s = submission();
    let a = handed_in(Some("17"), "a.pdf");
    let b = handed_in(Some("23"), "b.pdf");
    let request = s.delete_files(&[&a, &b]).unwrap();
    assert_eq!(request.querypath, "ilias.php?cmd=delete");
    assert_eq!(
        request.fields,
        vec![
            ("delivered[]".to_string(), "17".to_string()),
            ("delivered[]".to_string(), "23".to_string()),
            ("cmd[deleteDelivered]".to_string(), "Löschen".to_string()),
        ]
    );
    let none = s.delete_files(&[]).unwrap();
    assert_eq!(none.fields, vec![("cmd[deleteDelivered]".to_string(), "Löschen".to_string())]);
    assert_eq!(s.submissions.len(), 1);
}

fn local(name: &str, path: &str) -> NamedLocalFile {
    NamedLocalFile { name: name.to_string(), path: path.to_string() }
}

fn file_part(index: usize, name: &str, path: &str) -> Part {
    Part::File { field: format!("deliver[{}]", index), path: path.to_string(), filename: name.to_string() }
}

fn text_part(field: &str, value: &str) -> Part {
    Part::Text { field: field.to_string(), value: value.to_string() }
}

#[test]
fn uploading_three_files_is_one_body_of_five_parts() {
    let s = submission();
    let files = [local("a.pdf", "/tmp/a.pdf"), local("b.pdf", "/tmp/b.pdf"), local("c.pdf", "/tmp/c.pdf")];
    let request = s.upload_files(&files);
    assert_eq!(request.querypath, "ilias.php?cmd=upload");
    assert_eq!(
        request.parts,
        vec![
            file_part(0, "a.pdf", "/tmp/a.pdf"),
            file_part(1, "b.pdf", "/tmp/b.pdf"),
            file_part(2, "c.pdf", "/tmp/c.pdf"),
            text_part("cmd[uploadFile]", "Hochladen"),
            text_part("ilfilehash", "aaaa"),
        ]
    );
    assert_eq!(s.submissions.len(), 1);
}

#[test]
fn upload_field_names_count_in_decimal() {
    let s = submission();
    let files: Vec<NamedLocalFile> = (0..12).map(|i| local(&format!("f{}", i), &format!("/p/{}", i))).collect();
    let request = s.upload_files(&files);
    assert_eq!(request.parts.len(), 14);
    assert_eq!(request.parts[9], file_part(9, "f9", "/p/9"));
    assert_eq!(request.parts[10], file_part(10, "f10", "/p/10"));
    assert_eq!(request.parts[11], file_part(11, "f11", "/p/11"));
    let empty = s.upload_files(&[]);
    assert_eq!(empty.parts, vec![text_part("cmd[uploadFile]", "Hochladen"), text_part("ilfilehash", "aaaa")]);
}

const SUBMISSIONS: &str = r#"<html><body>
<nav><div class="navbar-header"><button data-action="ilias.php?cmd=uploadForm">Datei hochladen</button></div></nav>
<div id="ilContentContainer"><form action="ilias.php?cmd=deleteDelivered" method="post">
<table><thead><tr><th></th><th>Name</th><th>Datum</th><th></th></tr></thead>
<tbody>
<tr><td><input type="checkbox" name="delivered[]" value="4711"></td><td>solution.pdf</td><td>14. Mär 2024, 09:00</td><td><a href="ilias.php?cmd=download&amp;id=4711">Download</a></td></tr>
<tr><td colspan="4">-</td></tr>
<tr><td><input type="checkbox" name="delivered[]" value="4712"></td><td>notes.txt</td><td>12 KB</td><td>Heute, 07:15</td><td><a href="ilias.php?cmd=download&amp;id=4712">Download</a></td></tr>
</tbody></table></form></div>
</body></html>"#;

const UPLOAD: &str = r#"<html><body><div id="ilContentContainer">
<form action="ilias.php?cmd=uploadFile" enctype="multipart/form-data"><input type="file"></form>
</div></body></html>"#;

#[test]
fn submission_from_markup() {
    let html = Html::parse_document(SUBMISSIONS);
    let draft = AssignmentSubmission::parse_submissions_page(html.root_element()).unwrap();
    assert_eq!(draft.upload_form, "ilias.php?cmd=uploadForm");
    assert_eq!(draft.delete_querypath, "ilias.php?cmd=deleteDelivered");
    assert_eq!(draft.submissions.len(), 2);
    assert_eq!(draft.submissions[0].id, text("4711"));
    assert_eq!(draft.submissions[0].name, "solution.pdf");
    assert_eq!(draft.submissions[0].download_querypath, text("ilias.php?cmd=download&id=4711"));
    assert_eq!(
        draft.submissions[0].date.unwrap().wall,
        WallTime { date: CivilDate { year: 2024, month: 3, day: 14 }, hour: 9, minute: 0, second: 0 }
    );
    assert_eq!(draft.submissions[1].id, text("4712"));
    assert_eq!(draft.submissions[1].date.unwrap().wall.minute, 15);
    let upload = Html::parse_document(UPLOAD);
    let s = draft.complete(upload.root_element()).unwrap();
    assert_eq!(s.upload_querypath(), "ilias.php?cmd=uploadFile");
    assert_eq!(s.delete_querypath(), "ilias.php?cmd=deleteDelivered");
    assert_eq!(s.submissions.len(), 2);
}

#[test]
fn markup_without_forms() {
    let html = Html::parse_document("<p>nothing</p>");
    assert_eq!(
        AssignmentSubmission::parse_submissions_page(html.root_element()),
        Err(ExtractionError::StructuralMismatch(Field::DeleteForm))
    );
    let html = Html::parse_document(SUBMISSIONS);
    let draft = AssignmentSubmission::parse_submissions_page(html.root_element()).unwrap();
    let upload = Html::parse_document("<p>nothing</p>");
    assert_eq!(
        draft.complete(upload.root_element()),
        Err(ExtractionError::StructuralMismatch(Field::UploadForm))
    );
}
