use roster_ingest::pipeline::{step, Action, Event, Phase};
use roster_ingest::request::{read_identifier, read_return, read_switch, ReturnRequest};
use roster_ingest::upload::{
    download_path, is_workbook_media_type, join_path, response_status, upload_name,
    RequestOutcome,
};

const FAIL_KEPT: Action = Action::Finish { succeeded: false, settle: true };
const DONE: Action = Action::Finish { succeeded: true, settle: true };

#[test]
fn a_request_runs_from_upload_to_the_last_row() {
    let mut phase = Phase::Idle;
    let mut actions = Vec::new();
    for event in [
        Event::Uploaded { is_workbook: true },
        Event::Stored,
        Event::Parsed { rows: 3 },
        Event::RowCommitted,
        Event::RowCommitted,
        Event::RowCommitted,
    ] {
        assert!(!phase.is_terminal());
        let (next, action) = step(phase, event);
        phase = next;
        actions.push(action);
    }
    assert_eq!(phase, Phase::Succeeded);
    assert!(phase.is_terminal());
    assert_eq!(
        actions,
        vec![
            Action::Store,
            Action::Parse,
            Action::ProcessRow(0),
            Action::ProcessRow(1),
            Action::ProcessRow(2),
            DONE,
        ]
    );
}

#[test]
fn a_sheet_without_rows_succeeds_at_once() {
    assert_eq!(step(Phase::Parsing, Event::Parsed { rows: 0 }), (Phase::Succeeded, DONE));
    assert_eq!(
        step(Phase::Parsing, Event::Parsed { rows: 1 }),
        (Phase::RowLoop { next: 0, total: 1 }, Action::ProcessRow(0))
    );
}

#[test]
fn another_media_type_is_rejected_before_anything_is_stored() {
    assert_eq!(
        step(Phase::Idle, Event::Uploaded { is_workbook: false }),
        (Phase::Failed, Action::Finish { succeeded: false, settle: false })
    );
    assert_eq!(
        step(Phase::Idle, Event::Stored),
        (Phase::Failed, Action::Finish { succeeded: false, settle: false })
    );
}

#[test]
fn every_failure_after_the_upload_settles_it() {
    assert_eq!(step(Phase::Receiving, Event::StoreFailed), (Phase::Failed, FAIL_KEPT));
    assert_eq!(step(Phase::Parsing, Event::Unreadable), (Phase::Failed, FAIL_KEPT));
    let row = Phase::RowLoop { next: 1, total: 3 };
    assert_eq!(step(row, Event::RowRejected), (Phase::Failed, FAIL_KEPT));
    assert_eq!(step(row, Event::Stored), (Phase::Failed, FAIL_KEPT));
    assert_eq!(step(Phase::Receiving, Event::RowCommitted), (Phase::Failed, FAIL_KEPT));
    assert_eq!(step(Phase::Parsing, Event::Stored), (Phase::Failed, FAIL_KEPT));
}

#[test]
fn a_request_that_is_over_stays_over() {
    for phase in [Phase::Failed, Phase::Succeeded] {
        for event in [
            Event::Uploaded { is_workbook: true },
            Event::Stored,
            Event::StoreFailed,
            Event::Parsed { rows: 2 },
            Event::Unreadable,
            Event::RowCommitted,
            Event::RowRejected,
        ] {
            assert_eq!(step(phase, event), (phase, Action::Nothing));
        }
    }
}

#[test]
fn the_row_loop_ends_with_the_last_row() {
    assert_eq!(
        step(Phase::RowLoop { next: 0, total: 2 }, Event::RowCommitted),
        (Phase::RowLoop { next: 1, total: 2 }, Action::ProcessRow(1))
    );
    assert_eq!(step(Phase::RowLoop { next: 1, total: 2 }, Event::RowCommitted), (Phase::Succeeded, DONE));
    assert_eq!(
        step(Phase::RowLoop { next: usize::MAX, total: usize::MAX }, Event::RowCommitted),
        (Phase::Succeeded, DONE)
    );
    assert_eq!(step(Phase::RowLoop { next: 5, total: 2 }, Event::RowCommitted), (Phase::Succeeded, DONE));
}

#[test]
fn only_the_workbook_media_type_is_accepted() {
    assert!(is_workbook_media_type(
        "application/vnd.openxmlformats-officedocument.spreadsheetml.sheet"
    ));
    assert!(!is_workbook_media_type("application/vnd.ms-excel"));
    assert!(!is_workbook_media_type("text/csv"));
    assert!(!is_workbook_media_type(""));
    assert!(!is_workbook_media_type(
        "application/vnd.openxmlformats-officedocument.spreadsheetml.sheet; charset=utf-8"
    ));
}

#[test]
fn an_upload_is_kept_under_its_time_and_name() {
    assert_eq!(upload_name(1769000000123, "roster.xlsx"), "1769000000123_roster.xlsx");
    assert_eq!(upload_name(0, ""), "0_");
    assert_eq!(upload_name(u128::MAX, "a b"), format!("{}_a b", u128::MAX));
}

#[test]
fn the_status_tells_success_from_the_two_kinds_of_failure() {
    assert_eq!(response_status(RequestOutcome::Imported), 200);
    assert_eq!(response_status(RequestOutcome::WrongMediaType), 400);
    assert_eq!(response_status(RequestOutcome::Unreadable), 400);
    assert_eq!(response_status(RequestOutcome::RowFailed), 400);
    assert_eq!(response_status(RequestOutcome::NotStored), 500);
}

#[test]
fn a_download_is_served_from_the_uploads_directory_only() {
    assert_eq!(download_path("/var/uploads", "1769_roster.xlsx"), "/var/uploads/1769_roster.xlsx");
    for name in ["../../etc/passwd", "..\\..\\secret", "a/b", "/etc/passwd", "what?", "a:b|c*d\"e<f>g", ""] {
        let path = download_path("/var/uploads", name);
        assert_eq!(path, format!("/var/uploads/{}", sanitize_filename::sanitize(name)));
        let served = path.strip_prefix("/var/uploads/").unwrap();
        assert!(!served.contains(['/', '\\', '?', '<', '>', ':', '*', '|', '"']), "{served:?}");
    }
    assert_eq!(download_path("/var/uploads", "../../etc/passwd"), "/var/uploads/....etcpasswd");
    assert_eq!(join_path("uploads", "a.xlsx"), "uploads/a.xlsx");
    assert_eq!(join_path("", ""), "/");
}

#[test]
fn the_number_of_an_item_must_be_there_and_be_a_number() {
    assert_eq!(read_identifier(Some("17")), Some(17));
    assert_eq!(read_identifier(Some("-3")), Some(-3));
    assert_eq!(read_identifier(Some("+3")), Some(3));
    assert_eq!(read_identifier(Some("2147483648")), None);
    assert_eq!(read_identifier(Some("")), None);
    assert_eq!(read_identifier(Some("seventeen")), None);
    assert_eq!(read_identifier(Some(" 17")), None);
    assert_eq!(read_identifier(None), None);
}

#[test]
fn an_item_stays_in_service_unless_the_request_says_otherwise() {
    assert_eq!(read_switch(None), Some(true));
    assert_eq!(read_switch(Some("true")), Some(true));
    assert_eq!(read_switch(Some("false")), Some(false));
    for other in ["", "True", "FALSE", "0", "1", "yes", "false "] {
        assert_eq!(read_switch(Some(other)), None);
        assert_eq!(read_switch(Some(other)), other.parse::<bool>().ok());
    }
    assert_eq!(read_return(Some("5"), None), Some(ReturnRequest { item: 5, in_service: true }));
    assert_eq!(
        read_return(Some("5"), Some("false")),
        Some(ReturnRequest { item: 5, in_service: false })
    );
    assert_eq!(read_return(Some("5"), Some("no")), None);
    assert_eq!(read_return(None, Some("true")), None);
    assert_eq!(read_return(Some("five"), None), None);
    assert_eq!(read_return(None, None), None);
}

#[test]
fn an_upload_is_served_under_the_name_it_is_kept_under() {
    for name in ["roster.xlsx", "Universal-Report_2026.xlsx", "a", ""] {
        let kept = upload_name(1769000000123, name);
        assert_eq!(download_path("/var/uploads", &kept), join_path("/var/uploads", &kept));
        assert_eq!(sanitize_filename::sanitize(&kept), kept);
    }
}
