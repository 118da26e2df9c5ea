use regelrecht_upload::credentials::verify_password;
use regelrecht_upload::handlers::admin::{
    assign_documents, cleanup_abandoned_drafts, cleanup_abandoned_drafts_start,
    export_submission_files, export_submission_files_start, export_submission_json,
    export_submission_json_start, forward_submission, forward_submission_start,
    get_dashboard_stats, get_dashboard_stats_start,
    get_submission_admin, get_submission_admin_start, housekeeping, list_submissions,
    group_documents, list_submissions_start, offset_of, page_of, per_page_of, total_pages_of,
    update_submission_status, update_submission_status_start, UpdateStatusRequest,
    CleanupStage, ForwardSubmissionRequest, ListSubmissionsQuery, HOUSEKEEPING_INTERVAL_SECONDS,
};
use regelrecht_upload::handlers::auth::{
    create_admin_user, create_admin_user_start, seed_admin_user, seed_admin_user_start,
    CreateAdminError, Seeding,
};
use regelrecht_upload::handlers::calendar::{
    create_slots, create_slots_start, get_available_slots, get_available_slots_start,
    list_slots_admin, list_slots_admin_start, AvailableSlotsQuery,
};
use regelrecht_upload::handlers::middleware::security_headers;
use regelrecht_upload::handlers::submissions::{
    add_formal_law, add_formal_law_start, create_submission, create_submission_start, get_faq, get_submission, get_submission_start,
    submit_submission, submit_submission_start, upload_document, UploadDocumentQuery, UploadStage,
};
use regelrecht_upload::models::{
    AdminUser, ApiResponse, CalendarSlot, CalendarSlotResponse, CreateCalendarSlot,
    CreateFormalLaw, CreateSubmission, Document, DocumentCategory, DocumentClassification, DocumentResponse,
    Submission, SubmissionStatus,
};
use regelrecht_upload::protocol::{
    Answer, AppState, Caller, Fetched, Inquiry, IoFailure, ListFilter, Outcome, Payload, Query,
    Step, StoredFile,
};
use std::io::{Cursor, Read};

const DAY: i64 = 86_400_000_000;

fn state() -> AppState {
    AppState {
        upload_dir: "/app/uploads".to_string(),
        max_upload_size: 1000,
        is_production: true,
        trusted_proxies: vec!["10.".to_string()],
    }
}

fn nobody() -> Caller {
    Caller { peer: None, forwarded_for: None, real_ip: None, user_agent: None, cookie: None }
}

fn submission(id: u128, slug: &str) -> Submission {
    Submission {
        id,
        slug: slug.to_string(),
        submitter_name: "Jan".to_string(),
        submitter_email: None,
        organization: "Org".to_string(),
        organization_department: None,
        status: SubmissionStatus::Submitted,
        notes: None,
        created_at: 1,
        updated_at: 2,
        submitted_at: Some(2),
        retention_expiry_date: 3,
    }
}

fn file(id: u128, submission_id: u128, name: &str, path: Option<&str>) -> Document {
    Document {
        id,
        submission_id,
        category: DocumentCategory::Circular,
        classification: DocumentClassification::Public,
        external_url: None,
        external_title: None,
        filename: Some(format!("stored_{}", name)),
        original_filename: Some(name.to_string()),
        file_path: path.map(|p| p.to_string()),
        file_size: Some(3),
        mime_type: Some("text/plain".to_string()),
        description: None,
        created_at: 5,
    }
}

fn finished<S: std::fmt::Debug>(step: Step<S>) -> Outcome {
    match step {
        Step::Finish(outcome) => outcome,
        other => panic!("{:?}", other),
    }
}

fn asked<S: std::fmt::Debug>(step: Step<S>) -> (Query, S) {
    match step {
        Step::Ask { query, next } => (query, next),
        other => panic!("{:?}", other),
    }
}

fn failure(outcome: &Outcome) -> (u16, String) {
    assert!(!outcome.body.success);
    assert!(outcome.body.data.is_none());
    assert!(outcome.effects.is_empty());
    (outcome.status, outcome.body.error.clone().unwrap())
}

#[test]
fn envelopes_hold_data_or_an_error() {
    let ok = ApiResponse::success(5);
    assert!(ok.success);
    assert_eq!(ok.data, Some(5));
    assert_eq!(ok.error, None);
    let bad: ApiResponse<u8> = ApiResponse::error("nope");
    assert!(!bad.success);
    assert_eq!(bad.data, None);
    assert_eq!(bad.error, Some("nope".to_string()));
}

#[test]
fn shown_records_leave_out_what_stays_inside() {
    let stored = file(1, 2, "a.txt", Some("/app/uploads/x/1_a.txt"));
    let shown = DocumentResponse::from(stored.clone());
    assert_eq!(shown.id, 1);
    assert_eq!(shown.filename, Some("a.txt".to_string()));
    assert_eq!(shown.file_size, Some(3));
    assert_eq!(shown.mime_type, stored.mime_type);
    assert_eq!(shown.created_at, 5);
    let slot = CalendarSlot {
        id: 9,
        slot_start: 1,
        slot_end: 2,
        is_available: false,
        booked_by_submission: Some(4),
        created_by: Some(7),
        notes: Some("n".to_string()),
        created_at: 0,
    };
    let shown = CalendarSlotResponse::from(slot);
    assert_eq!((shown.id, shown.slot_start, shown.slot_end), (9, 1, 2));
    assert_eq!(shown.booked_by_submission, Some(4));
    assert_eq!(shown.notes, Some("n".to_string()));
}

#[test]
fn pages_are_clamped() {
    assert_eq!(page_of(None), 1);
    assert_eq!(page_of(Some(0)), 1);
    assert_eq!(page_of(Some(-3)), 1);
    assert_eq!(page_of(Some(7)), 7);
    assert_eq!(per_page_of(None), 20);
    assert_eq!(per_page_of(Some(0)), 1);
    assert_eq!(per_page_of(Some(100)), 100);
    assert_eq!(per_page_of(Some(101)), 100);
    assert_eq!(per_page_of(Some(35)), 35);
    assert_eq!(offset_of(1, 20), 0);
    assert_eq!(offset_of(3, 20), 40);
    assert_eq!(offset_of(i64::MAX, 100), i64::MAX);
}

#[test]
fn the_number_of_pages_rounds_up() {
    assert_eq!(total_pages_of(0, 20), 0);
    assert_eq!(total_pages_of(1, 20), 1);
    assert_eq!(total_pages_of(20, 20), 1);
    assert_eq!(total_pages_of(21, 20), 2);
    assert_eq!(total_pages_of(41, 20), 3);
    assert_eq!(total_pages_of(100, 1), 100);
    assert_eq!(total_pages_of(i64::MAX, 100), 92_233_720_368_547_759);
    assert_eq!(total_pages_of(-1, 20), 0);
    assert_eq!(total_pages_of(-20, 20), -1);
    assert_eq!(total_pages_of(-21, 20), -1);
    assert_eq!(total_pages_of(i64::MIN, 1), i64::MIN);
    for total in -50i64..=50 {
        for per in 1i64..=7 {
            let expected = (total as f64 / per as f64).ceil() as i64;
            assert_eq!(total_pages_of(total, per), expected, "{} / {}", total, per);
        }
    }
}

#[test]
fn documents_go_to_their_dossiers_in_order() {
    let documents = vec![file(1, 10, "a", None), file(2, 20, "b", None), file(3, 10, "c", None)];
    let groups = group_documents(documents.clone());
    assert_eq!(groups.len(), 2);
    assert_eq!(groups[&10].iter().map(|d| d.id).collect::<Vec<_>>(), vec![1, 3]);
    assert_eq!(groups[&20].iter().map(|d| d.id).collect::<Vec<_>>(), vec![2]);
    assert!(group_documents(Vec::new()).is_empty());
    let items = assign_documents(
        vec![submission(20, "b"), submission(30, "c"), submission(10, "a")],
        documents,
    );
    let shape: Vec<(u128, Vec<u128>)> =
        items.iter().map(|i| (i.id, i.documents.iter().map(|d| d.id).collect())).collect();
    assert_eq!(shape, vec![(20, vec![2]), (30, vec![]), (10, vec![1, 3])]);
    // A dossier that is listed twice has its documents the first time only.
    let items = assign_documents(
        vec![submission(10, "a"), submission(10, "a")],
        vec![file(1, 10, "a", None), file(2, 10, "b", None)],
    );
    let shape: Vec<(u128, Vec<u128>)> =
        items.iter().map(|i| (i.id, i.documents.iter().map(|d| d.id).collect())).collect();
    assert_eq!(shape, vec![(10, vec![1, 2]), (10, vec![])]);
}

#[test]
fn a_change_of_status_is_audited_with_the_status_before() {
    let request = UpdateStatusRequest { status: SubmissionStatus::Approved, notes: Some("ok".to_string()) };
    let (query, stage) = asked(update_submission_status_start(7, 42, request));
    assert!(matches!(query, Query::SubmissionById { id: 42 }));
    let mut found = submission(42, "abc");
    found.status = SubmissionStatus::Rejected;
    let (query, stage) = asked(update_submission_status(stage, Answer::Submission(Fetched::Found(found))));
    match query {
        Query::SetStatus { id, status, notes } => {
            assert_eq!((id, status, notes), (42, SubmissionStatus::Approved, Some("ok".to_string())));
        }
        other => panic!("{:?}", other),
    }
    let mut changed = submission(42, "abc");
    changed.status = SubmissionStatus::Approved;
    let outcome = finished(update_submission_status(stage, Answer::Submission(Fetched::Found(changed))));
    assert_eq!(outcome.status, 200);
    match &outcome.effects[..] {
        [Query::Audit { entry }] => {
            assert_eq!(entry.action, "submission_status_changed");
            match &entry.details {
                Some(regelrecht_upload::protocol::AuditDetails::StatusChanged {
                    old_status,
                    new_status,
                    notes,
                }) => {
                    assert_eq!(*old_status, SubmissionStatus::Rejected);
                    assert_eq!(*new_status, SubmissionStatus::Approved);
                    assert_eq!(notes, &Some("ok".to_string()));
                }
                other => panic!("{:?}", other),
            }
        }
        other => panic!("{:?}", other),
    }
    // A dossier that is not there is not found, and nothing is set.
    let request = UpdateStatusRequest { status: SubmissionStatus::Approved, notes: None };
    let (_, stage) = asked(update_submission_status_start(7, 42, request));
    let outcome = finished(update_submission_status(stage, Answer::Submission(Fetched::Missing)));
    assert_eq!(failure(&outcome), (404, "Submission not found".to_string()));
}

#[test]
fn listing_asks_for_page_count_and_documents() {
    let query = ListSubmissionsQuery {
        page: Some(2),
        per_page: Some(500),
        status: None,
        search: Some("gemeente".to_string()),
    };
    let (first, stage) = asked(list_submissions_start(&query));
    match first {
        Query::ListSubmissions { filter: ListFilter::Search(pattern), limit, offset } => {
            assert_eq!(pattern, "%gemeente%");
            assert_eq!((limit, offset), (100, 100));
        }
        other => panic!("{:?}", other),
    }
    let rows = vec![submission(1, "a"), submission(2, "b")];
    let (second, stage) = asked(list_submissions(stage, Answer::Submissions(Some(rows))));
    assert!(matches!(second, Query::CountSubmissions { filter: ListFilter::Search(p) } if p == "%gemeente%"));
    let (third, stage) = asked(list_submissions(stage, Answer::Count(Some(205))));
    assert!(matches!(third, Query::DocumentsOfAll { submission_ids } if submission_ids == vec![1, 2]));
    let outcome = finished(list_submissions(stage, Answer::Documents(Some(vec![file(9, 2, "x", None)]))));
    assert_eq!(outcome.status, 200);
    match outcome.body.data.unwrap() {
        Payload::Page(page) => {
            assert_eq!((page.total, page.page, page.per_page, page.total_pages), (205, 2, 100, 3));
            assert_eq!(page.items.len(), 2);
            assert!(page.items[0].documents.is_empty());
            assert_eq!(page.items[1].documents.len(), 1);
        }
        other => panic!("{:?}", other),
    }
}

#[test]
fn the_status_filter_wins_over_the_search() {
    let query = ListSubmissionsQuery {
        page: None,
        per_page: None,
        status: Some(SubmissionStatus::Approved),
        search: Some("x".to_string()),
    };
    let (first, stage) = asked(list_submissions_start(&query));
    assert!(matches!(
        first,
        Query::ListSubmissions { filter: ListFilter::Status(SubmissionStatus::Approved), limit: 20, offset: 0 }
    ));
    // A page that could not be had is an empty page, and no documents are asked for.
    let (_, stage) = asked(list_submissions(stage, Answer::Submissions(None)));
    let outcome = finished(list_submissions(stage, Answer::Count(None)));
    match outcome.body.data.unwrap() {
        Payload::Page(page) => {
            assert_eq!((page.total, page.page, page.per_page, page.total_pages), (0, 1, 20, 0));
            assert!(page.items.is_empty());
        }
        other => panic!("{:?}", other),
    }
    let all = ListSubmissionsQuery { page: None, per_page: None, status: None, search: None };
    let (first, _) = asked(list_submissions_start(&all));
    assert!(matches!(first, Query::ListSubmissions { filter: ListFilter::All, .. }));
}

#[test]
fn lookups_that_fail_are_server_errors() {
    let (_, stage) = asked(get_submission_start("abc"));
    assert_eq!(
        failure(&finished(get_submission(stage, Answer::Submission(Fetched::Failed)))),
        (500, "Database error".to_string())
    );
    let (_, stage) = asked(get_submission_start("abc"));
    // An answer of another shape counts as a failed lookup.
    assert_eq!(
        failure(&finished(get_submission(stage, Answer::Done(true)))),
        (500, "Database error".to_string())
    );
    let (_, stage) = asked(submit_submission_start("abc"));
    assert_eq!(
        failure(&finished(submit_submission(stage, Answer::Submission(Fetched::Failed)))),
        (500, "Failed to submit".to_string())
    );
    let (query, stage) = asked(get_submission_admin_start(5));
    assert!(matches!(query, Query::SubmissionById { id: 5 }));
    assert_eq!(
        failure(&finished(get_submission_admin(stage, Answer::Submission(Fetched::Missing)))),
        (404, "Submission not found".to_string())
    );
}

#[test]
fn the_database_slug_is_used_where_there_is_one() {
    let input = CreateSubmission {
        submitter_name: "Jan".to_string(),
        submitter_email: None,
        organization: "Org".to_string(),
        organization_department: None,
    };
    let (count, stage) = asked(create_submission_start(&state(), &nobody(), input));
    assert!(matches!(count, Query::CountAttempts { ip, endpoint } if ip == "unknown" && endpoint == "create_submission"));
    let (_, stage) = asked(create_submission(stage, Answer::Count(None), 0));
    let (slug, stage) = asked(create_submission(stage, Answer::Done(false), 0));
    assert!(matches!(slug, Query::GenerateSlug));
    let (insert, stage) = asked(create_submission(stage, Answer::Text(Some("rr-1".to_string())), 0));
    assert!(matches!(insert, Query::InsertSubmission { slug, .. } if slug == "rr-1"));
    assert_eq!(
        failure(&finished(create_submission(stage, Answer::Submission(Fetched::Failed), 0))),
        (500, "Failed to create submission".to_string())
    );
}

#[test]
fn failures_on_disk_are_told_with_their_kind() {
    let query = UploadDocumentQuery {
        category: DocumentCategory::Circular,
        classification: DocumentClassification::Public,
        description: None,
    };
    let failure_of = |stage: UploadStage, answer: Answer| {
        failure(&finished(upload_document(&state(), &nobody(), "abc", &query, stage, answer)))
    };
    let denied = || {
        Answer::Io(Err(IoFailure { message: "Permission denied".to_string(), kind: "PermissionDenied".to_string() }))
    };
    let stored = || StoredFile {
        id: 1,
        submission_id: 2,
        category: DocumentCategory::Circular,
        classification: DocumentClassification::Public,
        filename: "1_a.pdf".to_string(),
        original_filename: "a.pdf".to_string(),
        file_path: "/app/uploads/abc/1_a.pdf".to_string(),
        file_size: 1,
        mime_type: "application/pdf".to_string(),
        description: None,
    };
    assert_eq!(
        failure_of(UploadStage::Write { file: stored() }, denied()),
        (500, "Failed to write file: Permission denied (PermissionDenied)".to_string())
    );
    assert_eq!(
        failure_of(UploadStage::Field { submission_id: 1 }, Answer::Field(Err("length limit".to_string()))),
        (400, "File too large. Maximum upload size is 50MB. (length limit)".to_string())
    );
    assert_eq!(
        failure_of(
            UploadStage::Bytes { submission_id: 1, original_filename: "a.pdf".to_string(), content_type: "application/pdf".to_string() },
            Answer::Size(Err("connection closed".to_string()))
        ),
        (400, "Connection interrupted during upload. Please try again. (connection closed)".to_string())
    );
    assert_eq!(
        failure_of(
            UploadStage::Bytes { submission_id: 1, original_filename: "a.pdf".to_string(), content_type: "application/pdf".to_string() },
            Answer::Size(Ok(1001))
        ),
        (400, "File too large (max 0 MB)".to_string())
    );
    // Even a state that names a restricted document hands over no record.
    let mut restricted = stored();
    restricted.classification = DocumentClassification::Restricted;
    let step = upload_document(&state(), &nobody(), "abc", &query, UploadStage::Write { file: restricted }, Answer::Io(Ok(())));
    let outcome = finished(step);
    assert_eq!(outcome.status, 400);
    assert!(outcome.body.error.unwrap().starts_with("Restricted documents cannot be uploaded."));
    // And the file that was written does not stay.
    assert!(matches!(&outcome.effects[..], [Query::RemoveFile { path }] if path == "/app/uploads/abc/1_a.pdf"));
    // A restricted document or a formal law is refused before anything is written.
    let pending = || regelrecht_upload::handlers::submissions::PendingFile {
        id: 1,
        submission_id: 2,
        original_filename: "a.pdf".to_string(),
        content_type: "application/pdf".to_string(),
        size: 1,
        storage_filename: "1_a.pdf".to_string(),
    };
    let directory = || UploadStage::Directory {
        file: pending(),
        directory: "/app/uploads/abc".to_string(),
    };
    let secret = UploadDocumentQuery {
        category: DocumentCategory::Circular,
        classification: DocumentClassification::Restricted,
        description: None,
    };
    let step = upload_document(&state(), &nobody(), "abc", &secret, directory(), Answer::Io(Ok(())));
    let outcome = finished(step);
    assert_eq!(outcome.status, 400);
    assert!(failure(&outcome).1.starts_with("Restricted documents cannot be uploaded."));
    let law = UploadDocumentQuery {
        category: DocumentCategory::FormalLaw,
        classification: DocumentClassification::Public,
        description: None,
    };
    let step = upload_document(&state(), &nobody(), "abc", &law, directory(), Answer::Io(Ok(())));
    assert!(failure(&finished(step)).1.starts_with("Formal laws should be added as links"));
    let (asked_for, _) = asked(upload_document(&state(), &nobody(), "abc", &query, directory(), Answer::Io(Ok(()))));
    assert!(matches!(asked_for, Query::WriteUpload { path } if path == "/app/uploads/abc/1_a.pdf"));
    // A record that cannot be stored takes its file with it.
    let step = upload_document(
        &state(),
        &nobody(),
        "abc",
        &query,
        UploadStage::Insert { path: "/app/uploads/abc/1_a.pdf".to_string() },
        Answer::Document(Fetched::Failed),
    );
    let outcome = finished(step);
    assert_eq!(outcome.status, 500);
    assert_eq!(outcome.body.error, Some("Failed to store document. Please try again.".to_string()));
    assert!(matches!(&outcome.effects[..], [Query::RemoveFile { path }] if path == "/app/uploads/abc/1_a.pdf"));
}

#[test]
fn a_file_without_name_and_type_gets_the_defaults() {
    let query = UploadDocumentQuery {
        category: DocumentCategory::Circular,
        classification: DocumentClassification::Public,
        description: None,
    };
    let part = regelrecht_upload::protocol::UploadField { file_name: None, content_type: None };
    let step = upload_document(
        &state(),
        &nobody(),
        "abc",
        &query,
        UploadStage::Field { submission_id: 1 },
        Answer::Field(Ok(Some(part))),
    );
    match asked(step) {
        (Query::ReadUploadBytes, UploadStage::Bytes { original_filename, content_type, .. }) => {
            assert_eq!(original_filename, "unknown");
            assert_eq!(content_type, "application/octet-stream");
        }
        other => panic!("{:?}", other),
    }
}

#[test]
fn slots_are_listed_for_their_periods() {
    let none = AvailableSlotsQuery { from: None, to: None };
    let (query, stage) = asked(get_available_slots_start(&none, 1000));
    assert!(matches!(query, Query::AvailableSlots { from: 1000, to } if to == 1000 + 30 * DAY));
    let slot = CalendarSlot {
        id: 1,
        slot_start: 2000,
        slot_end: 3000,
        is_available: true,
        booked_by_submission: None,
        created_by: None,
        notes: None,
        created_at: 0,
    };
    let outcome = finished(get_available_slots(stage, Answer::Slots(Some(vec![slot]))));
    assert!(matches!(outcome.body.data, Some(Payload::Slots(ref slots)) if slots.len() == 1 && slots[0].id == 1));
    let (query, stage) = asked(list_slots_admin_start(&none, 1000));
    assert!(matches!(query, Query::SlotsBetween { from, to } if from == 1000 - 7 * DAY && to == 1000 + 60 * DAY));
    let outcome = finished(list_slots_admin(stage, Answer::Slots(None)));
    assert!(matches!(outcome.body.data, Some(Payload::Slots(ref slots)) if slots.is_empty()));
}

fn made(id: u128, input: &Query) -> Answer {
    match input {
        Query::InsertSlot { slot_start, slot_end, created_by, notes } => Answer::Slot(Fetched::Found(CalendarSlot {
            id,
            slot_start: *slot_start,
            slot_end: *slot_end,
            is_available: true,
            booked_by_submission: None,
            created_by: Some(*created_by),
            notes: notes.clone(),
            created_at: 0,
        })),
        other => panic!("{:?}", other),
    }
}

#[test]
fn slots_are_offered_one_after_the_other() {
    let inputs = vec![
        CreateCalendarSlot { slot_start: 1, slot_end: 2, notes: Some("a".to_string()) },
        CreateCalendarSlot { slot_start: 5, slot_end: 9, notes: None },
    ];
    let (first, stage) = asked(create_slots_start(77, inputs));
    assert!(matches!(&first, Query::InsertSlot { slot_start: 1, slot_end: 2, created_by: 77, notes: Some(n) } if n == "a"));
    let (second, stage) = asked(create_slots(stage, made(10, &first)));
    assert!(matches!(&second, Query::InsertSlot { slot_start: 5, slot_end: 9, created_by: 77, notes: None }));
    let outcome = finished(create_slots(stage, made(11, &second)));
    assert_eq!(outcome.status, 201);
    assert!(matches!(outcome.body.data, Some(Payload::Slots(ref slots)) if slots.iter().map(|s| s.id).collect::<Vec<_>>() == vec![10, 11]));
    let outcome = finished(create_slots_start(77, Vec::new()));
    assert_eq!(outcome.status, 201);
}

#[test]
fn a_slot_that_ends_before_it_begins_ends_the_request() {
    let inputs = vec![
        CreateCalendarSlot { slot_start: 1, slot_end: 2, notes: None },
        CreateCalendarSlot { slot_start: 9, slot_end: 9, notes: None },
        CreateCalendarSlot { slot_start: 10, slot_end: 11, notes: None },
    ];
    let (first, stage) = asked(create_slots_start(77, inputs));
    let refused = finished(create_slots(stage, made(10, &first)));
    assert_eq!(failure(&refused), (400, "End time must be after start time".to_string()));
    let inputs = vec![CreateCalendarSlot { slot_start: 1, slot_end: 2, notes: None }];
    let (_, stage) = asked(create_slots_start(77, inputs));
    let failed = finished(create_slots(stage, Answer::Slot(Fetched::Failed)));
    assert_eq!(failure(&failed), (500, "Failed to create slot".to_string()));
}

#[test]
fn the_dashboard_shows_three_numbers() {
    let (first, stage) = asked(get_dashboard_stats_start());
    assert!(matches!(first, Query::CountByStatus));
    let counts = vec![("draft".to_string(), 3), ("submitted".to_string(), 1)];
    let (second, stage) = asked(get_dashboard_stats(stage, Answer::Counts(Some(counts.clone()))));
    assert!(matches!(second, Query::CountDocuments));
    let (third, stage) = asked(get_dashboard_stats(stage, Answer::Count(Some(12))));
    assert!(matches!(third, Query::CountOpenSlots));
    let outcome = finished(get_dashboard_stats(stage, Answer::Count(None)));
    match outcome.body.data.unwrap() {
        Payload::Stats(stats) => {
            assert_eq!(stats.submissions_by_status, counts);
            assert_eq!(stats.total_documents, 12);
            assert_eq!(stats.available_meeting_slots, 0);
        }
        other => panic!("{:?}", other),
    }
}

#[test]
fn a_dossier_is_exported_as_a_download() {
    let (first, stage) = asked(export_submission_json_start("beheer".to_string(), 5));
    assert!(matches!(first, Query::SubmissionById { id: 5 }));
    let (second, stage) =
        asked(export_submission_json(stage, Answer::Submission(Fetched::Found(submission(5, "rr-x"))), 99));
    assert!(matches!(second, Query::DocumentsOf { submission_id: 5 }));
    let outcome = finished(export_submission_json(stage, Answer::Documents(Some(vec![file(1, 5, "a.txt", None)])), 99));
    assert_eq!(outcome.status, 200);
    assert_eq!(outcome.attachment, Some("submission_rr-x.json".to_string()));
    match outcome.body.data.unwrap() {
        Payload::Export(export) => {
            assert_eq!(export.exported_at, 99);
            assert_eq!(export.exported_by, "beheer");
            assert_eq!(export.submission.slug, "rr-x");
            assert_eq!(export.submission.documents.len(), 1);
        }
        other => panic!("{:?}", other),
    }
    let (_, stage) = asked(export_submission_json_start("beheer".to_string(), 5));
    assert_eq!(
        failure(&finished(export_submission_json(stage, Answer::Submission(Fetched::Missing), 0))),
        (404, "Submission not found".to_string())
    );
}

#[test]
fn the_files_of_a_dossier_are_exported_as_an_archive() {
    let (_, stage) = asked(export_submission_files_start("beheer".to_string(), 5));
    let (_, stage) =
        asked(export_submission_files(stage, Answer::Submission(Fetched::Found(submission(5, "rr-x"))), 99));
    let mut link = file(3, 5, "ignored", None);
    link.original_filename = None;
    let mut stored_only = file(4, 5, "gone", Some("/up/4"));
    stored_only.original_filename = None;
    let documents = vec![file(1, 5, "a.txt", Some("/up/1")), file(2, 5, "b.txt", Some("/up/2")), link, stored_only];
    let (describe, stage) = asked(export_submission_files(stage, Answer::Documents(Some(documents)), 99));
    assert!(matches!(describe, Query::DescribeExport { export } if export.exported_by == "beheer" && export.exported_at == 99));
    let (read, stage) = asked(export_submission_files(stage, Answer::Text(Some("{}".to_string())), 99));
    assert!(matches!(read, Query::ReadFile { path } if path == "/up/1"));
    let (read, stage) = asked(export_submission_files(stage, Answer::Bytes(Some(b"one".to_vec())), 99));
    assert!(matches!(read, Query::ReadFile { path } if path == "/up/2"));
    // A file that cannot be read is left out.
    let (read, stage) = asked(export_submission_files(stage, Answer::Bytes(None), 99));
    assert!(matches!(read, Query::ReadFile { path } if path == "/up/4"));
    let outcome = finished(export_submission_files(stage, Answer::Bytes(Some(b"four".to_vec())), 99));
    assert_eq!(outcome.attachment, Some("submission_rr-x_files.zip".to_string()));
    match outcome.body.data.unwrap() {
        Payload::Archive { bytes, complete } => {
            assert!(complete);
            let mut archive = zip::ZipArchive::new(Cursor::new(bytes)).unwrap();
            let mut found = Vec::new();
            for i in 0..archive.len() {
                let mut entry = archive.by_index(i).unwrap();
                let mut data = String::new();
                entry.read_to_string(&mut data).unwrap();
                found.push((entry.name().to_string(), data));
            }
            assert_eq!(
                found,
                vec![
                    ("metadata.json".to_string(), "{}".to_string()),
                    ("files/a.txt".to_string(), "one".to_string()),
                    ("files/stored_gone".to_string(), "four".to_string()),
                ]
            );
        }
        other => panic!("{:?}", other),
    }
}

#[test]
fn abandoned_drafts_take_their_directories_with_them() {
    let step = cleanup_abandoned_drafts_start();
    assert!(matches!(step, Inquiry::Ask { query: Query::DeleteAbandonedDrafts, next: CleanupStage::Delete }));
    let drafts = vec![submission(1, "rr-a"), submission(2, "rr-b")];
    match cleanup_abandoned_drafts(&state(), CleanupStage::Delete, Answer::Submissions(Some(drafts))) {
        Inquiry::Known(cleanup) => {
            assert_eq!(cleanup.deleted, Some(2));
            let paths: Vec<String> = cleanup
                .effects
                .into_iter()
                .map(|q| match q {
                    Query::RemoveDirectory { path } => path,
                    other => panic!("{:?}", other),
                })
                .collect();
            assert_eq!(paths, vec!["/app/uploads/rr-a", "/app/uploads/rr-b"]);
        }
        other => panic!("{:?}", other),
    }
    match cleanup_abandoned_drafts(&state(), CleanupStage::Delete, Answer::Submissions(None)) {
        Inquiry::Known(cleanup) => {
            assert_eq!(cleanup.deleted, None);
            assert!(cleanup.effects.is_empty());
        }
        other => panic!("{:?}", other),
    }
    match cleanup_abandoned_drafts(&state(), CleanupStage::Delete, Answer::Submissions(Some(Vec::new()))) {
        Inquiry::Known(cleanup) => assert_eq!(cleanup.deleted, Some(0)),
        other => panic!("{:?}", other),
    }
    assert_eq!(HOUSEKEEPING_INTERVAL_SECONDS, 3600);
    assert!(matches!(
        &housekeeping()[..],
        [Query::DeleteOldAttempts, Query::DeleteExpiredAdminSessions, Query::DeleteAbandonedDrafts]
    ));
}

fn admin(id: u128, username: &str) -> AdminUser {
    AdminUser {
        id,
        username: username.to_string(),
        email: "a@b.nl".to_string(),
        password_hash: String::new(),
        display_name: None,
        is_active: true,
        created_at: 0,
        last_login_at: None,
    }
}

#[test]
fn accounts_are_stored_with_a_hash_that_accepts_the_password() {
    match create_admin_user_start("beheer", "b@example.com", "geheim", Some("Beheer")) {
        Inquiry::Ask { query: Query::InsertAdmin { username, email, password_hash, display_name }, next } => {
            assert_eq!(username, "beheer");
            assert_eq!(email, "b@example.com");
            assert_eq!(display_name, Some("Beheer".to_string()));
            assert_ne!(password_hash, "geheim");
            assert_eq!(verify_password("geheim", &password_hash), Ok(true));
            assert_eq!(verify_password("anders", &password_hash), Ok(false));
            match create_admin_user(next, Answer::Admin(Fetched::Failed)) {
                Inquiry::Known(result) => assert_eq!(result.map(|u| u.id), Err(CreateAdminError::Storing)),
                other => panic!("{:?}", other),
            }
        }
        other => panic!("{:?}", other),
    }
}

#[test]
fn seeding_needs_all_three_settings_and_a_free_name() {
    let set = |s: &str| Some(s.to_string());
    for (u, e, p) in [
        (None, set("e"), set("p")),
        (set("u"), None, set("p")),
        (set("u"), set("e"), None),
        (set(""), set("e"), set("p")),
        (set("u"), set(""), set("p")),
        (set("u"), set("e"), set("")),
    ] {
        assert!(matches!(seed_admin_user_start(u, e, p), Inquiry::Known(Seeding::Skipped)));
    }
    let begin = || match seed_admin_user_start(set("beheer"), set("b@example.com"), set("pw")) {
        Inquiry::Ask { query: Query::AdminByUsername { username }, next } => {
            assert_eq!(username, "beheer");
            next
        }
        other => panic!("{:?}", other),
    };
    assert!(matches!(
        seed_admin_user(begin(), Answer::Admin(Fetched::Found(admin(1, "beheer")))),
        Inquiry::Known(Seeding::Exists)
    ));
    match seed_admin_user(begin(), Answer::Admin(Fetched::Missing)) {
        Inquiry::Ask { query: Query::InsertAdmin { username, display_name, .. }, next } => {
            assert_eq!(username, "beheer");
            assert_eq!(display_name, Some("beheer".to_string()));
            assert!(matches!(
                seed_admin_user(next, Answer::Admin(Fetched::Found(admin(2, "beheer")))),
                Inquiry::Known(Seeding::Seeded(user)) if user.id == 2
            ));
        }
        other => panic!("{:?}", other),
    }
}

#[test]
fn every_answer_carries_the_security_headers() {
    let development = security_headers(false);
    assert_eq!(
        development,
        vec![
            ("X-Frame-Options", "DENY"),
            ("X-Content-Type-Options", "nosniff"),
            ("Referrer-Policy", "strict-origin-when-cross-origin"),
            (
                "Content-Security-Policy",
                "default-src 'self'; script-src 'self' 'unsafe-inline'; style-src 'self' 'unsafe-inline'; img-src 'self' data:; font-src 'self'; form-action 'self'; base-uri 'self'; frame-ancestors 'none'"
            ),
        ]
    );
    let production = security_headers(true);
    assert_eq!(production.len(), 5);
    assert_eq!(production[..4], development[..]);
    assert_eq!(production[4], ("strict-transport-security", "max-age=63072000; includeSubDomains"));
}

#[test]
fn the_frequently_asked_questions_are_six() {
    let outcome = get_faq();
    assert_eq!(outcome.status, 200);
    match outcome.body.data.unwrap() {
        Payload::Faq(items) => {
            assert_eq!(items.len(), 6);
            assert_eq!(items[0].question, "Levert RegelRecht kant en klare regelsets?");
            assert!(items[4].answer.contains("geüpload"));
            assert!(items[5].answer.starts_with("Uw gegevens worden bewaard tot 12 maanden"));
        }
        other => panic!("{:?}", other),
    }
}

fn to_team(notes: Option<&str>) -> ForwardSubmissionRequest {
    ForwardSubmissionRequest { forward_to: "team".to_string(), notes: notes.map(|n| n.to_string()) }
}

#[test]
fn forwarding_looks_before_it_changes() {
    let (query, stage) = asked(forward_submission_start(7, 42, to_team(Some("see notes"))));
    assert!(matches!(query, Query::SubmissionById { id: 42 }));
    let found = Answer::Submission(Fetched::Found(submission(42, "abc")));
    let (query, stage) = asked(forward_submission(stage, found));
    match query {
        Query::ForwardSubmission { id, notes } => {
            assert_eq!(id, 42);
            assert_eq!(notes, Some("see notes".to_string()));
        }
        other => panic!("{:?}", other),
    }
    let mut changed = submission(42, "abc");
    changed.status = SubmissionStatus::Forwarded;
    let outcome = finished(forward_submission(stage, Answer::Submission(Fetched::Found(changed))));
    assert_eq!(outcome.status, 200);
    match &outcome.effects[..] {
        [Query::Audit { entry }] => match &entry.details {
            Some(regelrecht_upload::protocol::AuditDetails::Forwarded {
                old_status,
                forward_to,
                notes,
            }) => {
                assert_eq!(*old_status, SubmissionStatus::Submitted);
                assert_eq!(forward_to, "team");
                assert_eq!(notes, &Some("see notes".to_string()));
            }
            other => panic!("{:?}", other),
        },
        other => panic!("{:?}", other),
    }
}

#[test]
fn forwarding_tells_a_missing_dossier_from_one_in_the_wrong_status() {
    let (_, stage) = asked(forward_submission_start(7, 42, to_team(None)));
    let outcome = finished(forward_submission(stage, Answer::Submission(Fetched::Missing)));
    assert_eq!(failure(&outcome), (404, "Submission not found".to_string()));

    let refused = [
        SubmissionStatus::Draft,
        SubmissionStatus::Rejected,
        SubmissionStatus::Forwarded,
        SubmissionStatus::Completed,
    ];
    for status in refused {
        let (_, stage) = asked(forward_submission_start(7, 42, to_team(None)));
        let mut row = submission(42, "abc");
        row.status = status;
        let outcome = finished(forward_submission(stage, Answer::Submission(Fetched::Found(row))));
        assert_eq!(
            failure(&outcome),
            (400, "Submission is not in a forwardable status".to_string())
        );
    }
    for status in
        [SubmissionStatus::Submitted, SubmissionStatus::UnderReview, SubmissionStatus::Approved]
    {
        let (_, stage) = asked(forward_submission_start(7, 42, to_team(None)));
        let mut row = submission(42, "abc");
        row.status = status;
        let (query, _) = asked(forward_submission(stage, Answer::Submission(Fetched::Found(row))));
        assert!(matches!(query, Query::ForwardSubmission { id: 42, notes: None }));
    }

    let (_, stage) = asked(forward_submission_start(7, 42, to_team(None)));
    let outcome = finished(forward_submission(stage, Answer::Submission(Fetched::Failed)));
    assert_eq!(failure(&outcome), (500, "Failed to forward submission".to_string()));

    // The dossier left the statuses between the look and the change.
    let (_, stage) = asked(forward_submission_start(7, 42, to_team(None)));
    let found = Answer::Submission(Fetched::Found(submission(42, "abc")));
    let (_, stage) = asked(forward_submission(stage, found));
    let outcome = finished(forward_submission(stage, Answer::Submission(Fetched::Missing)));
    assert_eq!(failure(&outcome), (400, "Submission is not in a forwardable status".to_string()));
}

#[test]
fn a_link_is_handed_over_as_a_public_formal_law() {
    let input = CreateFormalLaw {
        external_url: "https://wetten.overheid.nl/BWBR0005537".to_string(),
        external_title: Some("Awb".to_string()),
        description: None,
    };
    let (_, stage) = asked(add_formal_law_start("abc", input));
    let mut draft = submission(42, "abc");
    draft.status = SubmissionStatus::Draft;
    let found = Answer::Submission(Fetched::Found(draft));
    let (query, _) = asked(add_formal_law(&nobody(), stage, found));
    match query {
        Query::InsertLink {
            submission_id,
            category,
            classification,
            external_url,
            external_title,
            description,
        } => {
            assert_eq!(submission_id, 42);
            assert_eq!(category, DocumentCategory::FormalLaw);
            assert_eq!(classification, DocumentClassification::Public);
            assert_eq!(external_url, "https://wetten.overheid.nl/BWBR0005537");
            assert_eq!(external_title, Some("Awb".to_string()));
            assert_eq!(description, None);
        }
        other => panic!("{:?}", other),
    }
}
