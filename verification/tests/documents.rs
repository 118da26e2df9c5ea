use regelrecht_upload::documents::{
    accept_path, authorize_document_change, components_of, join_paths, needs_uploader_session,
    path_lies_under, sanitize_filename, storage_filename, submission_directory,
    upload_failure_message, upload_path, UploadPart,
};
use std::path::Path;
use regelrecht_upload::models::SubmissionStatus;

#[test]
fn sanitize_keeps_ordinary_names() {
    assert_eq!(sanitize_filename("report.pdf"), "report.pdf");
    assert_eq!(sanitize_filename("My-File_2.docx"), "My-File_2.docx");
}

#[test]
fn sanitize_strips_directories() {
    assert_eq!(sanitize_filename("/etc/passwd"), "passwd");
    assert_eq!(sanitize_filename("..\\..\\windows\\system.ini"), "system.ini");
    assert_eq!(sanitize_filename("a/b/c.txt"), "c.txt");
    assert_eq!(sanitize_filename("dir/"), "upload");
}

#[test]
fn sanitize_replaces_illegal_characters() {
    assert_eq!(sanitize_filename("my file (1).pdf"), "my_file__1_.pdf");
    assert_eq!(sanitize_filename("naïve.txt"), "na_ve.txt");
    assert_eq!(sanitize_filename("a:b*c?.txt"), "a_b_c_.txt");
}

#[test]
fn sanitize_strips_leading_dots_and_underscores_and_trailing_underscores() {
    assert_eq!(sanitize_filename(".hidden"), "hidden");
    assert_eq!(sanitize_filename("..pdf"), "pdf");
    assert_eq!(sanitize_filename("__name__"), "name");
    assert_eq!(sanitize_filename("._.x"), "x");
    assert_eq!(sanitize_filename(" file "), "file");
    assert_eq!(sanitize_filename("file."), "file.");
}

#[test]
fn sanitize_falls_back_to_upload() {
    assert_eq!(sanitize_filename(""), "upload");
    assert_eq!(sanitize_filename("..."), "upload");
    assert_eq!(sanitize_filename("___"), "upload");
    assert_eq!(sanitize_filename("???"), "upload");
    assert_eq!(sanitize_filename("../"), "upload");
}

#[test]
fn sanitized_names_are_always_safe() {
    for name in ["../../etc/passwd", ".htaccess", "a b", "\u{202e}fdp.exe", "x/../y", "", "._"] {
        let safe = sanitize_filename(name);
        assert!(!safe.is_empty());
        assert!(safe
            .chars()
            .all(|c| c.is_ascii_alphanumeric() || c == '-' || c == '_' || c == '.'));
        assert!(!safe.starts_with('.'));
        assert!(!safe.starts_with('_'));
        assert!(!safe.ends_with('_'));
        assert!(!safe.contains('/'));
    }
}

#[test]
fn storage_filename_is_identifier_underscore_name() {
    let id: u128 = 0xa1a2a3a4_b1b2_c1c2_d1d2_d3d4d5d6d7d8;
    assert_eq!(
        storage_filename(id, "dir/report.pdf"),
        "a1a2a3a4-b1b2-c1c2-d1d2-d3d4d5d6d7d8_report.pdf"
    );
    assert_eq!(
        storage_filename(0, ""),
        "00000000-0000-0000-0000-000000000000_upload"
    );
}

#[test]
fn upload_path_lies_in_the_dossier_directory() {
    let directory = submission_directory("/app/uploads", "rr-20240101-abc12");
    assert_eq!(directory, "/app/uploads/rr-20240101-abc12");
    assert_eq!(
        upload_path("/app/uploads", &directory, "id_report.pdf"),
        Some("/app/uploads/rr-20240101-abc12/id_report.pdf".to_string())
    );
}

#[test]
fn upload_path_outside_the_root_is_refused() {
    // An absolute child replaces the base, so the path leaves the root.
    assert_eq!(upload_path("/app/uploads", "/app/uploads/x", "/etc/passwd"), None);
    assert_eq!(upload_path("/app/uploads", "/somewhere/else", "file"), None);
}

#[test]
fn accept_path_follows_the_check() {
    assert_eq!(accept_path("p".to_string(), true), Some("p".to_string()));
    assert_eq!(accept_path("p".to_string(), false), None);
}

#[test]
fn drafts_are_open_to_whoever_has_the_slug() {
    assert!(!needs_uploader_session(SubmissionStatus::Draft));
    assert!(authorize_document_change(SubmissionStatus::Draft, 1, None));
    assert!(authorize_document_change(SubmissionStatus::Draft, 1, Some(2)));
}

#[test]
fn other_dossiers_need_a_session_bound_to_them() {
    for status in [
        SubmissionStatus::Submitted,
        SubmissionStatus::UnderReview,
        SubmissionStatus::Approved,
        SubmissionStatus::Rejected,
        SubmissionStatus::Forwarded,
        SubmissionStatus::Completed,
    ] {
        assert!(needs_uploader_session(status));
        assert!(!authorize_document_change(status, 1, None));
        assert!(!authorize_document_change(status, 1, Some(2)));
        assert!(authorize_document_change(status, 1, Some(1)));
    }
}

#[test]
fn upload_failures_are_summarized_by_what_they_mention() {
    assert_eq!(
        upload_failure_message(UploadPart::Field, "body length limit exceeded"),
        "File too large. Maximum upload size is 50MB. (body length limit exceeded)"
    );
    assert_eq!(
        upload_failure_message(UploadPart::Field, "bad content-type"),
        "Invalid upload format. Please use multipart/form-data. (bad content-type)"
    );
    assert_eq!(
        upload_failure_message(UploadPart::Field, "boom"),
        "Failed to process upload. Please try again. (boom)"
    );
    assert_eq!(
        upload_failure_message(UploadPart::Bytes, "length limit"),
        "File too large. Maximum upload size is 50MB. (length limit)"
    );
    assert_eq!(
        upload_failure_message(UploadPart::Bytes, "connection reset"),
        "Connection interrupted during upload. Please try again. (connection reset)"
    );
    assert_eq!(
        upload_failure_message(UploadPart::Bytes, "content-type"),
        "Failed to read uploaded file. Please try again. (content-type)"
    );
}

#[test]
fn joining_puts_one_slash_between_base_and_child() {
    assert_eq!(join_paths("/app/uploads", "x"), "/app/uploads/x");
    assert_eq!(join_paths("/app/uploads/", "x"), "/app/uploads/x");
    assert_eq!(join_paths("", "x"), "x");
    assert_eq!(join_paths("uploads", ""), "uploads/");
    assert_eq!(join_paths("/", "x"), "/x");
    assert_eq!(join_paths("a//", "b/c"), "a//b/c");
    // A child that begins at the root stands for itself.
    assert_eq!(join_paths("/app/uploads", "/etc/passwd"), "/etc/passwd");
    assert_eq!(submission_directory("./uploads", "rr-1"), "./uploads/rr-1");
}

#[test]
fn joining_agrees_with_the_paths_of_the_platform() {
    for base in ["/app/uploads", "/app/uploads/", "", "uploads", "/", "./up", "a//"] {
        for child in ["x", "rr-20240101-abc12", "a/b", "/etc/passwd", "..", "id_report.pdf"] {
            assert_eq!(
                Path::new(&join_paths(base, child)),
                Path::new(base).join(child).as_path(),
                "{:?} {:?}",
                base,
                child
            );
        }
    }
}

#[test]
fn the_steps_of_a_path_leave_out_empty_pieces_and_single_dots() {
    let steps = |s: &str| -> Vec<String> {
        let chars: Vec<char> = s.chars().collect();
        components_of(&chars).iter().map(|c| c.iter().collect()).collect()
    };
    assert_eq!(steps("/app//uploads/./x/"), vec!["app", "uploads", "x"]);
    assert_eq!(steps("a/../b"), vec!["a", "..", "b"]);
    assert_eq!(steps(""), Vec::<String>::new());
    assert_eq!(steps("/"), Vec::<String>::new());
    assert_eq!(steps("..."), vec!["..."]);
}

#[test]
fn a_path_lies_under_a_root_step_by_step() {
    assert!(path_lies_under("/app/uploads/x/f", "/app/uploads"));
    assert!(path_lies_under("/app/uploads/x/f", "/app/uploads/"));
    assert!(path_lies_under("/app//uploads/./x", "/app/uploads"));
    assert!(path_lies_under("/app/uploads", "/app/uploads"));
    assert!(path_lies_under("uploads/x", "uploads"));
    assert!(path_lies_under("x", ""));
    // A longer name is another directory.
    assert!(!path_lies_under("/app/uploads2/x", "/app/uploads"));
    assert!(!path_lies_under("/app", "/app/uploads"));
    assert!(!path_lies_under("/etc/passwd", "/app/uploads"));
    // A path from the root is not under a path from here, nor the other way round.
    assert!(!path_lies_under("/uploads/x", "uploads"));
    assert!(!path_lies_under("uploads/x", "/uploads"));
}

#[test]
fn a_path_that_leads_up_again_does_not_lie_under_the_root() {
    assert!(!path_lies_under("/app/uploads/../etc/passwd", "/app/uploads"));
    assert!(!path_lies_under("/app/uploads/x/..", "/app/uploads"));
    assert!(!path_lies_under("/app/uploads/x/../../y", "/app/uploads"));
    // Steps of the root itself are taken as they are.
    assert!(path_lies_under("../uploads/x", "../uploads"));
    assert!(path_lies_under("/app/uploads/..x/f", "/app/uploads"));
    assert_eq!(upload_path("/app/uploads", "/app/uploads/..", "f"), None);
    assert_eq!(upload_path("/app/uploads", "/app/uploads/x", ".."), None);
}

#[test]
fn lying_under_agrees_with_the_platform_where_no_step_leads_up() {
    for root in ["/app/uploads", "/app/uploads/", "uploads", "/", "/app"] {
        for path in [
            "/app/uploads/x/f",
            "/app/uploads",
            "/app/uploads2/x",
            "/app",
            "uploads/x",
            "/etc/passwd",
            "/app//uploads/./x",
            "uploads",
        ] {
            assert_eq!(
                path_lies_under(path, root),
                Path::new(path).starts_with(root),
                "{:?} {:?}",
                path,
                root
            );
        }
    }
}

#[test]
fn an_upload_goes_to_root_slug_and_stored_name() {
    let id: u128 = 0xa1a2a3a4_b1b2_c1c2_d1d2_d3d4d5d6d7d8;
    let name = storage_filename(id, "report.pdf");
    let directory = submission_directory("/app/uploads", "rr-20240101-abc12");
    assert_eq!(
        upload_path("/app/uploads", &directory, &name),
        Some(
            "/app/uploads/rr-20240101-abc12/a1a2a3a4-b1b2-c1c2-d1d2-d3d4d5d6d7d8_report.pdf"
                .to_string()
        )
    );
    assert_eq!(
        upload_path("uploads/", "uploads/abc", "n"),
        Some("uploads/abc/n".to_string())
    );
}

#[test]
fn every_upload_has_a_place_whatever_the_root() {
    let id: u128 = 0xa1a2a3a4_b1b2_c1c2_d1d2_d3d4d5d6d7d8;
    let roots = ["/app/uploads", "/app/uploads/", "", "uploads", "/", "./up", "a/../b", "/a//b/"];
    let slugs = ["a", "rr-20240101-abc12", "0-0"];
    let names = ["report.pdf", "..", ".", "", "../../etc/passwd", "a b\\c", "___", ".hidden"];
    for root in roots {
        for slug in slugs {
            let directory = submission_directory(root, slug);
            for name in names {
                let stored = storage_filename(id, name);
                let expected = format!("{}/{}", directory, stored);
                assert_eq!(
                    upload_path(root, &directory, &stored),
                    Some(expected),
                    "{:?} {:?} {:?}",
                    root,
                    slug,
                    name
                );
            }
        }
    }
    assert_eq!(
        upload_path(
            "/app/uploads",
            &submission_directory("/app/uploads", "abc"),
            &storage_filename(id, "report.pdf")
        ),
        Some("/app/uploads/abc/a1a2a3a4-b1b2-c1c2-d1d2-d3d4d5d6d7d8_report.pdf".to_string())
    );
}
