use regelrecht_upload::models::{CreateSubmission, DocumentClassification};
use regelrecht_upload::validation::{
    is_valid_email, validate_classification_for_upload, validate_create_submission,
    validate_external_url, validate_file_upload, validate_filename_extensions, validate_slug,
    ValidationError,
};

#[test]
fn test_email_validation() {
    assert!(is_valid_email("test@example.com"));
    assert!(is_valid_email("user.name@domain.nl"));
    assert!(!is_valid_email("invalid"));
    assert!(!is_valid_email("@domain.com"));
    assert!(!is_valid_email("user@"));
}

#[test]
fn test_slug_validation() {
    assert!(validate_slug("rr-20240101-abc12").is_ok());
    assert!(validate_slug("my-submission").is_ok());
    assert!(validate_slug("-invalid").is_err());
    assert!(validate_slug("UPPERCASE").is_err());
    assert!(validate_slug("").is_err());
}

#[test]
fn test_validate_create_submission_valid() {
    let input = CreateSubmission {
        submitter_name: "Jan de Vries".to_string(),
        submitter_email: Some("jan@example.com".to_string()),
        organization: "Gemeente Amsterdam".to_string(),
        organization_department: Some("ICT".to_string()),
    };
    assert!(validate_create_submission(&input).is_ok());
}

#[test]
fn test_validate_create_submission_empty_name() {
    let input = CreateSubmission {
        submitter_name: "  ".to_string(),
        submitter_email: None,
        organization: "Org".to_string(),
        organization_department: None,
    };
    assert!(matches!(
        validate_create_submission(&input),
        Err(ValidationError::Required { .. })
    ));
}

#[test]
fn test_validate_create_submission_empty_org() {
    let input = CreateSubmission {
        submitter_name: "Jan".to_string(),
        submitter_email: None,
        organization: "".to_string(),
        organization_department: None,
    };
    assert!(matches!(
        validate_create_submission(&input),
        Err(ValidationError::Required { .. })
    ));
}

#[test]
fn test_validate_create_submission_invalid_email() {
    let input = CreateSubmission {
        submitter_name: "Jan".to_string(),
        submitter_email: Some("not-an-email".to_string()),
        organization: "Org".to_string(),
        organization_department: None,
    };
    assert!(matches!(
        validate_create_submission(&input),
        Err(ValidationError::InvalidEmail)
    ));
}

#[test]
fn test_validate_classification_public() {
    assert!(validate_classification_for_upload(DocumentClassification::Public).is_ok());
}

#[test]
fn test_validate_classification_claude() {
    assert!(validate_classification_for_upload(DocumentClassification::ClaudeAllowed).is_ok());
}

#[test]
fn test_validate_classification_restricted() {
    assert!(matches!(
        validate_classification_for_upload(DocumentClassification::Restricted),
        Err(ValidationError::RestrictedDocument)
    ));
}

#[test]
fn test_validate_external_url_valid() {
    assert!(validate_external_url("https://wetten.overheid.nl/BWBR0001840/2024-01-01").is_ok());
}

#[test]
fn test_validate_external_url_empty() {
    assert!(matches!(
        validate_external_url("  "),
        Err(ValidationError::Required { .. })
    ));
}

#[test]
fn test_validate_external_url_no_protocol() {
    assert!(matches!(
        validate_external_url("wetten.overheid.nl/test"),
        Err(ValidationError::InvalidUrl)
    ));
}

#[test]
fn test_validate_file_upload_valid_pdf() {
    assert!(validate_file_upload("application/pdf", 1024, 50 * 1024 * 1024).is_ok());
}

#[test]
fn test_validate_file_upload_too_large() {
    assert!(matches!(
        validate_file_upload("application/pdf", 100 * 1024 * 1024, 50 * 1024 * 1024),
        Err(ValidationError::FileTooLarge { .. })
    ));
}

#[test]
fn test_validate_file_upload_invalid_type() {
    assert!(matches!(
        validate_file_upload("application/zip", 1024, 50 * 1024 * 1024),
        Err(ValidationError::InvalidFileType { .. })
    ));
}

#[test]
fn test_validate_filename_extensions_safe() {
    assert!(validate_filename_extensions("document.pdf").is_ok());
    assert!(validate_filename_extensions("report.docx").is_ok());
    assert!(validate_filename_extensions("notes.txt").is_ok());
    assert!(validate_filename_extensions("readme.md").is_ok());
}

#[test]
fn test_validate_filename_extensions_dangerous() {
    // Direct dangerous extensions
    assert!(validate_filename_extensions("script.php").is_err());
    assert!(validate_filename_extensions("shell.sh").is_err());
    assert!(validate_filename_extensions("malware.exe").is_err());

    // Double extensions (hidden dangerous extension)
    assert!(validate_filename_extensions("document.php.pdf").is_err());
    assert!(validate_filename_extensions("image.exe.jpg").is_err());

    // Case insensitive
    assert!(validate_filename_extensions("SCRIPT.PHP").is_err());
    assert!(validate_filename_extensions("Shell.SH").is_err());
}

#[test]
fn slugs_of_fifty_characters_are_the_longest() {
    let fifty = "a".repeat(50);
    assert!(validate_slug(&fifty).is_ok());
    assert!(validate_slug(&(fifty + "a")).is_err());
    assert!(validate_slug("a").is_ok());
    assert!(validate_slug("0").is_ok());
    assert!(validate_slug("a-b").is_ok());
    assert!(validate_slug("a--b").is_ok());
}

#[test]
fn slugs_refuse_hyphens_at_the_ends_and_other_characters() {
    for bad in ["-", "a-", "-a", "a_b", "a b", "a.b", "A", "aB", "é", "a/b", " a", "a\n"] {
        assert!(matches!(validate_slug(bad), Err(ValidationError::InvalidSlug)), "{:?}", bad);
    }
}

#[test]
fn email_needs_one_at_a_local_part_and_a_dotted_domain() {
    assert!(is_valid_email("a@b.c"));
    assert!(!is_valid_email("a@b@c.d"));
    assert!(!is_valid_email("a@.b"));
    assert!(is_valid_email("a@.bc"));
    assert!(!is_valid_email("a@b"));
    assert!(!is_valid_email("a@."));
    assert!(!is_valid_email("a@.."));
    assert!(is_valid_email("a@..."));
    assert!(is_valid_email("a@é."));
    assert!(!is_valid_email(""));
    assert!(!is_valid_email("@"));
}

#[test]
fn field_lengths_are_counted_in_bytes() {
    let mut input = CreateSubmission {
        submitter_name: "a".repeat(255),
        submitter_email: None,
        organization: "o".repeat(255),
        organization_department: Some("d".repeat(255)),
    };
    assert!(validate_create_submission(&input).is_ok());
    input.submitter_name = "a".repeat(256);
    match validate_create_submission(&input) {
        Err(ValidationError::TooLong { field, max }) => {
            assert_eq!(field, "submitter_name");
            assert_eq!(max, 255);
        }
        other => panic!("{:?}", other),
    }
    input.submitter_name = "é".repeat(128);
    assert!(matches!(validate_create_submission(&input), Err(ValidationError::TooLong { .. })));
    input.submitter_name = "é".repeat(127);
    assert!(validate_create_submission(&input).is_ok());
    input.organization = "o".repeat(256);
    match validate_create_submission(&input) {
        Err(ValidationError::TooLong { field, .. }) => assert_eq!(field, "organization"),
        other => panic!("{:?}", other),
    }
    input.organization = "o".to_string();
    input.organization_department = Some("d".repeat(256));
    match validate_create_submission(&input) {
        Err(ValidationError::TooLong { field, .. }) => assert_eq!(field, "organization_department"),
        other => panic!("{:?}", other),
    }
}

#[test]
fn the_first_broken_rule_is_reported() {
    let input = CreateSubmission {
        submitter_name: " ".to_string(),
        submitter_email: Some("bad".to_string()),
        organization: "".to_string(),
        organization_department: Some("d".repeat(300)),
    };
    match validate_create_submission(&input) {
        Err(ValidationError::Required { field }) => assert_eq!(field, "submitter_name"),
        other => panic!("{:?}", other),
    }
    let empty_email = CreateSubmission {
        submitter_name: "Jan".to_string(),
        submitter_email: Some(String::new()),
        organization: "Org".to_string(),
        organization_department: None,
    };
    assert!(validate_create_submission(&empty_email).is_ok());
}

#[test]
fn links_need_a_scheme_and_a_bounded_length() {
    assert!(validate_external_url("http://example.com").is_ok());
    assert!(matches!(validate_external_url("ftp://x"), Err(ValidationError::InvalidUrl)));
    assert!(matches!(validate_external_url(" https://x"), Err(ValidationError::InvalidUrl)));
    let long = format!("https://{}", "a".repeat(2048 - 8));
    assert!(validate_external_url(&long).is_ok());
    match validate_external_url(&(long + "a")) {
        Err(ValidationError::TooLong { field, max }) => {
            assert_eq!(field, "external_url");
            assert_eq!(max, 2048);
        }
        other => panic!("{:?}", other),
    }
    match validate_external_url("") {
        Err(ValidationError::Required { field }) => assert_eq!(field, "external_url"),
        other => panic!("{:?}", other),
    }
}

#[test]
fn uploads_are_checked_for_size_before_type() {
    match validate_file_upload("application/zip", 11, 10) {
        Err(ValidationError::FileTooLarge { max_mb }) => assert_eq!(max_mb, 0),
        other => panic!("{:?}", other),
    }
    match validate_file_upload("application/pdf", 60 * 1024 * 1024, 50 * 1024 * 1024) {
        Err(ValidationError::FileTooLarge { max_mb }) => assert_eq!(max_mb, 50),
        other => panic!("{:?}", other),
    }
    assert!(validate_file_upload("text/plain", 10, 10).is_ok());
    match validate_file_upload("text/html", 1, 10) {
        Err(ValidationError::InvalidFileType { mime_type }) => assert_eq!(mime_type, "text/html"),
        other => panic!("{:?}", other),
    }
    for allowed in [
        "application/pdf",
        "application/msword",
        "application/vnd.openxmlformats-officedocument.wordprocessingml.document",
        "application/vnd.ms-excel",
        "application/vnd.openxmlformats-officedocument.spreadsheetml.sheet",
        "application/vnd.ms-powerpoint",
        "application/vnd.openxmlformats-officedocument.presentationml.presentation",
        "application/vnd.oasis.opendocument.text",
        "application/rtf",
        "text/plain",
        "text/markdown",
        "text/csv",
    ] {
        assert!(validate_file_upload(allowed, 0, 0).is_ok(), "{}", allowed);
    }
    for refused in ["", "Application/PDF", "application/pdf ", "application/xml", "text/xml"] {
        assert!(validate_file_upload(refused, 0, 0).is_err(), "{:?}", refused);
    }
}

#[test]
fn the_first_listed_extension_is_named() {
    match validate_filename_extensions("archive.jsp.php") {
        Err(ValidationError::InvalidFileType { mime_type }) => {
            assert_eq!(mime_type, "filename contains dangerous extension: .php")
        }
        other => panic!("{:?}", other),
    }
    match validate_filename_extensions("x.Kshell") {
        Ok(()) => {}
        other => panic!("{:?}", other),
    }
    // The Kelvin sign lowers to the letter k.
    assert!(validate_filename_extensions("x.\u{212A}sh").is_err());
    assert!(validate_filename_extensions(".htaccess").is_err());
    assert!(validate_filename_extensions("a.ts.d").is_err());
    assert!(validate_filename_extensions("phpinfo").is_ok());
    assert!(validate_filename_extensions("").is_ok());
}

#[test]
fn messages_are_the_sentences_shown_to_callers() {
    assert_eq!(
        ValidationError::Required { field: "organization".to_string() }.message(),
        "Field 'organization' is required"
    );
    assert_eq!(
        ValidationError::TooLong { field: "x".to_string(), max: 255 }.message(),
        "Field 'x' is too long (max 255 characters)"
    );
    assert_eq!(
        ValidationError::TooShort { field: "x".to_string(), min: 3 }.message(),
        "Field 'x' is too short (min 3 characters)"
    );
    assert_eq!(ValidationError::InvalidEmail.message(), "Invalid email format");
    assert_eq!(ValidationError::InvalidUrl.message(), "Invalid URL format");
    assert_eq!(
        ValidationError::InvalidSlug.message(),
        "Invalid slug format (must be lowercase alphanumeric with hyphens)"
    );
    assert_eq!(
        ValidationError::RestrictedDocument.message(),
        "Restricted documents cannot be uploaded"
    );
    assert_eq!(
        ValidationError::InvalidFileType { mime_type: "a/b".to_string() }.message(),
        "Invalid file type: a/b"
    );
    assert_eq!(
        ValidationError::FileTooLarge { max_mb: 50 }.message(),
        "File too large (max 50 MB)"
    );
}

#[test]
fn extensions_are_found_whatever_the_case_of_the_letters() {
    let named = |name: &str| match validate_filename_extensions(name) {
        Err(ValidationError::InvalidFileType { mime_type }) => mime_type,
        other => panic!("{:?}", other),
    };
    assert_eq!(named("SCRIPT.PHP"), "filename contains dangerous extension: .php");
    assert_eq!(named("Setup.Exe"), "filename contains dangerous extension: .exe");
    assert_eq!(named("\u{c4}RGER.BAT"), "filename contains dangerous extension: .bat");
    assert!(validate_filename_extensions("REPORT.PDF").is_ok());
    assert!(validate_filename_extensions("\u{c9}T\u{c9}.PDF").is_ok());
}
