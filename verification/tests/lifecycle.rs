use regelrecht_upload::lifecycle::{
    compose_fallback_slug, fallback_slug, forward, is_abandoned_draft, is_forwardable,
    new_submission, set_status, submit, update, LifecycleError,
};
use regelrecht_upload::models::{CreateSubmission, Submission, SubmissionStatus, UpdateSubmission};
use regelrecht_upload::validation::validate_slug;

const HOUR: i64 = 3_600_000_000;
const YEAR: i64 = 365 * 24 * HOUR;

fn draft(now: i64) -> Submission {
    new_submission(
        7,
        "rr-20240101-abc12".to_string(),
        CreateSubmission {
            submitter_name: "Jan".to_string(),
            submitter_email: Some("jan@example.com".to_string()),
            organization: "Gemeente X".to_string(),
            organization_department: None,
        },
        now,
        YEAR,
    )
}

fn no_changes() -> UpdateSubmission {
    UpdateSubmission {
        submitter_name: None,
        submitter_email: None,
        organization: None,
        organization_department: None,
        notes: None,
    }
}

const ALL: [SubmissionStatus; 7] = [
    SubmissionStatus::Draft,
    SubmissionStatus::Submitted,
    SubmissionStatus::UnderReview,
    SubmissionStatus::Approved,
    SubmissionStatus::Rejected,
    SubmissionStatus::Forwarded,
    SubmissionStatus::Completed,
];

#[test]
fn a_new_dossier_is_a_draft_kept_for_the_retention_period() {
    let s = draft(1000);
    assert_eq!(s.id, 7);
    assert_eq!(s.slug, "rr-20240101-abc12");
    assert_eq!(s.status, SubmissionStatus::Draft);
    assert_eq!(s.submitted_at, None);
    assert_eq!(s.notes, None);
    assert_eq!(s.created_at, 1000);
    assert_eq!(s.updated_at, 1000);
    assert_eq!(s.retention_expiry_date, 1000 + YEAR);
    assert_eq!(draft(i64::MAX - 1).retention_expiry_date, i64::MAX);
}

#[test]
fn update_changes_only_the_given_fields() {
    let mut s = draft(0);
    let r = update(
        &mut s,
        UpdateSubmission {
            submitter_name: Some("Piet".to_string()),
            submitter_email: None,
            organization: None,
            organization_department: Some("ICT".to_string()),
            notes: Some("n".to_string()),
        },
        5,
    );
    assert_eq!(r, Ok(()));
    assert_eq!(s.submitter_name, "Piet");
    assert_eq!(s.submitter_email, Some("jan@example.com".to_string()));
    assert_eq!(s.organization, "Gemeente X");
    assert_eq!(s.organization_department, Some("ICT".to_string()));
    assert_eq!(s.notes, Some("n".to_string()));
    assert_eq!(s.updated_at, 5);
    assert_eq!(s.slug, "rr-20240101-abc12");
    assert_eq!(s.status, SubmissionStatus::Draft);
}

#[test]
fn update_of_anything_but_a_draft_is_a_conflict() {
    for status in ALL {
        if status == SubmissionStatus::Draft {
            continue;
        }
        let mut s = draft(0);
        set_status(&mut s, status, None, 1);
        let before = s.clone();
        let changes = UpdateSubmission {
            submitter_name: Some("Other".to_string()),
            submitter_email: Some("o@example.com".to_string()),
            organization: Some("Org".to_string()),
            organization_department: Some("D".to_string()),
            notes: Some("N".to_string()),
        };
        assert_eq!(update(&mut s, changes, 2), Err(LifecycleError::NotDraft));
        assert_eq!(format!("{:?}", s), format!("{:?}", before));
        assert_eq!(update(&mut s, no_changes(), 3), Err(LifecycleError::NotDraft));
    }
}

#[test]
fn submit_turns_a_draft_into_submitted_once() {
    let mut s = draft(0);
    assert_eq!(submit(&mut s, 42), Ok(()));
    assert_eq!(s.status, SubmissionStatus::Submitted);
    assert_eq!(s.submitted_at, Some(42));
    assert_eq!(submit(&mut s, 43), Err(LifecycleError::NotDraft));
    assert_eq!(s.submitted_at, Some(42));
}

#[test]
fn forward_is_allowed_from_three_statuses_only() {
    for status in ALL {
        let expected = matches!(
            status,
            SubmissionStatus::Submitted | SubmissionStatus::UnderReview | SubmissionStatus::Approved
        );
        assert_eq!(is_forwardable(status), expected);
        let mut s = draft(0);
        set_status(&mut s, status, None, 1);
        let r = forward(&mut s, Some("to team".to_string()), 2);
        if expected {
            assert_eq!(r, Ok(()));
            assert_eq!(s.status, SubmissionStatus::Forwarded);
            assert_eq!(s.notes, Some("to team".to_string()));
        } else {
            assert_eq!(r, Err(LifecycleError::NotForwardable));
            assert_eq!(s.status, status);
            assert_eq!(s.notes, None);
        }
    }
}

#[test]
fn set_status_is_not_guarded() {
    for from in ALL {
        for to in ALL {
            let mut s = draft(0);
            set_status(&mut s, from, Some("first".to_string()), 1);
            set_status(&mut s, to, None, 2);
            assert_eq!(s.status, to);
            assert_eq!(s.notes, Some("first".to_string()));
            assert_eq!(s.updated_at, 2);
        }
    }
}

#[test]
fn drafts_are_abandoned_after_an_hour() {
    let s = draft(1000);
    assert!(!is_abandoned_draft(&s, 1000 + HOUR));
    assert!(is_abandoned_draft(&s, 1001 + HOUR));
    let mut submitted = draft(1000);
    submit(&mut submitted, 1001).unwrap();
    assert!(!is_abandoned_draft(&submitted, 1000 + 10 * HOUR));
    assert!(!is_abandoned_draft(&s, i64::MIN));
}

#[test]
fn fallback_slug_has_date_and_five_characters_of_an_identifier() {
    let id: u128 = 0xa1a2a3a4_b1b2_c1c2_d1d2_d3d4d5d6d7d8;
    // 2024-01-01 00:00:00 UTC
    let now: i64 = 1_704_067_200_000_000;
    let slug = fallback_slug(now, id);
    assert_eq!(slug, "rr-20240101-a1a2a");
    assert!(validate_slug(&slug).is_ok());
    assert_eq!(fallback_slug(now + 86_400_000_000 - 1, id), "rr-20240101-a1a2a");
    assert_eq!(fallback_slug(now + 86_400_000_000, id), "rr-20240102-a1a2a");
    assert_eq!(compose_fallback_slug("19991231", 0), "rr-19991231-00000");
}

#[test]
fn fallback_slugs_are_valid_slugs() {
    for date in ["20240101", "19700101", "99991231", ""] {
        for id in [0u128, 1, u128::MAX, 0xa1a2a3a4_b1b2_c1c2_d1d2_d3d4d5d6d7d8] {
            let slug = compose_fallback_slug(date, id);
            assert!(validate_slug(&slug).is_ok(), "{}", slug);
        }
    }
}

#[test]
fn fallback_slugs_are_valid_in_the_years_of_four_digits() {
    // The first and the last microsecond of the years 0000 to 9999.
    let first: i64 = -62_167_219_200_000_000;
    let last: i64 = 253_402_300_800_000_000 - 1;
    assert_eq!(fallback_slug(first, 0), "rr-00000101-00000");
    assert_eq!(fallback_slug(last, 0), "rr-99991231-00000");
    assert_eq!(fallback_slug(0, 0), "rr-19700101-00000");
    assert_eq!(fallback_slug(-1, 0), "rr-19691231-00000");
    for now in [first, first + 1, -1, 0, 1, 1_704_067_200_000_000, last - 1, last] {
        let slug = fallback_slug(now, u128::MAX);
        assert_eq!(slug.len(), 17, "{}", slug);
        assert!(validate_slug(&slug).is_ok(), "{}", slug);
    }
    // Beyond them chrono writes a sign, and the slug is no longer valid.
    assert!(validate_slug(&fallback_slug(last + 1, 0)).is_err());
}
