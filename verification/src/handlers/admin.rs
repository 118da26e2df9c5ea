//! Administrators: listing and reading dossiers, changing their status,
//! forwarding, deleting and exporting them, the dashboard, and the sweep of
//! abandoned drafts.

use std::collections::HashMap;
use vstd::prelude::*;
use vstd::std_specs::hash::group_hash_axioms;
use crate::archive::{build_archive, export_entries, zip_bytes, zip_takes, ExportFile};
use crate::documents::{joined, submission_directory};
use crate::lifecycle::{forwardable, is_forwardable};
use crate::handlers::submissions::{detail_of, get_submission, get_submission_rule, shows, ShowStage};
use crate::models::{
    Document, Id, PaginatedResponse, Submission, SubmissionResponse, SubmissionStatus, Timestamp,
};
use crate::protocol::{
    copy_text, listed, Answer, AppState, AuditDetails, AuditEntry, DashboardStats, Fetched,
    Inquiry, ListFilter, Outcome, Payload, Query, Step, SubmissionExport, BAD_REQUEST,
    INTERNAL_SERVER_ERROR, NOT_FOUND, OK,
};
use crate::text::push_text;

verus! {

broadcast use group_hash_axioms;

// ---------------------------------------------------------------------------
// What administrators send
// ---------------------------------------------------------------------------

/// Which page of which dossiers a list is asked for.
#[derive(Debug)]
pub struct ListSubmissionsQuery {
    pub page: Option<i64>,
    pub per_page: Option<i64>,
    pub status: Option<SubmissionStatus>,
    pub search: Option<String>,
}

/// The status that a dossier is to have, and a note on it.
#[derive(Debug)]
pub struct UpdateStatusRequest {
    pub status: SubmissionStatus,
    pub notes: Option<String>,
}

/// Where a dossier is forwarded to, and a note on it.
#[derive(Debug)]
pub struct ForwardSubmissionRequest {
    pub forward_to: String,
    pub notes: Option<String>,
}

// ---------------------------------------------------------------------------
// Pages
// ---------------------------------------------------------------------------

/// The page that a list shows: the one asked for, the first where none or
/// one before the first is asked for.
pub open spec fn page_number(page: Option<i64>) -> i64 {
    match page {
        Some(p) => if p < 1 {
            1
        } else {
            p
        },
        None => 1,
    }
}

/// The number of dossiers on a page: the one asked for, but at least one and
/// at most a hundred, and twenty where none is asked for.
pub open spec fn page_size(per_page: Option<i64>) -> i64 {
    match per_page {
        Some(n) => if n < 1 {
            1
        } else if n > 100 {
            100
        } else {
            n
        },
        None => 20,
    }
}

/// The number of dossiers before a page, kept within what can be written
/// down.
pub open spec fn page_offset(page: i64, per_page: i64) -> i64 {
    let offset = (page - 1) * per_page;
    if offset > i64::MAX {
        i64::MAX
    } else if offset < i64::MIN {
        i64::MIN
    } else {
        offset as i64
    }
}

/// The number of pages that hold `total` dossiers: `total` divided by the
/// size of a page, rounded up.
pub open spec fn page_count(total: i64, per_page: i64) -> int {
    if total > 0 {
        (total - 1) / (per_page as int) + 1
    } else {
        -((-total) / (per_page as int))
    }
}

/// The number of pages is the least number of pages that hold all dossiers.
pub proof fn lemma_page_count_is_ceiling(total: i64, per_page: i64)
    requires
        per_page > 0,
    ensures
        per_page * (page_count(total, per_page) - 1) < total <= per_page * page_count(
            total,
            per_page,
        ),
{
    let p = per_page as int;
    if total > 0 {
        let q = (total - 1) / p;
        assert(p * q <= total - 1 < p * q + p) by (nonlinear_arith)
            requires
                p > 0,
                q == (total - 1) / p,
        ;
        assert(p * (q + 1) == p * q + p) by (nonlinear_arith);
    } else {
        let m = -total;
        let q = m / p;
        assert(p * q <= m < p * q + p) by (nonlinear_arith)
            requires
                p > 0,
                q == m / p,
        ;
        assert(p * (-q) == -(p * q)) by (nonlinear_arith);
        assert(p * (-q - 1) == -(p * q) - p) by (nonlinear_arith);
    }
}

/// The page that a list shows.
pub fn page_of(page: Option<i64>) -> (p: i64)
    ensures
        p == page_number(page),
{
    match page {
        Some(p) => if p < 1 {
            1
        } else {
            p
        },
        None => 1,
    }
}

/// The number of dossiers on a page.
pub fn per_page_of(per_page: Option<i64>) -> (n: i64)
    ensures
        n == page_size(per_page),
        1 <= n <= 100,
{
    match per_page {
        Some(n) => if n < 1 {
            1
        } else if n > 100 {
            100
        } else {
            n
        },
        None => 20,
    }
}

/// The number of dossiers before a page.
pub fn offset_of(page: i64, per_page: i64) -> (offset: i64)
    ensures
        offset == page_offset(page, per_page),
{
    let before: i128 = (page as i128) - 1;
    proof {
        assert(-0x8000_0000_0000_0001 <= before <= 0x7fff_ffff_ffff_fffe);
        assert(-0x4000_0000_0000_0000_8000_0000_0000_0000 <= before * (per_page as i128)
            <= 0x4000_0000_0000_0000_8000_0000_0000_0000) by (nonlinear_arith)
            requires
                -0x8000_0000_0000_0001 <= before <= 0x7fff_ffff_ffff_fffe,
                -0x8000_0000_0000_0000 <= per_page <= 0x7fff_ffff_ffff_ffff,
        ;
    }
    let offset: i128 = before * (per_page as i128);
    if offset > 0x7fff_ffff_ffff_ffff {
        i64::MAX
    } else if offset < -0x8000_0000_0000_0000 {
        i64::MIN
    } else {
        offset as i64
    }
}

/// The number of pages that hold `total` dossiers.
pub fn total_pages_of(total: i64, per_page: i64) -> (pages: i64)
    requires
        per_page >= 1,
    ensures
        pages == page_count(total, per_page),
{
    let size = per_page as u64;
    if total > 0 {
        let before = (total - 1) as u64;
        let full = before / size;
        (full as i64) + 1
    } else if total == i64::MIN {
        let full = 0x8000_0000_0000_0000u64 / size;
        if full == 0x8000_0000_0000_0000u64 {
            i64::MIN
        } else {
            -(full as i64)
        }
    } else {
        let amount = (-total) as u64;
        let full = amount / size;
        -(full as i64)
    }
}

// ---------------------------------------------------------------------------
// Documents by dossier
// ---------------------------------------------------------------------------

/// The documents of one dossier among the given ones, in their order.
pub open spec fn matching(documents: Seq<Document>, submission_id: Id) -> Seq<Document>
    decreases documents.len(),
{
    if documents.len() == 0 {
        documents
    } else if documents.last().submission_id == submission_id {
        matching(documents.drop_last(), submission_id).push(documents.last())
    } else {
        matching(documents.drop_last(), submission_id)
    }
}

/// The documents of other dossiers among the given ones, in their order.
pub open spec fn others(documents: Seq<Document>, submission_id: Id) -> Seq<Document>
    decreases documents.len(),
{
    if documents.len() == 0 {
        documents
    } else if documents.last().submission_id == submission_id {
        others(documents.drop_last(), submission_id)
    } else {
        others(documents.drop_last(), submission_id).push(documents.last())
    }
}

/// What is left for a dossier once the documents of another were taken
/// out: all of its own, or nothing if it is that other dossier.
pub proof fn lemma_matching_of_others(documents: Seq<Document>, taken: Id, id: Id)
    ensures
        matching(others(documents, taken), id) == if id == taken {
            Seq::<Document>::empty()
        } else {
            matching(documents, id)
        },
    decreases documents.len(),
{
    if documents.len() > 0 {
        lemma_matching_of_others(documents.drop_last(), taken, id);
        if documents.last().submission_id != taken {
            let rest = others(documents.drop_last(), taken);
            assert(rest.push(documents.last()).drop_last() =~= rest);
        }
    }
}

/// The groups hold the documents by dossier: a dossier has a group exactly
/// where it has documents, and its group holds them in their order.
pub open spec fn groups_of(groups: Map<Id, Vec<Document>>, documents: Seq<Document>) -> bool {
    forall|id: Id|
        {
            &&& #[trigger] groups.contains_key(id) <==> matching(documents, id).len() > 0
            &&& groups.contains_key(id) ==> groups[id]@ == matching(documents, id)
        }
}

/// The documents grouped by the dossier that they belong to.
pub fn group_documents(documents: Vec<Document>) -> (groups: HashMap<Id, Vec<Document>>)
    ensures
        groups_of(groups@, documents@),
{
    let mut groups: HashMap<Id, Vec<Document>> = HashMap::new();
    for document in it: documents
        invariant
            it.seq() == documents@,
            groups_of(groups@, documents@.take(it.index() as int)),
    {
        let ghost before = documents@.take(it.index() as int);
        let ghost seen = documents@.take(it.index() + 1);
        let ghost held = groups@;
        proof {
            assert(seen.drop_last() =~= before);
            assert(seen.last() == document);
        }
        let id = document.submission_id;
        let mut group = match groups.remove(&id) {
            Some(found) => found,
            None => Vec::new(),
        };
        proof {
            assert(held.contains_key(id) <==> matching(before, id).len() > 0);
            assert(group@ =~= matching(before, id));
        }
        group.push(document);
        groups.insert(id, group);
        proof {
            assert forall|other: Id|
                {
                    &&& #[trigger] groups@.contains_key(other) <==> matching(seen, other).len() > 0
                    &&& groups@.contains_key(other) ==> groups@[other]@ == matching(seen, other)
                } by {
                if other != id {
                    assert(held.contains_key(other) <==> matching(before, other).len() > 0);
                }
            }
        }
    }
    proof {
        assert(documents@.take(documents@.len() as int) =~= documents@);
    }
    groups
}

/// Each dossier with its documents. A document goes to the first dossier
/// that it belongs to.
pub open spec fn assigned(submissions: Seq<Submission>, documents: Seq<Document>) -> Seq<
    (Submission, Seq<Document>),
>
    decreases submissions.len(),
{
    if submissions.len() == 0 {
        Seq::empty()
    } else {
        seq![(submissions[0], matching(documents, submissions[0].id))] + assigned(
            submissions.drop_first(),
            others(documents, submissions[0].id),
        )
    }
}

/// The dossiers as they are shown, each with its documents.
pub open spec fn shows_all(
    items: Seq<SubmissionResponse>,
    pairs: Seq<(Submission, Seq<Document>)>,
) -> bool {
    &&& items.len() == pairs.len()
    &&& forall|i: int| 0 <= i < items.len() ==> shows(#[trigger] items[i], pairs[i].0, pairs[i].1)
}

/// The dossiers as they are shown, each with its documents. The documents
/// are grouped by dossier first, and each dossier takes its group.
pub fn assign_documents(submissions: Vec<Submission>, documents: Vec<Document>) -> (items: Vec<
    SubmissionResponse,
>)
    ensures
        shows_all(items@, assigned(submissions@, documents@)),
{
    let mut items: Vec<SubmissionResponse> = Vec::new();
    let mut groups = group_documents(documents);
    let ghost mut remaining = documents@;
    let ghost mut pairs: Seq<(Submission, Seq<Document>)> = Seq::empty();
    proof {
        assert(submissions@.skip(0) =~= submissions@);
    }
    for submission in it: submissions
        invariant
            it.seq() == submissions@,
            shows_all(items@, pairs),
            groups_of(groups@, remaining),
            assigned(submissions@, documents@) == pairs + assigned(
                submissions@.skip(it.index() as int),
                remaining,
            ),
    {
        let ghost before = remaining;
        let ghost held = groups@;
        let ghost tail = submissions@.skip(it.index() as int);
        let mine = match groups.remove(&submission.id) {
            Some(found) => found,
            None => Vec::new(),
        };
        proof {
            assert(held.contains_key(submission.id) <==> matching(before, submission.id).len() > 0);
            assert(mine@ =~= matching(before, submission.id));
            remaining = others(before, submission.id);
            assert forall|other: Id|
                {
                    &&& #[trigger] groups@.contains_key(other) <==> matching(remaining, other).len()
                        > 0
                    &&& groups@.contains_key(other) ==> groups@[other]@ == matching(
                        remaining,
                        other,
                    )
                } by {
                lemma_matching_of_others(before, submission.id, other);
                if other != submission.id {
                    assert(held.contains_key(other) <==> matching(before, other).len() > 0);
                }
            }
            assert(tail[0] == submission);
            assert(tail.drop_first() =~= submissions@.skip(it.index() + 1));
            let old_pairs = pairs;
            pairs = pairs.push((submission, mine@));
            assert(old_pairs + assigned(tail, before) =~= pairs + assigned(
                submissions@.skip(it.index() + 1),
                remaining,
            ));
        }
        let item = detail_of(submission, Some(mine));
        items.push(item);
    }
    proof {
        assert(submissions@.skip(submissions@.len() as int) =~= Seq::<Submission>::empty());
        assert(pairs + Seq::<(Submission, Seq<Document>)>::empty() =~= pairs);
    }
    items
}

// ---------------------------------------------------------------------------
// Listing dossiers
// ---------------------------------------------------------------------------

/// How far a listing has come.
#[derive(Debug)]
pub enum ListStage {
    /// The page was asked for.
    List { filter: ListFilter, page: i64, per_page: i64 },
    /// The number of all dossiers that the filter lets through was asked
    /// for.
    Count { submissions: Vec<Submission>, page: i64, per_page: i64 },
    /// The documents of the dossiers on the page were asked for.
    Documents { submissions: Vec<Submission>, total: i64, page: i64, per_page: i64 },
}

/// The filter that a list is asked with: a status where one is given, else
/// a search for the text anywhere in name, organization or slug where one is
/// given, else none.
pub open spec fn filters(query: ListSubmissionsQuery, filter: ListFilter) -> bool {
    match query.status {
        Some(status) => filter == ListFilter::Status(status),
        None => match query.search {
            Some(text) => filter matches ListFilter::Search(pattern) && pattern@ == "%"@ + text@
                + "%"@,
            None => filter == ListFilter::All,
        },
    }
}

fn filter_of(query: &ListSubmissionsQuery) -> (filter: ListFilter)
    ensures
        filters(*query, filter),
{
    match query.status {
        Some(status) => ListFilter::Status(status),
        None => match &query.search {
            Some(text) => {
                let mut pattern = String::new();
                push_text(&mut pattern, "%");
                push_text(&mut pattern, text.as_str());
                push_text(&mut pattern, "%");
                ListFilter::Search(pattern)
            },
            None => ListFilter::All,
        },
    }
}

fn copy_filter(filter: &ListFilter) -> (copy: ListFilter)
    ensures
        copy == *filter,
{
    match filter {
        ListFilter::All => ListFilter::All,
        ListFilter::Status(status) => ListFilter::Status(*status),
        ListFilter::Search(pattern) => ListFilter::Search(pattern.clone()),
    }
}

/// Begins a listing: the page is asked for, the newest dossiers first.
pub fn list_submissions_start(query: &ListSubmissionsQuery) -> (step: Step<ListStage>)
    ensures
        step matches Step::Ask {
            query: Query::ListSubmissions { filter, limit, offset },
            next: ListStage::List { filter: kept, page, per_page },
        } && filters(*query, filter) && kept == filter && page == page_number(query.page)
            && per_page == page_size(query.per_page) && limit == per_page && offset == page_offset(
            page,
            per_page,
        ),
{
    let page = page_of(query.page);
    let per_page = per_page_of(query.per_page);
    let offset = offset_of(page, per_page);
    let filter = filter_of(query);
    let kept = copy_filter(&filter);
    Step::Ask {
        query: Query::ListSubmissions { filter, limit: per_page, offset },
        next: ListStage::List { filter: kept, page, per_page },
    }
}

/// The identifiers of the dossiers, in their order.
pub open spec fn ids_of(submissions: Seq<Submission>) -> Seq<Id> {
    Seq::new(submissions.len(), |i: int| submissions[i].id)
}

fn collect_ids(submissions: &Vec<Submission>) -> (ids: Vec<Id>)
    ensures
        ids@ == ids_of(submissions@),
{
    let mut ids: Vec<Id> = Vec::new();
    let mut i: usize = 0;
    while i < submissions.len()
        invariant
            i <= submissions.len(),
            ids@ == ids_of(submissions@.take(i as int)),
        decreases submissions.len() - i,
    {
        ids.push(submissions[i].id);
        i = i + 1;
        proof {
            assert(ids@ =~= ids_of(submissions@.take(i as int)));
        }
    }
    proof {
        assert(submissions@.take(i as int) =~= submissions@);
    }
    ids
}

/// The page of a list as it is shown.
pub open spec fn shows_page(
    outcome: Outcome,
    submissions: Seq<Submission>,
    documents: Seq<Document>,
    total: i64,
    page: i64,
    per_page: i64,
) -> bool {
    &&& outcome.succeeds_with(OK, outcome.body.data->0)
    &&& outcome.body.data matches Some(Payload::Page(shown))
    &&& shows_all(shown.items@, assigned(submissions, documents))
    &&& shown.total == total
    &&& shown.page == page
    &&& shown.per_page == per_page
    &&& per_page >= 1 ==> shown.total_pages == page_count(total, per_page)
}

fn page_reply(
    submissions: Vec<Submission>,
    documents: Vec<Document>,
    total: i64,
    page: i64,
    per_page: i64,
) -> (step: Step<ListStage>)
    ensures
        step matches Step::Finish(outcome) && shows_page(
            outcome,
            submissions@,
            documents@,
            total,
            page,
            per_page,
        ),
{
    let total_pages = if 1 <= per_page {
        total_pages_of(total, per_page)
    } else {
        0
    };
    let items = assign_documents(submissions, documents);
    Step::succeed(
        OK,
        Payload::Page(PaginatedResponse { items, total, page, per_page, total_pages }),
    )
}

/// How a listing goes on.
///
/// A page that could not be had is an empty page, and a number that could
/// not be had is zero. The documents of all dossiers on the page are asked
/// for at once, and not at all for an empty page. The answer tells the page,
/// its size, the number of all dossiers that the filter lets through, and
/// the number of pages that they fill.
pub open spec fn list_submissions_rule(stage: ListStage, answer: Answer, step: Step<ListStage>)
    -> bool {
    match stage {
        ListStage::List { filter, page, per_page } => {
            &&& step matches Step::Ask {
                query: Query::CountSubmissions { filter: asked },
                next: ListStage::Count { submissions, page: kept_page, per_page: kept_size },
            }
            &&& asked == filter
            &&& submissions@ == listed(answer.submissions())
            &&& kept_page == page
            &&& kept_size == per_page
        },
        ListStage::Count { submissions, page, per_page } => {
            let total = match answer.count() {
                Some(n) => n,
                None => 0,
            };
            if submissions@.len() == 0 {
                step matches Step::Finish(outcome) && shows_page(
                    outcome,
                    submissions@,
                    Seq::<Document>::empty(),
                    total,
                    page,
                    per_page,
                )
            } else {
                &&& step matches Step::Ask {
                    query: Query::DocumentsOfAll { submission_ids },
                    next: ListStage::Documents {
                        submissions: kept,
                        total: kept_total,
                        page: kept_page,
                        per_page: kept_size,
                    },
                }
                &&& submission_ids@ == ids_of(submissions@)
                &&& kept == submissions
                &&& kept_total == total
                &&& kept_page == page
                &&& kept_size == per_page
            }
        },
        ListStage::Documents { submissions, total, page, per_page } => step matches Step::Finish(
            outcome,
        ) && shows_page(
            outcome,
            submissions@,
            listed(answer.documents()),
            total,
            page,
            per_page,
        ),
    }
}

/// Goes on with a listing.
pub fn list_submissions(stage: ListStage, answer: Answer) -> (step: Step<ListStage>)
    ensures
        list_submissions_rule(stage, answer, step),
{
    match stage {
        ListStage::List { filter, page, per_page } => {
            let submissions = match answer.into_submissions() {
                Some(items) => items,
                None => Vec::new(),
            };
            Step::Ask {
                query: Query::CountSubmissions { filter },
                next: ListStage::Count { submissions, page, per_page },
            }
        },
        ListStage::Count { submissions, page, per_page } => {
            let total = match answer.into_count() {
                Some(n) => n,
                None => 0,
            };
            if submissions.len() == 0 {
                return page_reply(submissions, Vec::new(), total, page, per_page);
            }
            let submission_ids = collect_ids(&submissions);
            Step::Ask {
                query: Query::DocumentsOfAll { submission_ids },
                next: ListStage::Documents { submissions, total, page, per_page },
            }
        },
        ListStage::Documents { submissions, total, page, per_page } => {
            let documents = match answer.into_documents() {
                Some(items) => items,
                None => Vec::new(),
            };
            page_reply(submissions, documents, total, page, per_page)
        },
    }
}

// ---------------------------------------------------------------------------
// Reading a dossier
// ---------------------------------------------------------------------------

/// Begins to show a dossier to an administrator: the dossier is asked for by
/// its identifier.
pub fn get_submission_admin_start(id: Id) -> (step: Step<ShowStage>)
    ensures
        step == (Step::Ask { query: Query::SubmissionById { id }, next: ShowStage::Find }),
{
    Step::Ask { query: Query::SubmissionById { id }, next: ShowStage::Find }
}

/// Goes on showing a dossier to an administrator, as to the applicant: with
/// its documents, and without any where they could not be had.
pub fn get_submission_admin(stage: ShowStage, answer: Answer) -> (step: Step<ShowStage>)
    ensures
        get_submission_rule(stage, answer, step),
{
    get_submission(stage, answer)
}

// ---------------------------------------------------------------------------
// Changing the status
// ---------------------------------------------------------------------------

/// How far a change of status has come.
#[derive(Debug)]
pub enum StatusStage {
    /// The dossier was asked for.
    Find { admin_id: Id, id: Id, status: SubmissionStatus, notes: Option<String> },
    /// The change was asked for.
    Change {
        admin_id: Id,
        id: Id,
        old_status: SubmissionStatus,
        status: SubmissionStatus,
        notes: Option<String>,
    },
}

/// Begins a change of status: the dossier is asked for, so that the status
/// it had can be noted beside the new one.
pub fn update_submission_status_start(admin_id: Id, id: Id, input: UpdateStatusRequest) -> (step:
    Step<StatusStage>)
    ensures
        step == (Step::Ask {
            query: Query::SubmissionById { id },
            next: StatusStage::Find { admin_id, id, status: input.status, notes: input.notes },
        }),
{
    Step::Ask {
        query: Query::SubmissionById { id },
        next: StatusStage::Find { admin_id, id, status: input.status, notes: input.notes },
    }
}

/// The outcome of a change that an administrator made to a dossier: the
/// dossier as it is now, and an entry in the audit log with the details.
pub open spec fn changes_status(
    outcome: Outcome,
    submission: Submission,
    id: Id,
    admin_id: Id,
    details: AuditDetails,
) -> bool {
    &&& outcome.carries(OK, Payload::Submission(submission))
    &&& outcome.set_cookie is None
    &&& outcome.attachment is None
    &&& outcome.effects@.len() == 1
    &&& outcome.effects@[0] matches Query::Audit { entry }
    &&& entry.names(
        "submission_status_changed"@,
        "submission"@,
        Some(id),
        "admin"@,
        Some(admin_id),
    )
    &&& entry.actor_ip is None
    &&& entry.details == Some(details)
}

fn status_changed(submission: Submission, id: Id, admin_id: Id, details: AuditDetails) -> (step:
    Outcome)
    ensures
        changes_status(step, submission, id, admin_id, details),
{
    let entry = AuditEntry::with_details(
        "submission_status_changed",
        "submission",
        Some(id),
        "admin",
        Some(admin_id),
        details,
    );
    Outcome::success(OK, Payload::Submission(submission)).and_then(Query::Audit { entry })
}

/// How a change of status goes on. A dossier that is not there is not
/// found. Else the status is set whatever it was before: this is the
/// administrator's manual correction, and unlike submitting and forwarding
/// it is not guarded. Every change is audited instead, with the status that
/// the dossier had and the one it was given.
pub open spec fn update_submission_status_rule(
    stage: StatusStage,
    answer: Answer,
    step: Step<StatusStage>,
) -> bool {
    match stage {
        StatusStage::Find { admin_id, id, status, notes } => match answer.submission() {
            Fetched::Found(submission) => step == (Step::Ask {
                query: Query::SetStatus { id, status, notes },
                next: StatusStage::Change {
                    admin_id,
                    id,
                    old_status: submission.status,
                    status,
                    notes,
                },
            }),
            Fetched::Missing => step.fails_with(NOT_FOUND, "Submission not found"@),
            Fetched::Failed => step.fails_with(INTERNAL_SERVER_ERROR, "Failed to update status"@),
        },
        StatusStage::Change { admin_id, id, old_status, status, notes } => match answer.submission() {
            Fetched::Found(submission) => step matches Step::Finish(outcome) && changes_status(
                outcome,
                submission,
                id,
                admin_id,
                AuditDetails::StatusChanged { old_status, new_status: status, notes },
            ),
            Fetched::Missing => step.fails_with(NOT_FOUND, "Submission not found"@),
            Fetched::Failed => step.fails_with(INTERNAL_SERVER_ERROR, "Failed to update status"@),
        },
    }
}

/// Whatever status a dossier has, an administrator's change is handed over:
/// no status keeps a dossier from being set to another. And the entry in the
/// audit log names the status that was found beside the new one.
pub proof fn lemma_status_change_is_unguarded_and_audited(
    admin_id: Id,
    id: Id,
    status: SubmissionStatus,
    notes: Option<String>,
    found: Submission,
    changed: Submission,
    first: Step<StatusStage>,
    last: Step<StatusStage>,
)
    requires
        update_submission_status_rule(
            StatusStage::Find { admin_id, id, status, notes },
            Answer::Submission(Fetched::Found(found)),
            first,
        ),
        first matches Step::Ask { next, .. } ==> update_submission_status_rule(
            next,
            Answer::Submission(Fetched::Found(changed)),
            last,
        ),
    ensures
        first matches Step::Ask { query: Query::SetStatus { id: asked, status: given, .. }, .. }
            && asked == id && given == status,
        last matches Step::Finish(outcome) && outcome.effects@.len() == 1 && (
        outcome.effects@[0] matches Query::Audit { entry } && entry.details == Some(
            AuditDetails::StatusChanged { old_status: found.status, new_status: status, notes },
        )),
{
}

/// Goes on with a change of status.
pub fn update_submission_status(stage: StatusStage, answer: Answer) -> (step: Step<StatusStage>)
    ensures
        update_submission_status_rule(stage, answer, step),
{
    match stage {
        StatusStage::Find { admin_id, id, status, notes } => match answer.into_submission() {
            Fetched::Found(submission) => {
                let asked = copy_text(&notes);
                Step::Ask {
                    query: Query::SetStatus { id, status, notes: asked },
                    next: StatusStage::Change {
                        admin_id,
                        id,
                        old_status: submission.status,
                        status,
                        notes,
                    },
                }
            },
            Fetched::Missing => Step::fail(NOT_FOUND, "Submission not found"),
            Fetched::Failed => Step::fail(INTERNAL_SERVER_ERROR, "Failed to update status"),
        },
        StatusStage::Change { admin_id, id, old_status, status, notes } => match answer.into_submission() {
            Fetched::Found(submission) => Step::Finish(
                status_changed(
                    submission,
                    id,
                    admin_id,
                    AuditDetails::StatusChanged { old_status, new_status: status, notes },
                ),
            ),
            Fetched::Missing => Step::fail(NOT_FOUND, "Submission not found"),
            Fetched::Failed => Step::fail(INTERNAL_SERVER_ERROR, "Failed to update status"),
        },
    }
}

// ---------------------------------------------------------------------------
// Forwarding
// ---------------------------------------------------------------------------

/// How far a forwarding has come.
#[derive(Debug)]
pub enum ForwardStage {
    /// The dossier was asked for.
    Find { admin_id: Id, id: Id, forward_to: String, notes: Option<String> },
    /// The guarded change to forwarded was asked for.
    Forward {
        admin_id: Id,
        id: Id,
        old_status: SubmissionStatus,
        forward_to: String,
        notes: Option<String>,
    },
}

/// What an administrator is told who forwards a dossier from a status from
/// which it cannot be forwarded.
pub open spec fn not_forwardable_message() -> Seq<char> {
    "Submission is not in a forwardable status"@
}

/// Begins a forwarding: the dossier is asked for.
pub fn forward_submission_start(admin_id: Id, id: Id, input: ForwardSubmissionRequest) -> (step:
    Step<ForwardStage>)
    ensures
        step == (Step::Ask {
            query: Query::SubmissionById { id },
            next: ForwardStage::Find {
                admin_id,
                id,
                forward_to: input.forward_to,
                notes: input.notes,
            },
        }),
{
    Step::Ask {
        query: Query::SubmissionById { id },
        next: ForwardStage::Find {
            admin_id,
            id,
            forward_to: input.forward_to,
            notes: input.notes,
        },
    }
}

/// How a forwarding goes on.
///
/// A dossier that is not there is not found. A dossier that is there but is
/// not submitted, under review or approved is a conflict, which names the
/// rule that was broken; nothing is changed then. Else the change to
/// forwarded is asked for as one guarded statement, which applies only while
/// the dossier is still in one of these statuses; where it no longer
/// applies, that is the same conflict. The entry in the audit log names the
/// status in which the dossier was found.
pub open spec fn forward_submission_rule(
    stage: ForwardStage,
    answer: Answer,
    step: Step<ForwardStage>,
) -> bool {
    match stage {
        ForwardStage::Find { admin_id, id, forward_to, notes } => match answer.submission() {
            Fetched::Found(submission) => if forwardable(submission.status) {
                step == (Step::Ask {
                    query: Query::ForwardSubmission { id, notes },
                    next: ForwardStage::Forward {
                        admin_id,
                        id,
                        old_status: submission.status,
                        forward_to,
                        notes,
                    },
                })
            } else {
                step.fails_with(BAD_REQUEST, not_forwardable_message())
            },
            Fetched::Missing => step.fails_with(NOT_FOUND, "Submission not found"@),
            Fetched::Failed => step.fails_with(
                INTERNAL_SERVER_ERROR,
                "Failed to forward submission"@,
            ),
        },
        ForwardStage::Forward { admin_id, id, old_status, forward_to, notes } => match answer.submission() {
            Fetched::Found(submission) => step matches Step::Finish(outcome) && changes_status(
                outcome,
                submission,
                id,
                admin_id,
                AuditDetails::Forwarded { old_status, forward_to, notes },
            ),
            Fetched::Missing => step.fails_with(BAD_REQUEST, not_forwardable_message()),
            Fetched::Failed => step.fails_with(
                INTERNAL_SERVER_ERROR,
                "Failed to forward submission"@,
            ),
        },
    }
}

/// Whatever the target and the notes, the forwarding of a dossier that is
/// found in a status from which it cannot be forwarded ends with the
/// conflict, and hands over nothing: the dossier stays as it is.
pub proof fn lemma_forward_of_unforwardable_is_conflict(
    admin_id: Id,
    id: Id,
    forward_to: String,
    notes: Option<String>,
    submission: Submission,
    step: Step<ForwardStage>,
)
    requires
        !forwardable(submission.status),
        forward_submission_rule(
            ForwardStage::Find { admin_id, id, forward_to, notes },
            Answer::Submission(Fetched::Found(submission)),
            step,
        ),
    ensures
        step.fails_with(BAD_REQUEST, not_forwardable_message()),
        !(step is Ask),
{
}

/// Goes on with a forwarding.
pub fn forward_submission(stage: ForwardStage, answer: Answer) -> (step: Step<ForwardStage>)
    ensures
        forward_submission_rule(stage, answer, step),
{
    match stage {
        ForwardStage::Find { admin_id, id, forward_to, notes } => match answer.into_submission() {
            Fetched::Found(submission) => {
                if !is_forwardable(submission.status) {
                    return Step::fail(BAD_REQUEST, "Submission is not in a forwardable status");
                }
                let asked = copy_text(&notes);
                Step::Ask {
                    query: Query::ForwardSubmission { id, notes: asked },
                    next: ForwardStage::Forward {
                        admin_id,
                        id,
                        old_status: submission.status,
                        forward_to,
                        notes,
                    },
                }
            },
            Fetched::Missing => Step::fail(NOT_FOUND, "Submission not found"),
            Fetched::Failed => Step::fail(INTERNAL_SERVER_ERROR, "Failed to forward submission"),
        },
        ForwardStage::Forward { admin_id, id, old_status, forward_to, notes } => match answer.into_submission() {
            Fetched::Found(submission) => Step::Finish(
                status_changed(
                    submission,
                    id,
                    admin_id,
                    AuditDetails::Forwarded { old_status, forward_to, notes },
                ),
            ),
            Fetched::Missing => Step::fail(BAD_REQUEST, "Submission is not in a forwardable status"),
            Fetched::Failed => Step::fail(INTERNAL_SERVER_ERROR, "Failed to forward submission"),
        },
    }
}

// ---------------------------------------------------------------------------
// Deleting a dossier
// ---------------------------------------------------------------------------

/// How far the deleting of a dossier has come.
#[derive(Debug)]
pub enum DeleteStage {
    /// The dossier was asked for.
    Find { admin_id: Id, admin_name: String, id: Id },
    /// The dossier's directory was handed over to be removed.
    Files { admin_id: Id, admin_name: String, submission: Submission },
    /// The dossier was handed over to be deleted.
    Delete { admin_id: Id, admin_name: String, submission: Submission },
}

/// Begins to delete a dossier: the dossier is asked for.
pub fn delete_submission_start(admin_id: Id, admin_name: String, id: Id) -> (step: Step<
    DeleteStage,
>)
    ensures
        step == (Step::Ask {
            query: Query::SubmissionById { id },
            next: DeleteStage::Find { admin_id, admin_name, id },
        }),
{
    Step::Ask {
        query: Query::SubmissionById { id },
        next: DeleteStage::Find { admin_id, admin_name, id },
    }
}

/// The outcome of a deletion: which dossier is gone, and an entry in the
/// audit log that keeps its slug, submitter and organization and the name of
/// the administrator.
pub open spec fn deletes(
    outcome: Outcome,
    submission: Submission,
    admin_id: Id,
    admin_name: String,
) -> bool {
    &&& outcome.carries(OK, outcome.body.data->0)
    &&& outcome.body.data matches Some(Payload::Deleted { id, slug })
    &&& id == submission.id
    &&& slug@ == submission.slug@
    &&& outcome.set_cookie is None
    &&& outcome.attachment is None
    &&& outcome.effects@.len() == 1
    &&& outcome.effects@[0] matches Query::Audit { entry }
    &&& entry.names("data_deleted"@, "submission"@, Some(submission.id), "admin"@, Some(admin_id))
    &&& entry.actor_ip is None
    &&& entry.details == Some(
        AuditDetails::Deleted {
            slug: submission.slug,
            submitter_name: submission.submitter_name,
            organization: submission.organization,
            deleted_by: admin_name,
        },
    )
}

/// How the deleting of a dossier goes on.
///
/// The dossier's files go first: its directory under the upload root is
/// handed over to be removed. Whether that went well is not looked at, so
/// that a dossier whose files cannot be removed can still be deleted. Then
/// the dossier is deleted, and its documents and sessions with it.
pub open spec fn delete_submission_rule(
    state: AppState,
    stage: DeleteStage,
    answer: Answer,
    step: Step<DeleteStage>,
) -> bool {
    match stage {
        DeleteStage::Find { admin_id, admin_name, id } => match answer.submission() {
            Fetched::Found(submission) => step matches Step::Ask {
                query: Query::RemoveDirectory { path },
                next: DeleteStage::Files { admin_id: kept_id, admin_name: kept_name, submission: held },
            } && path@ == joined(state.upload_dir@, submission.slug@) && kept_id == admin_id
                && kept_name == admin_name && held == submission,
            Fetched::Missing => step.fails_with(NOT_FOUND, "Submission not found"@),
            Fetched::Failed => step.fails_with(INTERNAL_SERVER_ERROR, "Database error"@),
        },
        DeleteStage::Files { admin_id, admin_name, submission } => step == (Step::Ask {
            query: Query::DeleteSubmission { id: submission.id },
            next: DeleteStage::Delete { admin_id, admin_name, submission },
        }),
        DeleteStage::Delete { admin_id, admin_name, submission } => if answer.done() {
            step matches Step::Finish(outcome) && deletes(outcome, submission, admin_id, admin_name)
        } else {
            step.fails_with(INTERNAL_SERVER_ERROR, "Failed to delete submission"@)
        },
    }
}

/// Goes on deleting a dossier.
pub fn delete_submission(state: &AppState, stage: DeleteStage, answer: Answer) -> (step: Step<
    DeleteStage,
>)
    ensures
        delete_submission_rule(*state, stage, answer, step),
{
    match stage {
        DeleteStage::Find { admin_id, admin_name, id } => match answer.into_submission() {
            Fetched::Found(submission) => {
                let path = submission_directory(
                    state.upload_dir.as_str(),
                    submission.slug.as_str(),
                );
                Step::Ask {
                    query: Query::RemoveDirectory { path },
                    next: DeleteStage::Files { admin_id, admin_name, submission },
                }
            },
            Fetched::Missing => Step::fail(NOT_FOUND, "Submission not found"),
            Fetched::Failed => Step::fail(INTERNAL_SERVER_ERROR, "Database error"),
        },
        DeleteStage::Files { admin_id, admin_name, submission } => Step::Ask {
            query: Query::DeleteSubmission { id: submission.id },
            next: DeleteStage::Delete { admin_id, admin_name, submission },
        },
        DeleteStage::Delete { admin_id, admin_name, submission } => {
            if !answer.is_done() {
                return Step::fail(INTERNAL_SERVER_ERROR, "Failed to delete submission");
            }
            let id = submission.id;
            let slug = submission.slug.clone();
            let entry = AuditEntry::with_details(
                "data_deleted",
                "submission",
                Some(id),
                "admin",
                Some(admin_id),
                AuditDetails::Deleted {
                    slug: submission.slug,
                    submitter_name: submission.submitter_name,
                    organization: submission.organization,
                    deleted_by: admin_name,
                },
            );
            let outcome = Outcome::success(OK, Payload::Deleted { id, slug }).and_then(
                Query::Audit { entry },
            );
            Step::Finish(outcome)
        },
    }
}

// ---------------------------------------------------------------------------
// The dashboard
// ---------------------------------------------------------------------------

/// How far the dashboard has come.
#[derive(Debug)]
pub enum StatsStage {
    /// The number of dossiers in each status was asked for.
    Statuses,
    /// The number of documents was asked for.
    Documents { submissions_by_status: Vec<(String, i64)> },
    /// The number of slots that can still be booked was asked for.
    Slots { submissions_by_status: Vec<(String, i64)>, total_documents: i64 },
}

/// Begins the dashboard.
pub fn get_dashboard_stats_start() -> (step: Step<StatsStage>)
    ensures
        step == (Step::Ask { query: Query::CountByStatus, next: StatsStage::Statuses }),
{
    Step::Ask { query: Query::CountByStatus, next: StatsStage::Statuses }
}

/// A number that came back, and zero where none did.
pub open spec fn counted(count: Option<i64>) -> i64 {
    match count {
        Some(n) => n,
        None => 0,
    }
}

/// How the dashboard goes on: three numbers are asked for one after the
/// other, and one that cannot be had is shown as zero or as no dossiers.
pub open spec fn get_dashboard_stats_rule(stage: StatsStage, answer: Answer, step: Step<StatsStage>)
    -> bool {
    match stage {
        StatsStage::Statuses => step matches Step::Ask {
            query: Query::CountDocuments,
            next: StatsStage::Documents { submissions_by_status },
        } && submissions_by_status@ == listed(answer.counts()),
        StatsStage::Documents { submissions_by_status } => step == (Step::Ask {
            query: Query::CountOpenSlots,
            next: StatsStage::Slots {
                submissions_by_status,
                total_documents: counted(answer.count()),
            },
        }),
        StatsStage::Slots { submissions_by_status, total_documents } => step.succeeds_with(
            OK,
            Payload::Stats(
                DashboardStats {
                    submissions_by_status,
                    total_documents,
                    available_meeting_slots: counted(answer.count()),
                },
            ),
        ),
    }
}

/// Goes on with the dashboard.
pub fn get_dashboard_stats(stage: StatsStage, answer: Answer) -> (step: Step<StatsStage>)
    ensures
        get_dashboard_stats_rule(stage, answer, step),
{
    match stage {
        StatsStage::Statuses => {
            let submissions_by_status = match answer.into_counts() {
                Some(items) => items,
                None => Vec::new(),
            };
            Step::Ask {
                query: Query::CountDocuments,
                next: StatsStage::Documents { submissions_by_status },
            }
        },
        StatsStage::Documents { submissions_by_status } => {
            let total_documents = match answer.into_count() {
                Some(n) => n,
                None => 0,
            };
            Step::Ask {
                query: Query::CountOpenSlots,
                next: StatsStage::Slots { submissions_by_status, total_documents },
            }
        },
        StatsStage::Slots { submissions_by_status, total_documents } => {
            let available_meeting_slots = match answer.into_count() {
                Some(n) => n,
                None => 0,
            };
            Step::succeed(
                OK,
                Payload::Stats(
                    DashboardStats { submissions_by_status, total_documents, available_meeting_slots },
                ),
            )
        },
    }
}

// ---------------------------------------------------------------------------
// Exporting a dossier
// ---------------------------------------------------------------------------

/// How far an export has come.
#[derive(Debug)]
pub enum ExportStage {
    /// The dossier was asked for.
    Find { admin_name: String },
    /// The documents of the dossier were asked for.
    Documents { admin_name: String, submission: Submission },
}

/// Begins the export of a dossier: the dossier is asked for.
pub fn export_submission_json_start(admin_name: String, id: Id) -> (step: Step<ExportStage>)
    ensures
        step == (Step::Ask {
            query: Query::SubmissionById { id },
            next: ExportStage::Find { admin_name },
        }),
{
    Step::Ask { query: Query::SubmissionById { id }, next: ExportStage::Find { admin_name } }
}

/// What is exported of a dossier: the dossier with its documents as they are
/// shown, the moment of the export and the name of the administrator.
pub open spec fn exports(
    export: SubmissionExport,
    submission: Submission,
    documents: Seq<Document>,
    now: Timestamp,
    admin_name: String,
) -> bool {
    &&& shows(export.submission, submission, documents)
    &&& export.exported_at == now
    &&& export.exported_by == admin_name
}

fn export_of(
    submission: Submission,
    documents: Option<Vec<Document>>,
    now: Timestamp,
    admin_name: String,
) -> (export: SubmissionExport)
    ensures
        exports(export, submission, listed(documents), now, admin_name),
{
    SubmissionExport {
        submission: detail_of(submission, documents),
        exported_at: now,
        exported_by: admin_name,
    }
}

fn download_name(prefix: &str, slug: &str, suffix: &str) -> (name: String)
    ensures
        name@ == prefix@ + slug@ + suffix@,
{
    let mut name = String::new();
    push_text(&mut name, prefix);
    push_text(&mut name, slug);
    push_text(&mut name, suffix);
    name
}

/// How the export of a dossier goes on: the answer is a download named after
/// the dossier's slug.
pub open spec fn export_submission_json_rule(
    stage: ExportStage,
    answer: Answer,
    now: Timestamp,
    step: Step<ExportStage>,
) -> bool {
    match stage {
        ExportStage::Find { admin_name } => match answer.submission() {
            Fetched::Found(submission) => step == (Step::Ask {
                query: Query::DocumentsOf { submission_id: submission.id },
                next: ExportStage::Documents { admin_name, submission },
            }),
            Fetched::Missing => step.fails_with(NOT_FOUND, "Submission not found"@),
            Fetched::Failed => step.fails_with(INTERNAL_SERVER_ERROR, "Database error"@),
        },
        ExportStage::Documents { admin_name, submission } => {
            &&& step matches Step::Finish(outcome)
            &&& outcome.carries(OK, outcome.body.data->0)
            &&& outcome.body.data matches Some(Payload::Export(export))
            &&& exports(export, submission, listed(answer.documents()), now, admin_name)
            &&& outcome.set_cookie is None
            &&& outcome.attachment matches Some(name)
            &&& name@ == "submission_"@ + submission.slug@ + ".json"@
            &&& outcome.effects@.len() == 0
        },
    }
}

/// Goes on with the export of a dossier.
pub fn export_submission_json(stage: ExportStage, answer: Answer, now: Timestamp) -> (step: Step<
    ExportStage,
>)
    ensures
        export_submission_json_rule(stage, answer, now, step),
{
    match stage {
        ExportStage::Find { admin_name } => match answer.into_submission() {
            Fetched::Found(submission) => Step::Ask {
                query: Query::DocumentsOf { submission_id: submission.id },
                next: ExportStage::Documents { admin_name, submission },
            },
            Fetched::Missing => Step::fail(NOT_FOUND, "Submission not found"),
            Fetched::Failed => Step::fail(INTERNAL_SERVER_ERROR, "Database error"),
        },
        ExportStage::Documents { admin_name, submission } => {
            let name = download_name("submission_", submission.slug.as_str(), ".json");
            let export = export_of(submission, answer.into_documents(), now, admin_name);
            Step::Finish(Outcome::success(OK, Payload::Export(export)).with_attachment(name))
        },
    }
}

// ---------------------------------------------------------------------------
// Exporting a dossier's files
// ---------------------------------------------------------------------------

/// The stored file that is read next, and under which name it goes into the
/// archive.
#[derive(Debug)]
pub struct PendingEntry {
    pub path: String,
    pub name: String,
}

/// How far the export of a dossier's files has come.
#[derive(Debug)]
pub enum FilesStage {
    /// The dossier was asked for.
    Find { admin_name: String },
    /// The documents of the dossier were asked for.
    Documents { admin_name: String, submission: Submission },
    /// The description of the dossier was asked for as text.
    Describe { slug: String, pending: Vec<PendingEntry> },
    /// The file at position `at` of those to read was asked for.
    Read { slug: String, metadata: String, pending: Vec<PendingEntry>, at: usize, files: Vec<ExportFile> },
}

/// Begins the export of a dossier's files: the dossier is asked for.
pub fn export_submission_files_start(admin_name: String, id: Id) -> (step: Step<FilesStage>)
    ensures
        step == (Step::Ask {
            query: Query::SubmissionById { id },
            next: FilesStage::Find { admin_name },
        }),
{
    Step::Ask { query: Query::SubmissionById { id }, next: FilesStage::Find { admin_name } }
}

/// The name under which a document's file goes into the archive: the name
/// that the client gave, else the name under which it is stored, else
/// `unknown`.
pub open spec fn entry_name(document: Document) -> Seq<char> {
    match document.original_filename {
        Some(name) => name@,
        None => match document.filename {
            Some(name) => name@,
            None => "unknown"@,
        },
    }
}

/// The files to read for an export: one for each document that has a file,
/// in the order of the documents.
pub open spec fn pending_entries(documents: Seq<Document>) -> Seq<(Seq<char>, Seq<char>)>
    decreases documents.len(),
{
    if documents.len() == 0 {
        Seq::empty()
    } else {
        let before = pending_entries(documents.drop_last());
        match documents.last().file_path {
            Some(path) => before.push((path@, entry_name(documents.last()))),
            None => before,
        }
    }
}

/// The paths and names of the files to read.
pub open spec fn entries_view(pending: Seq<PendingEntry>) -> Seq<(Seq<char>, Seq<char>)> {
    Seq::new(pending.len(), |i: int| (pending[i].path@, pending[i].name@))
}

fn files_to_read(documents: &Vec<Document>) -> (pending: Vec<PendingEntry>)
    ensures
        entries_view(pending@) == pending_entries(documents@),
{
    let mut pending: Vec<PendingEntry> = Vec::new();
    let mut i: usize = 0;
    while i < documents.len()
        invariant
            i <= documents.len(),
            entries_view(pending@) == pending_entries(documents@.take(i as int)),
        decreases documents.len() - i,
    {
        let document = &documents[i];
        proof {
            assert(documents@.take(i + 1).drop_last() =~= documents@.take(i as int));
            assert(documents@.take(i + 1).last() == documents@[i as int]);
        }
        match &document.file_path {
            Some(path) => {
                let name = match &document.original_filename {
                    Some(name) => name.clone(),
                    None => match &document.filename {
                        Some(name) => name.clone(),
                        None => "unknown".to_owned(),
                    },
                };
                let ghost before = entries_view(pending@);
                pending.push(PendingEntry { path: path.clone(), name });
                proof {
                    assert(entries_view(pending@) =~= before.push(
                        (path@, entry_name(documents@[i as int])),
                    ));
                }
            },
            None => {},
        }
        i = i + 1;
    }
    proof {
        assert(documents@.take(i as int) =~= documents@);
    }
    pending
}

/// What the export of a dossier's files does once the description is at
/// hand. While files are left to read, the next one is asked for. Else the
/// archive is made of the description and the files that could be read, and
/// the answer is a download named after the dossier's slug.
pub open spec fn export_files_next(
    slug: String,
    metadata: String,
    pending: Vec<PendingEntry>,
    at: int,
    files: Seq<ExportFile>,
    step: Step<FilesStage>,
) -> bool {
    if at < pending@.len() {
        &&& step matches Step::Ask {
            query: Query::ReadFile { path },
            next: FilesStage::Read {
                slug: kept_slug,
                metadata: kept_metadata,
                pending: kept_pending,
                at: kept_at,
                files: kept_files,
            },
        }
        &&& path@ == pending@[at].path@
        &&& kept_slug == slug
        &&& kept_metadata == metadata
        &&& kept_pending == pending
        &&& kept_at == at
        &&& kept_files@ == files
    } else {
        &&& step matches Step::Finish(outcome)
        &&& outcome.carries(OK, outcome.body.data->0)
        &&& outcome.body.data matches Some(Payload::Archive { bytes, complete })
        &&& complete == zip_takes(export_entries(metadata@, files))
        &&& complete ==> Some(bytes@) == zip_bytes(export_entries(metadata@, files))
        &&& outcome.set_cookie is None
        &&& outcome.attachment matches Some(name)
        &&& name@ == "submission_"@ + slug@ + "_files.zip"@
        &&& outcome.effects@.len() == 0
    }
}

fn export_files_advance(
    slug: String,
    metadata: String,
    pending: Vec<PendingEntry>,
    at: usize,
    files: Vec<ExportFile>,
) -> (step: Step<FilesStage>)
    ensures
        export_files_next(slug, metadata, pending, at as int, files@, step),
{
    if at < pending.len() {
        let path = pending[at].path.clone();
        return Step::Ask {
            query: Query::ReadFile { path },
            next: FilesStage::Read { slug, metadata, pending, at, files },
        };
    }
    let name = download_name("submission_", slug.as_str(), "_files.zip");
    let (bytes, complete) = build_archive(metadata.as_str(), &files);
    Step::Finish(
        Outcome::success(OK, Payload::Archive { bytes, complete }).with_attachment(name),
    )
}

/// The files read so far with one more, where its bytes could be had.
pub open spec fn with_file(files: Seq<ExportFile>, name: String, bytes: Option<Vec<u8>>) -> Seq<
    ExportFile,
> {
    match bytes {
        Some(data) => files.push(ExportFile { name, data }),
        None => files,
    }
}

/// How the export of a dossier's files goes on.
///
/// The description of the dossier is made as for the export of the dossier
/// and written down outside; it goes into the archive first, and empty where
/// it could not be written. Each document that has a file is read; a file
/// that is missing or cannot be read is left out.
pub open spec fn export_submission_files_rule(
    stage: FilesStage,
    answer: Answer,
    now: Timestamp,
    step: Step<FilesStage>,
) -> bool {
    match stage {
        FilesStage::Find { admin_name } => match answer.submission() {
            Fetched::Found(submission) => step == (Step::Ask {
                query: Query::DocumentsOf { submission_id: submission.id },
                next: FilesStage::Documents { admin_name, submission },
            }),
            Fetched::Missing => step.fails_with(NOT_FOUND, "Submission not found"@),
            Fetched::Failed => step.fails_with(INTERNAL_SERVER_ERROR, "Database error"@),
        },
        FilesStage::Documents { admin_name, submission } => {
            &&& step matches Step::Ask {
                query: Query::DescribeExport { export },
                next: FilesStage::Describe { slug, pending },
            }
            &&& exports(export, submission, listed(answer.documents()), now, admin_name)
            &&& slug@ == submission.slug@
            &&& entries_view(pending@) == pending_entries(listed(answer.documents()))
        },
        FilesStage::Describe { slug, pending } => exists|metadata: String|
            {
                &&& metadata@ == match answer.text() {
                    Some(text) => text@,
                    None => Seq::<char>::empty(),
                }
                &&& #[trigger] export_files_next(
                    slug,
                    metadata,
                    pending,
                    0,
                    Seq::<ExportFile>::empty(),
                    step,
                )
            },
        FilesStage::Read { slug, metadata, pending, at, files } => if at < pending@.len() {
            export_files_next(
                slug,
                metadata,
                pending,
                at + 1,
                with_file(files@, pending@[at as int].name, answer.bytes()),
                step,
            )
        } else {
            export_files_next(slug, metadata, pending, at as int, files@, step)
        },
    }
}

/// Goes on with the export of a dossier's files.
pub fn export_submission_files(stage: FilesStage, answer: Answer, now: Timestamp) -> (step: Step<
    FilesStage,
>)
    ensures
        export_submission_files_rule(stage, answer, now, step),
{
    match stage {
        FilesStage::Find { admin_name } => match answer.into_submission() {
            Fetched::Found(submission) => Step::Ask {
                query: Query::DocumentsOf { submission_id: submission.id },
                next: FilesStage::Documents { admin_name, submission },
            },
            Fetched::Missing => Step::fail(NOT_FOUND, "Submission not found"),
            Fetched::Failed => Step::fail(INTERNAL_SERVER_ERROR, "Database error"),
        },
        FilesStage::Documents { admin_name, submission } => {
            let documents = answer.into_documents();
            let pending = match &documents {
                Some(items) => files_to_read(items),
                None => {
                    let none: Vec<Document> = Vec::new();
                    files_to_read(&none)
                },
            };
            let slug = submission.slug.clone();
            let export = export_of(submission, documents, now, admin_name);
            Step::Ask {
                query: Query::DescribeExport { export },
                next: FilesStage::Describe { slug, pending },
            }
        },
        FilesStage::Describe { slug, pending } => {
            let metadata = match answer.into_text() {
                Some(text) => text,
                None => String::new(),
            };
            let files: Vec<ExportFile> = Vec::new();
            let ghost witness = metadata;
            proof {
                assert(files@ =~= Seq::<ExportFile>::empty());
            }
            let step = export_files_advance(slug, metadata, pending, 0, files);
            proof {
                assert(export_files_next(
                    slug,
                    witness,
                    pending,
                    0,
                    Seq::<ExportFile>::empty(),
                    step,
                ));
            }
            step
        },
        FilesStage::Read { slug, metadata, pending, at, files } => {
            let mut files = files;
            if at >= pending.len() {
                return export_files_advance(slug, metadata, pending, at, files);
            }
            match answer.into_bytes() {
                Some(data) => {
                    let name = pending[at].name.clone();
                    files.push(ExportFile { name, data });
                },
                None => {},
            }
            export_files_advance(slug, metadata, pending, at + 1, files)
        },
    }
}

// ---------------------------------------------------------------------------
// Housekeeping
// ---------------------------------------------------------------------------

/// Seconds between two rounds of housekeeping: an hour.
pub const HOUSEKEEPING_INTERVAL_SECONDS: u64 = 3600;

/// What a sweep of abandoned drafts found and what is left to do.
#[derive(Debug)]
pub struct Cleanup {
    /// The number of drafts that were deleted, or nothing where the sweep
    /// failed.
    pub deleted: Option<u64>,
    /// The directories of the deleted drafts, to be removed.
    pub effects: Vec<Query>,
}

/// How far a sweep of abandoned drafts has come.
#[derive(Debug)]
pub enum CleanupStage {
    /// The deleting of the abandoned drafts was asked for.
    Delete,
}

/// Begins a sweep of abandoned drafts: the drafts that are older than an
/// hour are deleted by one statement that hands them back, so that no draft
/// is found by one statement and deleted by another.
pub fn cleanup_abandoned_drafts_start() -> (step: Inquiry<CleanupStage, Cleanup>)
    ensures
        step == (Inquiry::<CleanupStage, Cleanup>::Ask {
            query: Query::DeleteAbandonedDrafts,
            next: CleanupStage::Delete,
        }),
{
    Inquiry::Ask { query: Query::DeleteAbandonedDrafts, next: CleanupStage::Delete }
}

/// The piece of work removes the directory at the path.
pub open spec fn removes_directory(work: Query, path: Seq<char>) -> bool {
    work matches Query::RemoveDirectory { path: asked } && asked@ == path
}

/// How a sweep of abandoned drafts ends: with the number of drafts that were
/// deleted, and with the directory of each of them to be removed, in their
/// order.
pub open spec fn cleanup_abandoned_drafts_rule(
    state: AppState,
    answer: Answer,
    step: Inquiry<CleanupStage, Cleanup>,
) -> bool {
    &&& step matches Inquiry::Known(cleanup)
    &&& match answer.submissions() {
        None => cleanup.deleted is None && cleanup.effects@.len() == 0,
        Some(drafts) => {
            &&& cleanup.deleted == Some(drafts@.len() as u64)
            &&& cleanup.effects@.len() == drafts@.len()
            &&& forall|i: int|
                0 <= i < drafts@.len() ==> removes_directory(
                    #[trigger] cleanup.effects@[i],
                    joined(state.upload_dir@, drafts@[i].slug@),
                )
        },
    }
}

/// Ends a sweep of abandoned drafts.
pub fn cleanup_abandoned_drafts(state: &AppState, stage: CleanupStage, answer: Answer) -> (step:
    Inquiry<CleanupStage, Cleanup>)
    ensures
        cleanup_abandoned_drafts_rule(*state, answer, step),
{
    match answer.into_submissions() {
        None => Inquiry::Known(Cleanup { deleted: None, effects: Vec::new() }),
        Some(drafts) => {
            let mut effects: Vec<Query> = Vec::new();
            let mut i: usize = 0;
            while i < drafts.len()
                invariant
                    i <= drafts.len(),
                    effects@.len() == i,
                    forall|k: int|
                        0 <= k < i ==> removes_directory(
                            #[trigger] effects@[k],
                            joined(state.upload_dir@, drafts@[k].slug@),
                        ),
                decreases drafts.len() - i,
            {
                let path = submission_directory(
                    state.upload_dir.as_str(),
                    drafts[i].slug.as_str(),
                );
                effects.push(Query::RemoveDirectory { path });
                i = i + 1;
            }
            Inquiry::Known(Cleanup { deleted: Some(drafts.len() as u64), effects })
        },
    }
}

/// What is swept every hour: attempts that no longer count, administrators'
/// sessions that have expired, and abandoned drafts.
pub fn housekeeping() -> (work: Vec<Query>)
    ensures
        work@ == seq![
            Query::DeleteOldAttempts,
            Query::DeleteExpiredAdminSessions,
            Query::DeleteAbandonedDrafts,
        ],
{
    let mut work: Vec<Query> = Vec::new();
    work.push(Query::DeleteOldAttempts);
    work.push(Query::DeleteExpiredAdminSessions);
    work.push(Query::DeleteAbandonedDrafts);
    proof {
        assert(work@ =~= seq![
            Query::DeleteOldAttempts,
            Query::DeleteExpiredAdminSessions,
            Query::DeleteAbandonedDrafts,
        ]);
    }
    work
}

} // verus!
