//! Checks on what applicants send: dossier fields, slugs, links, uploads.

use vstd::prelude::*;
use crate::models::{CreateSubmission, DocumentClassification};
use crate::text::{
    blank, chars_of, contains, contains_char, contains_text, decimal_text, ends_with, find_char,
    first_index_of, is_ascii_text, is_blank, lemma_lowercase_of_ascii, lemma_utf8_len_ascii,
    lowercase, occurs_at,
    push_decimal, push_text, same_text, slice_of, starts_with, to_lowercase, unicode_whitespace,
    utf8_len, utf8_len_exceeds,
};

verus! {

// ---------------------------------------------------------------------------
// Errors
// ---------------------------------------------------------------------------

/// Why an input was refused.
#[derive(Debug)]
pub enum ValidationError {
    Required { field: String },
    TooLong { field: String, max: usize },
    TooShort { field: String, min: usize },
    InvalidEmail,
    InvalidUrl,
    InvalidSlug,
    RestrictedDocument,
    InvalidFileType { mime_type: String },
    FileTooLarge { max_mb: usize },
}

/// A `ValidationError` with its texts as character sequences.
pub enum Fault {
    Required { field: Seq<char> },
    TooLong { field: Seq<char>, max: usize },
    TooShort { field: Seq<char>, min: usize },
    InvalidEmail,
    InvalidUrl,
    InvalidSlug,
    RestrictedDocument,
    InvalidFileType { mime_type: Seq<char> },
    FileTooLarge { max_mb: usize },
}

impl View for ValidationError {
    type V = Fault;

    open spec fn view(&self) -> Fault {
        match *self {
            ValidationError::Required { field } => Fault::Required { field: field@ },
            ValidationError::TooLong { field, max } => Fault::TooLong { field: field@, max },
            ValidationError::TooShort { field, min } => Fault::TooShort { field: field@, min },
            ValidationError::InvalidEmail => Fault::InvalidEmail,
            ValidationError::InvalidUrl => Fault::InvalidUrl,
            ValidationError::InvalidSlug => Fault::InvalidSlug,
            ValidationError::RestrictedDocument => Fault::RestrictedDocument,
            ValidationError::InvalidFileType { mime_type } => Fault::InvalidFileType {
                mime_type: mime_type@,
            },
            ValidationError::FileTooLarge { max_mb } => Fault::FileTooLarge { max_mb },
        }
    }
}

impl Fault {
    /// The sentence shown to the caller.
    pub open spec fn message(self) -> Seq<char> {
        match self {
            Fault::Required { field } => "Field '"@ + field + "' is required"@,
            Fault::TooLong { field, max } => "Field '"@ + field + "' is too long (max "@
                + decimal_text(max as nat) + " characters)"@,
            Fault::TooShort { field, min } => "Field '"@ + field + "' is too short (min "@
                + decimal_text(min as nat) + " characters)"@,
            Fault::InvalidEmail => "Invalid email format"@,
            Fault::InvalidUrl => "Invalid URL format"@,
            Fault::InvalidSlug =>
                "Invalid slug format (must be lowercase alphanumeric with hyphens)"@,
            Fault::RestrictedDocument => "Restricted documents cannot be uploaded"@,
            Fault::InvalidFileType { mime_type } => "Invalid file type: "@ + mime_type,
            Fault::FileTooLarge { max_mb } => "File too large (max "@ + decimal_text(
                max_mb as nat,
            ) + " MB)"@,
        }
    }
}

impl ValidationError {
    /// The sentence shown to the caller.
    pub fn message(&self) -> (s: String)
        ensures
            s@ == self@.message(),
    {
        let mut s = String::new();
        match self {
            ValidationError::Required { field } => {
                push_text(&mut s, "Field '");
                push_text(&mut s, field.as_str());
                push_text(&mut s, "' is required");
            },
            ValidationError::TooLong { field, max } => {
                push_text(&mut s, "Field '");
                push_text(&mut s, field.as_str());
                push_text(&mut s, "' is too long (max ");
                push_decimal(&mut s, *max as u64);
                push_text(&mut s, " characters)");
            },
            ValidationError::TooShort { field, min } => {
                push_text(&mut s, "Field '");
                push_text(&mut s, field.as_str());
                push_text(&mut s, "' is too short (min ");
                push_decimal(&mut s, *min as u64);
                push_text(&mut s, " characters)");
            },
            ValidationError::InvalidEmail => {
                push_text(&mut s, "Invalid email format");
            },
            ValidationError::InvalidUrl => {
                push_text(&mut s, "Invalid URL format");
            },
            ValidationError::InvalidSlug => {
                push_text(
                    &mut s,
                    "Invalid slug format (must be lowercase alphanumeric with hyphens)",
                );
            },
            ValidationError::RestrictedDocument => {
                push_text(&mut s, "Restricted documents cannot be uploaded");
            },
            ValidationError::InvalidFileType { mime_type } => {
                push_text(&mut s, "Invalid file type: ");
                push_text(&mut s, mime_type.as_str());
            },
            ValidationError::FileTooLarge { max_mb } => {
                push_text(&mut s, "File too large (max ");
                push_decimal(&mut s, *max_mb as u64);
                push_text(&mut s, " MB)");
            },
        }
        proof {
            assert(s@ =~= self@.message());
        }
        s
    }
}

/// The outcome of a check, as a fault or none.
pub open spec fn fault_of(r: Result<(), ValidationError>) -> Option<Fault> {
    match r {
        Ok(_) => None,
        Err(e) => Some(e@),
    }
}

// ---------------------------------------------------------------------------
// E-mail addresses
// ---------------------------------------------------------------------------

/// An address has one `@`, something before it, and after it a domain with a
/// dot that takes more than two bytes.
pub open spec fn valid_email(s: Seq<char>) -> bool {
    let at = first_index_of(s, '@');
    let domain = s.skip(at + 1);
    &&& 0 < at < s.len()
    &&& domain.len() > 0
    &&& !domain.contains('@')
    &&& domain.contains('.')
    &&& utf8_len(domain) > 2
}

/// Whether the text has the shape of an e-mail address.
pub fn is_valid_email(email: &str) -> (r: bool)
    ensures
        r == valid_email(email@),
{
    let s = chars_of(email);
    let at = find_char(s.as_slice(), '@');
    if at == 0 || at >= s.len() {
        return false;
    }
    let domain = slice_of(s.as_slice(), at + 1, s.len());
    !domain.is_empty() && !contains_char(domain.as_slice(), '@') && contains_char(
        domain.as_slice(),
        '.',
    ) && utf8_len_exceeds(domain.as_slice(), 2)
}

// ---------------------------------------------------------------------------
// Dossier fields
// ---------------------------------------------------------------------------

/// The longest a name, organization or department may be, in bytes.
pub const MAX_FIELD_BYTES: usize = 255;

/// The first rule that a new dossier's fields break, if any.
pub open spec fn create_submission_fault(input: CreateSubmission) -> Option<Fault> {
    if is_blank(input.submitter_name@) {
        Some(Fault::Required { field: "submitter_name"@ })
    } else if utf8_len(input.submitter_name@) > MAX_FIELD_BYTES {
        Some(Fault::TooLong { field: "submitter_name"@, max: MAX_FIELD_BYTES })
    } else if is_blank(input.organization@) {
        Some(Fault::Required { field: "organization"@ })
    } else if utf8_len(input.organization@) > MAX_FIELD_BYTES {
        Some(Fault::TooLong { field: "organization"@, max: MAX_FIELD_BYTES })
    } else if input.submitter_email matches Some(email) && email@.len() > 0 && !valid_email(
        email@,
    ) {
        Some(Fault::InvalidEmail)
    } else if input.organization_department matches Some(dept) && utf8_len(dept@)
        > MAX_FIELD_BYTES {
        Some(Fault::TooLong { field: "organization_department"@, max: MAX_FIELD_BYTES })
    } else {
        None
    }
}

/// A text of at most 255 ASCII characters, the first of which is a letter or
/// a digit, is neither blank nor too long for a field.
pub proof fn lemma_plain_text_fits_a_field(s: Seq<char>)
    requires
        0 < s.len() <= MAX_FIELD_BYTES,
        is_ascii_text(s),
        0x30 <= s[0] as u32 <= 0x39 || 0x41 <= s[0] as u32 <= 0x5A || 0x61 <= s[0] as u32
            <= 0x7A,
    ensures
        !is_blank(s),
        utf8_len(s) <= MAX_FIELD_BYTES,
{
    assert(!unicode_whitespace(s[0]));
    lemma_utf8_len_ascii(s);
}

/// A request in the name of Jan of Gemeente X, with neither an address nor
/// a department, breaks no rule.
pub proof fn lemma_request_of_jan_is_valid(input: CreateSubmission)
    requires
        input.submitter_name@ == "Jan"@,
        input.organization@ == "Gemeente X"@,
        input.submitter_email is None,
        input.organization_department is None,
    ensures
        create_submission_fault(input) is None,
{
    reveal_strlit("Jan");
    reveal_strlit("Gemeente X");
    lemma_plain_text_fits_a_field("Jan"@);
    lemma_plain_text_fits_a_field("Gemeente X"@);
}

/// Checks the fields of a new dossier: name and organization are required and
/// bounded, the e-mail address is checked where one is given, the department
/// is bounded.
pub fn validate_create_submission(input: &CreateSubmission) -> (r: Result<(), ValidationError>)
    ensures
        fault_of(r) == create_submission_fault(*input),
{
    let name = chars_of(input.submitter_name.as_str());
    if blank(name.as_slice()) {
        return Err(ValidationError::Required { field: "submitter_name".to_owned() });
    }
    if utf8_len_exceeds(name.as_slice(), MAX_FIELD_BYTES) {
        return Err(
            ValidationError::TooLong { field: "submitter_name".to_owned(), max: MAX_FIELD_BYTES },
        );
    }
    let organization = chars_of(input.organization.as_str());
    if blank(organization.as_slice()) {
        return Err(ValidationError::Required { field: "organization".to_owned() });
    }
    if utf8_len_exceeds(organization.as_slice(), MAX_FIELD_BYTES) {
        return Err(
            ValidationError::TooLong { field: "organization".to_owned(), max: MAX_FIELD_BYTES },
        );
    }
    match &input.submitter_email {
        Some(email) => {
            if !email.as_str().is_empty() && !is_valid_email(email.as_str()) {
                return Err(ValidationError::InvalidEmail);
            }
        },
        None => {},
    }
    match &input.organization_department {
        Some(dept) => {
            let dept_chars = chars_of(dept.as_str());
            if utf8_len_exceeds(dept_chars.as_slice(), MAX_FIELD_BYTES) {
                return Err(
                    ValidationError::TooLong {
                        field: "organization_department".to_owned(),
                        max: MAX_FIELD_BYTES,
                    },
                );
            }
        },
        None => {},
    }
    Ok(())
}

// ---------------------------------------------------------------------------
// Links
// ---------------------------------------------------------------------------

/// The longest a link may be, in bytes.
pub const MAX_URL_BYTES: usize = 2048;

/// The first rule that a link breaks, if any.
pub open spec fn external_url_fault(url: Seq<char>) -> Option<Fault> {
    if is_blank(url) {
        Some(Fault::Required { field: "external_url"@ })
    } else if !"https://"@.is_prefix_of(url) && !"http://"@.is_prefix_of(url) {
        Some(Fault::InvalidUrl)
    } else if utf8_len(url) > MAX_URL_BYTES {
        Some(Fault::TooLong { field: "external_url"@, max: MAX_URL_BYTES })
    } else {
        None
    }
}

/// Checks a link to a formal law: it is required, begins with `https://` or
/// `http://`, and is bounded.
pub fn validate_external_url(url: &str) -> (r: Result<(), ValidationError>)
    ensures
        fault_of(r) == external_url_fault(url@),
{
    let s = chars_of(url);
    if blank(s.as_slice()) {
        return Err(ValidationError::Required { field: "external_url".to_owned() });
    }
    let https = chars_of("https://");
    let http = chars_of("http://");
    if !starts_with(s.as_slice(), https.as_slice()) && !starts_with(s.as_slice(), http.as_slice()) {
        return Err(ValidationError::InvalidUrl);
    }
    if utf8_len_exceeds(s.as_slice(), MAX_URL_BYTES) {
        return Err(ValidationError::TooLong { field: "external_url".to_owned(), max: MAX_URL_BYTES });
    }
    Ok(())
}

/// Whether a link points to the canonical source of legal texts. A link that
/// does not is accepted all the same; callers may want to note it.
pub fn is_canonical_law_source(url: &str) -> (r: bool)
    ensures
        r == contains_text(url@, "wetten.overheid.nl"@),
{
    let s = chars_of(url);
    let host = chars_of("wetten.overheid.nl");
    contains(s.as_slice(), host.as_slice())
}

// ---------------------------------------------------------------------------
// Slugs
// ---------------------------------------------------------------------------

/// The longest a slug may be.
pub const MAX_SLUG_LEN: usize = 50;

/// A lower-case ASCII letter or a digit.
pub open spec fn slug_letter(c: char) -> bool {
    ('a' <= c && c <= 'z') || ('0' <= c && c <= '9')
}

/// A slug is one to fifty lower-case letters, digits and hyphens, with no
/// hyphen at either end.
pub open spec fn valid_slug(s: Seq<char>) -> bool {
    &&& 1 <= s.len() <= MAX_SLUG_LEN
    &&& forall|i: int| 0 <= i < s.len() ==> slug_letter(#[trigger] s[i]) || s[i] == '-'
    &&& s.first() != '-'
    &&& s.last() != '-'
}

/// The pattern `[a-z0-9]([a-z0-9-]*[a-z0-9])?`, matched against the whole
/// text.
pub open spec fn matches_slug_pattern(s: Seq<char>) -> bool {
    &&& s.len() >= 1
    &&& slug_letter(s.first())
    &&& s.len() >= 2 ==> {
        &&& slug_letter(s.last())
        &&& forall|i: int| 1 <= i < s.len() - 1 ==> slug_letter(#[trigger] s[i]) || s[i] == '-'
    }
}

/// The valid slugs are the texts of at most fifty characters that match the
/// slug pattern.
pub proof fn lemma_valid_slug_is_pattern(s: Seq<char>)
    ensures
        valid_slug(s) <==> matches_slug_pattern(s) && s.len() <= MAX_SLUG_LEN,
{
    if valid_slug(s) {
        assert(slug_letter(s[0]) || s[0] == '-');
        assert(slug_letter(s[s.len() - 1]) || s[s.len() - 1] == '-');
    }
    if matches_slug_pattern(s) && s.len() <= MAX_SLUG_LEN {
        assert forall|i: int| 0 <= i < s.len() implies slug_letter(#[trigger] s[i]) || s[i]
            == '-' by {
            if i == 0 {
            } else if i == s.len() - 1 {
            } else {
            }
        }
    }
}

/// No text with an upper-case letter, with a hyphen at either end, without
/// characters or with more than fifty of them is a valid slug.
pub proof fn lemma_invalid_slugs(s: Seq<char>)
    requires
        s.len() == 0 || s.len() > MAX_SLUG_LEN || s.first() == '-' || s.last() == '-' || exists|
            i: int,
        |
            0 <= i < s.len() && 'A' <= #[trigger] s[i] && s[i] <= 'Z',
    ensures
        !valid_slug(s),
{
    if exists|i: int| 0 <= i < s.len() && 'A' <= #[trigger] s[i] && s[i] <= 'Z' {
        let i = choose|i: int| 0 <= i < s.len() && 'A' <= #[trigger] s[i] && s[i] <= 'Z';
        assert(!(slug_letter(s[i]) || s[i] == '-'));
    }
}

/// A valid slug takes as many bytes as it has characters.
pub proof fn lemma_valid_slug_is_ascii(s: Seq<char>)
    requires
        valid_slug(s),
    ensures
        utf8_len(s) == s.len(),
{
    assert forall|i: int| 0 <= i < s.len() implies (#[trigger] s[i] as u32) < 0x80 by {
        assert(slug_letter(s[i]) || s[i] == '-');
    }
    lemma_utf8_len_ascii(s);
}

fn is_slug_char(c: char) -> (r: bool)
    ensures
        r == (slug_letter(c) || c == '-'),
{
    let n: u32 = c as u32;
    (0x61 <= n && n <= 0x7a) || (0x30 <= n && n <= 0x39) || n == 0x2d
}

/// Checks that a text is a slug.
pub fn validate_slug(slug: &str) -> (r: Result<(), ValidationError>)
    ensures
        r is Ok <==> valid_slug(slug@),
        r matches Err(e) ==> e@ == Fault::InvalidSlug,
{
    let s = chars_of(slug);
    if s.len() == 0 || s.len() > MAX_SLUG_LEN {
        return Err(ValidationError::InvalidSlug);
    }
    let mut i: usize = 0;
    while i < s.len()
        invariant
            i <= s.len(),
            s@ == slug@,
            forall|k: int| 0 <= k < i ==> slug_letter(#[trigger] s@[k]) || s@[k] == '-',
        decreases s.len() - i,
    {
        if !is_slug_char(s[i]) {
            proof {
                assert(!(slug_letter(s@[i as int]) || s@[i as int] == '-'));
            }
            return Err(ValidationError::InvalidSlug);
        }
        i = i + 1;
    }
    if s[0] == '-' || s[s.len() - 1] == '-' {
        return Err(ValidationError::InvalidSlug);
    }
    Ok(())
}

// ---------------------------------------------------------------------------
// Classification
// ---------------------------------------------------------------------------

/// Refuses restricted documents; every other classification may be stored.
pub fn validate_classification_for_upload(classification: DocumentClassification) -> (r: Result<
    (),
    ValidationError,
>)
    ensures
        r is Ok <==> classification != DocumentClassification::Restricted,
        r matches Err(e) ==> e@ == Fault::RestrictedDocument,
{
    match classification {
        DocumentClassification::Restricted => Err(ValidationError::RestrictedDocument),
        _ => Ok(()),
    }
}

// ---------------------------------------------------------------------------
// Uploaded files
// ---------------------------------------------------------------------------

/// The media types that may be stored: office and document formats and plain
/// text. Markup and executable types are left out.
pub open spec fn allowed_mime_types() -> Seq<Seq<char>> {
    seq![
        "application/pdf"@,
        "application/msword"@,
        "application/vnd.openxmlformats-officedocument.wordprocessingml.document"@,
        "application/vnd.ms-excel"@,
        "application/vnd.openxmlformats-officedocument.spreadsheetml.sheet"@,
        "application/vnd.ms-powerpoint"@,
        "application/vnd.openxmlformats-officedocument.presentationml.presentation"@,
        "application/vnd.oasis.opendocument.text"@,
        "application/rtf"@,
        "text/plain"@,
        "text/markdown"@,
        "text/csv"@,
    ]
}

fn allowed_mime_type_list() -> (list: Vec<&'static str>)
    ensures
        list@.len() == allowed_mime_types().len(),
        forall|i: int| 0 <= i < list@.len() ==> (#[trigger] list@[i])@ == allowed_mime_types()[i],
{
    vec![
        "application/pdf",
        "application/msword",
        "application/vnd.openxmlformats-officedocument.wordprocessingml.document",
        "application/vnd.ms-excel",
        "application/vnd.openxmlformats-officedocument.spreadsheetml.sheet",
        "application/vnd.ms-powerpoint",
        "application/vnd.openxmlformats-officedocument.presentationml.presentation",
        "application/vnd.oasis.opendocument.text",
        "application/rtf",
        "text/plain",
        "text/markdown",
        "text/csv",
    ]
}

/// The first rule that an upload breaks, if any: its size, then its declared
/// media type.
pub open spec fn file_upload_fault(mime_type: Seq<char>, file_size: usize, max_size_bytes: usize)
    -> Option<Fault> {
    if file_size > max_size_bytes {
        Some(Fault::FileTooLarge { max_mb: (max_size_bytes / 1048576) as usize })
    } else if !allowed_mime_types().contains(mime_type) {
        Some(Fault::InvalidFileType { mime_type })
    } else {
        None
    }
}

/// Checks an upload's size against the limit and its declared media type
/// against the allowed ones.
pub fn validate_file_upload(mime_type: &str, file_size: usize, max_size_bytes: usize) -> (r:
    Result<(), ValidationError>)
    ensures
        fault_of(r) == file_upload_fault(mime_type@, file_size, max_size_bytes),
{
    if file_size > max_size_bytes {
        return Err(ValidationError::FileTooLarge { max_mb: max_size_bytes / 1048576 });
    }
    let given = chars_of(mime_type);
    let allowed = allowed_mime_type_list();
    let mut i: usize = 0;
    while i < allowed.len()
        invariant
            i <= allowed.len(),
            given@ == mime_type@,
            file_size <= max_size_bytes,
            allowed@.len() == allowed_mime_types().len(),
            forall|k: int|
                0 <= k < allowed@.len() ==> (#[trigger] allowed@[k])@ == allowed_mime_types()[k],
            forall|k: int| 0 <= k < i ==> allowed_mime_types()[k] != mime_type@,
        decreases allowed.len() - i,
    {
        let candidate = chars_of(allowed[i]);
        if same_text(given.as_slice(), candidate.as_slice()) {
            proof {
                assert(allowed_mime_types()[i as int] == mime_type@);
            }
            return Ok(());
        }
        i = i + 1;
    }
    Err(ValidationError::InvalidFileType { mime_type: mime_type.to_owned() })
}

/// Endings of file names that a misconfigured server might run: server-side
/// scripts, programs, scripts for browsers, server configuration, Java
/// archives.
pub open spec fn dangerous_extensions() -> Seq<Seq<char>> {
    seq![
        ".php"@,
        ".phtml"@,
        ".php3"@,
        ".php4"@,
        ".php5"@,
        ".php7"@,
        ".phps"@,
        ".asp"@,
        ".aspx"@,
        ".jsp"@,
        ".jspx"@,
        ".cgi"@,
        ".pl"@,
        ".py"@,
        ".pyc"@,
        ".pyo"@,
        ".rb"@,
        ".erb"@,
        ".exe"@,
        ".bat"@,
        ".cmd"@,
        ".com"@,
        ".msi"@,
        ".dll"@,
        ".sh"@,
        ".bash"@,
        ".zsh"@,
        ".ksh"@,
        ".js"@,
        ".jsx"@,
        ".ts"@,
        ".tsx"@,
        ".mjs"@,
        ".htaccess"@,
        ".htpasswd"@,
        ".jar"@,
        ".war"@,
        ".ear"@,
        ".class"@,
    ]
}

fn dangerous_extension_list() -> (list: Vec<&'static str>)
    ensures
        list@.len() == dangerous_extensions().len(),
        forall|i: int|
            0 <= i < list@.len() ==> (#[trigger] list@[i])@ == dangerous_extensions()[i],
{
    vec![
        ".php",
        ".phtml",
        ".php3",
        ".php4",
        ".php5",
        ".php7",
        ".phps",
        ".asp",
        ".aspx",
        ".jsp",
        ".jspx",
        ".cgi",
        ".pl",
        ".py",
        ".pyc",
        ".pyo",
        ".rb",
        ".erb",
        ".exe",
        ".bat",
        ".cmd",
        ".com",
        ".msi",
        ".dll",
        ".sh",
        ".bash",
        ".zsh",
        ".ksh",
        ".js",
        ".jsx",
        ".ts",
        ".tsx",
        ".mjs",
        ".htaccess",
        ".htpasswd",
        ".jar",
        ".war",
        ".ear",
        ".class",
    ]
}

/// A name carries an extension where it ends with it or holds it followed by
/// a dot, as in `name.php.pdf`.
pub open spec fn carries_extension(lower: Seq<char>, ext: Seq<char>) -> bool {
    ext.is_suffix_of(lower) || contains_text(lower, ext.push('.'))
}

/// What the check of a lower-cased file name returns: success where the name
/// carries no dangerous extension, else the first one it carries, in the
/// order of the list.
pub open spec fn extension_verdict(lower: Seq<char>, r: Result<(), ValidationError>) -> bool {
    match r {
        Ok(_) => forall|i: int|
            0 <= i < dangerous_extensions().len() ==> !carries_extension(
                lower,
                #[trigger] dangerous_extensions()[i],
            ),
        Err(e) => exists|k: int|
            {
                &&& 0 <= k < dangerous_extensions().len()
                &&& carries_extension(lower, #[trigger] dangerous_extensions()[k])
                &&& forall|j: int|
                    0 <= j < k ==> !carries_extension(lower, #[trigger] dangerous_extensions()[j])
                &&& e@ == Fault::InvalidFileType {
                    mime_type: "filename contains dangerous extension: "@
                        + dangerous_extensions()[k],
                }
            },
    }
}

/// The listed extension at position `k` is the first that the name carries.
pub open spec fn is_first_carried(lower: Seq<char>, k: int) -> bool {
    &&& 0 <= k < dangerous_extensions().len()
    &&& carries_extension(lower, dangerous_extensions()[k])
    &&& forall|j: int| 0 <= j < k ==> !carries_extension(lower, #[trigger] dangerous_extensions()[j])
}

/// The fault of a lower-cased file name, if any: it names the first listed
/// extension that the name carries.
pub open spec fn extension_fault(lower: Seq<char>) -> Option<Fault> {
    if exists|k: int| is_first_carried(lower, k) {
        let k = choose|k: int| is_first_carried(lower, k);
        Some(
            Fault::InvalidFileType {
                mime_type: "filename contains dangerous extension: "@ + dangerous_extensions()[k],
            },
        )
    } else {
        None
    }
}

/// A verdict on a file name is the fault that `extension_fault` names.
pub proof fn lemma_extension_verdict(lower: Seq<char>, r: Result<(), ValidationError>)
    requires
        extension_verdict(lower, r),
    ensures
        fault_of(r) == extension_fault(lower),
{
    match r {
        Ok(_) => {
            if exists|k: int| is_first_carried(lower, k) {
                let k = choose|k: int| is_first_carried(lower, k);
                assert(!carries_extension(lower, dangerous_extensions()[k]));
            }
        },
        Err(e) => {
            let found = choose|k: int|
                {
                    &&& 0 <= k < dangerous_extensions().len()
                    &&& carries_extension(lower, #[trigger] dangerous_extensions()[k])
                    &&& forall|j: int|
                        0 <= j < k ==> !carries_extension(
                            lower,
                            #[trigger] dangerous_extensions()[j],
                        )
                    &&& e@ == Fault::InvalidFileType {
                        mime_type: "filename contains dangerous extension: "@
                            + dangerous_extensions()[k],
                    }
                };
            assert(is_first_carried(lower, found));
            let k = choose|k: int| is_first_carried(lower, k);
            if k < found {
                assert(!carries_extension(lower, dangerous_extensions()[k]));
            } else if found < k {
                assert(!carries_extension(lower, dangerous_extensions()[found]));
            }
        },
    }
}

/// Every listed extension is a dot and at least one more character.
pub proof fn lemma_extensions_begin_with_a_dot()
    ensures
        forall|k: int|
            0 <= k < dangerous_extensions().len() ==> (#[trigger] dangerous_extensions()[k]).len()
                >= 2 && dangerous_extensions()[k][0] == '.',
{
    reveal_strlit(".php");
    reveal_strlit(".phtml");
    reveal_strlit(".php3");
    reveal_strlit(".php4");
    reveal_strlit(".php5");
    reveal_strlit(".php7");
    reveal_strlit(".phps");
    reveal_strlit(".asp");
    reveal_strlit(".aspx");
    reveal_strlit(".jsp");
    reveal_strlit(".jspx");
    reveal_strlit(".cgi");
    reveal_strlit(".pl");
    reveal_strlit(".py");
    reveal_strlit(".pyc");
    reveal_strlit(".pyo");
    reveal_strlit(".rb");
    reveal_strlit(".erb");
    reveal_strlit(".exe");
    reveal_strlit(".bat");
    reveal_strlit(".cmd");
    reveal_strlit(".com");
    reveal_strlit(".msi");
    reveal_strlit(".dll");
    reveal_strlit(".sh");
    reveal_strlit(".bash");
    reveal_strlit(".zsh");
    reveal_strlit(".ksh");
    reveal_strlit(".js");
    reveal_strlit(".jsx");
    reveal_strlit(".ts");
    reveal_strlit(".tsx");
    reveal_strlit(".mjs");
    reveal_strlit(".htaccess");
    reveal_strlit(".htpasswd");
    reveal_strlit(".jar");
    reveal_strlit(".war");
    reveal_strlit(".ear");
    reveal_strlit(".class");
}

/// The extension of a portable document is not among the listed ones.
pub proof fn lemma_pdf_is_not_listed()
    ensures
        forall|k: int|
            0 <= k < dangerous_extensions().len() ==> #[trigger] dangerous_extensions()[k]
                != ".pdf"@,
{
    reveal_strlit(".pdf");
    reveal_strlit(".php");
    reveal_strlit(".phtml");
    reveal_strlit(".php3");
    reveal_strlit(".php4");
    reveal_strlit(".php5");
    reveal_strlit(".php7");
    reveal_strlit(".phps");
    reveal_strlit(".asp");
    reveal_strlit(".aspx");
    reveal_strlit(".jsp");
    reveal_strlit(".jspx");
    reveal_strlit(".cgi");
    reveal_strlit(".pl");
    reveal_strlit(".py");
    reveal_strlit(".pyc");
    reveal_strlit(".pyo");
    reveal_strlit(".rb");
    reveal_strlit(".erb");
    reveal_strlit(".exe");
    reveal_strlit(".bat");
    reveal_strlit(".cmd");
    reveal_strlit(".com");
    reveal_strlit(".msi");
    reveal_strlit(".dll");
    reveal_strlit(".sh");
    reveal_strlit(".bash");
    reveal_strlit(".zsh");
    reveal_strlit(".ksh");
    reveal_strlit(".js");
    reveal_strlit(".jsx");
    reveal_strlit(".ts");
    reveal_strlit(".tsx");
    reveal_strlit(".mjs");
    reveal_strlit(".htaccess");
    reveal_strlit(".htpasswd");
    reveal_strlit(".jar");
    reveal_strlit(".war");
    reveal_strlit(".ear");
    reveal_strlit(".class");
    assert forall|k: int| 0 <= k < dangerous_extensions().len() implies
        #[trigger] dangerous_extensions()[k] != ".pdf"@ by {
        let listed = dangerous_extensions()[k];
        if listed.len() == 4 {
            assert(listed[1] != 'p' || listed[2] != 'd');
        }
    }
}

/// A name with one dot carries no listed extension unless what begins at
/// the dot is one: the extensions all begin with a dot, so a name carries one
/// only where it ends with it, and two dots are needed to carry one in the
/// middle.
pub proof fn lemma_single_dot_name(lower: Seq<char>, dot: int)
    requires
        0 <= dot < lower.len(),
        forall|i: int| 0 <= i < lower.len() && i != dot ==> lower[i] != '.',
        forall|k: int|
            0 <= k < dangerous_extensions().len() ==> #[trigger] dangerous_extensions()[k]
                != lower.subrange(dot, lower.len() as int),
    ensures
        extension_fault(lower) is None,
{
    lemma_extensions_begin_with_a_dot();
    assert forall|k: int| 0 <= k < dangerous_extensions().len() implies !carries_extension(
        lower,
        #[trigger] dangerous_extensions()[k],
    ) by {
        let listed = dangerous_extensions()[k];
        if listed.is_suffix_of(lower) {
            let from = lower.len() - listed.len();
            assert(lower.subrange(from, lower.len() as int)[0] == '.');
            assert(lower[from] == '.');
            assert(from == dot);
        }
        if contains_text(lower, listed.push('.')) {
            let at = choose|at: int| occurs_at(lower, listed.push('.'), at);
            let found = lower.subrange(at, at + listed.len() + 1);
            assert(found[0] == '.');
            assert(found[listed.len() as int] == '.');
            assert(lower[at] == '.');
            assert(lower[at + listed.len()] == '.');
        }
    }
    if exists|k: int| is_first_carried(lower, k) {
        let k = choose|k: int| is_first_carried(lower, k);
        assert(!carries_extension(lower, dangerous_extensions()[k]));
    }
}

/// A name that ends with `.php` is refused for that extension, whatever
/// else it holds: it is the first of the list.
pub proof fn lemma_php_is_named(lower: Seq<char>)
    requires
        ".php"@.is_suffix_of(lower),
    ensures
        extension_fault(lower) == Some(
            Fault::InvalidFileType {
                mime_type: "filename contains dangerous extension: .php"@,
            },
        ),
{
    assert(dangerous_extensions()[0] == ".php"@);
    assert(is_first_carried(lower, 0));
    let k = choose|k: int| is_first_carried(lower, k);
    if k > 0 {
        assert(!carries_extension(lower, dangerous_extensions()[0]));
    }
    reveal_strlit(".php");
    reveal_strlit("filename contains dangerous extension: ");
    reveal_strlit("filename contains dangerous extension: .php");
    assert("filename contains dangerous extension: "@ + ".php"@
        =~= "filename contains dangerous extension: .php"@);
}

/// Capital letters hide no extension: `SCRIPT.PHP` is `script.php` in lower
/// case, and is refused for `.php`.
pub proof fn lemma_script_in_capitals_is_refused()
    ensures
        lowercase("SCRIPT.PHP"@) == "script.php"@,
        extension_fault(lowercase("SCRIPT.PHP"@)) == Some(
            Fault::InvalidFileType {
                mime_type: "filename contains dangerous extension: .php"@,
            },
        ),
{
    reveal_strlit("SCRIPT.PHP");
    reveal_strlit("script.php");
    reveal_strlit(".php");
    lemma_lowercase_of_ascii("SCRIPT.PHP"@, "script.php"@);
    assert("script.php"@.subrange(6, 10) =~= ".php"@);
    lemma_php_is_named("script.php"@);
}

/// Checks a file name that is already in lower case for dangerous
/// extensions.
pub fn check_lowered_filename(lower: &str) -> (r: Result<(), ValidationError>)
    ensures
        extension_verdict(lower@, r),
        fault_of(r) == extension_fault(lower@),
{
    let r = scan_extensions(lower);
    proof {
        lemma_extension_verdict(lower@, r);
    }
    r
}

fn scan_extensions(lower: &str) -> (r: Result<(), ValidationError>)
    ensures
        extension_verdict(lower@, r),
{
    let name = chars_of(lower);
    let list = dangerous_extension_list();
    let mut i: usize = 0;
    while i < list.len()
        invariant
            i <= list.len(),
            name@ == lower@,
            list@.len() == dangerous_extensions().len(),
            forall|k: int|
                0 <= k < list@.len() ==> (#[trigger] list@[k])@ == dangerous_extensions()[k],
            forall|k: int|
                0 <= k < i ==> !carries_extension(lower@, #[trigger] dangerous_extensions()[k]),
        decreases list.len() - i,
    {
        let ext = chars_of(list[i]);
        let mut inner = chars_of(list[i]);
        inner.push('.');
        if ends_with(name.as_slice(), ext.as_slice()) || contains(
            name.as_slice(),
            inner.as_slice(),
        ) {
            let mut text = String::new();
            push_text(&mut text, "filename contains dangerous extension: ");
            push_text(&mut text, list[i]);
            let e = ValidationError::InvalidFileType { mime_type: text };
            proof {
                assert(dangerous_extensions()[i as int] == ext@);
                assert(carries_extension(lower@, dangerous_extensions()[i as int]));
                assert(text@ =~= "filename contains dangerous extension: "@
                    + dangerous_extensions()[i as int]);
            }
            return Err(e);
        }
        proof {
            assert(dangerous_extensions()[i as int] == ext@);
        }
        i = i + 1;
    }
    Ok(())
}

/// Checks a file name for dangerous extensions, whatever the case of its
/// letters.
pub fn validate_filename_extensions(filename: &str) -> (r: Result<(), ValidationError>)
    ensures
        extension_verdict(lowercase(filename@), r),
        fault_of(r) == extension_fault(lowercase(filename@)),
{
    let lower = to_lowercase(filename);
    check_lowered_filename(lower.as_str())
}

} // verus!
