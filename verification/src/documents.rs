//! Documents: who may add one to a dossier, under which name an uploaded
//! file is stored, and where.

use vstd::prelude::*;
use crate::ids::{id_text, lemma_id_text_shape, write_id};
use crate::models::{Id, SubmissionStatus};
use crate::text::{
    chars_of, contains, contains_text, push_chars, push_text, same_text, slice_of, split_on,
    split_text, string_of, text_view, views_of,
};
use crate::validation::{slug_letter, valid_slug};

verus! {

// ---------------------------------------------------------------------------
// Names of stored files
// ---------------------------------------------------------------------------

/// A character that separates the directories of a path.
pub open spec fn is_separator(c: char) -> bool {
    c == '/' || c == '\\'
}

/// The part of a name after its last separator.
pub open spec fn basename(s: Seq<char>) -> Seq<char>
    decreases s.len(),
{
    if s.len() == 0 {
        s
    } else if is_separator(s.last()) {
        Seq::<char>::empty()
    } else {
        basename(s.drop_last()).push(s.last())
    }
}

/// A character that may stand in a stored name: an ASCII letter or digit, a
/// hyphen, an underscore or a dot.
pub open spec fn is_name_char(c: char) -> bool {
    ('a' <= c && c <= 'z') || ('A' <= c && c <= 'Z') || ('0' <= c && c <= '9') || c == '-' || c
        == '_' || c == '.'
}

/// A character as it is stored: itself where it may stand in a name, else an
/// underscore.
pub open spec fn name_char(c: char) -> char {
    if is_name_char(c) {
        c
    } else {
        '_'
    }
}

/// The text without the dots and underscores at its start.
pub open spec fn strip_leading(s: Seq<char>) -> Seq<char>
    decreases s.len(),
{
    if s.len() > 0 && (s.first() == '.' || s.first() == '_') {
        strip_leading(s.drop_first())
    } else {
        s
    }
}

/// The text without the underscores at its end.
pub open spec fn strip_trailing(s: Seq<char>) -> Seq<char>
    decreases s.len(),
{
    if s.len() > 0 && s.last() == '_' {
        strip_trailing(s.drop_last())
    } else {
        s
    }
}

/// The name under which a file named `s` by the client is kept: the part
/// after the last separator, each character that may not stand in a name
/// replaced by an underscore, without dots and underscores at the start and
/// without underscores at the end; `upload` where nothing is left.
pub open spec fn sanitized(s: Seq<char>) -> Seq<char> {
    let kept = strip_trailing(strip_leading(basename(s).map_values(|c: char| name_char(c))));
    if kept.len() == 0 {
        "upload"@
    } else {
        kept
    }
}

/// The basename starts after the last separator.
pub proof fn lemma_basename_is(s: Seq<char>, from: int)
    requires
        0 <= from <= s.len(),
        forall|i: int| from <= i < s.len() ==> !is_separator(#[trigger] s[i]),
        from > 0 ==> is_separator(s[from - 1]),
    ensures
        basename(s) == s.skip(from),
    decreases s.len(),
{
    if s.len() == 0 {
        assert(s.skip(from) =~= s);
    } else if is_separator(s.last()) {
        assert(from == s.len()) by {
            if from < s.len() {
                assert(!is_separator(s[s.len() - 1]));
            }
        }
        assert(s.skip(from) =~= Seq::<char>::empty());
    } else {
        let rest = s.drop_last();
        assert(from < s.len());
        assert forall|i: int| from <= i < rest.len() implies !is_separator(#[trigger] rest[i]) by {
            assert(rest[i] == s[i]);
        }
        if from > 0 {
            assert(rest[from - 1] == s[from - 1]);
        }
        lemma_basename_is(rest, from);
        assert(rest.skip(from).push(s.last()) =~= s.skip(from));
    }
}

/// Stripping at the start drops the leading run of dots and underscores.
pub proof fn lemma_strip_leading_is(s: Seq<char>, n: int)
    requires
        0 <= n <= s.len(),
        forall|i: int| 0 <= i < n ==> (#[trigger] s[i]) == '.' || s[i] == '_',
        n < s.len() ==> s[n] != '.' && s[n] != '_',
    ensures
        strip_leading(s) == s.skip(n),
    decreases s.len(),
{
    if s.len() > 0 && (s.first() == '.' || s.first() == '_') {
        let rest = s.drop_first();
        assert(n > 0);
        assert forall|i: int| 0 <= i < n - 1 implies (#[trigger] rest[i]) == '.' || rest[i]
            == '_' by {
            assert(rest[i] == s[i + 1]);
        }
        if n - 1 < rest.len() {
            assert(rest[n - 1] == s[n]);
        }
        lemma_strip_leading_is(rest, n - 1);
        assert(rest.skip(n - 1) =~= s.skip(n));
    } else {
        assert(n == 0) by {
            if n > 0 {
                assert(s[0] == '.' || s[0] == '_');
            }
        }
        assert(s.skip(0) =~= s);
    }
}

/// Stripping at the end drops the trailing run of underscores.
pub proof fn lemma_strip_trailing_is(s: Seq<char>, n: int)
    requires
        0 <= n <= s.len(),
        forall|i: int| n <= i < s.len() ==> (#[trigger] s[i]) == '_',
        n > 0 ==> s[n - 1] != '_',
    ensures
        strip_trailing(s) == s.take(n),
    decreases s.len(),
{
    if s.len() > 0 && s.last() == '_' {
        let rest = s.drop_last();
        assert(n < s.len());
        assert forall|i: int| n <= i < rest.len() implies (#[trigger] rest[i]) == '_' by {
            assert(rest[i] == s[i]);
        }
        if n > 0 {
            assert(rest[n - 1] == s[n - 1]);
        }
        lemma_strip_trailing_is(rest, n);
        assert(rest.take(n) =~= s.take(n));
    } else {
        assert(n == s.len()) by {
            if n < s.len() {
                assert(s[s.len() - 1] == '_');
            }
        }
        assert(s.take(n) =~= s);
    }
}

/// A stored name is never empty, holds only characters that may stand in a
/// name, begins with neither a dot nor an underscore and does not end with
/// an underscore. So it names no hidden file and no other directory.
pub proof fn lemma_sanitized_is_safe(s: Seq<char>)
    ensures
        sanitized(s).len() > 0,
        forall|i: int| 0 <= i < sanitized(s).len() ==> is_name_char(#[trigger] sanitized(s)[i]),
        sanitized(s).first() != '.',
        sanitized(s).first() != '_',
        sanitized(s).last() != '_',
{
    let mapped = basename(s).map_values(|c: char| name_char(c));
    assert forall|i: int| 0 <= i < mapped.len() implies is_name_char(#[trigger] mapped[i]) by {}
    lemma_strip_leading_shape(mapped);
    let front = strip_leading(mapped);
    lemma_strip_trailing_shape(front);
    let kept = strip_trailing(front);
    if kept.len() == 0 {
        reveal_strlit("upload");
    } else {
        assert(kept.first() == front.first());
        assert forall|i: int| 0 <= i < kept.len() implies is_name_char(#[trigger] kept[i]) by {
            assert(kept[i] == front[i]);
        }
    }
}

/// A name that is safe already is stored as it is: one that is not empty,
/// holds only characters that may stand in a name, begins with neither a dot
/// nor an underscore and does not end with an underscore.
pub proof fn lemma_safe_name_is_kept(s: Seq<char>)
    requires
        s.len() > 0,
        forall|i: int| 0 <= i < s.len() ==> is_name_char(#[trigger] s[i]),
        s.first() != '.',
        s.first() != '_',
        s.last() != '_',
    ensures
        sanitized(s) == s,
{
    lemma_basename_is(s, 0);
    assert(s.skip(0) =~= s);
    let mapped = s.map_values(|c: char| name_char(c));
    assert(mapped =~= s);
    lemma_strip_leading_is(s, 0);
    lemma_strip_trailing_is(s, s.len() as int);
    assert(s.take(s.len() as int) =~= s);
}

/// What is left after stripping at the start is a suffix that begins with
/// neither a dot nor an underscore.
pub proof fn lemma_strip_leading_shape(s: Seq<char>)
    ensures
        exists|n: int| 0 <= n <= s.len() && strip_leading(s) == #[trigger] s.skip(n),
        strip_leading(s).len() > 0 ==> strip_leading(s).first() != '.' && strip_leading(s).first()
            != '_',
    decreases s.len(),
{
    if s.len() > 0 && (s.first() == '.' || s.first() == '_') {
        let rest = s.drop_first();
        lemma_strip_leading_shape(rest);
        let n = choose|n: int| 0 <= n <= rest.len() && strip_leading(rest) == #[trigger] rest.skip(
            n,
        );
        assert(rest.skip(n) =~= s.skip(n + 1));
    } else {
        assert(s.skip(0) =~= s);
    }
}

/// What is left after stripping at the end is a prefix that does not end
/// with an underscore.
pub proof fn lemma_strip_trailing_shape(s: Seq<char>)
    ensures
        exists|n: int| 0 <= n <= s.len() && strip_trailing(s) == #[trigger] s.take(n),
        strip_trailing(s).len() > 0 ==> strip_trailing(s).last() != '_',
    decreases s.len(),
{
    if s.len() > 0 && s.last() == '_' {
        let rest = s.drop_last();
        lemma_strip_trailing_shape(rest);
        let n = choose|n: int| 0 <= n <= rest.len() && strip_trailing(rest) == #[trigger] rest.take(
            n,
        );
        assert(rest.take(n) =~= s.take(n));
    } else {
        assert(s.take(s.len() as int) =~= s);
    }
}

fn keep_or_replace(c: char) -> (r: char)
    ensures
        r == name_char(c),
{
    let n: u32 = c as u32;
    if (0x61 <= n && n <= 0x7a) || (0x41 <= n && n <= 0x5a) || (0x30 <= n && n <= 0x39) || n
        == 0x2d || n == 0x5f || n == 0x2e {
        c
    } else {
        '_'
    }
}

/// The name under which a file named `filename` by the client is kept.
pub fn sanitize_filename(filename: &str) -> (name: String)
    ensures
        name@ == sanitized(filename@),
{
    let s = chars_of(filename);
    let mut from: usize = s.len();
    while from > 0 && s[from - 1] != '/' && s[from - 1] != '\\'
        invariant
            from <= s.len(),
            forall|i: int| from <= i < s.len() ==> !is_separator(#[trigger] s@[i]),
        decreases from,
    {
        from = from - 1;
    }
    proof {
        lemma_basename_is(s@, from as int);
    }
    let mut mapped: Vec<char> = Vec::new();
    let mut i: usize = from;
    while i < s.len()
        invariant
            from <= i <= s.len(),
            mapped@ == s@.subrange(from as int, i as int).map_values(|c: char| name_char(c)),
        decreases s.len() - i,
    {
        mapped.push(keep_or_replace(s[i]));
        i = i + 1;
        proof {
            assert(s@.subrange(from as int, i as int).map_values(|c: char| name_char(c))
                =~= s@.subrange(from as int, i - 1).map_values(|c: char| name_char(c)).push(
                name_char(s@[i - 1]),
            ));
        }
    }
    proof {
        assert(s@.subrange(from as int, s@.len() as int) =~= s@.skip(from as int));
    }
    let mut start: usize = 0;
    while start < mapped.len() && (mapped[start] == '.' || mapped[start] == '_')
        invariant
            start <= mapped.len(),
            forall|k: int| 0 <= k < start ==> (#[trigger] mapped@[k]) == '.' || mapped@[k] == '_',
        decreases mapped.len() - start,
    {
        start = start + 1;
    }
    proof {
        lemma_strip_leading_is(mapped@, start as int);
    }
    let front = slice_of(mapped.as_slice(), start, mapped.len());
    let mut end: usize = front.len();
    while end > 0 && front[end - 1] == '_'
        invariant
            end <= front.len(),
            forall|k: int| end <= k < front.len() ==> (#[trigger] front@[k]) == '_',
        decreases end,
    {
        end = end - 1;
    }
    proof {
        lemma_strip_trailing_is(front@, end as int);
    }
    if end == 0 {
        "upload".to_owned()
    } else {
        let kept = slice_of(front.as_slice(), 0, end);
        string_of(kept.as_slice())
    }
}

/// The name of a stored file: the document's identifier, an underscore, and
/// the sanitized name that the client gave.
pub open spec fn storage_name(doc_id: Id, filename: Seq<char>) -> Seq<char> {
    id_text(doc_id) + seq!['_'] + sanitized(filename)
}

/// The name under which an upload is stored. The identifier in front makes
/// the name new for every upload.
pub fn storage_filename(doc_id: Id, filename: &str) -> (name: String)
    ensures
        name@ == storage_name(doc_id, filename@),
{
    let mut name = write_id(doc_id);
    let safe = sanitize_filename(filename);
    push_text(&mut name, "_");
    push_text(&mut name, safe.as_str());
    proof {
        reveal_strlit("_");
        assert("_"@ =~= seq!['_']);
        assert(name@ =~= storage_name(doc_id, filename@));
    }
    name
}

// ---------------------------------------------------------------------------
// Where a file is written
// ---------------------------------------------------------------------------

/// A path begins at the root of the file system.
pub open spec fn is_rooted(path: Seq<char>) -> bool {
    path.len() > 0 && path.first() == '/'
}

/// A path with a child adjoined. A child that begins at the root stands for
/// itself. Else the child follows the base, after a slash unless the base is
/// empty or ends with one.
pub open spec fn joined(base: Seq<char>, child: Seq<char>) -> Seq<char> {
    if is_rooted(child) {
        child
    } else if base.len() == 0 || base.last() == '/' {
        base + child
    } else {
        base + seq!['/'] + child
    }
}

/// A piece between two slashes names a step of a path unless it is empty or
/// a single dot, which both stand for staying where one is.
pub open spec fn is_component(piece: Seq<char>) -> bool {
    piece.len() > 0 && piece != seq!['.']
}

/// The pieces that name a step, in their order.
pub open spec fn kept_components(pieces: Seq<Seq<char>>) -> Seq<Seq<char>>
    decreases pieces.len(),
{
    if pieces.len() == 0 {
        pieces
    } else if is_component(pieces.last()) {
        kept_components(pieces.drop_last()).push(pieces.last())
    } else {
        kept_components(pieces.drop_last())
    }
}

/// The steps of a path, from the first to the last.
pub open spec fn components(path: Seq<char>) -> Seq<Seq<char>> {
    kept_components(split_text(path, '/'))
}

/// A path lies under a root where both begin at the root of the file system
/// or neither does, the steps of the root are the first steps of the path,
/// and none of the steps after them leads up again.
pub open spec fn lies_under(path: Seq<char>, root: Seq<char>) -> bool {
    let steps = components(path);
    let first = components(root);
    &&& is_rooted(path) == is_rooted(root)
    &&& first.len() <= steps.len()
    &&& forall|i: int| 0 <= i < first.len() ==> #[trigger] steps[i] == first[i]
    &&& forall|i: int| first.len() <= i < steps.len() ==> #[trigger] steps[i] != seq!['.', '.']
}

/// A text has at least one piece.
pub proof fn lemma_split_has_a_piece(s: Seq<char>, sep: char)
    ensures
        split_text(s, sep).len() >= 1,
    decreases s.len(),
{
    if s.len() > 0 {
        lemma_split_has_a_piece(s.drop_last(), sep);
    }
}

/// A text without the separator, put after another, goes on with that
/// text's last piece.
pub proof fn lemma_split_goes_on(a: Seq<char>, b: Seq<char>, sep: char)
    requires
        forall|i: int| 0 <= i < b.len() ==> b[i] != sep,
    ensures
        split_text(a, sep).len() >= 1,
        split_text(a + b, sep) == split_text(a, sep).drop_last().push(
            split_text(a, sep).last() + b,
        ),
    decreases b.len(),
{
    lemma_split_has_a_piece(a, sep);
    let pieces = split_text(a, sep);
    if b.len() == 0 {
        assert(a + b =~= a);
        assert(pieces.last() + b =~= pieces.last());
        assert(pieces.drop_last().push(pieces.last()) =~= pieces);
    } else {
        let front = b.drop_last();
        lemma_split_goes_on(a, front, sep);
        assert((a + b).drop_last() =~= a + front);
        assert((a + b).last() == b.last());
        let before = split_text(a + front, sep);
        assert(before.drop_last() =~= pieces.drop_last());
        assert(before.last().push(b.last()) =~= pieces.last() + b);
    }
}

/// A slash at the end of a path adds no step.
pub proof fn lemma_trailing_slash_is_no_step(path: Seq<char>)
    ensures
        components(path.push('/')) == components(path),
        split_text(path.push('/'), '/').last() == Seq::<char>::empty(),
{
    let longer = path.push('/');
    assert(longer.drop_last() =~= path);
    let pieces = split_text(longer, '/');
    assert(pieces == split_text(path, '/').push(Seq::<char>::empty()));
    assert(pieces.drop_last() =~= split_text(path, '/'));
}

/// A name adjoined to a path that is empty or ends with a slash adds one
/// step, the name itself.
pub proof fn lemma_child_is_one_step(base: Seq<char>, name: Seq<char>)
    requires
        base.len() == 0 || base.last() == '/',
        is_component(name),
        forall|i: int| 0 <= i < name.len() ==> name[i] != '/',
    ensures
        components(base + name) == components(base).push(name),
{
    lemma_split_goes_on(base, name, '/');
    let pieces = split_text(base, '/');
    assert(pieces.last() == Seq::<char>::empty()) by {
        if base.len() > 0 {
            assert(base =~= base.drop_last().push('/'));
            lemma_trailing_slash_is_no_step(base.drop_last());
        }
    }
    assert(pieces.last() + name =~= name);
    let longer = pieces.drop_last().push(name);
    assert(longer.drop_last() =~= pieces.drop_last());
}

/// Where a dossier's files go. Whatever the upload root, the directory of a
/// dossier with a valid slug is one step under it, a file stored in that
/// directory under a name without slashes is one step further, and so its
/// path lies under the root, unless the name is a dot or two dots.
pub proof fn lemma_file_in_directory_lies_under_root(
    root: Seq<char>,
    slug: Seq<char>,
    name: Seq<char>,
)
    requires
        slug.len() > 0,
        forall|i: int| 0 <= i < slug.len() ==> slug[i] != '/' && slug[i] != '.',
        is_component(name),
        name != seq!['.', '.'],
        forall|i: int| 0 <= i < name.len() ==> name[i] != '/',
    ensures
        components(joined(root, slug)) == components(root).push(slug),
        joined(joined(root, slug), name) == joined(root, slug) + seq!['/'] + name,
        components(joined(joined(root, slug), name)) == components(root).push(slug).push(name),
        lies_under(joined(joined(root, slug), name), root),
{
    let base = if root.len() == 0 || root.last() == '/' {
        root
    } else {
        root.push('/')
    };
    assert(slug[0] != '/' && slug[0] != '.');
    assert(is_component(slug)) by {
        if slug == seq!['.'] {
            assert(seq!['.'][0] == '.');
        }
    }
    assert(slug != seq!['.', '.']) by {
        if slug == seq!['.', '.'] {
            assert(seq!['.', '.'][0] == '.');
        }
    }
    assert(name[0] != '/');
    let directory = joined(root, slug);
    assert(directory =~= base + slug);
    assert(components(base) == components(root)) by {
        if !(root.len() == 0 || root.last() == '/') {
            lemma_trailing_slash_is_no_step(root);
        }
    }
    lemma_child_is_one_step(base, slug);
    assert(directory.last() == slug.last());
    assert(slug.last() == slug[slug.len() - 1]);
    let path = joined(directory, name);
    assert(path =~= directory.push('/') + name);
    assert(path =~= directory + seq!['/'] + name);
    lemma_trailing_slash_is_no_step(directory);
    lemma_child_is_one_step(directory.push('/'), name);
    let steps = components(path);
    let first = components(root);
    assert(steps == first.push(slug).push(name));
    assert(is_rooted(path) == is_rooted(root)) by {
        if root.len() > 0 {
            assert(path[0] == root[0]);
        } else {
            assert(path[0] == slug[0]);
        }
    }
    assert forall|i: int| 0 <= i < first.len() implies #[trigger] steps[i] == first[i] by {}
    assert forall|i: int| first.len() <= i < steps.len() implies #[trigger] steps[i] != seq![
        '.',
        '.',
    ] by {
        if i == first.len() {
            assert(steps[i] == slug);
        } else {
            assert(steps[i] == name);
        }
    }
}

/// A path with a child adjoined.
pub fn join_paths(base: &str, child: &str) -> (path: String)
    ensures
        path@ == joined(base@, child@),
{
    let parent = chars_of(base);
    let name = chars_of(child);
    let mut path = String::new();
    if name.len() > 0 && name[0] == '/' {
        push_chars(&mut path, name.as_slice());
        proof {
            assert(path@ =~= child@);
        }
        return path;
    }
    push_chars(&mut path, parent.as_slice());
    if parent.len() > 0 && parent[parent.len() - 1] != '/' {
        push_text(&mut path, "/");
        proof {
            reveal_strlit("/");
            assert("/"@ =~= seq!['/']);
        }
    }
    push_chars(&mut path, name.as_slice());
    proof {
        assert(path@ =~= joined(base@, child@));
    }
    path
}

fn names_step(piece: &[char]) -> (r: bool)
    ensures
        r == is_component(piece@),
{
    if piece.len() == 0 {
        return false;
    }
    if piece.len() == 1 && piece[0] == '.' {
        proof {
            assert(piece@ =~= seq!['.']);
        }
        return false;
    }
    proof {
        if piece@ == seq!['.'] {
            assert(piece@.len() == 1 && piece@[0] == '.');
        }
    }
    true
}

fn leads_up(piece: &[char]) -> (r: bool)
    ensures
        r == (piece@ == seq!['.', '.']),
{
    if piece.len() == 2 && piece[0] == '.' && piece[1] == '.' {
        proof {
            assert(piece@ =~= seq!['.', '.']);
        }
        true
    } else {
        proof {
            if piece@ == seq!['.', '.'] {
                assert(piece@.len() == 2 && piece@[0] == '.' && piece@[1] == '.');
            }
        }
        false
    }
}

/// The steps of a path, from the first to the last.
pub fn components_of(path: &[char]) -> (steps: Vec<Vec<char>>)
    ensures
        views_of(steps@) == components(path@),
{
    let pieces = split_on(path, '/');
    let mut steps: Vec<Vec<char>> = Vec::new();
    let mut i: usize = 0;
    proof {
        assert(views_of(pieces@).take(0) =~= Seq::<Seq<char>>::empty());
        assert(views_of(steps@) =~= Seq::<Seq<char>>::empty());
    }
    while i < pieces.len()
        invariant
            i <= pieces.len(),
            views_of(pieces@) == split_text(path@, '/'),
            views_of(steps@) == kept_components(views_of(pieces@).take(i as int)),
        decreases pieces.len() - i,
    {
        proof {
            assert(views_of(pieces@).take(i + 1).drop_last() =~= views_of(pieces@).take(i as int));
            assert(views_of(pieces@).take(i + 1).last() == pieces@[i as int]@);
        }
        if names_step(pieces[i].as_slice()) {
            let ghost before = views_of(steps@);
            let step = slice_of(pieces[i].as_slice(), 0, pieces[i].len());
            proof {
                assert(step@ =~= pieces@[i as int]@);
            }
            steps.push(step);
            proof {
                assert(views_of(steps@) =~= before.push(pieces@[i as int]@));
            }
        }
        i = i + 1;
    }
    proof {
        assert(views_of(pieces@).take(i as int) =~= views_of(pieces@));
    }
    steps
}

fn begins_at_root(path: &[char]) -> (r: bool)
    ensures
        r == is_rooted(path@),
{
    path.len() > 0 && path[0] == '/'
}

/// Whether a path lies under a root.
pub fn path_lies_under(path: &str, root: &str) -> (r: bool)
    ensures
        r == lies_under(path@, root@),
{
    let whole = chars_of(path);
    let base = chars_of(root);
    if begins_at_root(whole.as_slice()) != begins_at_root(base.as_slice()) {
        return false;
    }
    let steps = components_of(whole.as_slice());
    let first = components_of(base.as_slice());
    if first.len() > steps.len() {
        return false;
    }
    let mut i: usize = 0;
    while i < first.len()
        invariant
            i <= first.len() <= steps.len(),
            views_of(steps@) == components(path@),
            views_of(first@) == components(root@),
            forall|k: int| 0 <= k < i ==> #[trigger] components(path@)[k] == components(root@)[k],
        decreases first.len() - i,
    {
        proof {
            assert(views_of(steps@)[i as int] == steps@[i as int]@);
            assert(views_of(first@)[i as int] == first@[i as int]@);
        }
        if !same_text(steps[i].as_slice(), first[i].as_slice()) {
            return false;
        }
        i = i + 1;
    }
    while i < steps.len()
        invariant
            first.len() <= i <= steps.len(),
            views_of(steps@) == components(path@),
            views_of(first@) == components(root@),
            forall|k: int|
                first.len() <= k < i ==> #[trigger] components(path@)[k] != seq!['.', '.'],
        decreases steps.len() - i,
    {
        proof {
            assert(views_of(steps@)[i as int] == steps@[i as int]@);
        }
        if leads_up(steps[i].as_slice()) {
            return false;
        }
        i = i + 1;
    }
    true
}

/// The directory that holds the files of one dossier: the one named by the
/// dossier's slug under the upload root.
pub fn submission_directory(upload_dir: &str, slug: &str) -> (directory: String)
    ensures
        directory@ == joined(upload_dir@, slug@),
{
    join_paths(upload_dir, slug)
}

/// Accepts a path only where it was found to lie under the upload root.
pub fn accept_path(path: String, under_root: bool) -> (accepted: Option<String>)
    ensures
        accepted == if under_root {
            Some(path)
        } else {
            None
        },
{
    if under_root {
        Some(path)
    } else {
        None
    }
}

/// The path that an upload is written to, if it may be written there: the
/// stored name adjoined to the dossier's directory, where that lies under the
/// upload root.
pub open spec fn upload_path_of(
    upload_dir: Seq<char>,
    directory: Seq<char>,
    storage_filename: Seq<char>,
) -> Option<Seq<char>> {
    if lies_under(joined(directory, storage_filename), upload_dir) {
        Some(joined(directory, storage_filename))
    } else {
        None
    }
}

/// Every upload has a place. For a dossier with a valid slug and any file
/// name, under any upload root, the path of the stored file is the root, the
/// slug and the stored name, one after the other, and it is accepted.
pub proof fn lemma_upload_path_is_accepted(
    upload_dir: Seq<char>,
    slug: Seq<char>,
    doc_id: Id,
    filename: Seq<char>,
)
    requires
        valid_slug(slug),
    ensures
        upload_path_of(upload_dir, joined(upload_dir, slug), storage_name(doc_id, filename))
            == Some(joined(upload_dir, slug) + seq!['/'] + storage_name(doc_id, filename)),
{
    let name = storage_name(doc_id, filename);
    lemma_id_text_shape(doc_id);
    lemma_sanitized_is_safe(filename);
    let front = id_text(doc_id) + seq!['_'];
    assert(name == front + sanitized(filename));
    assert(name[36] == '_');
    assert forall|i: int| 0 <= i < name.len() implies name[i] != '/' by {
        if i < 36 {
            assert(name[i] == id_text(doc_id)[i]);
        } else if i > 36 {
            assert(name[i] == sanitized(filename)[i - 37]);
            assert(is_name_char(sanitized(filename)[i - 37]));
        }
    }
    assert(name != seq!['.']);
    assert(name != seq!['.', '.']);
    assert forall|i: int| 0 <= i < slug.len() implies slug[i] != '/' && slug[i] != '.' by {
        assert(slug_letter(slug[i]) || slug[i] == '-');
    }
    lemma_file_in_directory_lies_under_root(upload_dir, slug, name);
}

/// The path that an upload is written to: the stored name in the dossier's
/// directory. The path is built first and then checked to lie under the
/// upload root; a path that does not is refused.
pub fn upload_path(upload_dir: &str, directory: &str, storage_filename: &str) -> (path: Option<
    String,
>)
    ensures
        text_view(path) == upload_path_of(upload_dir@, directory@, storage_filename@),
{
    let path = join_paths(directory, storage_filename);
    let under_root = path_lies_under(path.as_str(), upload_dir);
    accept_path(path, under_root)
}

// ---------------------------------------------------------------------------
// Who may change a dossier's documents
// ---------------------------------------------------------------------------

/// While a dossier is a draft, whoever has its slug may change its
/// documents. Afterwards only an uploader whose session is bound to this
/// very dossier may.
pub open spec fn may_change_documents(
    status: SubmissionStatus,
    submission_id: Id,
    session_submission: Option<Id>,
) -> bool {
    status == SubmissionStatus::Draft || session_submission == Some(submission_id)
}

/// A session is needed exactly when the dossier is no longer a draft.
pub fn needs_uploader_session(status: SubmissionStatus) -> (needed: bool)
    ensures
        needed == (status != SubmissionStatus::Draft),
{
    match status {
        SubmissionStatus::Draft => false,
        _ => true,
    }
}

/// Whether the documents of a dossier may be changed by a request that
/// carries the given uploader session, if any.
pub fn authorize_document_change(
    status: SubmissionStatus,
    submission_id: Id,
    session_submission: Option<Id>,
) -> (allowed: bool)
    ensures
        allowed == may_change_documents(status, submission_id, session_submission),
{
    if !needs_uploader_session(status) {
        return true;
    }
    match session_submission {
        Some(id) => id == submission_id,
        None => false,
    }
}

// ---------------------------------------------------------------------------
// Failed uploads
// ---------------------------------------------------------------------------

/// The stage at which reading an upload failed.
#[derive(Debug, Clone, Copy, PartialEq, Eq, Structural)]
pub enum UploadPart {
    /// Finding the file among the parts of the request.
    Field,
    /// Reading the file's bytes.
    Bytes,
}

/// What the client is told when reading an upload failed, before the detail
/// in brackets.
pub open spec fn upload_failure_summary(stage: UploadPart, detail: Seq<char>) -> Seq<char> {
    if contains_text(detail, "length limit"@) {
        "File too large. Maximum upload size is 50MB."@
    } else {
        match stage {
            UploadPart::Field => if contains_text(detail, "content-type"@) {
                "Invalid upload format. Please use multipart/form-data."@
            } else {
                "Failed to process upload. Please try again."@
            },
            UploadPart::Bytes => if contains_text(detail, "connection"@) {
                "Connection interrupted during upload. Please try again."@
            } else {
                "Failed to read uploaded file. Please try again."@
            },
        }
    }
}

/// What the client is told when reading an upload failed: a summary chosen
/// by what the failure's own text mentions, and that text in brackets.
pub fn upload_failure_message(stage: UploadPart, detail: &str) -> (message: String)
    ensures
        message@ == upload_failure_summary(stage, detail@) + " ("@ + detail@ + ")"@,
{
    let text = chars_of(detail);
    let limit = chars_of("length limit");
    let summary: &str = if contains(text.as_slice(), limit.as_slice()) {
        "File too large. Maximum upload size is 50MB."
    } else {
        match stage {
            UploadPart::Field => {
                let kind = chars_of("content-type");
                if contains(text.as_slice(), kind.as_slice()) {
                    "Invalid upload format. Please use multipart/form-data."
                } else {
                    "Failed to process upload. Please try again."
                }
            },
            UploadPart::Bytes => {
                let link = chars_of("connection");
                if contains(text.as_slice(), link.as_slice()) {
                    "Connection interrupted during upload. Please try again."
                } else {
                    "Failed to read uploaded file. Please try again."
                }
            },
        }
    };
    let mut message = String::new();
    push_text(&mut message, summary);
    push_text(&mut message, " (");
    push_chars(&mut message, text.as_slice());
    push_text(&mut message, ")");
    proof {
        assert(message@ =~= upload_failure_summary(stage, detail@) + " ("@ + detail@ + ")"@);
    }
    message
}

} // verus!
