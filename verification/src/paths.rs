//! Paths of the static frontend: lexical normalisation, resolution of a
//! request path under the frontend root, and the content type of a file.
//!
//! A path is held as the list of its components, as `Path::components`
//! yields them on Unix.

use vstd::prelude::*;
use vstd::utf8::*;
use crate::text::{
    ascii_lower_seq, char_pred, chars_eq, lemma_prefix_while_bound, lemma_prefix_while_prefix, lemma_prefix_while_stop, chars_of, concat_chars, lemma_prefix_while_char,
    lemma_suffix_while_char, lower_ascii_chars, not_char_pred, prefix_while, string_of,
    sub_chars, suffix_while,
};

verus! {

/// One component of a path.
pub enum PathComponent {
    RootDir,
    CurDir,
    ParentDir,
    Normal(String),
}

pub enum ComponentView {
    RootDir,
    CurDir,
    ParentDir,
    Normal(Seq<char>),
}

impl View for PathComponent {
    type V = ComponentView;

    open spec fn view(&self) -> ComponentView {
        match self {
            PathComponent::RootDir => ComponentView::RootDir,
            PathComponent::CurDir => ComponentView::CurDir,
            PathComponent::ParentDir => ComponentView::ParentDir,
            PathComponent::Normal(s) => ComponentView::Normal(s@),
        }
    }
}

pub open spec fn components_view(p: Seq<PathComponent>) -> Seq<ComponentView> {
    p.map_values(|c: PathComponent| c@)
}

/// One step of the normalisation fold: `.` is dropped, `..` removes the last
/// named component (`PathBuf::pop`), the root restarts the path
/// (`PathBuf::push` of an absolute path), a name is appended.
pub open spec fn norm_step(acc: Seq<ComponentView>, c: ComponentView) -> Seq<ComponentView> {
    match c {
        ComponentView::CurDir => acc,
        ComponentView::ParentDir => if acc.len() > 0 && acc.last() is Normal {
            acc.drop_last()
        } else {
            acc
        },
        ComponentView::RootDir => seq![ComponentView::RootDir],
        ComponentView::Normal(s) => acc.push(ComponentView::Normal(s)),
    }
}

/// Lexical normalisation of a path, left to right.
pub open spec fn spec_normalize(p: Seq<ComponentView>) -> Seq<ComponentView>
    decreases p.len(),
{
    if p.len() == 0 {
        Seq::empty()
    } else {
        norm_step(spec_normalize(p.drop_last()), p.last())
    }
}

/// A normalised path: no `.` or `..`, and the root only in front.
pub open spec fn is_normal_form(p: Seq<ComponentView>) -> bool {
    forall|i: int|
        0 <= i < p.len() ==> match #[trigger] p[i] {
            ComponentView::Normal(_) => true,
            ComponentView::RootDir => i == 0,
            _ => false,
        }
}

fn clone_component(c: &PathComponent) -> (r: PathComponent)
    ensures
        r@ == c@,
{
    match c {
        PathComponent::RootDir => PathComponent::RootDir,
        PathComponent::CurDir => PathComponent::CurDir,
        PathComponent::ParentDir => PathComponent::ParentDir,
        PathComponent::Normal(s) => PathComponent::Normal(s.clone()),
    }
}

/// Removes `.` and resolves `..` lexically, without looking at the disk.
pub fn normalize_path(path: &Vec<PathComponent>) -> (r: Vec<PathComponent>)
    ensures
        components_view(r@) == spec_normalize(components_view(path@)),
        is_normal_form(components_view(r@)),
{
    let mut acc: Vec<PathComponent> = Vec::new();
    let mut i: usize = 0;
    while i < path.len()
        invariant
            i <= path@.len(),
            components_view(acc@) == spec_normalize(components_view(path@.take(i as int))),
            is_normal_form(components_view(acc@)),
        decreases path@.len() - i,
    {
        let ghost before = components_view(acc@);
        proof {
            let t = components_view(path@.take(i + 1));
            assert(t.drop_last() == components_view(path@.take(i as int)));
            assert(t.last() == path@[i as int]@);
        }
        match &path[i] {
            PathComponent::CurDir => {},
            PathComponent::ParentDir => {
                if acc.len() > 0 {
                    let last_is_normal = match &acc[acc.len() - 1] {
                        PathComponent::Normal(_) => true,
                        _ => false,
                    };
                    if last_is_normal {
                        acc.pop();
                        assert(components_view(acc@) == before.drop_last());
                    }
                }
            },
            PathComponent::RootDir => {
                acc = Vec::new();
                acc.push(PathComponent::RootDir);
                assert(components_view(acc@) == seq![ComponentView::RootDir]);
            },
            PathComponent::Normal(s) => {
                acc.push(PathComponent::Normal(s.clone()));
                assert(components_view(acc@) == before.push(path@[i as int]@));
            },
        }
        i = i + 1;
    }
    assert(path@.take(path@.len() as int) == path@);
    acc
}

/// A path in normal form is its own normalisation.
pub proof fn lemma_normalize_fixed_point(p: Seq<ComponentView>)
    requires
        is_normal_form(p),
    ensures
        spec_normalize(p) == p,
    decreases p.len(),
{
    if p.len() > 0 {
        let d = p.drop_last();
        assert forall|i: int| 0 <= i < d.len() implies match #[trigger] d[i] {
            ComponentView::Normal(_) => true,
            ComponentView::RootDir => i == 0,
            _ => false,
        } by {
            assert(d[i] == p[i]);
        }
        lemma_normalize_fixed_point(d);
        let last = p[p.len() - 1];
        if last is RootDir {
            assert(p.len() == 1);
            assert(p == seq![ComponentView::RootDir]);
        } else {
            assert(d.push(last) == p);
        }
    }
}

/// Every normalised path is in normal form.
pub proof fn lemma_normalize_normal_form(p: Seq<ComponentView>)
    ensures
        is_normal_form(spec_normalize(p)),
    decreases p.len(),
{
    if p.len() > 0 {
        lemma_normalize_normal_form(p.drop_last());
        let acc = spec_normalize(p.drop_last());
        let r = spec_normalize(p);
        match p.last() {
            ComponentView::ParentDir => {
                if acc.len() > 0 && acc.last() is Normal {
                    assert forall|i: int| 0 <= i < r.len() implies match #[trigger] r[i] {
                        ComponentView::Normal(_) => true,
                        ComponentView::RootDir => i == 0,
                        _ => false,
                    } by {
                        assert(r[i] == acc[i]);
                    }
                }
            },
            ComponentView::Normal(s) => {
                assert forall|i: int| 0 <= i < r.len() implies match #[trigger] r[i] {
                    ComponentView::Normal(_) => true,
                    ComponentView::RootDir => i == 0,
                    _ => false,
                } by {
                    if i < acc.len() {
                        assert(r[i] == acc[i]);
                    }
                }
            },
            _ => {},
        }
    }
}

/// Normalising twice changes nothing.
pub proof fn law_normalize_idempotent(p: Seq<ComponentView>)
    ensures
        spec_normalize(spec_normalize(p)) == spec_normalize(p),
{
    lemma_normalize_normal_form(p);
    lemma_normalize_fixed_point(spec_normalize(p));
}

/// A `..` right after a name cancels that name, wherever the name stands,
/// directly under the root included.
pub proof fn law_parent_cancels_name(p: Seq<ComponentView>, name: Seq<char>)
    ensures
        spec_normalize(p + seq![ComponentView::Normal(name), ComponentView::ParentDir])
            == spec_normalize(p),
{
    let a = p + seq![ComponentView::Normal(name)];
    let q = p + seq![ComponentView::Normal(name), ComponentView::ParentDir];
    assert(q.drop_last() == a);
    assert(q.last() == ComponentView::ParentDir);
    assert(a.drop_last() == p);
    assert(a.last() == ComponentView::Normal(name));
    assert(spec_normalize(a) == spec_normalize(p).push(ComponentView::Normal(name)));
    assert(spec_normalize(q) == norm_step(spec_normalize(a), ComponentView::ParentDir));
    assert(spec_normalize(p).push(ComponentView::Normal(name)).drop_last() == spec_normalize(p));
}

/// A `.` changes nothing.
pub proof fn law_current_dir_ignored(p: Seq<ComponentView>)
    ensures
        spec_normalize(p + seq![ComponentView::CurDir]) == spec_normalize(p),
{
    assert((p + seq![ComponentView::CurDir]).drop_last() == p);
}

/// `..` never climbs above the root: `/..` is `/`.
pub proof fn law_parent_of_root_is_root(p: Seq<ComponentView>)
    ensures
        spec_normalize(p + seq![ComponentView::RootDir, ComponentView::ParentDir]) == seq![
            ComponentView::RootDir,
        ],
{
    let a = p + seq![ComponentView::RootDir];
    let q = p + seq![ComponentView::RootDir, ComponentView::ParentDir];
    assert(q.drop_last() == a);
    assert(q.last() == ComponentView::ParentDir);
    assert(a.drop_last() == p);
    assert(a.last() == ComponentView::RootDir);
    assert(spec_normalize(a) == seq![ComponentView::RootDir]);
    assert(spec_normalize(q) == norm_step(spec_normalize(a), ComponentView::ParentDir));
}

/// Appending names to a path appends them to its normalisation.
pub proof fn lemma_normalize_append_names(p: Seq<ComponentView>, names: Seq<ComponentView>)
    requires
        forall|i: int| 0 <= i < names.len() ==> #[trigger] names[i] is Normal,
    ensures
        spec_normalize(p + names) == spec_normalize(p) + names,
    decreases names.len(),
{
    if names.len() == 0 {
        assert(p + names == p);
        assert(spec_normalize(p) + names == spec_normalize(p));
    } else {
        let d = names.drop_last();
        assert forall|i: int| 0 <= i < d.len() implies #[trigger] d[i] is Normal by {
            assert(d[i] == names[i]);
        }
        lemma_normalize_append_names(p, d);
        assert((p + names).drop_last() == p + d);
        assert((p + names).last() == names.last());
        assert(names.last() is Normal);
        assert(spec_normalize(p) + d + seq![names.last()] == spec_normalize(p) + names);
    }
}

// ----- content types ------------------------------------------------------

/// The file name of a path: its last component, when that is a name.
pub open spec fn file_name(p: Seq<ComponentView>) -> Option<Seq<char>> {
    if p.len() > 0 {
        match p.last() {
            ComponentView::Normal(s) => Some(s),
            _ => None,
        }
    } else {
        None
    }
}

/// `Path::extension` of a file name: what follows its last `.`, unless that
/// dot starts the name or the name is `..`.
pub open spec fn extension_of(name: Seq<char>) -> Option<Seq<char>> {
    let k = suffix_while(name, not_char_pred('.'));
    if name == seq!['.', '.'] || k == name.len() || k + 1 == name.len() {
        None
    } else {
        Some(name.skip(name.len() - k))
    }
}

/// The content type that the console sends for a file of this extension,
/// compared without regard to ASCII case.
pub open spec fn content_type_for_extension(ext: Seq<char>) -> Seq<char> {
    let e = ascii_lower_seq(ext);
    if e == "html"@ {
        "text/html; charset=utf-8"@
    } else if e == "js"@ || e == "mjs"@ {
        "text/javascript; charset=utf-8"@
    } else if e == "css"@ {
        "text/css; charset=utf-8"@
    } else if e == "json"@ {
        "application/json; charset=utf-8"@
    } else if e == "svg"@ {
        "image/svg+xml"@
    } else if e == "png"@ {
        "image/png"@
    } else if e == "jpg"@ || e == "jpeg"@ {
        "image/jpeg"@
    } else if e == "webp"@ {
        "image/webp"@
    } else if e == "ico"@ {
        "image/x-icon"@
    } else if e == "woff"@ {
        "font/woff"@
    } else if e == "woff2"@ {
        "font/woff2"@
    } else {
        "application/octet-stream"@
    }
}

/// The content type of an extension does not depend on its ASCII case.
pub proof fn law_content_type_ignores_case(ext: Seq<char>)
    ensures
        content_type_for_extension(ascii_lower_seq(ext)) == content_type_for_extension(ext),
{
    assert(ascii_lower_seq(ascii_lower_seq(ext)) =~= ascii_lower_seq(ext));
}

/// The content type for a path: by its extension, `""` when it has none.
pub open spec fn spec_content_type(p: Seq<ComponentView>) -> Seq<char> {
    let ext = match file_name(p) {
        Some(name) => match extension_of(name) {
            Some(e) => e,
            None => Seq::empty(),
        },
        None => Seq::empty(),
    };
    content_type_for_extension(ext)
}

fn count_trailing_non_dot(t: &Vec<char>) -> (n: usize)
    ensures
        n <= t@.len(),
        n == suffix_while(t@, not_char_pred('.')),
{
    let mut n: usize = 0;
    while n < t.len() && t[t.len() - 1 - n] != '.'
        invariant
            n <= t@.len(),
            forall|j: int| t@.len() - n <= j < t@.len() ==> #[trigger] t@[j] != '.',
        decreases t@.len() - n,
    {
        n = n + 1;
    }
    proof {
        lemma_suffix_while_char(t@, not_char_pred('.'), n as int);
    }
    n
}

/// The extension of a file name, `Path::extension`.
pub fn file_extension(name: &Vec<char>) -> (r: Option<Vec<char>>)
    ensures
        match r {
            Some(e) => extension_of(name@) == Some(e@),
            None => extension_of(name@) is None,
        },
{
    let k = count_trailing_non_dot(name);
    let mut dots: Vec<char> = Vec::new();
    dots.push('.');
    dots.push('.');
    assert(dots@ == seq!['.', '.']);
    if chars_eq(name, &dots) || k == name.len() || k + 1 == name.len() {
        None
    } else {
        Some(sub_chars(name, name.len() - k, name.len()))
    }
}

fn is_literal(e: &Vec<char>, lit: &str) -> (r: bool)
    ensures
        r == (e@ == lit@),
{
    chars_eq(e, &chars_of(lit))
}

/// The content type that the console sends for a file of this extension.
pub fn content_type_for_ext(ext: &Vec<char>) -> (r: &'static str)
    ensures
        r@ == content_type_for_extension(ext@),
{
    let e = lower_ascii_chars(ext);
    if is_literal(&e, "html") {
        "text/html; charset=utf-8"
    } else if is_literal(&e, "js") || is_literal(&e, "mjs") {
        "text/javascript; charset=utf-8"
    } else if is_literal(&e, "css") {
        "text/css; charset=utf-8"
    } else if is_literal(&e, "json") {
        "application/json; charset=utf-8"
    } else if is_literal(&e, "svg") {
        "image/svg+xml"
    } else if is_literal(&e, "png") {
        "image/png"
    } else if is_literal(&e, "jpg") || is_literal(&e, "jpeg") {
        "image/jpeg"
    } else if is_literal(&e, "webp") {
        "image/webp"
    } else if is_literal(&e, "ico") {
        "image/x-icon"
    } else if is_literal(&e, "woff") {
        "font/woff"
    } else if is_literal(&e, "woff2") {
        "font/woff2"
    } else {
        "application/octet-stream"
    }
}

/// The content type of a file, by the extension of its name.
pub fn content_type_for_path(path: &Vec<PathComponent>) -> (r: &'static str)
    ensures
        r@ == spec_content_type(components_view(path@)),
{
    let empty: Vec<char> = Vec::new();
    if path.len() == 0 {
        return content_type_for_ext(&empty);
    }
    assert(components_view(path@).last() == path@[path@.len() - 1]@);
    match &path[path.len() - 1] {
        PathComponent::Normal(s) => {
            let name = chars_of(s.as_str());
            match file_extension(&name) {
                Some(e) => content_type_for_ext(&e),
                None => content_type_for_ext(&empty),
            }
        },
        _ => content_type_for_ext(&empty),
    }
}


// ----- resolving a request path -------------------------------------------

pub open spec fn is_hex_digit(b: u8) -> bool {
    (48 <= b && b <= 57) || (65 <= b && b <= 70) || (97 <= b && b <= 102)
}

pub open spec fn hex_digit_value(b: u8) -> nat {
    if b <= 57 {
        (b - 48) as nat
    } else if b <= 70 {
        (b - 55) as nat
    } else {
        (b - 87) as nat
    }
}

/// Percent-decoding of bytes: `%` and two hex digits stand for one byte;
/// any other byte, a lone `%` among them, stands for itself.
pub open spec fn percent_decode_bytes(b: Seq<u8>) -> Seq<u8>
    decreases b.len(),
{
    if b.len() == 0 {
        Seq::empty()
    } else if b[0] == 37 && b.len() >= 3 && is_hex_digit(b[1]) && is_hex_digit(b[2]) {
        seq![(hex_digit_value(b[1]) * 16 + hex_digit_value(b[2])) as u8] + percent_decode_bytes(
            b.skip(3),
        )
    } else {
        seq![b[0]] + percent_decode_bytes(b.drop_first())
    }
}

/// Named result: the `Display` text of the UTF-8 error that
/// `urlencoding::decode` reports for `s`.
pub uninterp spec fn percent_decode_error(s: Seq<char>) -> Seq<char>;

/// What `urlencoding::decode` gives for `s`: the percent-decoded UTF-8 bytes
/// of `s` as text, or an error when they are not valid UTF-8.
pub open spec fn spec_url_decode(s: Seq<char>) -> Result<Seq<char>, Seq<char>> {
    let b = percent_decode_bytes(encode_utf8(s));
    if valid_utf8(b) {
        Ok(decode_utf8(b))
    } else {
        Err(percent_decode_error(s))
    }
}

/// Trusted: `urlencoding::decode` (2.1): it percent-decodes the UTF-8 bytes
/// of `s` (`%` and two hex digits give one byte, everything else is kept)
/// and reads the result as UTF-8; its error is shown through `Display`.
#[verifier::external_body]
fn url_decode(s: &str) -> (r: Result<String, String>)
    ensures
        match r {
            Ok(d) => valid_utf8(percent_decode_bytes(encode_utf8(s@))) && d@ == decode_utf8(
                percent_decode_bytes(encode_utf8(s@)),
            ),
            Err(e) => !valid_utf8(percent_decode_bytes(encode_utf8(s@))) && e@
                == percent_decode_error(s@),
        },
{
    match urlencoding::decode(s) {
        Ok(d) => Ok(d.into_owned()),
        Err(e) => Err(e.to_string()),
    }
}

/// The file that a request path names, relative to the root: `index.html`
/// for `/` and the empty path, otherwise the path without its leading `/`s.
pub open spec fn static_target(request_path: Seq<char>) -> Seq<char> {
    if request_path == seq!['/'] || request_path.len() == 0 {
        "index.html"@
    } else {
        request_path.skip(prefix_while(request_path, char_pred('/')) as int)
    }
}

/// The non-empty pieces of `t` between `/`s, left to right.
pub open spec fn path_segments(t: Seq<char>) -> Seq<Seq<char>>
    decreases t.len(),
{
    let k = prefix_while(t, not_char_pred('/'));
    let rest = if k < t.len() {
        proof {
            lemma_prefix_while_bound(t, not_char_pred('/'));
        }
        path_segments(t.skip(k as int + 1))
    } else {
        Seq::empty()
    };
    if k == 0 {
        rest
    } else {
        seq![t.take(k as int)] + rest
    }
}


/// A segment that could leave the root or name it ambiguously.
pub open spec fn is_bad_segment(s: Seq<char>) -> bool {
    s == seq!['.'] || s == seq!['.', '.'] || s.contains('\\')
}

/// Why a request path does not name a static file.
pub enum StaticPathError {
    InvalidUrlEncoding(String),
    InvalidStaticPath,
}

pub enum StaticPathErrorView {
    InvalidUrlEncoding(Seq<char>),
    InvalidStaticPath,
}

impl View for StaticPathError {
    type V = StaticPathErrorView;

    open spec fn view(&self) -> StaticPathErrorView {
        match self {
            StaticPathError::InvalidUrlEncoding(m) => StaticPathErrorView::InvalidUrlEncoding(m@),
            StaticPathError::InvalidStaticPath => StaticPathErrorView::InvalidStaticPath,
        }
    }
}

impl StaticPathError {
    /// The text that the console reports for this error.
    pub fn message(&self) -> (r: String)
        ensures
            r@ == match self@ {
                StaticPathErrorView::InvalidUrlEncoding(m) => m,
                StaticPathErrorView::InvalidStaticPath => "invalid static path"@,
            },
    {
        match self {
            StaticPathError::InvalidUrlEncoding(m) => m.clone(),
            StaticPathError::InvalidStaticPath => "invalid static path".to_owned(),
        }
    }
}

pub open spec fn names_of(segs: Seq<Seq<char>>) -> Seq<ComponentView> {
    segs.map_values(|s: Seq<char>| ComponentView::Normal(s))
}

/// The file that a request path names under `root`: the root followed by
/// the decoded segments of the path, each of them a plain name.
pub open spec fn spec_resolve_static_path(root: Seq<ComponentView>, request_path: Seq<char>) -> Result<
    Seq<ComponentView>,
    StaticPathErrorView,
> {
    match spec_url_decode(static_target(request_path)) {
        Err(e) => Err(StaticPathErrorView::InvalidUrlEncoding("invalid URL encoding: "@ + e)),
        Ok(d) => {
            let segs = path_segments(d);
            if exists|i: int| 0 <= i < segs.len() && is_bad_segment(#[trigger] segs[i]) {
                Err(StaticPathErrorView::InvalidStaticPath)
            } else {
                Ok(root + names_of(segs))
            }
        },
    }
}

/// Splits a path into its non-empty `/`-separated segments.
pub fn split_segments(t: &Vec<char>) -> (r: Vec<Vec<char>>)
    ensures
        r@.len() == path_segments(t@).len(),
        forall|i: int| 0 <= i < r@.len() ==> #[trigger] r@[i]@ == path_segments(t@)[i],
{
    let mut segs: Vec<Vec<char>> = Vec::new();
    let mut start: usize = 0;
    let mut i: usize = 0;
    let n = t.len();
    assert(t@.skip(0) == t@);
    assert(segs@.map_values(|v: Vec<char>| v@) == Seq::<Seq<char>>::empty());
    while i < n
        invariant
            n == t@.len(),
            start <= i <= n,
            forall|j: int| start <= j < i ==> #[trigger] t@[j] != '/',
            segs@.map_values(|v: Vec<char>| v@) + path_segments(t@.skip(start as int))
                == path_segments(t@),
        decreases n - i,
    {
        if t[i] == '/' {
            let ghost u = t@.skip(start as int);
            proof {
                assert forall|j: int| 0 <= j < i - start implies #[trigger] u[j] != '/' by {
                    assert(u[j] == t@[start + j]);
                }
                assert(u[i - start] == '/');
                lemma_prefix_while_char(u, not_char_pred('/'), i - start);
                assert(u.skip(i - start + 1) == t@.skip(i + 1));
                assert(u.take(i - start) == t@.subrange(start as int, i as int));
            }
            if i > start {
                let seg = sub_chars(t, start, i);
                let ghost before = segs@.map_values(|v: Vec<char>| v@);
                segs.push(seg);
                assert(segs@.map_values(|v: Vec<char>| v@) == before.push(seg@));
            }
            start = i + 1;
        }
        i = i + 1;
    }
    let ghost u = t@.skip(start as int);
    proof {
        assert forall|j: int| 0 <= j < u.len() implies #[trigger] u[j] != '/' by {
            assert(u[j] == t@[start + j]);
        }
        lemma_prefix_while_char(u, not_char_pred('/'), u.len() as int);
        assert(u.take(u.len() as int) == u);
    }
    if start < n {
        let seg = sub_chars(t, start, n);
        let ghost before = segs@.map_values(|v: Vec<char>| v@);
        segs.push(seg);
        assert(segs@.map_values(|v: Vec<char>| v@) == before.push(seg@));
    }
    proof {
        let m = segs@.map_values(|v: Vec<char>| v@);
        assert(m == path_segments(t@));
        assert forall|k: int| 0 <= k < segs@.len() implies #[trigger] segs@[k]@ == path_segments(
            t@,
        )[k] by {
            assert(m[k] == segs@[k]@);
        }
    }
    segs
}

fn bad_segment(seg: &Vec<char>) -> (r: bool)
    ensures
        r == is_bad_segment(seg@),
{
    let mut one: Vec<char> = Vec::new();
    one.push('.');
    let mut two: Vec<char> = Vec::new();
    two.push('.');
    two.push('.');
    assert(one@ == seq!['.']);
    assert(two@ == seq!['.', '.']);
    let k = crate::text::find_char(seg, '\\');
    proof {
        if k < seg@.len() {
            lemma_prefix_while_stop(seg@, not_char_pred('\\'));
            assert(seg@[k as int] == '\\');
        } else {
            assert forall|j: int| 0 <= j < seg@.len() implies seg@[j] != '\\' by {
                lemma_prefix_while_prefix(seg@, not_char_pred('\\'), j);
            }
        }
    }
    chars_eq(seg, &one) || chars_eq(seg, &two) || k < seg.len()
}

/// Resolves a request path to a file under `root`. The path is taken
/// without its leading `/`s (`index.html` for `/`), percent-decoded, and
/// split on `/`; a segment `.`, `..`, or one holding `\` is refused, so the
/// result never leaves `root`.
pub fn resolve_static_path(root: &Vec<PathComponent>, request_path: &str) -> (r: Result<
    Vec<PathComponent>,
    StaticPathError,
>)
    ensures
        match r {
            Ok(p) => spec_resolve_static_path(components_view(root@), request_path@) == Ok::<
                Seq<ComponentView>,
                StaticPathErrorView,
            >(components_view(p@)),
            Err(e) => spec_resolve_static_path(components_view(root@), request_path@) == Err::<
                Seq<ComponentView>,
                StaticPathErrorView,
            >(e@),
        },
{
    let rp = chars_of(request_path);
    let mut slash: Vec<char> = Vec::new();
    slash.push('/');
    assert(slash@ == seq!['/']);
    let target: Vec<char> = if chars_eq(&rp, &slash) || rp.len() == 0 {
        chars_of("index.html")
    } else {
        let mut k: usize = 0;
        while k < rp.len() && rp[k] == '/'
            invariant
                k <= rp@.len(),
                forall|j: int| 0 <= j < k ==> #[trigger] rp@[j] == '/',
            decreases rp@.len() - k,
        {
            k = k + 1;
        }
        proof {
            lemma_prefix_while_char(rp@, char_pred('/'), k as int);
        }
        sub_chars(&rp, k, rp.len())
    };
    assert(target@ == static_target(request_path@));
    let target_s = string_of(&target);
    let decoded = match url_decode(target_s.as_str()) {
        Ok(d) => d,
        Err(e) => {
            let m = concat_chars(&chars_of("invalid URL encoding: "), &chars_of(e.as_str()));
            return Err(StaticPathError::InvalidUrlEncoding(string_of(&m)));
        },
    };
    let dchars = chars_of(decoded.as_str());
    assert(spec_url_decode(static_target(request_path@)) == Ok::<Seq<char>, Seq<char>>(dchars@));
    let segs = split_segments(&dchars);
    let ghost ssegs = path_segments(dchars@);
    let mut result: Vec<PathComponent> = Vec::new();
    let mut i: usize = 0;
    while i < root.len()
        invariant
            i <= root@.len(),
            components_view(result@) == components_view(root@.take(i as int)),
        decreases root@.len() - i,
    {
        let c = clone_component(&root[i]);
        let ghost before = components_view(result@);
        result.push(c);
        assert(components_view(result@) == before.push(c@));
        assert(components_view(root@.take(i + 1)) == components_view(root@.take(i as int)).push(
            root@[i as int]@,
        ));
        i = i + 1;
    }
    assert(root@.take(root@.len() as int) == root@);
    let mut j: usize = 0;
    while j < segs.len()
        invariant
            j <= segs@.len(),
            spec_url_decode(static_target(request_path@)) == Ok::<Seq<char>, Seq<char>>(dchars@),
            ssegs == path_segments(dchars@),
            segs@.len() == ssegs.len(),
            forall|k: int| 0 <= k < segs@.len() ==> #[trigger] segs@[k]@ == ssegs[k],
            forall|k: int| 0 <= k < j ==> !is_bad_segment(#[trigger] ssegs[k]),
            components_view(result@) == components_view(root@) + names_of(ssegs.take(j as int)),
        decreases segs@.len() - j,
    {
        if bad_segment(&segs[j]) {
            assert(is_bad_segment(ssegs[j as int]));
            assert(exists|i: int| 0 <= i < ssegs.len() && is_bad_segment(#[trigger] ssegs[i]));
            return Err(StaticPathError::InvalidStaticPath);
        }
        let name = string_of(&segs[j]);
        let ghost before = components_view(result@);
        result.push(PathComponent::Normal(name));
        assert(components_view(result@) == before.push(ComponentView::Normal(ssegs[j as int])));
        assert(names_of(ssegs.take(j + 1)) == names_of(ssegs.take(j as int)).push(
            ComponentView::Normal(ssegs[j as int]),
        ));
        j = j + 1;
    }
    assert(ssegs.take(ssegs.len() as int) == ssegs);
    Ok(result)
}


/// Each segment of a path is a non-empty piece without `/`.
pub proof fn lemma_path_segments_plain(t: Seq<char>)
    ensures
        forall|i: int|
            0 <= i < path_segments(t).len() ==> {
                &&& (#[trigger] path_segments(t)[i]).len() > 0
                &&& !path_segments(t)[i].contains('/')
            },
    decreases t.len(),
{
    let k = prefix_while(t, not_char_pred('/'));
    lemma_prefix_while_bound(t, not_char_pred('/'));
    let rest = if k < t.len() {
        path_segments(t.skip(k as int + 1))
    } else {
        Seq::empty()
    };
    if k < t.len() {
        lemma_path_segments_plain(t.skip(k as int + 1));
    }
    let head = t.take(k as int);
    assert forall|j: int| 0 <= j < head.len() implies head[j] != '/' by {
        lemma_prefix_while_prefix(t, not_char_pred('/'), j);
    }
    let segs = path_segments(t);
    assert forall|i: int| 0 <= i < segs.len() implies {
        &&& (#[trigger] segs[i]).len() > 0
        &&& !segs[i].contains('/')
    } by {
        if k == 0 {
            assert(segs[i] == rest[i]);
        } else if i == 0 {
            assert(segs[i] == head);
        } else {
            assert(segs[i] == rest[i - 1]);
        }
    }
}

/// A resolved static path stays under the root: it is the root followed by
/// plain names (none empty, `.` or `..`, none holding `/` or `\`), and
/// normalising it gives the normalised root followed by those names.
pub proof fn law_resolved_path_stays_under_root(root: Seq<ComponentView>, request_path: Seq<char>)
    requires
        spec_resolve_static_path(root, request_path) is Ok,
    ensures
        ({
            let r = spec_resolve_static_path(root, request_path)->Ok_0;
            &&& r.len() >= root.len()
            &&& r.take(root.len() as int) == root
            &&& forall|i: int|
                root.len() <= i < r.len() ==> (#[trigger] r[i] matches ComponentView::Normal(s)
                    && s.len() > 0 && !is_bad_segment(s) && !s.contains('/'))
            &&& spec_normalize(r) == spec_normalize(root) + r.skip(root.len() as int)
        }),
{
    let d = spec_url_decode(static_target(request_path))->Ok_0;
    let segs = path_segments(d);
    let names = names_of(segs);
    let r = root + names;
    lemma_path_segments_plain(d);
    assert(r.take(root.len() as int) == root);
    assert(r.skip(root.len() as int) == names);
    assert forall|i: int| 0 <= i < names.len() implies #[trigger] names[i] is Normal by {}
    lemma_normalize_append_names(root, names);
    assert forall|i: int| root.len() <= i < r.len() implies (#[trigger] r[i] matches ComponentView::Normal(
        s,
    ) && s.len() > 0 && !is_bad_segment(s) && !s.contains('/')) by {
        assert(r[i] == names[i - root.len()]);
        assert(!is_bad_segment(segs[i - root.len()]));
    }
}

/// Segments other than `.`, `..` and those holding `\` are never refused: when
/// the decoded path has no such segment, the request resolves to the root
/// followed by its segments, in order, each as a name.
pub proof fn law_plain_segments_resolve(root: Seq<ComponentView>, request_path: Seq<char>)
    requires
        spec_url_decode(static_target(request_path)) is Ok,
        forall|i: int|
            0 <= i < path_segments(spec_url_decode(static_target(request_path))->Ok_0).len() ==> {
                let seg = #[trigger] path_segments(spec_url_decode(static_target(request_path))->Ok_0)[i];
                &&& seg != seq!['.']
                &&& seg != seq!['.', '.']
                &&& forall|j: int| 0 <= j < seg.len() ==> seg[j] != '\\'
            },
    ensures
        ({
            let segs = path_segments(spec_url_decode(static_target(request_path))->Ok_0);
            &&& spec_resolve_static_path(root, request_path) is Ok
            &&& spec_resolve_static_path(root, request_path)->Ok_0.len() == root.len() + segs.len()
            &&& spec_resolve_static_path(root, request_path)->Ok_0.take(root.len() as int) == root
            &&& forall|i: int|
                0 <= i < segs.len() ==> spec_resolve_static_path(root, request_path)->Ok_0[root.len()
                    + i] == ComponentView::Normal(#[trigger] segs[i])
        }),
{
    let segs = path_segments(spec_url_decode(static_target(request_path))->Ok_0);
    assert forall|i: int| 0 <= i < segs.len() implies !is_bad_segment(#[trigger] segs[i]) by {
        let seg = segs[i];
        if seg.contains('\\') {
            let j = choose|j: int| 0 <= j < seg.len() && seg[j] == '\\';
            assert(seg[j] != '\\');
        }
    }
    let r = root + names_of(segs);
    assert(r.take(root.len() as int) == root);
}

/// A request path with a segment `.` or `..`, or one holding `\`, is refused.
pub proof fn law_traversal_refused(root: Seq<ComponentView>, request_path: Seq<char>, i: int)
    requires
        spec_url_decode(static_target(request_path)) is Ok,
        0 <= i < path_segments(spec_url_decode(static_target(request_path))->Ok_0).len(),
        ({
            let seg = path_segments(spec_url_decode(static_target(request_path))->Ok_0)[i];
            seg == seq!['.'] || seg == seq!['.', '.'] || exists|j: int|
                0 <= j < seg.len() && seg[j] == '\\'
        }),
    ensures
        spec_resolve_static_path(root, request_path) == Err::<
            Seq<ComponentView>,
            StaticPathErrorView,
        >(StaticPathErrorView::InvalidStaticPath),
{
    let segs = path_segments(spec_url_decode(static_target(request_path))->Ok_0);
    assert(is_bad_segment(segs[i]));
}

// ----- the frontend root --------------------------------------------------

/// The name of the page that the console serves for `/` and for any path
/// that names no file.
pub fn index_html() -> (r: &'static str)
    ensures
        r@ == "index.html"@,
{
    "index.html"
}

pub open spec fn dist_name() -> ComponentView {
    ComponentView::Normal("dist"@)
}

/// The directories where the frontend may have been built, in the order
/// they are tried: `<manifest>/../dist`, `<cwd>/dist`, `<cwd>/../dist`, each
/// normalised.
pub open spec fn spec_frontend_candidates(
    manifest_dir: Seq<ComponentView>,
    cwd: Seq<ComponentView>,
) -> Seq<Seq<ComponentView>> {
    seq![
        spec_normalize(manifest_dir + seq![ComponentView::ParentDir, dist_name()]),
        spec_normalize(cwd + seq![dist_name()]),
        spec_normalize(cwd + seq![ComponentView::ParentDir, dist_name()]),
    ]
}

fn clone_components(p: &Vec<PathComponent>) -> (r: Vec<PathComponent>)
    ensures
        components_view(r@) == components_view(p@),
{
    let mut r: Vec<PathComponent> = Vec::new();
    let mut i: usize = 0;
    while i < p.len()
        invariant
            i <= p@.len(),
            components_view(r@) == components_view(p@.take(i as int)),
        decreases p@.len() - i,
    {
        let c = clone_component(&p[i]);
        let ghost before = components_view(r@);
        r.push(c);
        assert(components_view(r@) == before.push(c@));
        assert(components_view(p@.take(i + 1)) == components_view(p@.take(i as int)).push(
            p@[i as int]@,
        ));
        i = i + 1;
    }
    assert(p@.take(p@.len() as int) == p@);
    r
}

/// `p` joined with the components `extra`.
fn join_components(p: &Vec<PathComponent>, extra: Vec<PathComponent>) -> (r: Vec<PathComponent>)
    ensures
        components_view(r@) == components_view(p@) + components_view(extra@),
{
    let mut r = clone_components(p);
    let mut e = extra;
    let ghost a = components_view(r@);
    let ghost b = components_view(e@);
    r.append(&mut e);
    assert(components_view(r@) == a + b);
    r
}

/// The candidate directories of the built frontend.
pub fn frontend_dist_candidates(manifest_dir: &Vec<PathComponent>, cwd: &Vec<PathComponent>) -> (r:
    Vec<Vec<PathComponent>>)
    ensures
        r@.len() == 3,
        forall|i: int|
            0 <= i < 3 ==> components_view(#[trigger] r@[i]@) == spec_frontend_candidates(
                components_view(manifest_dir@),
                components_view(cwd@),
            )[i],
{
    let mut up_dist: Vec<PathComponent> = Vec::new();
    up_dist.push(PathComponent::ParentDir);
    up_dist.push(PathComponent::Normal("dist".to_owned()));
    assert(components_view(up_dist@) == seq![ComponentView::ParentDir, dist_name()]);
    let mut dist: Vec<PathComponent> = Vec::new();
    dist.push(PathComponent::Normal("dist".to_owned()));
    assert(components_view(dist@) == seq![dist_name()]);
    let mut up_dist2: Vec<PathComponent> = Vec::new();
    up_dist2.push(PathComponent::ParentDir);
    up_dist2.push(PathComponent::Normal("dist".to_owned()));
    assert(components_view(up_dist2@) == seq![ComponentView::ParentDir, dist_name()]);
    let a = normalize_path(&join_components(manifest_dir, up_dist));
    let b = normalize_path(&join_components(cwd, dist));
    let c = normalize_path(&join_components(cwd, up_dist2));
    let mut r: Vec<Vec<PathComponent>> = Vec::new();
    r.push(a);
    r.push(b);
    r.push(c);
    r
}

/// `dir/index.html`.
pub fn index_file(dir: &Vec<PathComponent>) -> (r: Vec<PathComponent>)
    ensures
        components_view(r@) == components_view(dir@) + seq![ComponentView::Normal("index.html"@)],
{
    let mut name: Vec<PathComponent> = Vec::new();
    name.push(PathComponent::Normal(index_html().to_owned()));
    assert(components_view(name@) == seq![ComponentView::Normal("index.html"@)]);
    join_components(dir, name)
}

/// The file the console sends for a static request, and its content type.
pub struct StaticFile {
    pub path: Vec<PathComponent>,
    pub content_type: &'static str,
}

/// Chooses the file to send: the resolved one when it is a regular file,
/// otherwise the frontend's `index.html` (the single-page fallback).
pub fn choose_static_file(resolved: Vec<PathComponent>, is_file: bool, dist_root: &Vec<PathComponent>) -> (r: StaticFile)
    ensures
        is_file ==> components_view(r.path@) == components_view(resolved@) && r.content_type@
            == spec_content_type(components_view(resolved@)),
        !is_file ==> components_view(r.path@) == components_view(dist_root@) + seq![
            ComponentView::Normal("index.html"@),
        ] && r.content_type@ == "text/html; charset=utf-8"@,
{
    if is_file {
        let content_type = content_type_for_path(&resolved);
        StaticFile { path: resolved, content_type }
    } else {
        StaticFile { path: index_file(dist_root), content_type: "text/html; charset=utf-8" }
    }
}

} // verus!
