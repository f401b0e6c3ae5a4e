use vstd::prelude::*;
use vstd::string::*;

verus! {

/// What the worker was asked to open: a path that is valid UTF-8 text, or one that is
/// not, kept only in its displayable (lossy) form for error messages.
#[derive(Debug)]
pub enum DbPath {
    Utf8(String),
    NotUtf8(String),
}

/// Why no connection target could be built for a path.
#[derive(Debug)]
pub enum PathError {
    /// The path is not UTF-8 text, which SQLite connection strings require.
    NotUtf8 { display: String },
    /// The drive-letter pattern was refused by the regex engine.
    DrivePattern,
}

/// The target of the shared in-memory database, which every open without a path uses.
pub open spec fn memory_target() -> Seq<char> {
    seq!['s', 'q', 'l', 'i', 't', 'e', ':', 'f', 'i', 'l', 'e', ':', ':', 'm', 'e', 'm', 'o', 'r', 'y', ':',
        '?', 'c', 'a', 'c', 'h', 'e', '=', 's', 'h', 'a', 'r', 'e', 'd']
}

/// What every target for a database file starts with.
pub open spec fn file_prefix() -> Seq<char> {
    seq!['s', 'q', 'l', 'i', 't', 'e', ':', 'f', 'i', 'l', 'e', ':']
}

/// The regular expression of a drive-letter path: one word character, then a colon.
pub open spec fn drive_pattern() -> Seq<char> {
    seq!['^', '\\', 'w', ':']
}

/// Whether the regex engine accepts `pattern`.
pub uninterp spec fn regex_compiles(pattern: Seq<char>) -> bool;

/// Whether `haystack` holds a match of the regular expression `pattern`.
pub uninterp spec fn regex_is_match(pattern: Seq<char>, haystack: Seq<char>) -> bool;

/// What one character of a path becomes in a connection target, before separators
/// are collapsed.
pub open spec fn escape_char(c: char) -> Seq<char> {
    if c == '?' {
        seq!['%', '3', 'f']
    } else if c == '#' {
        seq!['%', '2', '3']
    } else if c == '\\' {
        seq!['/']
    } else {
        seq![c]
    }
}

/// Appends `c` unless it is a separator that would follow another one.
pub open spec fn push_collapsed(p: Seq<char>, c: char) -> Seq<char> {
    if c == '/' && p.len() > 0 && p.last() == '/' {
        p
    } else {
        p.push(c)
    }
}

pub open spec fn push_all(p: Seq<char>, cs: Seq<char>) -> Seq<char>
    decreases cs.len(),
{
    if cs.len() == 0 {
        p
    } else {
        push_all(push_collapsed(p, cs[0]), cs.drop_first())
    }
}

/// A path with `?` and `#` percent-encoded, backslashes turned into slashes and every
/// run of slashes collapsed into one.
pub open spec fn sanitized(s: Seq<char>) -> Seq<char>
    decreases s.len(),
{
    if s.len() == 0 {
        seq![]
    } else {
        push_all(sanitized(s.drop_last()), escape_char(s.last()))
    }
}

/// Holds no `?`, `#` or backslash, and no two slashes in a row.
pub open spec fn is_clean(s: Seq<char>) -> bool {
    &&& forall|i: int| 0 <= i < s.len() ==> #[trigger] s[i] != '?' && s[i] != '#' && s[i] != '\\'
    &&& forall|i: int| 0 <= i < s.len() - 1 ==> !(#[trigger] s[i] == '/' && s[i + 1] == '/')
}

/// The target for a sanitized path, given whether it names a drive.
pub open spec fn file_target(path: Seq<char>, drive: bool) -> Seq<char> {
    if drive {
        file_prefix() + seq!['/'] + path
    } else {
        file_prefix() + path
    }
}

/// The connection target for an optional path: the shared in-memory database when
/// there is none, an error for a path that is not UTF-8, and otherwise the file target
/// of the sanitized path, with the drive test made on it.
pub open spec fn target_of(path: Option<DbPath>) -> Result<Seq<char>, PathError> {
    match path {
        None => Ok(memory_target()),
        Some(DbPath::NotUtf8(display)) => Err(PathError::NotUtf8 { display }),
        Some(DbPath::Utf8(p)) => if regex_compiles(drive_pattern()) {
            Ok(file_target(sanitized(p@), drive_test(sanitized(p@))))
        } else {
            Err(PathError::DrivePattern)
        },
    }
}

/// Whether a built target is the one that `target_of` describes.
pub open spec fn built_as(r: Result<String, PathError>, t: Result<Seq<char>, PathError>) -> bool {
    match (r, t) {
        (Ok(a), Ok(b)) => a@ == b,
        (Err(e), Err(f)) => e == f,
        _ => false,
    }
}

/// The drive test that the builder makes on a sanitized path.
pub open spec fn drive_test(path: Seq<char>) -> bool {
    regex_is_match(drive_pattern(), path)
}

/// Relies on regex::Regex::new, which compiles `pattern` or refuses it, and on
/// Regex::is_match, which reports whether `haystack` holds a match of the compiled
/// expression.
#[verifier::external_body]
fn regex_match(pattern: &str, haystack: &str) -> (r: Option<bool>)
    ensures
        r is Some <==> regex_compiles(pattern@),
        r matches Some(b) ==> b == regex_is_match(pattern@, haystack@),
{
    match regex::Regex::new(pattern) {
        Ok(re) => Some(re.is_match(haystack)),
        Err(_) => None,
    }
}


proof fn lemma_push_all_one(p: Seq<char>, c: char)
    ensures
        push_all(p, seq![c]) == push_collapsed(p, c),
{
    reveal_with_fuel(push_all, 2);
    assert(seq![c].drop_first() =~= Seq::<char>::empty());
}

proof fn lemma_push_all_plain(p: Seq<char>, cs: Seq<char>)
    requires
        forall|i: int| 0 <= i < cs.len() ==> #[trigger] cs[i] != '/',
    ensures
        push_all(p, cs) == p + cs,
    decreases cs.len(),
{
    if cs.len() == 0 {
        assert(p + cs =~= p);
    } else {
        let rest = cs.drop_first();
        assert forall|i: int| 0 <= i < rest.len() implies #[trigger] rest[i] != '/' by {
            assert(rest[i] == cs[i + 1]);
        }
        lemma_push_all_plain(p.push(cs[0]), rest);
        assert(p.push(cs[0]) + rest =~= p + cs);
    }
}

proof fn lemma_push_collapsed_clean(p: Seq<char>, c: char)
    requires
        is_clean(p),
        c != '?' && c != '#' && c != '\\',
    ensures
        is_clean(push_collapsed(p, c)),
{
    let q = push_collapsed(p, c);
    if !(c == '/' && p.len() > 0 && p.last() == '/') {
        assert forall|i: int| 0 <= i < q.len() - 1 implies !(#[trigger] q[i] == '/' && q[i + 1] == '/') by {
            if i < p.len() - 1 {
                assert(q[i] == p[i] && q[i + 1] == p[i + 1]);
            }
        }
        assert forall|i: int| 0 <= i < q.len() implies #[trigger] q[i] != '?' && q[i] != '#' && q[i] != '\\' by {
            if i < p.len() {
                assert(q[i] == p[i]);
            }
        }
    }
}

proof fn lemma_push_all_clean(p: Seq<char>, cs: Seq<char>)
    requires
        is_clean(p),
        forall|i: int| 0 <= i < cs.len() ==> #[trigger] cs[i] != '?' && cs[i] != '#' && cs[i] != '\\',
    ensures
        is_clean(push_all(p, cs)),
    decreases cs.len(),
{
    if cs.len() > 0 {
        lemma_push_collapsed_clean(p, cs[0]);
        let rest = cs.drop_first();
        assert forall|i: int| 0 <= i < rest.len() implies #[trigger] rest[i] != '?' && rest[i] != '#'
            && rest[i] != '\\' by {
            assert(rest[i] == cs[i + 1]);
        }
        lemma_push_all_clean(push_collapsed(p, cs[0]), rest);
    }
}

/// A sanitized path holds no `?`, `#` or backslash, and no two slashes in a row.
pub proof fn lemma_sanitized_is_clean(s: Seq<char>)
    ensures
        is_clean(sanitized(s)),
    decreases s.len(),
{
    if s.len() > 0 {
        lemma_sanitized_is_clean(s.drop_last());
        let cs = escape_char(s.last());
        assert forall|i: int| 0 <= i < cs.len() implies #[trigger] cs[i] != '?' && cs[i] != '#'
            && cs[i] != '\\' by {}
        lemma_push_all_clean(sanitized(s.drop_last()), cs);
    }
}

/// Sanitizing leaves a clean path as it is.
pub proof fn lemma_clean_is_fixed(s: Seq<char>)
    requires
        is_clean(s),
    ensures
        sanitized(s) == s,
    decreases s.len(),
{
    if s.len() > 0 {
        let d = s.drop_last();
        assert(is_clean(d)) by {
            assert forall|i: int| 0 <= i < d.len() implies #[trigger] d[i] != '?' && d[i] != '#' && d[i] != '\\' by {
                assert(d[i] == s[i]);
            }
            assert forall|i: int| 0 <= i < d.len() - 1 implies !(#[trigger] d[i] == '/' && d[i + 1] == '/') by {
                assert(d[i] == s[i] && d[i + 1] == s[i + 1]);
            }
        }
        lemma_clean_is_fixed(d);
        let c = s.last();
        assert(s[s.len() - 1] == c);
        assert(escape_char(c) == seq![c]);
        lemma_push_all_one(d, c);
        if d.len() > 0 && d.last() == '/' && c == '/' {
            assert(s[s.len() - 2] == d.last());
        }
        assert(d.push(c) =~= s);
    }
}

/// Sanitizing twice gives what sanitizing once gives.
pub proof fn lemma_sanitize_idempotent(s: Seq<char>)
    ensures
        sanitized(sanitized(s)) == sanitized(s),
{
    lemma_sanitized_is_clean(s);
    lemma_clean_is_fixed(sanitized(s));
}

/// Every open without a path gets the one shared in-memory target.
pub proof fn lemma_memory_target_shared()
    ensures
        target_of(None) == Ok::<Seq<char>, PathError>(memory_target()),
{
}

/// Copies `s` with `?` and `#` percent-encoded, backslashes turned into slashes and
/// runs of slashes collapsed into one.
pub fn sanitize(s: &str) -> (r: String)
    ensures
        r@ == sanitized(s@),
{
    let n = s.unicode_len();
    let mut out = String::new();
    let mut last_slash = false;
    let mut i: usize = 0;
    while i < n
        invariant
            n == s@.len(),
            i <= n,
            out@ == sanitized(s@.take(i as int)),
            last_slash == (out@.len() > 0 && out@.last() == '/'),
        decreases n - i,
    {
        let c = s.get_char(i);
        proof {
            let t = s@.take(i as int + 1);
            assert(t.drop_last() =~= s@.take(i as int));
            assert(t.last() == c);
        }
        let ghost before = out@;
        if c == '?' {
            proof {
                reveal_strlit("%3f");
                lemma_push_all_plain(before, escape_char(c));
            }
            out.append("%3f");
            last_slash = false;
        } else if c == '#' {
            proof {
                reveal_strlit("%23");
                lemma_push_all_plain(before, escape_char(c));
            }
            out.append("%23");
            last_slash = false;
        } else if c == '\\' || c == '/' {
            proof {
                lemma_push_all_one(before, '/');
            }
            if !last_slash {
                proof {
                    reveal_strlit("/");
                }
                out.append("/");
                last_slash = true;
            }
        } else {
            let one = s.substring_char(i, i + 1);
            proof {
                assert(one@ =~= seq![c]);
                lemma_push_all_one(before, c);
            }
            out.append(one);
            last_slash = false;
        }
        i = i + 1;
    }
    proof {
        assert(s@.take(n as int) =~= s@);
    }
    out
}

/// The connection target for a sanitized path, given the outcome of the drive test:
/// a drive path gets one more leading slash so that the target is a well-formed file URI.
pub fn finish_target(path: &str, drive: bool) -> (r: String)
    ensures
        r@ == file_target(path@, drive),
{
    let mut t = String::from_str("sqlite:file:");
    proof {
        reveal_strlit("sqlite:file:");
    }
    if drive {
        proof {
            reveal_strlit("/");
        }
        t.append("/");
    }
    t.append(path);
    proof {
        if drive {
            assert(file_target(path@, drive) =~= t@);
        } else {
            assert(file_target(path@, drive) =~= t@);
        }
    }
    t
}

/// Builds the SQLite connection target for a path, or for the shared in-memory
/// database when there is none.
pub fn build_connection_str(path: Option<DbPath>) -> (r: Result<String, PathError>)
    ensures
        built_as(r, target_of(path)),
{
    match path {
        None => {
            proof {
                reveal_strlit("sqlite:file::memory:?cache=shared");
            }
            let t = String::from_str("sqlite:file::memory:?cache=shared");
            proof {
                assert(t@ =~= memory_target());
            }
            Ok(t)
        },
        Some(DbPath::NotUtf8(display)) => Err(PathError::NotUtf8 { display }),
        Some(DbPath::Utf8(p)) => {
            let clean = sanitize(p.as_str());
            proof {
                reveal_strlit("^\\w:");
                assert("^\\w:"@ =~= drive_pattern());
            }
            match regex_match("^\\w:", clean.as_str()) {
                Some(d) => Ok(finish_target(clean.as_str(), d)),
                None => Err(PathError::DrivePattern),
            }
        },
    }
}

} // verus!
