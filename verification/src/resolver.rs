use vstd::prelude::*;

use crate::errors::DownloadError;

verus! {

// A target URL names the file it downloads to: the final segment of the
// URL's path, with the query string stripped, which must end in `.iso`.
// The functions here are pure; nothing touches the network.

/// Char index at which the query string starts in `s` (the first `?`),
/// or `s.len()` if `s` has no query string.
pub open spec fn query_start(s: Seq<char>) -> int
    decreases s.len(),
{
    if s.len() == 0 {
        0
    } else if s[0] == '?' {
        0
    } else {
        1 + query_start(s.skip(1))
    }
}

/// Char index of the last `/` in `s`, or `-1` if `s` has none.
pub open spec fn last_slash(s: Seq<char>) -> int
    decreases s.len(),
{
    if s.len() == 0 {
        -1
    } else if s[s.len() - 1] == '/' {
        s.len() - 1
    } else {
        last_slash(s.drop_last())
    }
}

/// Length of the URL's scheme prefix: 7 for `http://`, 8 for `https://`,
/// and `-1` when the URL starts with neither.
pub open spec fn scheme_len(s: Seq<char>) -> int {
    if s.len() >= 8 && s[0] == 'h' && s[1] == 't' && s[2] == 't' && s[3] == 'p' && s[4] == 's'
        && s[5] == ':' && s[6] == '/' && s[7] == '/' {
        8
    } else if s.len() >= 7 && s[0] == 'h' && s[1] == 't' && s[2] == 't' && s[3] == 'p'
        && s[4] == ':' && s[5] == '/' && s[6] == '/' {
        7
    } else {
        -1
    }
}

/// Whether `f` ends in the one accepted extension, `.iso`.
pub open spec fn ends_with_iso(f: Seq<char>) -> bool {
    f.len() >= 4 && f[f.len() - 4] == '.' && f[f.len() - 3] == 'i' && f[f.len() - 2] == 's'
        && f[f.len() - 1] == 'o'
}

/// The file name derived from `url`: the part of the path (everything
/// before the query string) that follows its last `/`.
pub open spec fn filename_of(url: Seq<char>) -> Seq<char> {
    let path = url.take(query_start(url));
    path.subrange(last_slash(path) + 1, path.len() as int)
}

/// Whether `url` is accepted as a download target: an HTTP(S) URL whose
/// path has at least one segment after the authority, and whose derived
/// file name ends in `.iso`.
pub open spec fn valid_target(url: Seq<char>) -> bool {
    let path = url.take(query_start(url));
    scheme_len(url) >= 0 && last_slash(path) >= scheme_len(url) && ends_with_iso(
        filename_of(url),
    )
}

/// `query_start` is the unique index that has no `?` before it and sits
/// either on a `?` or at the end.
pub proof fn lemma_query_start(s: Seq<char>)
    ensures
        0 <= query_start(s) <= s.len(),
        query_start(s) < s.len() ==> s[query_start(s)] == '?',
        forall|j: int| 0 <= j < query_start(s) ==> s[j] != '?',
    decreases s.len(),
{
    if s.len() != 0 && s[0] != '?' {
        lemma_query_start(s.skip(1));
        assert forall|j: int| 0 <= j < query_start(s) implies s[j] != '?' by {
            if j != 0 {
                assert(s.skip(1)[j - 1] == s[j]);
            }
        }
    }
}

/// `last_slash` is the unique index that holds a `/` with none after it,
/// or `-1` when the sequence holds no `/` at all.
pub proof fn lemma_last_slash(s: Seq<char>)
    ensures
        -1 <= last_slash(s) < s.len(),
        last_slash(s) >= 0 ==> s[last_slash(s)] == '/',
        forall|j: int| last_slash(s) < j < s.len() ==> s[j] != '/',
    decreases s.len(),
{
    if s.len() != 0 && s[s.len() - 1] != '/' {
        lemma_last_slash(s.drop_last());
        assert forall|j: int| last_slash(s) < j < s.len() implies s[j] != '/' by {
            if j < s.len() - 1 {
                assert(s.drop_last()[j] == s[j]);
            }
        }
    }
}

/// The query string never reaches the file name: a URL made of a
/// query-free part, a `?`, and any query at all derives exactly the file
/// name of the query-free part alone.
pub proof fn lemma_query_never_in_filename(p: Seq<char>, q: Seq<char>)
    requires
        forall|j: int| 0 <= j < p.len() ==> p[j] != '?',
    ensures
        filename_of(p + seq!['?'] + q) == filename_of(p),
{
    let s = p + seq!['?'] + q;
    lemma_query_start(s);
    lemma_query_start(p);
    assert(s[p.len() as int] == '?');
    assert(query_start(s) == p.len()) by {
        if query_start(s) < p.len() {
            assert(s[query_start(s)] == p[query_start(s)]);
        }
    }
    assert(query_start(p) == p.len());
    assert(s.take(p.len() as int) =~= p);
    assert(p.take(p.len() as int) =~= p);
}

/// Char index at which the query string of `s` starts, `s.len()` if none.
fn find_query(s: &str) -> (q: usize)
    ensures
        q == query_start(s@),
{
    let n: usize = s.unicode_len();
    let mut i: usize = 0;
    while i < n
        invariant
            n == s@.len(),
            i <= n,
            forall|j: int| 0 <= j < i ==> s@[j] != '?',
        decreases n - i,
    {
        if s.get_char(i) == '?' {
            proof {
                lemma_query_start(s@);
            }
            return i;
        }
        i = i + 1;
    }
    proof {
        lemma_query_start(s@);
    }
    n
}

/// Char index of the last `/` of `s`, or `None` if `s` holds none.
fn find_last_slash(s: &str) -> (r: Option<usize>)
    ensures
        match r {
            Some(k) => k == last_slash(s@),
            None => last_slash(s@) == -1,
        },
{
    let n: usize = s.unicode_len();
    let mut i: usize = n;
    while i > 0
        invariant
            n == s@.len(),
            i <= n,
            forall|j: int| i <= j < n ==> s@[j] != '/',
        decreases i,
    {
        if s.get_char(i - 1) == '/' {
            proof {
                lemma_last_slash(s@);
            }
            return Some(i - 1);
        }
        i = i - 1;
    }
    proof {
        lemma_last_slash(s@);
    }
    None
}

/// Length of the URL's scheme prefix, `None` when it is not HTTP(S).
fn scheme_length(s: &str) -> (r: Option<usize>)
    ensures
        match r {
            Some(k) => k == scheme_len(s@),
            None => scheme_len(s@) == -1,
        },
{
    let n: usize = s.unicode_len();
    if n >= 7 && s.get_char(0) == 'h' && s.get_char(1) == 't' && s.get_char(2) == 't'
        && s.get_char(3) == 'p' {
        if s.get_char(4) == ':' && s.get_char(5) == '/' && s.get_char(6) == '/' {
            Some(7)
        } else if n >= 8 && s.get_char(4) == 's' && s.get_char(5) == ':' && s.get_char(6) == '/'
            && s.get_char(7) == '/' {
            Some(8)
        } else {
            None
        }
    } else {
        None
    }
}

/// Whether `f` ends in `.iso`.
fn ends_iso(f: &str) -> (r: bool)
    ensures
        r == ends_with_iso(f@),
{
    let n: usize = f.unicode_len();
    n >= 4 && f.get_char(n - 4) == '.' && f.get_char(n - 3) == 'i' && f.get_char(n - 2) == 's'
        && f.get_char(n - 1) == 'o'
}

/// Derives the local file name for `url`: the final path segment, query
/// string stripped.  Accepts exactly the URLs `valid_target` admits and
/// rejects every other one as an invalid target, before any network work.
pub fn resolve(url: &str) -> (r: Result<String, DownloadError>)
    ensures
        valid_target(url@) ==> (r matches Ok(name) && name@ == filename_of(url@)),
        !valid_target(url@) ==> (r matches Err(e) && (e matches DownloadError::InvalidTarget(u)
            && u@ == url@)),
{
    let q: usize = find_query(url);
    proof {
        lemma_query_start(url@);
    }
    let path: &str = url.substring_char(0, q);
    assert(path@ == url@.take(query_start(url@)));
    let scheme: Option<usize> = scheme_length(url);
    match scheme {
        None => Err(DownloadError::InvalidTarget(url.to_owned())),
        Some(k) => {
            match find_last_slash(path) {
                None => Err(DownloadError::InvalidTarget(url.to_owned())),
                Some(ls) => {
                    if ls < k {
                        Err(DownloadError::InvalidTarget(url.to_owned()))
                    } else {
                        proof {
                            lemma_last_slash(path@);
                        }
                        let m: usize = path.unicode_len();
                        let fname: &str = path.substring_char(ls + 1, m);
                        if ends_iso(fname) {
                            Ok(fname.to_owned())
                        } else {
                            Err(DownloadError::InvalidTarget(url.to_owned()))
                        }
                    }
                },
            }
        },
    }
}

/// The destination path for `name` inside `dir`: the two joined with `/`.
pub open spec fn joined(dir: Seq<char>, name: Seq<char>) -> Seq<char> {
    dir + seq!['/'] + name
}

/// Joins a directory and a file name into one path.
pub fn join_path(dir: &str, name: &str) -> (r: String)
    ensures
        r@ == joined(dir@, name@),
{
    let mut out: String = dir.to_owned();
    out.append("/");
    out.append(name);
    proof {
        reveal_strlit("/");
        assert(("/")@ =~= seq!['/']);
        assert(out@ =~= joined(dir@, name@));
    }
    out
}

} // verus!
