//! Classification of the URIs of GET requests for static files.

use vstd::prelude::*;
use crate::config::ServerConfig;
use crate::response::HttpStatus;

verus! {

/// Whether `s` holds two consecutive dots (`..`) anywhere.
pub open spec fn has_double_dot(s: Seq<char>) -> bool {
    exists|i: int| 0 <= i < s.len() - 1 && #[trigger] s[i] == '.' && s[i + 1] == '.'
}

/// `s` without its first character; empty when `s` is empty.
pub open spec fn without_first_char(s: Seq<char>) -> Seq<char> {
    if s.len() == 0 {
        Seq::empty()
    } else {
        s.drop_first()
    }
}

/// Returns true if a uri is not trying anything malicious like path
/// traversal: it holds no `..`.
pub fn uri_is_sanitized(uri: &String) -> (sanitized: bool)
    ensures
        sanitized == !has_double_dot(uri@),
{
    let s = uri.as_str();
    let ghost text = s@;
    let mut previous_was_dot = false;
    for c in it: s.chars()
        invariant
            it.seq() == text,
            text == uri@,
            previous_was_dot == (it.index() > 0 && text[it.index() - 1] == '.'),
            forall|i: int|
                0 <= i < it.index() - 1 ==> !(#[trigger] text[i] == '.' && text[i + 1] == '.'),
    {
        if c == '.' && previous_was_dot {
            assert(text[it.index() - 1] == '.' && text[it.index()] == '.');
            return false;
        }
        previous_was_dot = c == '.';
    }
    true
}

/// Returns everything after the first character of `s`.
pub fn remove_first_char(s: &str) -> (rest: String)
    ensures
        rest@ == without_first_char(s@),
{
    let ghost text = s@;
    let mut rest = String::new();
    let mut first = true;
    for c in it: s.chars()
        invariant
            it.seq() == text,
            text == s@,
            first == (it.index() == 0),
            it.index() == 0 ==> rest@ == Seq::<char>::empty(),
            it.index() > 0 ==> rest@ == text.subrange(1, it.index()),
    {
        if !first {
            rest.push(c);
        }
        first = false;
    }
    assert(rest@ =~= without_first_char(s@));
    rest
}

/// The file path a URI asks for: `site` followed by the URI, where the root
/// (`/` or the empty URI) asks for `/index.html`.
pub open spec fn site_path_text(uri: Seq<char>) -> Seq<char> {
    let page = if uri == seq!['/'] || uri.len() == 0 {
        seq!['/', 'i', 'n', 'd', 'e', 'x', '.', 'h', 't', 'm', 'l']
    } else {
        uri
    };
    seq!['s', 'i', 't', 'e'] + page
}

/// The file path under `site` that `uri` asks for.
pub fn site_path(uri: &str) -> (path: String)
    ensures
        path@ == site_path_text(uri@),
{
    let length = uri.unicode_len();
    let is_root = length == 0 || (length == 1 && uri.get_char(0) == '/');
    let mut path = "site".to_string();
    proof {
        reveal_strlit("site");
        reveal_strlit("/index.html");
    }
    if is_root {
        path.append("/index.html");
        assert(uri@ == seq!['/'] || uri@.len() == 0) by {
            if length == 1 {
                assert(uri@ =~= seq!['/']);
            }
        }
    } else {
        path.append(uri);
        assert(!(uri@ =~= seq!['/']));
    }
    assert(path@ =~= site_path_text(uri@));
    path
}

/// Prefixing `site` (or serving the index page) neither makes nor removes a `..`.
pub proof fn lemma_site_path_double_dot(uri: Seq<char>)
    ensures
        has_double_dot(site_path_text(uri)) == has_double_dot(uri),
{
    let prefix = seq!['s', 'i', 't', 'e'];
    let index_page = seq!['/', 'i', 'n', 'd', 'e', 'x', '.', 'h', 't', 'm', 'l'];
    let path = site_path_text(uri);
    let page = if uri == seq!['/'] || uri.len() == 0 { index_page } else { uri };
    assert(path =~= prefix + page);
    if has_double_dot(path) {
        let i = choose|i: int| 0 <= i < path.len() - 1 && #[trigger] path[i] == '.' && path[i + 1] == '.';
        assert(i >= 4);
        assert(page[i - 4] == '.' && page[i - 3] == '.');
        if page == index_page {
            assert(false);
        } else {
            assert(uri[i - 4] == '.');
        }
    }
    if has_double_dot(uri) {
        let i = choose|i: int| 0 <= i < uri.len() - 1 && #[trigger] uri[i] == '.' && uri[i + 1] == '.';
        assert(uri.len() >= 2);
        assert(path[i + 4] == '.' && path[i + 5] == '.');
    }
}

/// What the `ignore` crate's gitignore matcher answers for `path`: a matcher
/// built with `GitignoreBuilder::new(root)` from the given gitignore lines
/// reports an ignore match (not a whitelist match, not no match) for `path`,
/// which is a directory when `is_dir` holds.
pub uninterp spec fn gitignore_match(
    root: Seq<char>,
    lines: Seq<Seq<char>>,
    path: Seq<char>,
    is_dir: bool,
) -> bool;

/// Runs the `ignore` crate's gitignore matching: builds a matcher with
/// `GitignoreBuilder::new`, `add_line` for each line and `build`, then asks
/// `Gitignore::matched(path, is_dir).is_ignore()`.
///
/// The answer is a function of the root, the lines, the path and `is_dir`
/// alone, named `gitignore_match`; glob syntax is not restated here. Lines that
/// are not valid globs are skipped, as `Gitignore::new` does, and a matcher
/// that cannot be built matches nothing, as `Gitignore::new` falls back to
/// the empty matcher.
#[verifier::external_body]
fn gitignore_matches(root: &str, lines: &Vec<String>, path: &str, is_dir: bool) -> (ignored: bool)
    ensures
        ignored == gitignore_match(root@, lines@.map_values(|line: String| line@), path@, is_dir),
{
    let mut builder = ignore::gitignore::GitignoreBuilder::new(root);
    for line in lines {
        let _ = builder.add_line(None, line);
    }
    match builder.build() {
        Ok(matcher) => matcher.matched(path, is_dir).is_ignore(),
        Err(_) => false,
    }
}

/// The paths that GET requests may not read: the lines of a gitignore file,
/// matched relative to the directory that holds it.
#[derive(Debug)]
pub struct IgnoreList {
    root: String,
    lines: Vec<String>,
}

impl View for IgnoreList {
    type V = (Seq<char>, Seq<Seq<char>>);

    closed spec fn view(&self) -> (Seq<char>, Seq<Seq<char>>) {
        (self.root@, self.lines@.map_values(|line: String| line@))
    }
}

impl IgnoreList {
    /// An ignore list made of gitignore `lines` that apply below the directory `root`.
    pub fn new(root: String, lines: Vec<String>) -> (list: Self)
        ensures
            list@ == (root@, lines@.map_values(|line: String| line@)),
    {
        IgnoreList { root, lines }
    }
}

/// Whether `list` ignores `path`, which is a directory when `is_dir` holds.
pub open spec fn ignores(list: (Seq<char>, Seq<Seq<char>>), path: Seq<char>, is_dir: bool) -> bool {
    gitignore_match(list.0, list.1, path, is_dir)
}

/// Returns true if this file should be ignored for get requests.
pub fn file_in_ignore_list(list: &IgnoreList, path: &str, is_dir: bool) -> (ignored: bool)
    ensures
        ignored == ignores(list@, path@, is_dir),
{
    gitignore_matches(list.root.as_str(), &list.lines, path, is_dir)
}

/// Every URI for a GET request falls under one of these.
#[derive(Debug, PartialEq, Eq)]
pub enum UriValidity {
    /// The file exists and may be served; holds its path.
    Valid(String),
    /// The file is in the ignore list.
    InIgnoreList,
    /// The file does not exist.
    DoesNotExist,
    /// The URI tries path traversal.
    Malicious,
}

/// Runs a URI against the ignore list, checks that it is safe and that its
/// file exists; the root asks for `site/index.html`.
///
/// `ignore_path_is_dir` tells whether `remove_first_char(uri)`, the path
/// matched against the ignore list, is a directory, and `site_path_exists`
/// whether `site_path(uri)` exists.
pub fn classify_uri(
    uri: String,
    ignore_list: &IgnoreList,
    ignore_path_is_dir: bool,
    site_path_exists: bool,
) -> (validity: UriValidity)
    ensures
        validity is Malicious <==> has_double_dot(uri@),
        !has_double_dot(uri@) && ignores(ignore_list@, without_first_char(uri@), ignore_path_is_dir)
            ==> validity is InIgnoreList,
        !has_double_dot(uri@) && !ignores(ignore_list@, without_first_char(uri@), ignore_path_is_dir)
            && !site_path_exists ==> validity is DoesNotExist,
        !has_double_dot(uri@) && !ignores(ignore_list@, without_first_char(uri@), ignore_path_is_dir)
            && site_path_exists ==> (validity matches UriValidity::Valid(path) && path@
            == site_path_text(uri@)),
        validity matches UriValidity::Valid(path) ==> !has_double_dot(path@),
{
    let path = site_path(uri.as_str());
    proof {
        lemma_site_path_double_dot(uri@);
    }
    if !uri_is_sanitized(&path) {
        UriValidity::Malicious
    } else {
        let ignore_path = remove_first_char(uri.as_str());
        if file_in_ignore_list(ignore_list, ignore_path.as_str(), ignore_path_is_dir) {
            UriValidity::InIgnoreList
        } else if !site_path_exists {
            UriValidity::DoesNotExist
        } else {
            UriValidity::Valid(path)
        }
    }
}

/// How a GET request is answered: a status and the file whose contents form the body.
#[derive(Debug, PartialEq)]
pub struct GetResponsePlan {
    pub status: HttpStatus,
    pub file: String,
}

/// The status and file served for a classified URI: the file itself, or the
/// configured page for ignored (401), missing (404) and malicious (403) URIs.
pub fn plan_get_response(validity: UriValidity, config: &ServerConfig) -> (plan: GetResponsePlan)
    ensures
        validity matches UriValidity::Valid(path) ==> (plan.status == HttpStatus::Success
            && plan.file@ == path@),
        validity is InIgnoreList ==> plan.status == HttpStatus::Unauthorized && plan.file@
            == config.unauthorized_filename@,
        validity is DoesNotExist ==> plan.status == HttpStatus::NotFound && plan.file@
            == config.not_found_filename@,
        validity is Malicious ==> plan.status == HttpStatus::Forbidden && plan.file@
            == config.forbidden_filename@,
{
    match validity {
        UriValidity::Valid(path) => GetResponsePlan { status: HttpStatus::Success, file: path },
        UriValidity::InIgnoreList => GetResponsePlan {
            status: HttpStatus::Unauthorized,
            file: config.unauthorized_filename.clone(),
        },
        UriValidity::DoesNotExist => GetResponsePlan {
            status: HttpStatus::NotFound,
            file: config.not_found_filename.clone(),
        },
        UriValidity::Malicious => GetResponsePlan {
            status: HttpStatus::Forbidden,
            file: config.forbidden_filename.clone(),
        },
    }
}

} // verus!
