use vstd::prelude::*;
use vstd::string::*;
use crate::text::{same_text, starts_with};

verus! {

/// Where a request goes, with the language named in its path where the
/// route has one.
#[derive(Debug)]
pub enum Route {
    Greeting,
    Version,
    Words(String),
    Today(String),
    Past(String),
    Unknown,
}

/// What a `Route` means, with its language as characters.
pub enum RouteView {
    Greeting,
    Version,
    Words(Seq<char>),
    Today(Seq<char>),
    Past(Seq<char>),
    Unknown,
}

impl View for Route {
    type V = RouteView;

    open spec fn view(&self) -> RouteView {
        match self {
            Route::Greeting => RouteView::Greeting,
            Route::Version => RouteView::Version,
            Route::Words(l) => RouteView::Words(l@),
            Route::Today(l) => RouteView::Today(l@),
            Route::Past(l) => RouteView::Past(l@),
            Route::Unknown => RouteView::Unknown,
        }
    }
}

/// The one method the routes answer.
pub open spec fn get_method() -> Seq<char> {
    seq!['G', 'E', 'T']
}

pub open spec fn root_path() -> Seq<char> {
    seq!['/']
}

pub open spec fn version_path() -> Seq<char> {
    seq!['/', 'w', 'o', 'r', 'k', 'e', 'r', '-', 'v', 'e', 'r', 's', 'i', 'o', 'n']
}

pub open spec fn words_prefix() -> Seq<char> {
    seq!['/', 'w', 'o', 'r', 'd', 's', '/']
}

pub open spec fn today_prefix() -> Seq<char> {
    seq!['/', 'w', 'o', 'r', 'd', '/', 't', 'o', 'd', 'a', 'y', '/']
}

pub open spec fn past_prefix() -> Seq<char> {
    seq!['/', 'w', 'o', 'r', 'd', '/', 'p', 'r', 'e', 'v', 'i', 'o', 'u', 's', '/']
}

/// A path parameter: one or more characters, none of them a slash.
pub open spec fn is_segment(s: Seq<char>) -> bool {
    s.len() > 0 && forall|i: int| 0 <= i < s.len() ==> s[i] != '/'
}

/// Whether `path` is `prefix` followed by a path parameter.
pub open spec fn is_scoped(prefix: Seq<char>, path: Seq<char>) -> bool {
    prefix.is_prefix_of(path) && is_segment(path.skip(prefix.len() as int))
}

/// The route table: `GET /`, `GET /worker-version`, `GET /words/:lang`,
/// `GET /word/today/:lang` and `GET /word/previous/:lang`; anything else
/// is unknown.
pub open spec fn route_of(method: Seq<char>, path: Seq<char>) -> RouteView {
    if method != get_method() {
        RouteView::Unknown
    } else if path == root_path() {
        RouteView::Greeting
    } else if path == version_path() {
        RouteView::Version
    } else if is_scoped(words_prefix(), path) {
        RouteView::Words(path.skip(words_prefix().len() as int))
    } else if is_scoped(today_prefix(), path) {
        RouteView::Today(path.skip(today_prefix().len() as int))
    } else if is_scoped(past_prefix(), path) {
        RouteView::Past(path.skip(past_prefix().len() as int))
    } else {
        RouteView::Unknown
    }
}

/// Whether `s` is a path parameter.
pub fn is_segment_text(s: &str) -> (r: bool)
    ensures
        r == is_segment(s@),
{
    let n = s.unicode_len();
    if n == 0 {
        return false;
    }
    let mut i: usize = 0;
    while i < n
        invariant
            n == s@.len(),
            i <= n,
            forall|j: int| 0 <= j < i ==> s@[j] != '/',
        decreases n - i,
    {
        if s.get_char(i) == '/' {
            return false;
        }
        i = i + 1;
    }
    true
}

/// The path parameter after `prefix`, if `path` is `prefix` followed by one.
fn scoped_param(prefix: &str, path: &str) -> (r: Option<String>)
    ensures
        r is Some <==> is_scoped(prefix@, path@),
        r matches Some(l) ==> l@ == path@.skip(prefix@.len() as int),
{
    if !starts_with(path, prefix) {
        return None;
    }
    let rest = path.substring_char(prefix.unicode_len(), path.unicode_len());
    assert(rest@ =~= path@.skip(prefix@.len() as int));
    if is_segment_text(rest) {
        Some(rest.to_owned())
    } else {
        None
    }
}

/// Matches a request's method and path against the route table.
pub fn route(method: &str, path: &str) -> (r: Route)
    ensures
        r@ == route_of(method@, path@),
{
    proof {
        reveal_strlit("GET");
        reveal_strlit("/");
        reveal_strlit("/worker-version");
        reveal_strlit("/words/");
        reveal_strlit("/word/today/");
        reveal_strlit("/word/previous/");
    }
    assert("GET"@ =~= get_method());
    assert("/"@ =~= root_path());
    assert("/worker-version"@ =~= version_path());
    assert("/words/"@ =~= words_prefix());
    assert("/word/today/"@ =~= today_prefix());
    assert("/word/previous/"@ =~= past_prefix());
    if !same_text(method, "GET") {
        return Route::Unknown;
    }
    if same_text(path, "/") {
        return Route::Greeting;
    }
    if same_text(path, "/worker-version") {
        return Route::Version;
    }
    if let Some(l) = scoped_param("/words/", path) {
        return Route::Words(l);
    }
    if let Some(l) = scoped_param("/word/today/", path) {
        return Route::Today(l);
    }
    if let Some(l) = scoped_param("/word/previous/", path) {
        return Route::Past(l);
    }
    Route::Unknown
}

} // verus!
