//! Route dispatch for the application's URL space.
//!
//! The server exposes six routes: the list of all books at `/`, a static
//! page at `/about`, a verse lookup for any path whose last character is a
//! digit (a citation such as `/Psalms.119.105`), a JSON full-text search at
//! `/api/search`, a JSON verse lookup at `/api/{reference}.json`, and a
//! single-book page for any other path of one segment. The citation rule
//! is tried before the single-segment rule, so a path that ends in a digit
//! is always a verse lookup, never a book.

use vstd::prelude::*;

verus! {

// The path bytes the rules test for, by ASCII code.
pub const SLASH: u8 = 47;
pub const DOT: u8 = 46;
pub const DIGIT_0: u8 = 48;
pub const DIGIT_9: u8 = 57;
pub const LC_A: u8 = 97;
pub const LC_B: u8 = 98;
pub const LC_C: u8 = 99;
pub const LC_E: u8 = 101;
pub const LC_H: u8 = 104;
pub const LC_I: u8 = 105;
pub const LC_J: u8 = 106;
pub const LC_N: u8 = 110;
pub const LC_O: u8 = 111;
pub const LC_P: u8 = 112;
pub const LC_R: u8 = 114;
pub const LC_S: u8 = 115;
pub const LC_T: u8 = 116;
pub const LC_U: u8 = 117;

/// The route a request path resolves to.
#[derive(Clone, Copy, Debug, PartialEq, Eq, Structural)]
pub enum Route {
    /// `/`: the list of all books.
    AllBooks,
    /// `/about`: the static about page.
    About,
    /// A path ending in a digit: a verse lookup by citation.
    Reference,
    /// `/api/search`: full-text search, answered as JSON.
    Search,
    /// `/api/{reference}.json`: a verse lookup, answered as JSON.
    ApiReference,
    /// Any other single segment: one book, by name or number.
    Book,
    /// Nothing matches.
    NotFound,
}

/// An ASCII decimal digit.
pub open spec fn is_digit(b: u8) -> bool {
    DIGIT_0 <= b <= DIGIT_9
}

/// The path is exactly `/about`.
pub open spec fn is_about_path(p: Seq<u8>) -> bool {
    p.len() == 6 && p[0] == SLASH && p[1] == LC_A && p[2] == LC_B && p[3] == LC_O && p[4] == LC_U
        && p[5] == LC_T
}

/// The path is exactly `/api/search`.
pub open spec fn is_search_path(p: Seq<u8>) -> bool {
    p.len() == 11 && p[0] == SLASH && p[1] == LC_A && p[2] == LC_P && p[3] == LC_I && p[4] == SLASH
        && p[5] == LC_S && p[6] == LC_E && p[7] == LC_A && p[8] == LC_R && p[9] == LC_C
        && p[10] == LC_H
}

/// The path is `/api/{reference}.json` for a non-empty reference that
/// stays within one segment.
pub open spec fn is_api_json_path(p: Seq<u8>) -> bool {
    p.len() >= 11 && p[0] == SLASH && p[1] == LC_A && p[2] == LC_P && p[3] == LC_I && p[4] == SLASH
        && p[p.len() - 5] == DOT && p[p.len() - 4] == LC_J && p[p.len() - 3] == LC_S
        && p[p.len() - 2] == LC_O && p[p.len() - 1] == LC_N
        && (forall|i: int| 5 <= i < p.len() ==> p[i] != SLASH)
}

/// The path holds a single non-empty segment: a leading slash and no
/// further one.
pub open spec fn is_single_segment(p: Seq<u8>) -> bool {
    p.len() >= 2 && p[0] == SLASH && (forall|i: int| 1 <= i < p.len() ==> p[i] != SLASH)
}

/// Which route a request path (without its query string) resolves to.
/// The rules are tried in order: root, about, citation, the two API
/// routes, then a single segment as a book.
pub open spec fn route_of(p: Seq<u8>) -> Route {
    if p.len() == 0 || p[0] != SLASH {
        Route::NotFound
    } else if p.len() == 1 {
        Route::AllBooks
    } else if is_about_path(p) {
        Route::About
    } else if is_digit(p.last()) {
        Route::Reference
    } else if is_search_path(p) {
        Route::Search
    } else if is_api_json_path(p) {
        Route::ApiReference
    } else if is_single_segment(p) {
        Route::Book
    } else {
        Route::NotFound
    }
}

/// True when no byte of `path` from position `from` onward is a slash.
fn no_slash_from(path: &[u8], from: usize) -> (r: bool)
    requires
        from <= path@.len(),
    ensures
        r == (forall|i: int| from <= i < path@.len() ==> path@[i] != SLASH),
{
    let n: usize = path.len();
    let mut j: usize = from;
    while j < n
        invariant
            from <= j <= n,
            n == path@.len(),
            forall|i: int| from <= i < j ==> path@[i] != SLASH,
        decreases n - j,
    {
        if path[j] == SLASH {
            return false;
        }
        j = j + 1;
    }
    true
}

/// Resolve a request path (without its query string) to a route.
pub fn match_route(path: &[u8]) -> (r: Route)
    ensures
        r == route_of(path@),
{
    let n: usize = path.len();
    if n == 0 || path[0] != SLASH {
        return Route::NotFound;
    }
    if n == 1 {
        return Route::AllBooks;
    }
    if n == 6 && path[1] == LC_A && path[2] == LC_B && path[3] == LC_O && path[4] == LC_U
        && path[5] == LC_T {
        return Route::About;
    }
    let last: u8 = path[n - 1];
    if DIGIT_0 <= last && last <= DIGIT_9 {
        return Route::Reference;
    }
    if n == 11 && path[1] == LC_A && path[2] == LC_P && path[3] == LC_I && path[4] == SLASH
        && path[5] == LC_S && path[6] == LC_E && path[7] == LC_A && path[8] == LC_R
        && path[9] == LC_C && path[10] == LC_H {
        return Route::Search;
    }
    if n >= 11 && path[1] == LC_A && path[2] == LC_P && path[3] == LC_I && path[4] == SLASH
        && path[n - 5] == DOT && path[n - 4] == LC_J && path[n - 3] == LC_S
        && path[n - 2] == LC_O && path[n - 1] == LC_N && no_slash_from(path, 5) {
        return Route::ApiReference;
    }
    if no_slash_from(path, 1) {
        return Route::Book;
    }
    Route::NotFound
}

/// The name a route is registered under, for URL generation; only the
/// three page routes that templates link to are named.
pub open spec fn spec_route_name(r: Route) -> Option<Seq<char>> {
    match r {
        Route::AllBooks => Some("bible"@),
        Route::Book => Some("book"@),
        Route::Reference => Some("reference"@),
        _ => None,
    }
}

/// The name a route is registered under, for URL generation.
pub fn route_name(r: Route) -> (name: Option<&'static str>)
    ensures
        match name {
            Some(s) => spec_route_name(r) == Some(s@),
            None => spec_route_name(r) is None,
        },
{
    match r {
        Route::AllBooks => Some("bible"),
        Route::Book => Some("book"),
        Route::Reference => Some("reference"),
        _ => None,
    }
}

} // verus!
