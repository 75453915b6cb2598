use sword_drill::routes::{match_route, route_name, Route};

#[test]
fn root_lists_all_books() {
    assert_eq!(match_route(b"/"), Route::AllBooks);
}

#[test]
fn about_page() {
    assert_eq!(match_route(b"/about"), Route::About);
}

#[test]
fn single_segment_is_a_book() {
    assert_eq!(match_route(b"/Psalms"), Route::Book);
    assert_eq!(match_route(b"/19"), Route::Reference);
    assert_eq!(match_route(b"/Genesis"), Route::Book);
}

#[test]
fn trailing_digit_is_a_citation() {
    assert_eq!(match_route(b"/Psalms.119.105"), Route::Reference);
    assert_eq!(match_route(b"/John.3.16"), Route::Reference);
    assert_eq!(match_route(b"/Genesis/1"), Route::Reference);
}

#[test]
fn citation_wins_over_book() {
    // One segment that ends in a digit is a verse lookup, not a book.
    assert_eq!(match_route(b"/Psalms.119"), Route::Reference);
}

#[test]
fn api_search() {
    assert_eq!(match_route(b"/api/search"), Route::Search);
}

#[test]
fn api_reference_json() {
    assert_eq!(match_route(b"/api/John.3.16.json"), Route::ApiReference);
    assert_eq!(match_route(b"/api/x.json"), Route::ApiReference);
}

#[test]
fn api_reference_needs_a_reference() {
    // No reference before ".json", or a second segment in it: no match,
    // and ".json" alone is not a book either since "api/" has a slash.
    assert_eq!(match_route(b"/api/.json"), Route::NotFound);
    assert_eq!(match_route(b"/api/a/b.json"), Route::NotFound);
}

#[test]
fn api_alone_is_a_book_path() {
    // A bare "/api" is one segment, so the book rule claims it.
    assert_eq!(match_route(b"/api"), Route::Book);
}

#[test]
fn unmatched_paths() {
    assert_eq!(match_route(b""), Route::NotFound);
    assert_eq!(match_route(b"about"), Route::NotFound);
    assert_eq!(match_route(b"/a/b"), Route::NotFound);
    assert_eq!(match_route(b"/Psalms/"), Route::NotFound);
}

#[test]
fn route_names() {
    assert_eq!(route_name(Route::AllBooks), Some("bible"));
    assert_eq!(route_name(Route::Book), Some("book"));
    assert_eq!(route_name(Route::Reference), Some("reference"));
    assert_eq!(route_name(Route::About), None);
    assert_eq!(route_name(Route::Search), None);
    assert_eq!(route_name(Route::ApiReference), None);
    assert_eq!(route_name(Route::NotFound), None);
}
