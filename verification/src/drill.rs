//! The lookup capability the handlers depend on, and a deterministic
//! in-memory drill that answers every lookup from a fixed fixture, so
//! that the surrounding web layer can be exercised without a database.

use vstd::prelude::*;

use crate::models::{Book, Reference, Testament, Verse, VerseFTS, VerseFormat};

verus! {

/// Why a lookup failed.
#[derive(Clone, Copy, Debug, PartialEq, Eq, Structural)]
pub enum DbError {
    /// No book answers to the given name or number.
    BookNotFound,
    /// The citation names a chapter or verse the book does not have.
    VerseNotFound,
    /// The data store itself failed.
    Database,
}

/// A verses lookup answered coherently: a well-formed book, and verses
/// that all belong to it, within its chapters.
pub open spec fn verses_result_wf(b: Book, vs: Seq<Verse>) -> bool {
    b.wf() && forall|i: int|
        0 <= i < vs.len() ==> #[trigger] vs[i].wf() && vs[i].book == b.id && vs[i].chapter
            <= b.chapter_count
}

/// A book lookup answered coherently: a well-formed book and its chapter
/// numbers, one through the book's chapter count, in order.
pub open spec fn book_result_wf(b: Book, chapters: Seq<i32>) -> bool {
    b.wf() && chapters.len() == b.chapter_count && forall|i: int|
        0 <= i < chapters.len() ==> #[trigger] chapters[i] == i + 1
}

/// A search answered coherently: each hit is well formed and paired with
/// the well-formed book it belongs to.
pub open spec fn search_result_wf(hits: Seq<(VerseFTS, Book)>) -> bool {
    forall|i: int|
        0 <= i < hits.len() ==> #[trigger] hits[i].0.wf() && hits[i].1.wf() && hits[i].0.book
            == hits[i].1.id
}

/// The capability of looking Scripture up: verses by citation, a book by
/// name or number, the list of all books, and full-text search. Any data
/// store can stand behind it; every implementation owes the coherence
/// stated on each method.
pub trait SwordDrillable {
    /// Look up the verses a citation names, rendered in the given format.
    fn verses(reference: &Reference, format: VerseFormat) -> (r: Result<(Book, Vec<Verse>), DbError>)
        ensures
            r matches Ok(p) ==> verses_result_wf(p.0, p.1@),
    ;

    /// Look up one book by its name or number, with its chapter numbers.
    fn book(name: &str) -> (r: Result<(Book, Vec<i32>), DbError>)
        ensures
            r matches Ok(p) ==> book_result_wf(p.0, p.1@),
    ;

    /// List every book, each well formed.
    fn all_books() -> (r: Result<Vec<Book>, DbError>)
        ensures
            r matches Ok(bs) ==> forall|i: int| 0 <= i < bs@.len() ==> #[trigger] bs@[i].wf(),
    ;

    /// Full-text search over verse text.
    fn search(query: &str) -> (r: Result<Vec<(VerseFTS, Book)>, DbError>)
        ensures
            r matches Ok(hits) ==> search_result_wf(hits@),
    ;
}

/// The one book the fixture knows: Psalms, book 19, 150 chapters, Old
/// Testament.
pub open spec fn is_test_book(b: Book) -> bool {
    b.id == 19 && b.name@ == "Psalms"@ && b.chapter_count == 150 && b.testament == Testament::Old
}

/// The one verse the fixture knows: Psalms 119:105.
pub open spec fn is_test_verse(v: Verse) -> bool {
    v.id == 555 && v.book == 19 && v.chapter == 119 && v.verse == 105 && v.words@
        == "NUN. Thy word is a lamp unto my feet, and a light unto my path."@
}

/// The one search hit the fixture knows: Psalms 119:105 with the match
/// highlighted, ranked 1.1.
pub open spec fn is_test_hit(h: VerseFTS) -> bool {
    h.book == 19 && h.chapter == 119 && h.verse == 105 && h.words@
        == "NUN. Thy word is a lamp unto my feet, and a <em>light</em> unto my path."@
        && h.rank_milli == 1100
}

/// The fixture book.
pub fn test_book() -> (b: Book)
    ensures
        is_test_book(b),
        b.wf(),
{
    Book {
        id: 19,
        name: "Psalms".to_string(),
        chapter_count: 150,
        testament: Testament::Old,
    }
}

/// A drill that answers every lookup from the fixture, whatever is asked.
pub struct TestSwordDrill;

impl SwordDrillable for TestSwordDrill {
    /// Always finds Psalms 119:105, whatever the citation says.
    fn verses(_reference: &Reference, _format: VerseFormat) -> (r: Result<
        (Book, Vec<Verse>),
        DbError,
    >)
        ensures
            r matches Ok(p) ==> is_test_book(p.0) && p.1@.len() == 1 && is_test_verse(p.1@[0]),
            r is Ok,
    {
        let book = test_book();
        let verse = Verse {
            id: 555,
            book: 19,
            chapter: 119,
            verse: 105,
            words: "NUN. Thy word is a lamp unto my feet, and a light unto my path.".to_string(),
        };
        Ok((book, vec![verse]))
    }

    /// Always finds Psalms, with its chapters one through 150.
    fn book(_name: &str) -> (r: Result<(Book, Vec<i32>), DbError>)
        ensures
            r matches Ok(p) ==> is_test_book(p.0) && book_result_wf(p.0, p.1@),
            r is Ok,
    {
        let book = test_book();
        let mut chapters: Vec<i32> = Vec::new();
        let mut ch: i32 = 1;
        while ch <= 150
            invariant
                1 <= ch <= 151,
                chapters@.len() == ch - 1,
                forall|i: int| 0 <= i < chapters@.len() ==> #[trigger] chapters@[i] == i + 1,
            decreases 151 - ch,
        {
            chapters.push(ch);
            ch = ch + 1;
        }
        Ok((book, chapters))
    }

    /// Always lists exactly the fixture book.
    fn all_books() -> (r: Result<Vec<Book>, DbError>)
        ensures
            r matches Ok(bs) ==> bs@.len() == 1 && is_test_book(bs@[0]),
            r is Ok,
    {
        Ok(vec![test_book()])
    }

    /// Always finds the one fixture hit, whatever the query.
    fn search(_query: &str) -> (r: Result<Vec<(VerseFTS, Book)>, DbError>)
        ensures
            r matches Ok(hits) ==> hits@.len() == 1 && is_test_hit(hits@[0].0) && is_test_book(
                hits@[0].1,
            ),
            r is Ok,
    {
        let book = test_book();
        let hit = VerseFTS {
            book: 19,
            chapter: 119,
            verse: 105,
            words: "NUN. Thy word is a lamp unto my feet, and a <em>light</em> unto my path."
                .to_string(),
            rank_milli: 1100,
        };
        Ok(vec![(hit, book)])
    }
}

} // verus!
