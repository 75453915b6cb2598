use sword_drill::drill::{test_book, SwordDrillable, TestSwordDrill};
use sword_drill::models::{Book, Reference, Testament, VerseFormat};

fn psalms() -> Book {
    Book {
        id: 19,
        name: "Psalms".to_string(),
        chapter_count: 150,
        testament: Testament::Old,
    }
}

#[test]
fn fixture_book() {
    assert_eq!(test_book(), psalms());
}

#[test]
fn verses_always_answers_psalm_119_105() {
    let reference = Reference {
        book: "Psalms".to_string(),
        chapter: Some(119),
        verses: Some((105, 105)),
    };
    let (book, verses) =
        <TestSwordDrill as SwordDrillable>::verses(&reference, VerseFormat::Html).unwrap();
    assert_eq!(book, psalms());
    assert_eq!(verses.len(), 1);
    assert_eq!(verses[0].id, 555);
    assert_eq!(verses[0].book, 19);
    assert_eq!(verses[0].chapter, 119);
    assert_eq!(verses[0].verse, 105);
    assert_eq!(
        verses[0].words,
        "NUN. Thy word is a lamp unto my feet, and a light unto my path."
    );
}

#[test]
fn book_always_answers_psalms_with_all_chapters() {
    let (book, chapters) = <TestSwordDrill as SwordDrillable>::book("Genesis").unwrap();
    assert_eq!(book, psalms());
    let expected: Vec<i32> = (1..=150).collect();
    assert_eq!(chapters, expected);
}

#[test]
fn all_books_answers_the_one_fixture_book() {
    let books = <TestSwordDrill as SwordDrillable>::all_books().unwrap();
    assert_eq!(books, vec![psalms()]);
}

#[test]
fn search_always_answers_the_highlighted_hit() {
    let hits = <TestSwordDrill as SwordDrillable>::search("light").unwrap();
    assert_eq!(hits.len(), 1);
    let (hit, book) = &hits[0];
    assert_eq!(*book, psalms());
    assert_eq!(hit.book, 19);
    assert_eq!(hit.chapter, 119);
    assert_eq!(hit.verse, 105);
    assert_eq!(
        hit.words,
        "NUN. Thy word is a lamp unto my feet, and a <em>light</em> unto my path."
    );
    assert_eq!(hit.rank_milli, 1100);
    // The rank the fixture stands for, in floating point, is 1.1.
    assert!((hit.rank_milli as f32 / 1000.0 - 1.1).abs() < 1e-6);
}
