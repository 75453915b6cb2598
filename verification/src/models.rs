//! The entities the application serves: books, verses, full-text-search
//! hits, and the citation type used as a lookup key.

use vstd::prelude::*;

verus! {

/// Which testament a book belongs to.
#[derive(Clone, Copy, Debug, PartialEq, Eq, Structural)]
pub enum Testament {
    Old,
    New,
}

/// A book of the Bible, as the data layer reports it.
#[derive(Clone, Debug, PartialEq)]
pub struct Book {
    pub id: i32,
    pub name: String,
    pub chapter_count: i32,
    pub testament: Testament,
}

impl Book {
    /// A book has a positive identifier and at least one chapter.
    pub open spec fn wf(&self) -> bool {
        self.id >= 1 && self.chapter_count >= 1
    }
}

/// A single verse of Scripture.
#[derive(Clone, Debug, PartialEq)]
pub struct Verse {
    pub id: i32,
    pub book: i32,
    pub chapter: i32,
    pub verse: i32,
    pub words: String,
}

impl Verse {
    /// Identifiers and chapter/verse numbers are one-based.
    pub open spec fn wf(&self) -> bool {
        self.id >= 1 && self.book >= 1 && self.chapter >= 1 && self.verse >= 1
    }
}

/// A full-text-search hit: a verse with its highlighted text and a
/// relevance rank. The rank is kept in thousandths so that the library
/// stays within integer arithmetic.
#[derive(Clone, Debug, PartialEq)]
pub struct VerseFTS {
    pub book: i32,
    pub chapter: i32,
    pub verse: i32,
    pub words: String,
    pub rank_milli: i64,
}

impl VerseFTS {
    /// Book id and chapter/verse numbers are one-based.
    pub open spec fn wf(&self) -> bool {
        self.book >= 1 && self.chapter >= 1 && self.verse >= 1
    }
}

/// How verse text should be rendered by a lookup.
#[derive(Clone, Copy, Debug, PartialEq, Eq, Structural)]
pub enum VerseFormat {
    Html,
    Plain,
}

/// A Scripture citation: a book, optionally a chapter, optionally an
/// inclusive range of verses within that chapter.
#[derive(Clone, Debug, PartialEq)]
pub struct Reference {
    pub book: String,
    pub chapter: Option<u32>,
    pub verses: Option<(u32, u32)>,
}

impl Reference {
    /// Chapter and verse numbers are one-based; a verse range presupposes
    /// a chapter and runs low to high.
    pub open spec fn wf(&self) -> bool {
        (self.chapter matches Some(c) ==> c >= 1)
            && (self.verses matches Some(r) ==> self.chapter is Some && 1 <= r.0 <= r.1)
    }
}

} // verus!
