//! The comic data model: a comic, its chapters, and the optional metadata
//! shown beside a chapter list.

use vstd::prelude::*;

verus! {

/// What kind of serialized content a comic is.
#[derive(Debug, Clone, Copy, PartialEq, Eq, Structural)]
pub enum ComicType {
    Manga,
    Western,
}

/// A chapter: display name plus source locator. Immutable once constructed.
#[derive(Debug, Clone)]
pub struct Chapter {
    pub name: String,
    pub source: String,
}

/// A comic: name, canonical source locator, content-type tag, and the
/// ordered chapters known so far.
#[derive(Debug, Clone)]
pub struct Comic {
    pub name: String,
    pub source: String,
    pub comic_type: ComicType,
    pub chapters: Vec<Chapter>,
}

/// Metadata of a comic: publication date, status, and genre list.
#[derive(Debug, Clone)]
pub struct ComicInfo {
    pub date: String,
    pub status: String,
    pub genres: Vec<String>,
}

/// What the contracts see of a chapter: its two strings.
pub struct ChapterView {
    pub name: Seq<char>,
    pub source: Seq<char>,
}

/// What the contracts see of a comic.
pub struct ComicView {
    pub name: Seq<char>,
    pub source: Seq<char>,
    pub comic_type: ComicType,
    pub chapters: Seq<ChapterView>,
}

/// What the contracts see of comic metadata.
pub struct ComicInfoView {
    pub date: Seq<char>,
    pub status: Seq<char>,
    pub genres: Seq<Seq<char>>,
}

/// A chapter list as the contracts see it.
pub open spec fn chapters_view(cs: Seq<Chapter>) -> Seq<ChapterView> {
    cs.map_values(|c: Chapter| c@)
}

/// A comic list as the contracts see it.
pub open spec fn comics_view(cs: Seq<Comic>) -> Seq<ComicView> {
    cs.map_values(|c: Comic| c@)
}

/// A string list as the contracts see it.
pub open spec fn strings_view(ss: Seq<String>) -> Seq<Seq<char>> {
    ss.map_values(|s: String| s@)
}

impl View for Chapter {
    type V = ChapterView;

    open spec fn view(&self) -> ChapterView {
        ChapterView { name: self.name@, source: self.source@ }
    }
}

impl View for Comic {
    type V = ComicView;

    open spec fn view(&self) -> ComicView {
        ComicView {
            name: self.name@,
            source: self.source@,
            comic_type: self.comic_type,
            chapters: chapters_view(self.chapters@),
        }
    }
}

impl View for ComicInfo {
    type V = ComicInfoView;

    open spec fn view(&self) -> ComicInfoView {
        ComicInfoView {
            date: self.date@,
            status: self.status@,
            genres: strings_view(self.genres@),
        }
    }
}

impl Chapter {
    pub fn new(name: &str, source: &str) -> (r: Self)
        ensures
            r.name@ == name@,
            r.source@ == source@,
    {
        Self { name: name.to_owned(), source: source.to_owned() }
    }
}

impl ComicInfo {
    pub fn new(date: &str, status: &str, genres: Vec<String>) -> (r: Self)
        ensures
            r.date@ == date@,
            r.status@ == status@,
            r.genres == genres,
    {
        Self { date: date.to_owned(), status: status.to_owned(), genres }
    }
}

impl Comic {
    pub fn new(name: &str, source: &str, comic_type: ComicType, chapters: Vec<Chapter>) -> (r: Self)
        ensures
            r.name@ == name@,
            r.source@ == source@,
            r.comic_type == comic_type,
            r.chapters == chapters,
    {
        Self { name: name.to_owned(), source: source.to_owned(), comic_type, chapters }
    }
}

impl Chapter {
    /// An exact copy: unlike a derived clone, its contract says that the
    /// copy reads the same.
    pub fn duplicate(&self) -> (r: Self)
        ensures
            r == *self,
    {
        Chapter { name: self.name.clone(), source: self.source.clone() }
    }
}

impl ComicInfo {
    /// An exact copy of the metadata.
    pub fn duplicate(&self) -> (r: Self)
        ensures
            r@ == self@,
    {
        let mut genres: Vec<String> = Vec::new();
        let mut i: usize = 0;
        while i < self.genres.len()
            invariant
                i <= self.genres@.len(),
                genres@.len() == i,
                forall|k: int| 0 <= k < i ==> genres@[k] == self.genres@[k],
            decreases self.genres@.len() - i,
        {
            genres.push(self.genres[i].clone());
            i = i + 1;
        }
        let r = ComicInfo { date: self.date.clone(), status: self.status.clone(), genres };
        proof {
            assert(r@.genres =~= self@.genres);
        }
        r
    }
}

impl Comic {
    /// An exact copy of the comic, chapters included.
    pub fn duplicate(&self) -> (r: Self)
        ensures
            r@ == self@,
    {
        let mut chapters: Vec<Chapter> = Vec::new();
        let mut i: usize = 0;
        while i < self.chapters.len()
            invariant
                i <= self.chapters@.len(),
                chapters@.len() == i,
                forall|k: int| 0 <= k < i ==> chapters@[k] == self.chapters@[k],
            decreases self.chapters@.len() - i,
        {
            chapters.push(self.chapters[i].duplicate());
            i = i + 1;
        }
        let r = Comic {
            name: self.name.clone(),
            source: self.source.clone(),
            comic_type: self.comic_type,
            chapters,
        };
        proof {
            assert(r@.chapters =~= self@.chapters);
        }
        r
    }
}

} // verus!
