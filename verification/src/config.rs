//! User configuration: the chapter-list page size and the tracker token.
//! Loading the file from disk happens outside; the library only holds the
//! values.

use vstd::prelude::*;

verus! {

/// A configuration is well formed when its page size is positive: the
/// chapter list is paged, and an empty page would make every page count
/// calculation meaningless.
pub open spec fn config_wf(c: Config) -> bool {
    c.spec_page_size() >= 1
}

#[derive(Debug, Clone)]
pub struct Config {
    anilist_token: String,
    chapter_page_size: u16,
}

impl Config {
    /// Builds a configuration from loaded values.
    pub fn new(anilist_token: String, chapter_page_size: u16) -> (r: Self)
        requires
            chapter_page_size >= 1,
        ensures
            r.spec_token() == anilist_token@,
            r.spec_page_size() == chapter_page_size as int,
            config_wf(r),
    {
        Self { anilist_token, chapter_page_size }
    }

    pub fn chapter_page_size(&self) -> (r: u16)
        ensures
            r as int == self.spec_page_size(),
    {
        self.chapter_page_size
    }

    pub fn anilist_token(&self) -> (r: &str)
        ensures
            r@ == self.spec_token(),
    {
        self.anilist_token.as_str()
    }

    /// An exact copy: unlike a derived clone, its contract says that the
    /// copy holds the same values.
    pub fn duplicate(&self) -> (r: Self)
        ensures
            r == *self,
    {
        Self {
            anilist_token: self.anilist_token.clone(),
            chapter_page_size: self.chapter_page_size,
        }
    }

    /// The configured page size, as the contracts speak of it.
    pub closed spec fn spec_page_size(&self) -> int {
        self.chapter_page_size as int
    }

    /// The configured tracker token, as the contracts speak of it.
    pub closed spec fn spec_token(&self) -> Seq<char> {
        self.anilist_token@
    }
}

impl Default for Config {
    /// The default configuration: no token, 25 chapters per page.
    fn default() -> (r: Self)
        ensures
            r.spec_token() == Seq::<char>::empty(),
            r.spec_page_size() == 25,
            config_wf(r),
    {
        Self { anilist_token: String::new(), chapter_page_size: 25 }
    }
}

} // verus!
