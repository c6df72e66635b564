use vstd::prelude::*;

use crate::profiles::name_lt;
use crate::text::{copy_str, same_text};

verus! {

/// A saved place in the schema, with an optional query.
#[derive(Debug, Clone, PartialEq, Eq)]
pub struct SavedBookmark {
    pub name: String,
    pub profile_name: Option<String>,
    pub database: Option<String>,
    pub table: Option<String>,
    pub column: Option<String>,
    pub query: Option<String>,
}

impl SavedBookmark {
    /// A bookmark with only a name.
    pub fn new(name: &str) -> (r: Self)
        ensures
            r.name@ == name@,
            r.profile_name is None,
            r.database is None,
            r.table is None,
            r.column is None,
            r.query is None,
    {
        SavedBookmark {
            name: copy_str(name),
            profile_name: None,
            database: None,
            table: None,
            column: None,
            query: None,
        }
    }
}

pub open spec fn sorted_bookmark_names(v: Seq<SavedBookmark>) -> bool {
    forall|i: int, j: int| 0 <= i < j < v.len() ==> name_lt(#[trigger] v[i].name@, #[trigger] v[j].name@)
}

/// Saved bookmarks, one per name, sorted by name.
#[derive(Debug, Clone)]
pub struct FileBookmarksStore {
    path: String,
    bookmarks: Vec<SavedBookmark>,
}

impl View for FileBookmarksStore {
    type V = Seq<SavedBookmark>;

    closed spec fn view(&self) -> Seq<SavedBookmark> {
        self.bookmarks@
    }
}

impl FileBookmarksStore {
    pub closed spec fn path_view(&self) -> Seq<char> {
        self.path@
    }

    pub open spec fn wf(&self) -> bool {
        sorted_bookmark_names(self@)
    }

    /// An empty store kept at `path`.
    pub fn from_path(path: &str) -> (r: Self)
        ensures
            r.wf(),
            r@.len() == 0,
            r.path_view() == path@,
    {
        FileBookmarksStore { path: copy_str(path), bookmarks: Vec::new() }
    }

    pub fn path(&self) -> (r: &str)
        ensures
            r@ == self.path_view(),
    {
        self.path.as_str()
    }

    pub fn bookmarks(&self) -> (r: &Vec<SavedBookmark>)
        ensures
            r@ == self@,
    {
        &self.bookmarks
    }

    /// The bookmark with this name.
    pub fn bookmark(&self, name: &str) -> (r: Option<&SavedBookmark>)
        ensures
            r is Some ==> self@.contains(*r->0) && r->0.name@ == name@,
            r is None ==> forall|i: int| 0 <= i < self@.len() ==> #[trigger] self@[i].name@ != name@,
    {
        let mut i: usize = 0;
        while i < self.bookmarks.len()
            invariant
                i <= self@.len(),
                forall|k: int| 0 <= k < i ==> #[trigger] self@[k].name@ != name@,
            decreases self.bookmarks.len() - i,
        {
            if same_text(&self.bookmarks[i].name, name) {
                return Some(&self.bookmarks[i]);
            }
            i = i + 1;
        }
        None
    }

    /// Adds a bookmark, replacing the one with the same name.
    pub fn upsert_bookmark(&mut self, bookmark: SavedBookmark)
        requires
            old(self).wf(),
        ensures
            final(self).wf(),
            final(self).path_view() == old(self).path_view(),
            final(self)@.contains(bookmark),
            forall|i: int|
                0 <= i < old(self)@.len() && (#[trigger] old(self)@[i]).name@ != bookmark.name@
                    ==> final(self)@.contains(old(self)@[i]),
            forall|i: int|
                0 <= i < final(self)@.len() ==> #[trigger] final(self)@[i] == bookmark || (
                old(self)@.contains(final(self)@[i]) && final(self)@[i].name@ != bookmark.name@),
    {
        self.delete_bookmark(bookmark.name.as_str());
        let ghost mid = self@;
        let mut pos: usize = 0;
        while pos < self.bookmarks.len() && !crate::actions_engine::title_le_str(
            bookmark.name.as_str(),
            self.bookmarks[pos].name.as_str(),
        )
            invariant
                self@ == mid,
                pos <= mid.len(),
                forall|k: int| 0 <= k < pos ==> name_lt(#[trigger] mid[k].name@, bookmark.name@),
            decreases self.bookmarks.len() - pos,
        {
            proof {
                crate::actions_engine::lemma_title_le_total(bookmark.name@, mid[pos as int].name@);
            }
            pos = pos + 1;
        }
        proof {
            if pos < mid.len() {
                assert(mid[pos as int].name@ != bookmark.name@);
            }
        }
        let ghost p = bookmark;
        self.bookmarks.insert(pos, bookmark);
        proof {
            let v = self@;
            assert forall|i: int, j: int| 0 <= i < j < v.len() implies name_lt(#[trigger] v[i].name@, #[trigger] v[j].name@) by {
                if j < pos {
                    assert(v[i] == mid[i] && v[j] == mid[j]);
                } else if j == pos {
                    assert(v[i] == mid[i]);
                } else if i == pos {
                    assert(v[j] == mid[j - 1]);
                    if j - 1 > pos {
                        crate::profiles::lemma_name_order(p.name@, mid[pos as int].name@, mid[j - 1].name@);
                    }
                    assert(mid[pos as int].name@ != p.name@);
                    crate::profiles::lemma_name_order(p.name@, mid[pos as int].name@, mid[pos as int].name@);
                    crate::actions_engine::lemma_title_le_total(p.name@, mid[pos as int].name@);
                    if j - 1 > pos {
                        crate::actions_engine::lemma_title_le_trans(p.name@, mid[pos as int].name@, mid[j - 1].name@);
                        if p.name@ == mid[j - 1].name@ {
                            crate::actions_engine::lemma_title_le_antisym(p.name@, mid[pos as int].name@);
                        }
                    }
                } else if i < pos {
                    assert(v[i] == mid[i] && v[j] == mid[j - 1]);
                    crate::profiles::lemma_name_order(mid[i].name@, p.name@, mid[j - 1].name@);
                    if j - 1 > i {
                        assert(name_lt(mid[i].name@, mid[j - 1].name@));
                    }
                } else {
                    assert(v[i] == mid[i - 1] && v[j] == mid[j - 1]);
                }
            }
            assert(v[pos as int] == p);
            assert forall|i: int|
                0 <= i < old(self)@.len() && (#[trigger] old(self)@[i]).name@ != p.name@ implies v.contains(old(self)@[i]) by {
                let k = choose|k: int| 0 <= k < mid.len() && mid[k] == old(self)@[i];
                if k < pos {
                    assert(v[k] == mid[k]);
                } else {
                    assert(v[k + 1] == mid[k]);
                }
            }
            assert forall|i: int| 0 <= i < v.len() implies #[trigger] v[i] == p || (old(self)@.contains(v[i]) && v[i].name@ != p.name@) by {
                if i < pos {
                    assert(v[i] == mid[i]);
                } else if i > pos {
                    assert(v[i] == mid[i - 1]);
                }
            }
        }
    }

    /// Removes the bookmark with this name; says whether there was one.
    pub fn delete_bookmark(&mut self, name: &str) -> (r: bool)
        requires
            old(self).wf(),
        ensures
            final(self).wf(),
            final(self).path_view() == old(self).path_view(),
            r == (exists|i: int| 0 <= i < old(self)@.len() && (#[trigger] old(self)@[i]).name@ == name@),
            forall|i: int| 0 <= i < final(self)@.len() ==> (#[trigger] final(self)@[i]).name@ != name@,
            forall|i: int|
                0 <= i < old(self)@.len() && (#[trigger] old(self)@[i]).name@ != name@
                    ==> exists|j: int| 0 <= j < final(self)@.len() && final(self)@[j] == old(self)@[i],
            forall|j: int| 0 <= j < final(self)@.len() ==> old(self)@.contains(#[trigger] final(self)@[j]),
    {
        let mut i: usize = 0;
        while i < self.bookmarks.len()
            invariant
                self@ == old(self)@,
                sorted_bookmark_names(self@),
                self.path_view() == old(self).path_view(),
                i <= self@.len(),
                forall|k: int| 0 <= k < i ==> #[trigger] self@[k].name@ != name@,
            decreases self.bookmarks.len() - i,
        {
            if same_text(&self.bookmarks[i].name, name) {
                let ghost before = self@;
                self.bookmarks.remove(i);
                proof {
                    let v = self@;
                    assert(sorted_bookmark_names(before));
                    assert forall|a: int, b: int| 0 <= a < b < v.len() implies name_lt(#[trigger] v[a].name@, #[trigger] v[b].name@) by {
                        let aa = if a < i { a } else { a + 1 };
                        let bb = if b < i { b } else { b + 1 };
                        assert(v[a] == before[aa] && v[b] == before[bb]);
                        assert(name_lt(before[aa].name@, before[bb].name@));
                    }
                    assert forall|k: int| 0 <= k < v.len() implies (#[trigger] v[k]).name@ != name@ by {
                        if k < i {
                            assert(v[k] == before[k]);
                        } else {
                            assert(v[k] == before[k + 1]);
                            assert(name_lt(before[i as int].name@, before[k + 1].name@));
                        }
                    }
                    assert forall|k: int| 0 <= k < before.len() && (#[trigger] before[k]).name@ != name@ implies exists|j: int| 0 <= j < v.len() && v[j] == before[k] by {
                        if k < i {
                            assert(v[k] == before[k]);
                        } else {
                            assert(v[k - 1] == before[k]);
                        }
                    }
                    assert forall|j: int| 0 <= j < v.len() implies before.contains(#[trigger] v[j]) by {
                        if j < i {
                            assert(v[j] == before[j]);
                        } else {
                            assert(v[j] == before[j + 1]);
                        }
                    }
                }
                return true;
            }
            i = i + 1;
        }
        proof {
            assert forall|k: int| 0 <= k < old(self)@.len() && (#[trigger] old(self)@[k]).name@ != name@ implies exists|j: int| 0 <= j < self@.len() && self@[j] == old(self)@[k] by {
                assert(self@[k] == old(self)@[k]);
            }
            assert forall|j: int| 0 <= j < self@.len() implies old(self)@.contains(#[trigger] self@[j]) by {
                assert(old(self)@[j] == self@[j]);
            }
        }
        false
    }
}

} // verus!
