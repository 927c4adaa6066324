use vstd::prelude::*;

use crate::text::{join_path, joined};

verus! {

/// What a directory entry is, as seen without following links.
#[derive(Copy, Clone, Debug, PartialEq, Eq, Structural)]
pub enum EntryKind {
    Dir,
    File,
    Other,
}

/// One entry of a directory listing.
#[derive(Debug)]
pub struct Entry {
    pub name: String,
    pub kind: EntryKind,
}

/// A directory to list: its path on disk, and the item path of what it holds.
pub open spec fn place_texts(v: Seq<(String, String)>) -> Seq<(Seq<char>, Seq<char>)> {
    v.map_values(|p: (String, String)| (p.0@, p.1@))
}

/// The entries of kind `kind`, each as (path on disk, item path).
pub open spec fn entries_of(abs: Seq<char>, rel: Seq<char>, entries: Seq<Entry>, kind: EntryKind) -> Seq<
    (Seq<char>, Seq<char>),
>
    decreases entries.len(),
{
    if entries.len() == 0 {
        seq![]
    } else {
        let rest = entries_of(abs, rel, entries.drop_last(), kind);
        let e = entries.last();
        if e.kind == kind {
            rest.push((joined(abs, e.name@), joined(rel, e.name@)))
        } else {
            rest
        }
    }
}

/// Walks a directory tree: yields every regular file under it, with its item
/// path, the parent item path joined with the file's path below the root.
/// The caller lists the directories that `next_dir` hands out and passes the
/// listings to `visit`.
pub struct Walker {
    /// The directories still to list: (path on disk, item path).
    pub pending: Vec<(String, String)>,
}

impl Walker {
    /// A walk of `dir`, whose files get item paths under `parent_path`.
    pub fn new(dir: String, parent_path: String) -> (r: Walker)
        ensures
            place_texts(r.pending@) == seq![(dir@, parent_path@)],
    {
        let mut pending = Vec::new();
        pending.push((dir, parent_path));
        proof {
            assert(place_texts(pending@) =~= seq![(dir@, parent_path@)]);
        }
        Walker { pending }
    }

    /// The next directory to list, none when the walk is over.
    pub fn next_dir(&mut self) -> (r: Option<(String, String)>)
        ensures
            old(self).pending@.len() == 0 ==> r.is_none() && final(self).pending@ == old(self).pending@,
            old(self).pending@.len() > 0 ==> r == Some(old(self).pending@.last())
                && final(self).pending@ == old(self).pending@.drop_last(),
    {
        self.pending.pop()
    }

    /// Takes the listing of the directory `abs`, whose item path is `rel`:
    /// its subdirectories join the walk, its regular files are returned, each
    /// as (path on disk, item path). Other entries are passed over.
    pub fn visit(&mut self, abs: &str, rel: &str, entries: &Vec<Entry>) -> (r: Vec<(String, String)>)
        ensures
            place_texts(r@) == entries_of(abs@, rel@, entries@, EntryKind::File),
            place_texts(final(self).pending@) == place_texts(old(self).pending@) + entries_of(
                abs@,
                rel@,
                entries@,
                EntryKind::Dir,
            ),
    {
        let mut files: Vec<(String, String)> = Vec::new();
        let mut i: usize = 0;
        while i < entries.len()
            invariant
                i <= entries@.len(),
                place_texts(files@) == entries_of(abs@, rel@, entries@.subrange(0, i as int), EntryKind::File),
                place_texts(self.pending@) == place_texts(old(self).pending@) + entries_of(
                    abs@,
                    rel@,
                    entries@.subrange(0, i as int),
                    EntryKind::Dir,
                ),
            decreases entries@.len() - i,
        {
            let e = &entries[i];
            let ghost sub = entries@.subrange(0, i + 1);
            assert(sub.drop_last() =~= entries@.subrange(0, i as int));
            let ghost files0 = files@;
            let ghost pending0 = self.pending@;
            match e.kind {
                EntryKind::Dir => {
                    let place = (join_path(abs, e.name.as_str()), join_path(rel, e.name.as_str()));
                    self.pending.push(place);
                    assert(place_texts(self.pending@) =~= place_texts(pending0).push(
                        (place.0@, place.1@),
                    ));
                },
                EntryKind::File => {
                    let place = (join_path(abs, e.name.as_str()), join_path(rel, e.name.as_str()));
                    files.push(place);
                    assert(place_texts(files@) =~= place_texts(files0).push((place.0@, place.1@)));
                },
                EntryKind::Other => {},
            }
            i = i + 1;
        }
        assert(entries@.subrange(0, entries@.len() as int) =~= entries@);
        files
    }
}

} // verus!
