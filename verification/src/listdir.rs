//! Enumeration of the case directories inside a corpus directory.
//!
//! A directory read is handed in as plain data: the entries in enumeration
//! order (which is filesystem-dependent and not sorted), each with its own
//! name and its resolved — symlink-followed — type.  The listing keeps the
//! names of the entries that are directories; an unreadable entry, or a
//! directory entry whose name is not UTF-8, fails the whole listing.

use vstd::prelude::*;
use vstd::string::StringExecFns;

verus! {

/// One directory entry once read: its name decoded as UTF-8 (`None` when
/// the name is not UTF-8), and whether its resolved type is a directory —
/// so a symlink to a directory appears under the link's own name; or the
/// message of the failure that reading the entry or its metadata produced.
#[derive(Clone, Debug)]
pub enum EntryInfo {
    Entry { name: Option<String>, is_dir: bool },
    ReadFailed(String),
}

/// The spec-level value of an [`EntryInfo`].
pub enum EntryInfoView {
    Entry { name: Option<Seq<char>>, is_dir: bool },
    ReadFailed(Seq<char>),
}

impl DeepView for EntryInfo {
    type V = EntryInfoView;

    open spec fn deep_view(&self) -> EntryInfoView {
        match self {
            EntryInfo::Entry { name, is_dir } => EntryInfoView::Entry {
                name: name.deep_view(),
                is_dir: *is_dir,
            },
            EntryInfo::ReadFailed(m) => EntryInfoView::ReadFailed(m@),
        }
    }
}

/// One whole attempt at reading a directory: its entries in enumeration
/// order, or the message of the failure that opening it produced.
#[derive(Clone, Debug)]
pub enum DirRead {
    Failed(String),
    Entries(Vec<EntryInfo>),
}

/// The spec-level value of a [`DirRead`].
pub enum DirReadView {
    Failed(Seq<char>),
    Entries(Seq<EntryInfoView>),
}

impl DeepView for DirRead {
    type V = DirReadView;

    open spec fn deep_view(&self) -> DirReadView {
        match self {
            DirRead::Failed(m) => DirReadView::Failed(m@),
            DirRead::Entries(es) => DirReadView::Entries(es.deep_view()),
        }
    }
}

/// The case names among the first `k` entries: the names of the entries
/// whose resolved type is a directory, in enumeration order; the leftmost
/// unreadable entry, or directory entry without a UTF-8 name, fails the
/// listing.
pub open spec fn list_dir_prefix(entries: Seq<EntryInfoView>, k: int) -> Result<
    Seq<Seq<char>>,
    Seq<char>,
>
    decreases k,
{
    if k <= 0 {
        Ok(Seq::empty())
    } else {
        match list_dir_prefix(entries, k - 1) {
            Err(m) => Err(m),
            Ok(names) => match entries[k - 1] {
                EntryInfoView::ReadFailed(m) => Err(m),
                EntryInfoView::Entry { name, is_dir } => if !is_dir {
                    Ok(names)
                } else {
                    match name {
                        Some(n) => Ok(names.push(n)),
                        None => Err("invalid directory name"@),
                    }
                },
            },
        }
    }
}

/// The case names of one directory read, or the message of its first
/// failure.
pub open spec fn list_dir_spec(r: DirReadView) -> Result<Seq<Seq<char>>, Seq<char>> {
    match r {
        DirReadView::Failed(m) => Err(m),
        DirReadView::Entries(es) => list_dir_prefix(es, es.len() as int),
    }
}

/// Enumerate the names of the immediate subdirectories of a directory
/// read: non-directory entries are skipped, and an unreadable entry or a
/// directory entry without a UTF-8 name fails the whole listing.
pub fn list_dir(input: &DirRead) -> (r: Result<Vec<String>, String>)
    ensures
        match r {
            Ok(names) => list_dir_spec(input.deep_view()) == Ok::<_, Seq<char>>(
                names.deep_view(),
            ),
            Err(m) => list_dir_spec(input.deep_view()) == Err::<Seq<Seq<char>>, _>(m@),
        },
{
    let entries = match input {
        DirRead::Failed(m) => {
            return Err(m.clone());
        },
        DirRead::Entries(es) => es,
    };
    let mut names: Vec<String> = Vec::new();
    let mut i: usize = 0;
    proof {
        assert(names.deep_view() =~= Seq::<Seq<char>>::empty());
    }
    while i < entries.len()
        invariant
            i <= entries.len(),
            input.deep_view() == DirReadView::Entries(entries.deep_view()),
            list_dir_prefix(entries.deep_view(), i as int) == Ok::<_, Seq<char>>(
                names.deep_view(),
            ),
        decreases entries.len() - i,
    {
        let ghost prev = names.deep_view();
        let e = &entries[i];
        proof {
            assert(entries.deep_view()[i as int] == e.deep_view());
        }
        match e {
            EntryInfo::ReadFailed(m) => {
                proof {
                    lemma_list_dir_prefix_err(entries.deep_view(), i + 1, entries@.len() as int);
                }
                return Err(m.clone());
            },
            EntryInfo::Entry { name, is_dir } => {
                if *is_dir {
                    match name {
                        Some(n) => {
                            names.push(n.clone());
                            proof {
                                assert(names.deep_view() =~= prev.push(
                                    names.deep_view()[prev.len() as int],
                                ));
                            }
                        },
                        None => {
                            proof {
                                lemma_list_dir_prefix_err(
                                    entries.deep_view(),
                                    i + 1,
                                    entries@.len() as int,
                                );
                            }
                            return Err(String::from_str("invalid directory name"));
                        },
                    }
                }
            },
        }
        i = i + 1;
    }
    Ok(names)
}

/// An error among the first `i` entries decides the whole listing.
proof fn lemma_list_dir_prefix_err(entries: Seq<EntryInfoView>, i: int, j: int)
    requires
        0 <= i <= j,
        list_dir_prefix(entries, i) is Err,
    ensures
        list_dir_prefix(entries, j) == list_dir_prefix(entries, i),
    decreases j - i,
{
    if i < j {
        lemma_list_dir_prefix_err(entries, i, j - 1);
    }
}

/// The number of entries among the first `k` whose resolved type is a
/// directory.
pub open spec fn dir_count(entries: Seq<EntryInfoView>, k: int) -> int
    decreases k,
{
    if k <= 0 {
        0
    } else {
        dir_count(entries, k - 1) + match entries[k - 1] {
            EntryInfoView::Entry { is_dir, .. } => if is_dir {
                1int
            } else {
                0int
            },
            _ => 0int,
        }
    }
}

/// The own names of the directory entries among the first `k`, in
/// enumeration order, skipping entries that are not directories.
pub open spec fn dir_names(entries: Seq<EntryInfoView>, k: int) -> Seq<Seq<char>>
    decreases k,
{
    if k <= 0 {
        Seq::empty()
    } else {
        let rest = dir_names(entries, k - 1);
        match entries[k - 1] {
            EntryInfoView::Entry { name: Some(n), is_dir: true } => rest.push(n),
            _ => rest,
        }
    }
}

/// Law: for a directory whose entries are all readable and whose directory
/// entries all carry UTF-8 names, the listing succeeds and returns exactly
/// one name per directory entry — the entry's own name, in enumeration
/// order — however many plain files stand beside them and wherever a
/// directory entry is a symlink.
pub proof fn lemma_listing_counts_directories(entries: Seq<EntryInfoView>, k: int)
    requires
        0 <= k <= entries.len(),
        forall|i: int| 0 <= i < entries.len() ==> match #[trigger] entries[i] {
            EntryInfoView::Entry { name, is_dir } => is_dir ==> name is Some,
            _ => false,
        },
    ensures
        list_dir_prefix(entries, k) == Ok::<_, Seq<char>>(dir_names(entries, k)),
        dir_names(entries, k).len() == dir_count(entries, k),
    decreases k,
{
    if k > 0 {
        lemma_listing_counts_directories(entries, k - 1);
    }
}

} // verus!
