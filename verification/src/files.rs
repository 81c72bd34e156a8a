//! The file navigator: what a directory shows, in which order, and the
//! cached listing of the current directory.
//!
//! The host reads the directory and hands over the names it found; what is
//! listed and in which order is decided here. A directory may be written
//! with a leading tilde for the home directory of the user: the tilde is
//! expanded before paths are built, and the host reads the expanded name.

use vstd::prelude::*;
use vstd::seq_lib::{to_multiset_build, to_multiset_insert, to_multiset_len};
use crate::error::{MdError, MdResult};
use crate::order::{lemma_path_le_is_total_order, path_le, rank_paths, Rank};
use crate::path::{
    has_markdown_extension,
    hidden_name,
    is_hidden_name,
    join,
    joined,
    lemma_joined_is_injective,
    lemma_joined_is_not_the_parent,
    markdown_extension,
};
use crate::trusted::{expand_tilde, has_tilde_prefix, may_expand_to};

verus! {

/// Whether an entry is a file or a directory.
#[derive(Clone, Copy, Debug, PartialEq, Eq, Structural)]
pub enum EntryKind {
    File,
    Directory,
}

/// What the host found in a directory: the name of a child and its kind.
#[derive(Debug, PartialEq, Eq)]
pub struct DirChild {
    pub name: String,
    pub kind: EntryKind,
}

/// The mathematical value of a [`DirChild`].
pub ghost struct ChildView {
    pub name: Seq<char>,
    pub kind: EntryKind,
}

impl View for DirChild {
    type V = ChildView;

    open spec fn view(&self) -> ChildView {
        ChildView { name: self.name@, kind: self.kind }
    }
}

impl DeepView for DirChild {
    type V = ChildView;

    open spec fn deep_view(&self) -> ChildView {
        self@
    }
}

/// A line of a listing.
#[derive(Debug, PartialEq, Eq)]
pub struct DirectoryEntry {
    /// Where the entry lies.
    pub path: String,
    /// Whether it is a file or a directory.
    pub kind: EntryKind,
    /// Whether its name marks it as hidden.
    pub hidden: bool,
}

/// The mathematical value of a [`DirectoryEntry`].
pub ghost struct EntryView {
    pub path: Seq<char>,
    pub kind: EntryKind,
    pub hidden: bool,
}

impl View for DirectoryEntry {
    type V = EntryView;

    open spec fn view(&self) -> EntryView {
        EntryView { path: self.path@, kind: self.kind, hidden: self.hidden }
    }
}

impl DeepView for DirectoryEntry {
    type V = EntryView;

    open spec fn deep_view(&self) -> EntryView {
        self@
    }
}

impl Clone for DirectoryEntry {
    fn clone(&self) -> (e: DirectoryEntry)
        ensures
            e@ == self@,
    {
        DirectoryEntry { path: self.path.clone(), kind: self.kind, hidden: self.hidden }
    }
}

/// Whether a child is shown: a file where it is a markdown document, a
/// directory unless it is hidden and hidden ones are left out.
pub open spec fn is_listed(child: ChildView, include_hidden: bool) -> bool {
    match child.kind {
        EntryKind::File => has_markdown_extension(child.name),
        EntryKind::Directory => include_hidden || !is_hidden_name(child.name),
    }
}

/// `is_listed` as a predicate on children.
pub open spec fn listed(include_hidden: bool) -> spec_fn(ChildView) -> bool {
    |child: ChildView| is_listed(child, include_hidden)
}

/// The entry that stands for `child` in a listing of `dir`.
pub open spec fn entry_of(dir: Seq<char>, child: ChildView) -> EntryView {
    EntryView {
        path: joined(dir, child.name),
        kind: child.kind,
        hidden: is_hidden_name(child.name),
    }
}

/// `entry_of` as a function on the children of `dir`.
pub open spec fn to_entry(dir: Seq<char>) -> spec_fn(ChildView) -> EntryView {
    |child: ChildView| entry_of(dir, child)
}

/// The entry `..` that leads to the parent directory.
pub open spec fn parent_entry() -> EntryView {
    EntryView { path: ".."@, kind: EntryKind::Directory, hidden: false }
}

/// The entries of the children that are shown, in the order of the children.
pub open spec fn shown(dir: Seq<char>, include_hidden: bool, children: Seq<ChildView>) -> Seq<
    EntryView,
> {
    children.filter(listed(include_hidden)).map_values(to_entry(dir))
}

/// Everything that a listing of `dir` holds: the children that are shown,
/// and the entry that leads to the parent.
pub open spec fn candidates(
    dir: Seq<char>,
    include_hidden: bool,
    children: Seq<ChildView>,
) -> Seq<EntryView> {
    shown(dir, include_hidden, children).push(parent_entry())
}

/// Where an entry stands among entries of one path: files first, and of two
/// of one kind the one that is not hidden.
pub open spec fn tie_rank(e: EntryView) -> int {
    (if e.kind == EntryKind::Directory {
        2int
    } else {
        0int
    }) + (if e.hidden {
        1int
    } else {
        0int
    })
}

/// The order of a listing: lexicographic by path; entries of one path stand
/// by kind and hidden flag, so that the order is total.
pub open spec fn precedes(a: EntryView, b: EntryView) -> bool {
    if a.path == b.path {
        tie_rank(a) <= tie_rank(b)
    } else {
        path_le(a.path, b.path)
    }
}

/// Whether the entries stand in the order of a listing.
pub open spec fn is_sorted(entries: Seq<EntryView>) -> bool {
    forall|i: int, j: int| 0 <= i < j < entries.len() ==> precedes(entries[i], entries[j])
}

/// Whether `entries` is the listing of `dir` with these children: it holds
/// the candidates, each as often as it occurs among them, sorted by path.
pub open spec fn is_listing(
    entries: Seq<EntryView>,
    dir: Seq<char>,
    include_hidden: bool,
    children: Seq<ChildView>,
) -> bool {
    &&& is_sorted(entries)
    &&& entries.to_multiset() == candidates(dir, include_hidden, children).to_multiset()
}

/// Number of markdown files among the children.
pub open spec fn markdown_files(children: Seq<ChildView>) -> nat {
    children.filter(
        |c: ChildView| c.kind == EntryKind::File && has_markdown_extension(c.name),
    ).len()
}

/// Number of directories among the children.
pub open spec fn directories(children: Seq<ChildView>) -> nat {
    children.filter(|c: ChildView| c.kind == EntryKind::Directory).len()
}

/// Number of hidden directories among the children.
pub open spec fn hidden_directories(children: Seq<ChildView>) -> nat {
    children.filter(
        |c: ChildView| c.kind == EntryKind::Directory && is_hidden_name(c.name),
    ).len()
}

/// The order of a listing is total: reflexive, antisymmetric, transitive,
/// and any two entries stand one way or the other.
pub proof fn lemma_precedes_is_total_order(a: EntryView, b: EntryView, c: EntryView)
    ensures
        precedes(a, a),
        precedes(a, b) && precedes(b, a) ==> a == b,
        precedes(a, b) && precedes(b, c) ==> precedes(a, c),
        precedes(a, b) || precedes(b, a),
{
    lemma_path_le_is_total_order(a.path, b.path, c.path);
    lemma_path_le_is_total_order(b.path, a.path, c.path);
    lemma_path_le_is_total_order(a.path, c.path, b.path);
    lemma_path_le_is_total_order(c.path, a.path, b.path);
    lemma_path_le_is_total_order(b.path, c.path, a.path);
    if precedes(a, b) && precedes(b, a) {
        assert(a.path == b.path);
        assert(a.kind == b.kind);
        assert(a.hidden == b.hidden);
    }
    if precedes(a, b) && precedes(b, c) {
        if a.path == c.path && a.path != b.path {
            assert(path_le(a.path, b.path) && path_le(b.path, a.path));
        }
    }
}

/// A listing holds one entry for each markdown file, one for each directory
/// that is not left out as hidden, and the entry of the parent.
pub proof fn lemma_listing_length(
    entries: Seq<EntryView>,
    dir: Seq<char>,
    include_hidden: bool,
    children: Seq<ChildView>,
)
    requires
        is_listing(entries, dir, include_hidden, children),
    ensures
        hidden_directories(children) <= directories(children),
        !include_hidden ==> entries.len() == markdown_files(children) + (directories(children)
            - hidden_directories(children)) + 1,
        include_hidden ==> entries.len() == markdown_files(children) + directories(children) + 1,
{
    lemma_shown_length(dir, include_hidden, children);
    to_multiset_len(entries);
    to_multiset_len(candidates(dir, include_hidden, children));
}

/// The children that are shown are the markdown files and the directories,
/// less the hidden directories where those are left out.
pub proof fn lemma_shown_length(dir: Seq<char>, include_hidden: bool, children: Seq<ChildView>)
    ensures
        hidden_directories(children) <= directories(children),
        !include_hidden ==> shown(dir, include_hidden, children).len() == markdown_files(children)
            + directories(children) - hidden_directories(children),
        include_hidden ==> shown(dir, include_hidden, children).len() == markdown_files(children)
            + directories(children),
    decreases children.len(),
{
    reveal(Seq::filter);
    if children.len() > 0 {
        lemma_shown_length(dir, include_hidden, children.drop_last());
    }
}

/// Whether the children are what the enumeration of a directory gives: no
/// two of them bear one name, and none is named `..`.
pub open spec fn is_enumeration(children: Seq<ChildView>) -> bool {
    &&& forall|i: int, j: int|
        0 <= i < j < children.len() ==> children[i].name != children[j].name
    &&& forall|i: int| 0 <= i < children.len() ==> (#[trigger] children[i]).name != ".."@
}

/// Of the children of an enumeration, those that are shown give entries
/// that all differ, each the entry of one of the children, and none the
/// entry of the parent.
proof fn lemma_shown_entries_differ(dir: Seq<char>, include_hidden: bool, children: Seq<ChildView>)
    requires
        is_enumeration(children),
    ensures
        shown(dir, include_hidden, children).no_duplicates(),
        forall|k: int|
            0 <= k < shown(dir, include_hidden, children).len() ==> exists|i: int|
                0 <= i < children.len() && #[trigger] shown(dir, include_hidden, children)[k]
                    == entry_of(dir, #[trigger] children[i]),
        !shown(dir, include_hidden, children).contains(parent_entry()),
    decreases children.len(),
{
    reveal(Seq::filter);
    let all = shown(dir, include_hidden, children);
    if children.len() > 0 {
        let rest = children.drop_last();
        let last = children.last();
        let before = shown(dir, include_hidden, rest);
        assert(is_enumeration(rest)) by {
            assert forall|i: int| 0 <= i < rest.len() implies (#[trigger] rest[i]).name != ".."@ by {
                assert(rest[i] == children[i]);
            }
        }
        lemma_shown_entries_differ(dir, include_hidden, rest);
        assert forall|k: int| 0 <= k < before.len() implies exists|i: int|
            0 <= i < children.len() && #[trigger] before[k] == entry_of(
                dir,
                #[trigger] children[i],
            ) by {
            let i = choose|i: int| 0 <= i < rest.len() && before[k] == entry_of(dir, rest[i]);
            assert(rest[i] == children[i]);
        }
        if is_listed(last, include_hidden) {
            assert(all =~= before.push(entry_of(dir, last)));
            assert(children[children.len() - 1] == last);
            assert forall|k: int| 0 <= k < before.len() implies before[k] != entry_of(dir, last) by {
                let i = choose|i: int| 0 <= i < rest.len() && before[k] == entry_of(dir, rest[i]);
                assert(rest[i] == children[i]);
                if joined(dir, rest[i].name) == joined(dir, last.name) {
                    lemma_joined_is_injective(dir, rest[i].name, last.name);
                }
            }
            assert(entry_of(dir, last) != parent_entry()) by {
                if dir.len() > 0 {
                    lemma_joined_is_not_the_parent(dir, last.name);
                }
            }
            assert(all.no_duplicates());
            assert forall|k: int| 0 <= k < all.len() implies exists|i: int|
                0 <= i < children.len() && #[trigger] all[k] == entry_of(
                    dir,
                    #[trigger] children[i],
                ) by {
                if k < before.len() {
                    assert(all[k] == before[k]);
                }
            }
            assert(!all.contains(parent_entry())) by {
                if all.contains(parent_entry()) {
                    let k = choose|k: int| 0 <= k < all.len() && all[k] == parent_entry();
                    if k < before.len() {
                        assert(before[k] == parent_entry());
                        assert(before.contains(parent_entry()));
                    }
                }
            }
        } else {
            assert(all =~= before);
        }
    }
}

/// The listing of an enumeration shows no entry twice.
pub proof fn lemma_listing_has_no_repeats(
    entries: Seq<EntryView>,
    dir: Seq<char>,
    include_hidden: bool,
    children: Seq<ChildView>,
)
    requires
        is_listing(entries, dir, include_hidden, children),
        is_enumeration(children),
    ensures
        entries.no_duplicates(),
{
    lemma_shown_entries_differ(dir, include_hidden, children);
    let before = shown(dir, include_hidden, children);
    let all = candidates(dir, include_hidden, children);
    assert(all.no_duplicates()) by {
        assert forall|i: int, j: int|
            0 <= i < all.len() && 0 <= j < all.len() && i != j implies all[i] != all[j] by {
            if i < before.len() && j < before.len() {
                assert(all[i] == before[i] && all[j] == before[j]);
            } else if i < before.len() {
                assert(all[i] == before[i]);
                assert(before.contains(before[i]));
            } else {
                assert(all[j] == before[j]);
                assert(before.contains(before[j]));
            }
        }
    }
    all.lemma_multiset_has_no_duplicates();
    entries.lemma_multiset_has_no_duplicates_conv();
}

/// Two listings of one directory with the same children are the same
/// listing.
pub proof fn lemma_listing_is_unique(
    first: Seq<EntryView>,
    second: Seq<EntryView>,
    dir: Seq<char>,
    include_hidden: bool,
    children: Seq<ChildView>,
)
    requires
        is_listing(first, dir, include_hidden, children),
        is_listing(second, dir, include_hidden, children),
    ensures
        first == second,
{
    let leq = |a: EntryView, b: EntryView| precedes(a, b);
    assert(vstd::relations::total_ordering(leq)) by {
        assert(vstd::relations::reflexive(leq)) by {
            assert forall|a: EntryView| #[trigger] leq(a, a) by {
                lemma_precedes_is_total_order(a, a, a);
            }
        }
        assert(vstd::relations::antisymmetric(leq)) by {
            assert forall|a: EntryView, b: EntryView| #[trigger]
                leq(a, b) && #[trigger] leq(b, a) implies a == b by {
                lemma_precedes_is_total_order(a, b, a);
            }
        }
        assert(vstd::relations::transitive(leq)) by {
            assert forall|a: EntryView, b: EntryView, c: EntryView| #[trigger]
                leq(a, b) && #[trigger] leq(b, c) implies leq(a, c) by {
                lemma_precedes_is_total_order(a, b, c);
            }
        }
        assert(vstd::relations::strongly_connected(leq)) by {
            assert forall|a: EntryView, b: EntryView| #[trigger] leq(a, b) || #[trigger] leq(b, a) by {
                lemma_precedes_is_total_order(a, b, a);
            }
        }
    }
    assert(vstd::relations::sorted_by(first, leq));
    assert(vstd::relations::sorted_by(second, leq));
    vstd::seq_lib::lemma_sorted_unique(first, second, leq);
}

impl DirectoryEntry {
    /// The entry that stands for the child `name` of `dir`.
    pub fn new(dir: &str, name: &str, kind: EntryKind) -> (e: DirectoryEntry)
        ensures
            e@ == entry_of(dir@, ChildView { name: name@, kind }),
    {
        DirectoryEntry { path: join(dir, name), kind, hidden: hidden_name(name) }
    }

    /// The entry `..` that leads to the parent directory.
    pub fn parent() -> (e: DirectoryEntry)
        ensures
            e@ == parent_entry(),
    {
        DirectoryEntry { path: String::from_str(".."), kind: EntryKind::Directory, hidden: false }
    }

    /// Whether this is the entry that leads to the parent directory.
    pub fn is_parent(&self) -> (r: bool)
        ensures
            r == (self@.path == parent_entry().path),
    {
        crate::text::same_text(self.path.as_str(), "..")
    }

    /// Whether this entry stands before `other` in a listing, or at its
    /// place.
    pub fn comes_before(&self, other: &DirectoryEntry) -> (r: bool)
        ensures
            r == precedes(self@, other@),
    {
        proof {
            lemma_path_le_is_total_order(self@.path, other@.path, self@.path);
        }
        match rank_paths(self.path.as_str(), other.path.as_str()) {
            Rank::Before => true,
            Rank::After => false,
            Rank::Same => self.tie() <= other.tie(),
        }
    }

    fn tie(&self) -> (r: u8)
        ensures
            r == tie_rank(self@),
    {
        let by_kind: u8 = match self.kind {
            EntryKind::Directory => 2,
            EntryKind::File => 0,
        };
        if self.hidden {
            by_kind + 1
        } else {
            by_kind
        }
    }
}

impl DirChild {
    /// A child with this name and kind.
    pub fn new(name: String, kind: EntryKind) -> (c: DirChild)
        ensures
            c@ == (ChildView { name: name@, kind }),
    {
        DirChild { name, kind }
    }

    /// Whether the child is shown in a listing.
    pub fn is_listed(&self, include_hidden: bool) -> (r: bool)
        ensures
            r == is_listed(self@, include_hidden),
    {
        match self.kind {
            EntryKind::File => markdown_extension(self.name.as_str()),
            EntryKind::Directory => include_hidden || !hidden_name(self.name.as_str()),
        }
    }
}

/// Puts `entry` into the sorted `list` at its place.
fn insert_sorted(list: &mut Vec<DirectoryEntry>, entry: DirectoryEntry)
    requires
        is_sorted(old(list).deep_view()),
    ensures
        is_sorted(final(list).deep_view()),
        final(list).deep_view().to_multiset() == old(list).deep_view().to_multiset().insert(entry@),
        final(list).len() == old(list).len() + 1,
{
    let ghost before = list.deep_view();
    let mut at: usize = 0;
    while at < list.len() && list[at].comes_before(&entry)
        invariant
            at <= list.len(),
            list.deep_view() == before,
            forall|k: int| 0 <= k < at ==> precedes(#[trigger] before[k], entry@),
        decreases list.len() - at,
    {
        assert(before[at as int] == list[at as int]@);
        at += 1;
    }
    proof {
        if at < list.len() {
            assert(before[at as int] == list[at as int]@);
            assert(!precedes(before[at as int], entry@));
        }
        assert forall|k: int| at <= k < before.len() implies precedes(entry@, #[trigger] before[k]) by {
            lemma_precedes_is_total_order(entry@, before[at as int], before[k]);
            lemma_precedes_is_total_order(before[at as int], entry@, before[k]);
        }
    }
    list.insert(at, entry);
    proof {
        let after = list.deep_view();
        assert(after =~= before.insert(at as int, entry@));
        to_multiset_insert(before, at as int, entry@);
        assert forall|i: int, j: int| 0 <= i < j < after.len() implies precedes(
            after[i],
            after[j],
        ) by {
            let x = if i < at {
                i
            } else {
                i - 1
            };
            let y = if j < at {
                j
            } else {
                j - 1
            };
            if i != at && j != at {
                assert(after[i] == before[x]);
                assert(after[j] == before[y]);
            } else if i == at {
                assert(after[j] == before[y]);
            } else {
                assert(after[i] == before[x]);
            }
        }
    }
}

/// The listing of the directory `dir`, of which the host found `children`,
/// where a leading tilde in `dir` stands for the home directory of the
/// user.
///
/// The tilde is expanded first; what the expansion gives is not fixed by
/// the text alone, so the listing is stated for whatever it gave. Of the
/// expanded directory the listing is the one that `list` gives. A
/// directory without a tilde prefix is taken as it is.
pub fn files_in_dir(dir: &str, include_hidden_dirs: bool, children: &Vec<DirChild>) -> (listing:
    Vec<DirectoryEntry>)
    ensures
        exists|expanded: Seq<char>| #[trigger]
            may_expand_to(dir@, expanded) && is_listing(
                listing.deep_view(),
                expanded,
                include_hidden_dirs,
                children.deep_view(),
            ),
        !has_tilde_prefix(dir@) ==> is_listing(
            listing.deep_view(),
            dir@,
            include_hidden_dirs,
            children.deep_view(),
        ),
        !include_hidden_dirs ==> listing.len() == markdown_files(children.deep_view()) + (
        directories(children.deep_view()) - hidden_directories(children.deep_view())) + 1,
        include_hidden_dirs ==> listing.len() == markdown_files(children.deep_view())
            + directories(children.deep_view()) + 1,
{
    let expanded = expand_tilde(dir);
    assert(may_expand_to(dir@, expanded@));
    list(expanded.as_str(), include_hidden_dirs, children)
}

/// The listing of the directory `dir`, taken as it is written, of which
/// the host found `children`.
///
/// It holds the markdown files and the directories among the children,
/// without the hidden directories unless `include_hidden_dirs` is set, and
/// the entry `..`; it is sorted lexicographically by path.
pub fn list(dir: &str, include_hidden_dirs: bool, children: &Vec<DirChild>) -> (listing: Vec<
    DirectoryEntry,
>)
    ensures
        is_listing(listing.deep_view(), dir@, include_hidden_dirs, children.deep_view()),
        !include_hidden_dirs ==> listing.len() == markdown_files(children.deep_view()) + (
        directories(children.deep_view()) - hidden_directories(children.deep_view())) + 1,
        include_hidden_dirs ==> listing.len() == markdown_files(children.deep_view())
            + directories(children.deep_view()) + 1,
{
    let ghost all = children.deep_view();
    let mut listing: Vec<DirectoryEntry> = Vec::new();
    let mut i: usize = 0;
    proof {
        assert(all.take(0) =~= Seq::<ChildView>::empty());
        assert(shown(dir@, include_hidden_dirs, all.take(0)) =~= Seq::<EntryView>::empty()) by {
            reveal(Seq::filter);
        }
        assert(listing.deep_view() =~= Seq::<EntryView>::empty());
    }
    while i < children.len()
        invariant
            i <= children.len(),
            all == children.deep_view(),
            is_sorted(listing.deep_view()),
            listing.deep_view().to_multiset() == shown(
                dir@,
                include_hidden_dirs,
                all.take(i as int),
            ).to_multiset(),
        decreases children.len() - i,
    {
        let child = &children[i];
        proof {
            let done = all.take(i as int);
            assert(all[i as int] == child@);
            assert(all.take(i + 1) =~= done.push(child@));
            done.lemma_filter_push(child@, listed(include_hidden_dirs));
            if is_listed(child@, include_hidden_dirs) {
                let kept = done.filter(listed(include_hidden_dirs));
                assert(kept.push(child@).map_values(to_entry(dir@)) =~= kept.map_values(
                    to_entry(dir@),
                ).push(entry_of(dir@, child@)));
                to_multiset_build(kept.map_values(to_entry(dir@)), entry_of(dir@, child@));
            }
        }
        if child.is_listed(include_hidden_dirs) {
            let entry = DirectoryEntry::new(dir, child.name.as_str(), child.kind);
            insert_sorted(&mut listing, entry);
        }
        i += 1;
    }
    proof {
        assert(all.take(children.len() as int) =~= all);
        to_multiset_build(shown(dir@, include_hidden_dirs, all), parent_entry());
    }
    insert_sorted(&mut listing, DirectoryEntry::parent());
    proof {
        lemma_listing_length(listing.deep_view(), dir@, include_hidden_dirs, all);
    }
    listing
}

/// The navigator's state: the current directory and its cached listing.
///
/// The listing always belongs to the directory held beside it: the two are
/// replaced together or not at all.
pub struct FilesManager {
    current_dir: String,
    files: Vec<DirectoryEntry>,
    include_hidden_dirs: bool,
    source: Ghost<Seq<ChildView>>,
}

/// The mathematical value of a [`FilesManager`].
pub ghost struct FilesView {
    /// The directory that is shown.
    pub current_dir: Seq<char>,
    /// The listing that is shown.
    pub files: Seq<EntryView>,
    /// Whether hidden directories are shown.
    pub include_hidden_dirs: bool,
    /// The children that the host found when the directory was last read.
    pub source: Seq<ChildView>,
}

impl FilesView {
    /// The cached listing is the listing of the current directory, made of
    /// the children found at the last refresh.
    pub open spec fn wf(self) -> bool {
        is_listing(self.files, self.current_dir, self.include_hidden_dirs, self.source)
    }

    /// Whether this navigator shows the directory written as `dir`, with a
    /// listing made of `children`, and otherwise agrees with `before`: its
    /// directory is what the expansion of a leading tilde in `dir` gave,
    /// and `dir` itself where it has no tilde prefix.
    pub open spec fn shows(self, before: FilesView, dir: Seq<char>, children: Seq<ChildView>) -> bool {
        &&& may_expand_to(dir, self.current_dir)
        &&& self.source == children
        &&& self.include_hidden_dirs == before.include_hidden_dirs
        &&& self.wf()
    }
}

impl View for FilesManager {
    type V = FilesView;

    closed spec fn view(&self) -> FilesView {
        FilesView {
            current_dir: self.current_dir@,
            files: self.files.deep_view(),
            include_hidden_dirs: self.include_hidden_dirs,
            source: self.source@,
        }
    }
}

impl FilesManager {
    #[verifier::type_invariant]
    spec fn inv(self) -> bool {
        self@.wf()
    }

    /// A navigator that shows the directory written as `current_dir`, of
    /// which the host found `children`.
    ///
    /// A leading tilde in `current_dir` is expanded; the navigator keeps
    /// the expanded directory and builds the paths of the listing from it.
    pub fn new(current_dir: String, include_hidden_dirs: bool, children: Vec<DirChild>) -> (m:
        FilesManager)
        ensures
            may_expand_to(current_dir@, m@.current_dir),
            !has_tilde_prefix(current_dir@) ==> m@.current_dir == current_dir@,
            m@.include_hidden_dirs == include_hidden_dirs,
            m@.source == children.deep_view(),
            m@.wf(),
    {
        let current_dir = expand_tilde(current_dir.as_str());
        let files = list(current_dir.as_str(), include_hidden_dirs, &children);
        FilesManager {
            current_dir,
            files,
            include_hidden_dirs,
            source: Ghost(children.deep_view()),
        }
    }

    /// Takes the outcome of reading the directory written as `dir`.
    ///
    /// Where the host found `children`, the navigator shows the directory
    /// with its listing: a leading tilde in `dir` is expanded, and the
    /// expanded directory and the listing built from it take the place of
    /// the old ones together. Where reading failed, the failure is handed
    /// on and the navigator keeps the directory and the listing it had.
    pub fn update_current_dir(&mut self, dir: String, children: Result<Vec<DirChild>, String>) -> (r:
        MdResult<()>)
        ensures
            final(self)@.wf(),
            match children {
                Ok(found) => r is Ok && final(self)@.shows(old(self)@, dir@, found.deep_view()) && (
                !has_tilde_prefix(dir@) ==> final(self)@.current_dir == dir@),
                Err(reason) => r matches Err(e) && e@ == crate::error::MdErrorView::Io(reason@)
                    && final(self)@ == old(self)@,
            },
    {
        proof {
            use_type_invariant(&*self);
        }
        match children {
            Ok(found) => {
                let dir = expand_tilde(dir.as_str());
                let files = list(dir.as_str(), self.include_hidden_dirs, &found);
                *self = FilesManager {
                    current_dir: dir,
                    files,
                    include_hidden_dirs: self.include_hidden_dirs,
                    source: Ghost(found.deep_view()),
                };
                Ok(())
            },
            Err(reason) => Err(MdError::Io(reason)),
        }
    }

    /// The directory that is shown.
    pub fn current_dir(&self) -> (d: &str)
        ensures
            d@ == self@.current_dir,
    {
        self.current_dir.as_str()
    }

    /// Whether hidden directories are shown.
    pub fn include_hidden_dirs(&self) -> (b: bool)
        ensures
            b == self@.include_hidden_dirs,
    {
        self.include_hidden_dirs
    }

    /// The listing that is shown.
    pub fn files(&self) -> (l: &Vec<DirectoryEntry>)
        ensures
            l.deep_view() == self@.files,
            self@.wf(),
    {
        proof {
            use_type_invariant(self);
        }
        &self.files
    }

    /// Number of entries in the listing: one for each markdown file, one for
    /// each directory that is shown, and one for the parent.
    pub fn len(&self) -> (n: usize)
        ensures
            n == self@.files.len(),
            n >= 1,
            !self@.include_hidden_dirs ==> n == markdown_files(self@.source) + (directories(
                self@.source,
            ) - hidden_directories(self@.source)) + 1,
            self@.include_hidden_dirs ==> n == markdown_files(self@.source) + directories(
                self@.source,
            ) + 1,
    {
        proof {
            use_type_invariant(self);
            lemma_listing_length(
                self@.files,
                self@.current_dir,
                self@.include_hidden_dirs,
                self@.source,
            );
        }
        self.files.len()
    }

    /// The entry at position `index` of the listing, if there is one.
    pub fn entry(&self, index: usize) -> (e: Option<&DirectoryEntry>)
        ensures
            index < self@.files.len() ==> (e matches Some(found) && found@
                == self@.files[index as int]),
            index >= self@.files.len() ==> e is None,
    {
        if index < self.files.len() {
            assert(self.files.deep_view()[index as int] == self.files[index as int]@);
            Some(&self.files[index])
        } else {
            None
        }
    }
}

/// Showing a directory twice in a row, with the same children found both
/// times, gives the same listing both times, and the same navigator.
///
/// For a directory written with a tilde prefix this holds as long as the
/// tilde stood for the same home directory both times.
pub proof fn lemma_change_directory_is_idempotent(
    before: FilesView,
    first: FilesView,
    second: FilesView,
    dir: Seq<char>,
    children: Seq<ChildView>,
)
    requires
        first.shows(before, dir, children),
        second.shows(first, dir, children),
        has_tilde_prefix(dir) ==> second.current_dir == first.current_dir,
    ensures
        second.files == first.files,
        second == first,
{
    lemma_listing_is_unique(
        first.files,
        second.files,
        first.current_dir,
        first.include_hidden_dirs,
        children,
    );
}

} // verus!
