//! Clipboard content model, change detection, and the in-memory history of
//! clipboard entries.
//!
//! Reading and writing the platform clipboard is the embedding application's
//! business; this module owns what the application then reasons about: what
//! content is, when it counts as changed, and how the bounded,
//! duplicate-free history evolves.

use vstd::prelude::*;
use crate::errors::Error;
use crate::support;
use crate::text::{str_eq, string_seqs_eq, seq_contains_string};

verus! {

/// One piece of clipboard content.
#[derive(Debug)]
pub enum ClipboardContent {
    /// Plain text.
    Text(String),
    /// Raw image bytes.
    Image(Vec<u8>),
    /// A list of file paths.
    Files(Vec<String>),
    /// Nothing.
    Empty,
}

/// Whether two pieces of content read the same: same kind and same payload.
pub open spec fn content_eq_spec(a: ClipboardContent, b: ClipboardContent) -> bool {
    match (a, b) {
        (ClipboardContent::Text(x), ClipboardContent::Text(y)) => x@ == y@,
        (ClipboardContent::Image(x), ClipboardContent::Image(y)) => x@ == y@,
        (ClipboardContent::Files(x), ClipboardContent::Files(y)) => string_seqs_eq(x@, y@),
        (ClipboardContent::Empty, ClipboardContent::Empty) => true,
        _ => false,
    }
}

impl PartialEq for ClipboardContent {
    fn eq(&self, other: &Self) -> (r: bool) {
        match (self, other) {
            (ClipboardContent::Text(x), ClipboardContent::Text(y)) => str_eq(
                x.as_str(),
                y.as_str(),
            ),
            (ClipboardContent::Image(x), ClipboardContent::Image(y)) => crate::text::bytes_eq(
                x,
                y,
            ),
            (ClipboardContent::Files(x), ClipboardContent::Files(y)) => crate::text::string_vecs_eq(
                x,
                y,
            ),
            (ClipboardContent::Empty, ClipboardContent::Empty) => true,
            _ => false,
        }
    }
}

impl vstd::std_specs::cmp::PartialEqSpecImpl for ClipboardContent {
    open spec fn obeys_eq_spec() -> bool {
        true
    }

    open spec fn eq_spec(&self, other: &Self) -> bool {
        content_eq_spec(*self, *other)
    }
}

impl Clone for ClipboardContent {
    fn clone(&self) -> (r: Self)
        ensures
            content_eq_spec(r, *self),
    {
        match self {
            ClipboardContent::Text(x) => ClipboardContent::Text(x.clone()),
            ClipboardContent::Image(x) => ClipboardContent::Image(crate::text::clone_bytes(x)),
            ClipboardContent::Files(x) => ClipboardContent::Files(
                crate::text::clone_string_vec(x),
            ),
            ClipboardContent::Empty => ClipboardContent::Empty,
        }
    }
}

/// A clipboard change, as handed to the embedding application.
#[derive(Debug, Clone)]
pub struct ClipboardEvent {
    /// The content now on the clipboard.
    pub content: ClipboardContent,
    /// Milliseconds since the epoch when the change was seen.
    pub timestamp: u64,
}

/// Whether the current content differs from the last seen one.  With no
/// last content everything counts as changed; otherwise content of another
/// kind or with another payload counts as changed.
pub fn content_changed(last: &Option<ClipboardContent>, current: &ClipboardContent) -> (r: bool)
    ensures
        r == (match last {
            Some(l) => !content_eq_spec(*l, *current),
            None => true,
        }),
{
    match last {
        Some(l) => !(l == current),
        None => true,
    }
}

/// One entry of the clipboard history.
#[derive(Debug)]
pub struct HistoryEntry {
    /// Identifier of the entry.
    pub id: String,
    /// The content.
    pub content: ClipboardContent,
    /// Milliseconds since the epoch when the entry was made.
    pub timestamp: u64,
    /// Tags the user attached.
    pub tags: Vec<String>,
    /// Whether the user marked the entry a favorite.
    pub is_favorite: bool,
}

/// Whether two entries read the same, field by field.
pub open spec fn entry_matches(a: HistoryEntry, b: HistoryEntry) -> bool {
    &&& a.id@ == b.id@
    &&& content_eq_spec(a.content, b.content)
    &&& a.timestamp == b.timestamp
    &&& string_seqs_eq(a.tags@, b.tags@)
    &&& a.is_favorite == b.is_favorite
}

/// Whether an entry carries the tag.
pub open spec fn entry_has_tag(e: HistoryEntry, tag: Seq<char>) -> bool {
    seq_contains_string(e.tags@, tag)
}

impl Clone for HistoryEntry {
    fn clone(&self) -> (r: Self)
        ensures
            entry_matches(r, *self),
    {
        HistoryEntry {
            id: self.id.clone(),
            content: self.content.clone(),
            timestamp: self.timestamp,
            tags: crate::text::clone_string_vec(&self.tags),
            is_favorite: self.is_favorite,
        }
    }
}

impl HistoryEntry {
    /// Fresh entry with a random identifier, stamped with the current time,
    /// untagged and not a favorite.
    pub fn new(content: ClipboardContent) -> (r: Self)
        ensures
            r.id@.len() == 36,
            r.content == content,
            r.tags@.len() == 0,
            r.is_favorite == false,
    {
        HistoryEntry {
            id: support::new_uuid_string(),
            content,
            timestamp: support::now_unix_millis(),
            tags: Vec::new(),
            is_favorite: false,
        }
    }

    /// Attaches a tag unless the entry already carries it.
    pub fn add_tag(&mut self, tag: &str)
        ensures
            entry_has_tag(*old(self), tag@) ==> final(self).tags == old(self).tags,
            !entry_has_tag(*old(self), tag@) ==> {
                &&& final(self).tags@.len() == old(self).tags@.len() + 1
                &&& (forall|j: int|
                    0 <= j < old(self).tags@.len() ==> final(self).tags@[j] == old(self).tags@[j])
                &&& final(self).tags@[old(self).tags@.len() as int]@ == tag@
            },
            final(self).id == old(self).id,
            final(self).content == old(self).content,
            final(self).timestamp == old(self).timestamp,
            final(self).is_favorite == old(self).is_favorite,
    {
        if !crate::text::vec_contains_string(&self.tags, tag) {
            self.tags.push(tag.to_owned());
        }
    }

    /// Detaches every occurrence of the tag.
    pub fn remove_tag(&mut self, tag: &str)
        ensures
            final(self).tags@ == old(self).tags@.filter(|t: String| t@ != tag@),
            final(self).id == old(self).id,
            final(self).content == old(self).content,
            final(self).timestamp == old(self).timestamp,
            final(self).is_favorite == old(self).is_favorite,
    {
        let kept = filter_tags(&self.tags, tag);
        self.tags = kept;
    }

    /// Flips the favorite mark.
    pub fn toggle_favorite(&mut self)
        ensures
            final(self).is_favorite == !old(self).is_favorite,
            final(self).id == old(self).id,
            final(self).content == old(self).content,
            final(self).timestamp == old(self).timestamp,
            final(self).tags == old(self).tags,
    {
        self.is_favorite = !self.is_favorite;
    }
}

/// Unfolds one step of filtering a prefix of a sequence.
proof fn lemma_filter_extend<A>(s: Seq<A>, pred: spec_fn(A) -> bool, i: int)
    requires
        0 <= i < s.len(),
    ensures
        pred(s[i]) ==> s.subrange(0, i + 1).filter(pred) == s.subrange(0, i).filter(pred).push(
            s[i],
        ),
        !pred(s[i]) ==> s.subrange(0, i + 1).filter(pred) == s.subrange(0, i).filter(pred),
{
    reveal(Seq::filter);
    let t = s.subrange(0, i + 1);
    assert(t.drop_last() =~= s.subrange(0, i));
    assert(t.last() == s[i]);
}

/// A sequence is the full prefix of itself.
proof fn lemma_full_subrange<A>(s: Seq<A>)
    ensures
        s.subrange(0, s.len() as int) == s,
{
    assert(s.subrange(0, s.len() as int) =~= s);
}

/// Filtering the empty prefix gives the empty sequence.
proof fn lemma_filter_empty<A>(s: Seq<A>, pred: spec_fn(A) -> bool)
    ensures
        s.subrange(0, 0).filter(pred) == Seq::<A>::empty(),
{
    reveal(Seq::filter);
    assert(s.subrange(0, 0) =~= Seq::<A>::empty());
}

/// The tags of `v` that do not read `tag`, in order.
fn filter_tags(v: &Vec<String>, tag: &str) -> (r: Vec<String>)
    ensures
        r@ == v@.filter(|t: String| t@ != tag@),
{
    let n = v.len();
    let mut kept: Vec<String> = Vec::new();
    let mut i: usize = 0;
    proof {
        lemma_filter_empty(v@, |t: String| t@ != tag@);
    }
    while i < n
        invariant
            n == v@.len(),
            i <= n,
            kept@ == v@.subrange(0, i as int).filter(|t: String| t@ != tag@),
        decreases n - i,
    {
        proof {
            lemma_filter_extend(v@, |t: String| t@ != tag@, i as int);
        }
        if !str_eq(v[i].as_str(), tag) {
            kept.push(v[i].clone());
        }
        i = i + 1;
    }
    proof {
        lemma_full_subrange(v@);
    }
    kept
}

/// The bounded, duplicate-free clipboard history, newest entry first.
pub struct ClipboardHistory {
    entries: Vec<HistoryEntry>,
    max_entries: usize,
    persistence_enabled: bool,
}

impl ClipboardHistory {
    /// The entries, newest first, for contracts.
    pub closed spec fn entries_view(self) -> Seq<HistoryEntry> {
        self.entries@
    }

    /// The largest number of entries kept.
    pub closed spec fn capacity(self) -> nat {
        self.max_entries as nat
    }

    /// Whether a persistence collaborator is attached.
    pub closed spec fn persistent(self) -> bool {
        self.persistence_enabled
    }

    /// Whether the history holds an entry reading like `content`.
    pub open spec fn has_content(self, content: ClipboardContent) -> bool {
        exists|i: int|
            0 <= i < self.entries_view().len() && content_eq_spec(
                (#[trigger] self.entries_view()[i]).content,
                content,
            )
    }

    /// Whether the history holds an entry with the identifier.
    pub open spec fn has_id(self, id: Seq<char>) -> bool {
        exists|i: int|
            0 <= i < self.entries_view().len() && (#[trigger] self.entries_view()[i]).id@ == id
    }

    /// Fresh empty history keeping at most `max_entries` entries.  Loading
    /// persisted entries is the storage collaborator's business.
    pub fn new(max_entries: usize, persistence_enabled: bool) -> (r: Self)
        ensures
            r.entries_view().len() == 0,
            r.capacity() == max_entries,
            r.persistent() == persistence_enabled,
    {
        ClipboardHistory { entries: Vec::new(), max_entries, persistence_enabled }
    }

    /// Records content at the front of the history.  Empty content and
    /// content already present are ignored; otherwise the oldest entries
    /// fall off the back once the history is over capacity.
    pub fn add(&mut self, content: ClipboardContent) -> (r: Result<(), Error>)
        ensures
            r is Ok,
            final(self).capacity() == old(self).capacity(),
            final(self).persistent() == old(self).persistent(),
            (content matches ClipboardContent::Empty) ==> final(self).entries_view() == old(self).entries_view(),
            !(content matches ClipboardContent::Empty) && old(self).has_content(content) ==> final(self).entries_view() == old(self).entries_view(),
            !(content matches ClipboardContent::Empty) && !old(self).has_content(content) ==> {
                let kept: int = if old(self).entries_view().len() + 1 <= old(self).capacity() {
                    old(self).entries_view().len() as int + 1
                } else {
                    old(self).capacity() as int
                };
                &&& final(self).entries_view().len() == kept
                &&& (kept > 0 ==> content_eq_spec(final(self).entries_view()[0].content, content)
                    && final(self).entries_view()[0].tags@.len() == 0 && final(self).entries_view()[0].is_favorite == false)
                &&& (forall|j: int|
                    1 <= j < kept ==> final(self).entries_view()[j] == old(self).entries_view()[j
                        - 1])
            },
    {
        if let ClipboardContent::Empty = content {
            return Ok(());
        }
        let n = self.entries.len();
        let mut i: usize = 0;
        while i < n
            invariant
                *self == *old(self),
                n == self.entries@.len(),
                i <= n,
                forall|j: int|
                    0 <= j < i ==> !content_eq_spec(
                        (#[trigger] self.entries@[j]).content,
                        content,
                    ),
            decreases n - i,
        {
            if &self.entries[i].content == &content {
                return Ok(());
            }
            i = i + 1;
        }
        let entry = HistoryEntry::new(content);
        self.entries.insert(0, entry);
        let ghost inserted = self.entries@;
        while self.entries.len() > self.max_entries
            invariant
                self.max_entries == old(self).max_entries,
                self.persistence_enabled == old(self).persistence_enabled,
                self.entries@ == inserted.subrange(0, self.entries@.len() as int),
                self.entries@.len() <= inserted.len(),
                self.entries@.len() >= self.max_entries || self.entries@ == inserted,
            decreases self.entries@.len(),
        {
            proof {
                assert(inserted.subrange(0, self.entries@.len() as int).drop_last()
                    =~= inserted.subrange(0, self.entries@.len() - 1));
            }
            self.entries.pop();
        }
        proof {
            lemma_full_subrange(inserted);
        }
        Ok(())
    }

    /// Every entry, newest first, as copies.
    pub fn get_all(&self) -> (r: Result<Vec<HistoryEntry>, Error>)
        ensures
            r matches Ok(v) && v@.len() == self.entries_view().len() && (forall|i: int|
                0 <= i < v@.len() ==> entry_matches(
                    #[trigger] v@[i],
                    self.entries_view()[i],
                )),
    {
        let n = self.entries.len();
        let mut out: Vec<HistoryEntry> = Vec::new();
        let mut i: usize = 0;
        while i < n
            invariant
                n == self.entries@.len(),
                i <= n,
                out@.len() == i,
                forall|j: int| 0 <= j < i ==> entry_matches(#[trigger] out@[j], self.entries@[j]),
            decreases n - i,
        {
            out.push(self.entries[i].clone());
            i = i + 1;
        }
        Ok(out)
    }

    /// The entries carrying the tag, newest first, as copies.
    pub fn get_by_tag(&self, tag: &str) -> (r: Result<Vec<HistoryEntry>, Error>)
        ensures
            r matches Ok(v) && {
                let expected = self.entries_view().filter(
                    |e: HistoryEntry| entry_has_tag(e, tag@),
                );
                v@.len() == expected.len() && (forall|i: int|
                    0 <= i < v@.len() ==> entry_matches(#[trigger] v@[i], expected[i]))
            },
    {
        let n = self.entries.len();
        let mut out: Vec<HistoryEntry> = Vec::new();
        let mut i: usize = 0;
        proof {
            lemma_filter_empty(self.entries@, |e: HistoryEntry| entry_has_tag(e, tag@));
        }
        while i < n
            invariant
                n == self.entries@.len(),
                i <= n,
                ({
                    let expected = self.entries@.subrange(0, i as int).filter(
                        |e: HistoryEntry| entry_has_tag(e, tag@),
                    );
                    out@.len() == expected.len() && (forall|j: int|
                        0 <= j < out@.len() ==> entry_matches(#[trigger] out@[j], expected[j]))
                }),
            decreases n - i,
        {
            proof {
                lemma_filter_extend(self.entries@, |e: HistoryEntry| entry_has_tag(e, tag@), i as int);
            }
            if crate::text::vec_contains_string(&self.entries[i].tags, tag) {
                out.push(self.entries[i].clone());
            }
            i = i + 1;
        }
        proof {
            lemma_full_subrange(self.entries@);
        }
        Ok(out)
    }

    /// The favorite entries, newest first, as copies.
    pub fn get_favorites(&self) -> (r: Result<Vec<HistoryEntry>, Error>)
        ensures
            r matches Ok(v) && {
                let expected = self.entries_view().filter(|e: HistoryEntry| e.is_favorite);
                v@.len() == expected.len() && (forall|i: int|
                    0 <= i < v@.len() ==> entry_matches(#[trigger] v@[i], expected[i]))
            },
    {
        let n = self.entries.len();
        let mut out: Vec<HistoryEntry> = Vec::new();
        let mut i: usize = 0;
        proof {
            lemma_filter_empty(self.entries@, |e: HistoryEntry| e.is_favorite);
        }
        while i < n
            invariant
                n == self.entries@.len(),
                i <= n,
                ({
                    let expected = self.entries@.subrange(0, i as int).filter(
                        |e: HistoryEntry| e.is_favorite,
                    );
                    out@.len() == expected.len() && (forall|j: int|
                        0 <= j < out@.len() ==> entry_matches(#[trigger] out@[j], expected[j]))
                }),
            decreases n - i,
        {
            proof {
                lemma_filter_extend(self.entries@, |e: HistoryEntry| e.is_favorite, i as int);
            }
            if self.entries[i].is_favorite {
                out.push(self.entries[i].clone());
            }
            i = i + 1;
        }
        proof {
            lemma_full_subrange(self.entries@);
        }
        Ok(out)
    }

    /// A copy of the first entry with the identifier, if any.
    pub fn find_by_id(&self, id: &str) -> (r: Result<Option<HistoryEntry>, Error>)
        ensures
            (match r {
                Ok(Some(e)) => exists|i: int|
                    {
                        &&& 0 <= i < self.entries_view().len()
                        &&& (#[trigger] self.entries_view()[i]).id@ == id@
                        &&& (forall|j: int| 0 <= j < i ==> self.entries_view()[j].id@ != id@)
                        &&& entry_matches(e, self.entries_view()[i])
                    },
                Ok(None) => forall|i: int|
                    0 <= i < self.entries_view().len() ==> (#[trigger] self.entries_view()[i]).id@
                        != id@,
                Err(_) => false,
            }),
    {
        let n = self.entries.len();
        let mut i: usize = 0;
        while i < n
            invariant
                n == self.entries@.len(),
                i <= n,
                forall|j: int| 0 <= j < i ==> (#[trigger] self.entries@[j]).id@ != id@,
            decreases n - i,
        {
            if str_eq(self.entries[i].id.as_str(), id) {
                return Ok(Some(self.entries[i].clone()));
            }
            i = i + 1;
        }
        Ok(None)
    }

    /// Removes every entry with the identifier; reports whether any entry
    /// was removed.
    pub fn remove(&mut self, id: &str) -> (r: Result<bool, Error>)
        ensures
            final(self).entries_view() == old(self).entries_view().filter(
                |e: HistoryEntry| e.id@ != id@,
            ),
            r matches Ok(b) && b == old(self).has_id(id@),
            final(self).capacity() == old(self).capacity(),
            final(self).persistent() == old(self).persistent(),
    {
        let ghost olds = self.entries@;
        let n = self.entries.len();
        let mut kept: Vec<HistoryEntry> = Vec::new();
        let mut found = false;
        let mut i: usize = 0;
        proof {
            lemma_filter_empty(olds, |e: HistoryEntry| e.id@ != id@);
            assert(self.entries@ =~= olds.subrange(0, n as int));
        }
        while i < n
            invariant
                n == olds.len(),
                i <= n,
                self.entries@ == olds.subrange(i as int, n as int),
                self.max_entries == old(self).max_entries,
                self.persistence_enabled == old(self).persistence_enabled,
                kept@ == olds.subrange(0, i as int).filter(|e: HistoryEntry| e.id@ != id@),
                found == exists|j: int| 0 <= j < i && (#[trigger] olds[j]).id@ == id@,
            decreases n - i,
        {
            proof {
                lemma_filter_extend(olds, |e: HistoryEntry| e.id@ != id@, i as int);
            }
            let e = self.entries.remove(0);
            proof {
                assert(e == olds[i as int]);
                assert(self.entries@ =~= olds.subrange(i + 1, n as int));
            }
            if str_eq(e.id.as_str(), id) {
                found = true;
                proof {
                    assert(olds[i as int].id@ == id@);
                }
            } else {
                kept.push(e);
            }
            i = i + 1;
        }
        proof {
            lemma_full_subrange(olds);
        }
        self.entries = kept;
        Ok(found)
    }

    /// Index of the first entry with the identifier, if any.
    fn index_of_id(&self, id: &str) -> (r: Option<usize>)
        ensures
            (match r {
                Some(i) => {
                    &&& i < self.entries_view().len()
                    &&& self.entries_view()[i as int].id@ == id@
                    &&& (forall|j: int| 0 <= j < i ==> self.entries_view()[j].id@ != id@)
                },
                None => forall|j: int|
                    0 <= j < self.entries_view().len() ==> (#[trigger] self.entries_view()[j]).id@
                        != id@,
            }),
    {
        let n = self.entries.len();
        let mut i: usize = 0;
        while i < n
            invariant
                n == self.entries@.len(),
                i <= n,
                forall|j: int| 0 <= j < i ==> (#[trigger] self.entries@[j]).id@ != id@,
            decreases n - i,
        {
            if str_eq(self.entries[i].id.as_str(), id) {
                return Some(i);
            }
            i = i + 1;
        }
        None
    }

    /// What changing the first entry with an identifier leaves: every other
    /// entry untouched, and the entry at the first matching index replaced.
    pub open spec fn changed_first(
        olds: Seq<HistoryEntry>,
        news: Seq<HistoryEntry>,
        id: Seq<char>,
        i: int,
    ) -> bool {
        &&& 0 <= i < olds.len()
        &&& olds[i].id@ == id
        &&& (forall|j: int| 0 <= j < i ==> olds[j].id@ != id)
        &&& news.len() == olds.len()
        &&& (forall|j: int| 0 <= j < olds.len() && j != i ==> news[j] == olds[j])
    }

    /// The first entry with the identifier had its favorite mark flipped,
    /// everything else about it and every other entry untouched.
    pub open spec fn toggled_first(
        olds: Seq<HistoryEntry>,
        news: Seq<HistoryEntry>,
        id: Seq<char>,
    ) -> bool {
        exists|i: int|
            {
                &&& #[trigger] Self::changed_first(olds, news, id, i)
                &&& news[i].is_favorite == !olds[i].is_favorite
                &&& news[i].id == olds[i].id
                &&& news[i].content == olds[i].content
                &&& news[i].tags == olds[i].tags
                &&& news[i].timestamp == olds[i].timestamp
            }
    }

    /// The first entry with the identifier now carries the tag (its tags
    /// untouched when it already did), everything else about it and every
    /// other entry untouched.
    pub open spec fn tagged_first(
        olds: Seq<HistoryEntry>,
        news: Seq<HistoryEntry>,
        id: Seq<char>,
        tag: Seq<char>,
    ) -> bool {
        exists|i: int|
            {
                &&& #[trigger] Self::changed_first(olds, news, id, i)
                &&& entry_has_tag(news[i], tag)
                &&& (entry_has_tag(olds[i], tag) ==> news[i].tags == olds[i].tags)
                &&& news[i].id == olds[i].id
                &&& news[i].content == olds[i].content
                &&& news[i].is_favorite == olds[i].is_favorite
            }
    }

    /// The first entry with the identifier had the tag detached from its
    /// tags, everything else about it and every other entry untouched.
    pub open spec fn untagged_first(
        olds: Seq<HistoryEntry>,
        news: Seq<HistoryEntry>,
        id: Seq<char>,
        tag: Seq<char>,
    ) -> bool {
        exists|i: int|
            {
                &&& #[trigger] Self::changed_first(olds, news, id, i)
                &&& news[i].tags@ == olds[i].tags@.filter(|t: String| t@ != tag)
                &&& news[i].id == olds[i].id
                &&& news[i].content == olds[i].content
                &&& news[i].is_favorite == olds[i].is_favorite
            }
    }

    /// Flips the favorite mark of the first entry with the identifier;
    /// reports whether one was found.
    pub fn toggle_favorite(&mut self, id: &str) -> (r: Result<bool, Error>)
        ensures
            r matches Ok(b) && b == old(self).has_id(id@),
            !old(self).has_id(id@) ==> final(self).entries_view() == old(self).entries_view(),
            old(self).has_id(id@) ==> Self::toggled_first(
                old(self).entries_view(),
                final(self).entries_view(),
                id@,
            ),
            final(self).capacity() == old(self).capacity(),
            final(self).persistent() == old(self).persistent(),
    {
        let idx = match self.index_of_id(id) {
            Some(i) => i,
            None => {
                return Ok(false);
            },
        };
        let ghost olds = self.entries@;
        let mut e = self.entries.remove(idx);
        proof {
            assert(e == olds[idx as int]);
        }
        e.toggle_favorite();
        let ghost e2 = e;
        self.entries.insert(idx, e);
        proof {
            vstd::seq_lib::lemma_update_is_remove_insert(olds, idx as int, e2);
            assert(self.entries@ =~= olds.update(idx as int, e2));
            assert(self.entries@[idx as int] == e2);
            assert(Self::changed_first(olds, self.entries@, id@, idx as int));
            assert(Self::toggled_first(olds, self.entries@, id@));
        }
        Ok(true)
    }

    /// Attaches a tag to the first entry with the identifier; reports
    /// whether one was found.
    pub fn add_tag(&mut self, id: &str, tag: &str) -> (r: Result<bool, Error>)
        ensures
            r matches Ok(b) && b == old(self).has_id(id@),
            !old(self).has_id(id@) ==> final(self).entries_view() == old(self).entries_view(),
            old(self).has_id(id@) ==> Self::tagged_first(
                old(self).entries_view(),
                final(self).entries_view(),
                id@,
                tag@,
            ),
            final(self).capacity() == old(self).capacity(),
            final(self).persistent() == old(self).persistent(),
    {
        let idx = match self.index_of_id(id) {
            Some(i) => i,
            None => {
                return Ok(false);
            },
        };
        let ghost olds = self.entries@;
        let mut e = self.entries.remove(idx);
        let ghost olde = e;
        proof {
            assert(e == olds[idx as int]);
        }
        e.add_tag(tag);
        proof {
            if entry_has_tag(olde, tag@) {
            } else {
                assert(e.tags@[olde.tags@.len() as int]@ == tag@);
                assert(seq_contains_string(e.tags@, tag@));
            }
        }
        let ghost e2 = e;
        self.entries.insert(idx, e);
        proof {
            vstd::seq_lib::lemma_update_is_remove_insert(olds, idx as int, e2);
            assert(self.entries@ =~= olds.update(idx as int, e2));
            assert(self.entries@[idx as int] == e2);
            assert(Self::changed_first(olds, self.entries@, id@, idx as int));
            assert(Self::tagged_first(olds, self.entries@, id@, tag@));
        }
        Ok(true)
    }

    /// Detaches a tag from the first entry with the identifier; reports
    /// whether one was found.
    pub fn remove_tag(&mut self, id: &str, tag: &str) -> (r: Result<bool, Error>)
        ensures
            r matches Ok(b) && b == old(self).has_id(id@),
            !old(self).has_id(id@) ==> final(self).entries_view() == old(self).entries_view(),
            old(self).has_id(id@) ==> Self::untagged_first(
                old(self).entries_view(),
                final(self).entries_view(),
                id@,
                tag@,
            ),
            final(self).capacity() == old(self).capacity(),
            final(self).persistent() == old(self).persistent(),
    {
        let idx = match self.index_of_id(id) {
            Some(i) => i,
            None => {
                return Ok(false);
            },
        };
        let ghost olds = self.entries@;
        let mut e = self.entries.remove(idx);
        proof {
            assert(e == olds[idx as int]);
        }
        e.remove_tag(tag);
        let ghost e2 = e;
        self.entries.insert(idx, e);
        proof {
            vstd::seq_lib::lemma_update_is_remove_insert(olds, idx as int, e2);
            assert(self.entries@ =~= olds.update(idx as int, e2));
            assert(self.entries@[idx as int] == e2);
            assert(Self::changed_first(olds, self.entries@, id@, idx as int));
            assert(Self::untagged_first(olds, self.entries@, id@, tag@));
        }
        Ok(true)
    }

    /// Empties the history.
    pub fn clear(&mut self) -> (r: Result<(), Error>)
        ensures
            r is Ok,
            final(self).entries_view().len() == 0,
            final(self).capacity() == old(self).capacity(),
            final(self).persistent() == old(self).persistent(),
    {
        self.entries.clear();
        Ok(())
    }
}

/// A stand-in clipboard for test environments without a platform clipboard.
pub struct MockClipboard {
    content: Option<ClipboardContent>,
}

impl MockClipboard {
    /// The held content, for contracts.
    pub closed spec fn spec_content(self) -> Option<ClipboardContent> {
        self.content
    }

    /// Fresh empty stand-in clipboard.
    pub fn new() -> (r: Self)
        ensures
            r.spec_content() is None,
    {
        MockClipboard { content: None }
    }

    /// Puts content on the stand-in clipboard.
    pub fn set_mock_clipboard(&mut self, content: ClipboardContent) -> (r: Result<(), Error>)
        ensures
            r is Ok,
            final(self).spec_content() matches Some(c) && c == content,
    {
        self.content = Some(content);
        Ok(())
    }

    /// Reads a copy of the content on the stand-in clipboard.
    pub fn get_mock_clipboard(&self) -> (r: Result<Option<ClipboardContent>, Error>)
        ensures
            (match r {
                Ok(o) => (match (o, self.spec_content()) {
                    (Some(a), Some(b)) => content_eq_spec(a, b),
                    (None, None) => true,
                    _ => false,
                }),
                Err(_) => false,
            }),
    {
        match &self.content {
            Some(c) => Ok(Some(c.clone())),
            None => Ok(None),
        }
    }

    /// Empties the stand-in clipboard.
    pub fn clear_mock_clipboard(&mut self) -> (r: Result<(), Error>)
        ensures
            r is Ok,
            final(self).spec_content() is None,
    {
        self.content = None;
        Ok(())
    }
}

} // verus!
