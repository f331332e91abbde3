//! Ordered collection with unique-by-identity insertion, a live text-pattern
//! filter, and a wraparound cursor over the filtered view.
//!
//! The stored order never changes under filtering: the filter only selects
//! the visible subsequence. The cursor always indexes the filtered view; it
//! is absent exactly when that view is empty.

use vstd::prelude::*;
use vstd::arithmetic::div_mod::{
    lemma_add_mod_noop_right, lemma_mod_add_multiples_vanish, lemma_mod_bound, lemma_small_mod,
    lemma_sub_mod_noop_right,
};
use vstd::string::StringExecFns;
use crate::key::Key;
use crate::pattern::{regex_match, regex_valid, Pattern};
use crate::search::Search;
use crate::widget::DiscoveryWidget;

verus! {

/// Index reached from cursor position `i` after a signed move by `delta`,
/// wrapping around a filtered view of length `len` in both directions.
///
/// Spec-level `%` is Euclidean, so for `len > 0` the result is always in
/// `[0, len)`, whatever the sign of `delta`.
pub open spec fn wrapped_index(i: int, delta: int, len: int) -> int {
    (i + delta) % len
}

pub proof fn lemma_wrapped_index_in_range(i: int, delta: int, len: int)
    requires
        len > 0,
    ensures
        0 <= wrapped_index(i, delta, len) < len,
{
    lemma_mod_bound(i + delta, len);
}

/// Moving by `delta` and then by `-delta` returns the cursor to where it
/// started, for any cursor position within a non-empty filtered view.
pub proof fn lemma_move_by_round_trip(i: int, delta: int, len: int)
    requires
        len > 0,
        0 <= i < len,
    ensures
        wrapped_index(wrapped_index(i, delta, len), -delta, len) == i,
{
    lemma_mod_bound(i + delta, len);
    lemma_add_mod_noop_right(-delta, i + delta, len);
    lemma_small_mod(i as nat, len as nat);
}

/// The text of an optional compiled pattern.
pub open spec fn pattern_view(p: Option<Pattern>) -> Option<Seq<char>> {
    match p {
        Some(q) => Some(q@),
        None => None,
    }
}

/// Whether an item whose identity is `id` is visible under the optional
/// pattern `pat`: no pattern shows everything.
pub open spec fn matches_filter(pat: Option<Seq<char>>, id: Seq<char>) -> bool {
    match pat {
        Some(p) => regex_match(p, id),
        None => true,
    }
}

/// An entry of the list: something with an identity key and a display form.
pub trait ListEntry: Sized {
    /// The identity key; two entries are the same entity exactly when their
    /// identity keys are equal.
    spec fn id_spec(&self) -> Seq<char>;

    /// The display form.
    spec fn entry_spec(&self) -> Seq<char>;

    fn id(&self) -> (s: String)
        ensures
            s@ == self.id_spec(),
    ;

    fn entry(&self) -> (s: String)
        ensures
            s@ == self.entry_spec(),
    ;
}

impl ListEntry for String {
    open spec fn id_spec(&self) -> Seq<char> {
        self@
    }

    open spec fn entry_spec(&self) -> Seq<char> {
        self@
    }

    fn id(&self) -> (s: String) {
        self.clone()
    }

    fn entry(&self) -> (s: String) {
        self.clone()
    }
}

/// Whether the list reacts to keys as navigation or as search-text entry.
#[derive(Clone, Copy, PartialEq, Eq, Structural, Debug)]
pub enum Mode {
    Display,
    Search,
}

/// The filtered selectable collection.
#[derive(Debug)]
pub struct ListWidget<Item> {
    /// Display name of the pane.
    pub name: String,
    /// The stored entries, in insertion order.
    pub items: Vec<Item>,
    /// Index into the filtered view; absent exactly when that view is empty.
    pub cursor: Option<usize>,
    /// The active filter, if any.
    pub search_regex: Option<Pattern>,
    /// The search text under construction.
    pub search: Search,
    /// Navigation or search-entry.
    pub current_mode: Mode,
}

impl<Item: ListEntry> ListWidget<Item> {
    /// The active filter's text, if any.
    pub open spec fn pat(&self) -> Option<Seq<char>> {
        pattern_view(self.search_regex)
    }

    /// Visibility of one item under the active filter.
    pub open spec fn filter_pred(&self) -> spec_fn(Item) -> bool {
        let p = self.pat();
        |item: Item| matches_filter(p, item.id_spec())
    }

    /// The filtered view: the visible subsequence of the stored entries.
    pub open spec fn filtered_spec(&self) -> Seq<Item> {
        self.items@.filter(self.filter_pred())
    }

    /// No two entries share an identity key.
    pub open spec fn unique_ids(s: Seq<Item>) -> bool {
        forall|i: int, j: int|
            0 <= i < j < s.len() ==> s[i].id_spec() != s[j].id_spec()
    }

    /// Whether some entry of `s` has identity `id`.
    pub open spec fn contains_id(s: Seq<Item>, id: Seq<char>) -> bool {
        exists|j: int| 0 <= j < s.len() && s[j].id_spec() == id
    }

    /// The collection's invariant: identities are unique, the cursor is
    /// absent exactly when the filtered view is empty and otherwise indexes
    /// it, and the search buffer is normalised.
    pub open spec fn wf(&self) -> bool {
        &&& Self::unique_ids(self.items@)
        &&& match self.cursor {
            None => self.filtered_spec().len() == 0,
            Some(i) => i < self.filtered_spec().len(),
        }
        &&& self.search.wf()
    }

    /// The selected item: the cursor's position in the filtered view.
    pub open spec fn selected_spec(&self) -> Option<Item> {
        match self.cursor {
            Some(i) => Some(self.filtered_spec()[i as int]),
            None => None,
        }
    }

    /// The cursor position, or 0 when no cursor exists yet.
    pub open spec fn cursor_or_zero(pre: Self) -> int {
        match pre.cursor {
            Some(i) => i as int,
            None => 0,
        }
    }

    /// How a move by `delta` transforms the entries, filter and cursor:
    /// entries and filter stay; over an empty view the cursor stays; with no
    /// cursor yet the first position is selected; otherwise the cursor wraps.
    pub open spec fn move_step(pre: Self, delta: int, post: Self) -> bool {
        &&& post.items@ == pre.items@
        &&& post.search_regex == pre.search_regex
        &&& post.cursor == (if pre.filtered_spec().len() == 0 {
            pre.cursor
        } else {
            match pre.cursor {
                Some(i) => Some(
                    wrapped_index(i as int, delta, pre.filtered_spec().len() as int) as usize,
                ),
                None => Some(0usize),
            }
        })
    }

    /// How inserting `item` transforms the collection: a duplicate identity
    /// is a no-op for the entries, otherwise the item is appended; the
    /// cursor initialises to the first position when the filtered view
    /// becomes non-empty and is kept otherwise.
    pub open spec fn push_step(pre: Self, item: Item, post: Self) -> bool {
        &&& post.search_regex == pre.search_regex
        &&& post.items@ == (if Self::contains_id(pre.items@, item.id_spec()) {
            pre.items@
        } else {
            pre.items@.push(item)
        })
        &&& post.cursor == (if pre.cursor is Some {
            pre.cursor
        } else if post.filtered_spec().len() > 0 {
            Some(0usize)
        } else {
            None::<usize>
        })
    }

    /// How removing the entry of identity `id` transforms the collection:
    /// the matching entry leaves (a miss is a no-op); the cursor is cleared
    /// when the filtered view empties, kept while it stays in range, and
    /// clamped to the last position otherwise.
    pub open spec fn remove_step(pre: Self, id: Seq<char>, post: Self) -> bool {
        &&& post.search_regex == pre.search_regex
        &&& (if Self::contains_id(pre.items@, id) {
            exists|j: int|
                0 <= j < pre.items@.len() && pre.items@[j].id_spec() == id && post.items@
                    == pre.items@.remove(j)
        } else {
            post.items@ == pre.items@
        })
        &&& post.cursor == (if post.filtered_spec().len() == 0 {
            None::<usize>
        } else {
            match pre.cursor {
                Some(i) => if i < post.filtered_spec().len() {
                    Some(i)
                } else {
                    Some((post.filtered_spec().len() - 1) as usize)
                },
                None => Some((post.filtered_spec().len() - 1) as usize),
            }
        })
    }

    /// How applying the filter text `pat` transforms the collection: the
    /// entries stay, the pattern is replaced, and the cursor resets to the
    /// first position of the new view or is cleared when that view is empty.
    pub open spec fn filter_applied(pre: Self, pat: Option<Seq<char>>, post: Self) -> bool {
        &&& post.items@ == pre.items@
        &&& pattern_view(post.search_regex) == pat
        &&& post.cursor == (if post.filtered_spec().len() > 0 {
            Some(0usize)
        } else {
            None::<usize>
        })
    }

    /// Name, search buffer and input mode are untouched.
    pub open spec fn same_shell(pre: Self, post: Self) -> bool {
        &&& post.name == pre.name
        &&& post.search == pre.search
        &&& post.current_mode == pre.current_mode
    }

    /// Replaces the display name.
    pub fn name(self, name: String) -> (r: Self)
        ensures
            r.name == name,
            r.items == self.items,
            r.cursor == self.cursor,
            r.search_regex == self.search_regex,
            r.search == self.search,
            r.current_mode == self.current_mode,
    {
        ListWidget {
            name,
            items: self.items,
            cursor: self.cursor,
            search_regex: self.search_regex,
            search: self.search,
            current_mode: self.current_mode,
        }
    }

    /// The indices (into the stored entries) of the filtered view, in order.
    pub fn filtered(&self) -> (r: Vec<usize>)
        ensures
            r@.len() == self.filtered_spec().len(),
            forall|j: int|
                0 <= j < r@.len() ==> #[trigger] r@[j] < self.items@.len()
                    && self.items@[r@[j] as int] == self.filtered_spec()[j],
            forall|j1: int, j2: int| 0 <= j1 < j2 < r@.len() ==> r@[j1] < r@[j2],
    {
        let ghost pred = self.filter_pred();
        let mut out: Vec<usize> = Vec::new();
        let mut k: usize = 0;
        while k < self.items.len()
            invariant
                k <= self.items@.len(),
                pred == self.filter_pred(),
                out@.map_values(|u: usize| self.items@[u as int]) =~= self.items@.take(
                    k as int,
                ).filter(pred),
                forall|j: int| 0 <= j < out@.len() ==> #[trigger] out@[j] < k,
                forall|j1: int, j2: int| 0 <= j1 < j2 < out@.len() ==> out@[j1] < out@[j2],
            decreases self.items@.len() - k,
        {
            let item = &self.items[k];
            let matched = match &self.search_regex {
                Some(p) => {
                    let s = item.id();
                    p.is_match(s.as_str())
                },
                None => true,
            };
            proof {
                assert(matched == pred(self.items@[k as int]));
                assert(self.items@.take(k + 1).drop_last() =~= self.items@.take(k as int));
                assert(self.items@.take(k + 1) =~= self.items@.take(k as int).push(
                    self.items@[k as int],
                ));
                Seq::lemma_filter_push(
                    self.items@.take(k as int),
                    self.items@[k as int],
                    pred,
                );
            }
            if matched {
                out.push(k);
            }
            k += 1;
            proof {
                assert(out@.map_values(|u: usize| self.items@[u as int]) =~= self.items@.take(
                    k as int,
                ).filter(pred));
            }
        }
        proof {
            assert(self.items@.take(self.items@.len() as int) =~= self.items@);
            assert forall|j: int| 0 <= j < out@.len() implies #[trigger] out@[j]
                < self.items@.len() && self.items@[out@[j] as int] == self.filtered_spec()[j] by {
                let u = out@[j];
                assert(out@.map_values(|v: usize| self.items@[v as int])[j] == self.items@[u as int]);
            }
        }
        out
    }

    /// The item at the cursor position of the filtered view, if any.
    pub fn selected(&self) -> (r: Option<&Item>)
        requires
            self.wf(),
        ensures
            match r {
                None => self.cursor is None && self.filtered_spec().len() == 0,
                Some(item) => self.selected_spec() == Some(*item),
            },
    {
        match self.cursor {
            None => None,
            Some(i) => {
                let idxs = self.filtered();
                let j = idxs[i];
                Some(&self.items[j])
            },
        }
    }

    /// Appends `item` unless an entry with the same identity already
    /// exists; the first entry ever inserted becomes the selection.
    pub fn push(&mut self, item: Item)
        requires
            old(self).wf(),
        ensures
            final(self).wf(),
            Self::push_step(*old(self), item, *final(self)),
            Self::same_shell(*old(self), *final(self)),
    {
        let ghost pre = *self;
        let id = item.id();
        let mut dup = false;
        let mut k: usize = 0;
        while k < self.items.len()
            invariant
                *self == pre,
                id@ == item.id_spec(),
                k <= self.items@.len(),
                dup == Self::contains_id(self.items@.take(k as int), item.id_spec()),
            decreases self.items@.len() - k,
        {
            let other = self.items[k].id();
            if other == id {
                dup = true;
            }
            k += 1;
            proof {
                if self.items@[k - 1].id_spec() == item.id_spec() {
                    assert(self.items@.take(k as int)[k - 1] == self.items@[k - 1]);
                }
                assert forall|j: int|
                    0 <= j < k && self.items@.take(k as int)[j].id_spec()
                        == item.id_spec() implies dup by {
                    if j < k - 1 {
                        assert(self.items@.take(k - 1 as int)[j] == self.items@.take(k as int)[j]);
                    }
                }
            }
        }
        proof {
            assert(self.items@.take(self.items@.len() as int) =~= self.items@);
        }
        if !dup {
            self.items.push(item);
        }
        proof {
            if !dup {
                Seq::lemma_filter_push(pre.items@, item, pre.filter_pred());
                assert(self.filter_pred() == pre.filter_pred());
            }
            assert(self.filtered_spec().len() >= pre.filtered_spec().len());
        }
        if self.cursor.is_none() {
            let idxs = self.filtered();
            if idxs.len() > 0 {
                self.cursor = Some(0);
            }
        }
        proof {
            assert(Self::unique_ids(self.items@));
        }
    }

    /// Removes the entry whose identity is `id`, if any.
    pub fn remove(&mut self, id: &String)
        requires
            old(self).wf(),
        ensures
            final(self).wf(),
            Self::remove_step(*old(self), id@, *final(self)),
            Self::same_shell(*old(self), *final(self)),
    {
        let ghost pre = *self;
        let mut found = false;
        let mut at: usize = 0;
        let mut k: usize = 0;
        while k < self.items.len()
            invariant
                *self == pre,
                k <= self.items@.len(),
                found == Self::contains_id(self.items@.take(k as int), id@),
                found ==> at < k && self.items@[at as int].id_spec() == id@,
            decreases self.items@.len() - k,
        {
            if !found {
                let other = self.items[k].id();
                if *id == other {
                    found = true;
                    at = k;
                }
            }
            k += 1;
            proof {
                if self.items@[k - 1].id_spec() == id@ {
                    assert(self.items@.take(k as int)[k - 1] == self.items@[k - 1]);
                }
                assert forall|j: int|
                    0 <= j < k && self.items@.take(k as int)[j].id_spec() == id@ implies found by {
                    if j < k - 1 {
                        assert(self.items@.take(k - 1 as int)[j] == self.items@.take(k as int)[j]);
                    }
                }
            }
        }
        proof {
            assert(self.items@.take(self.items@.len() as int) =~= self.items@);
        }
        if found {
            self.items.remove(at);
            proof {
                assert forall|i1: int, i2: int|
                    0 <= i1 < i2 < self.items@.len() implies self.items@[i1].id_spec()
                    != self.items@[i2].id_spec() by {
                    assert(self.items@[i1] == (if i1 < at {
                        pre.items@[i1]
                    } else {
                        pre.items@[i1 + 1]
                    }));
                    assert(self.items@[i2] == (if i2 < at {
                        pre.items@[i2]
                    } else {
                        pre.items@[i2 + 1]
                    }));
                }
            }
        }
        let idxs = self.filtered();
        let nl = idxs.len();
        self.cursor = if nl == 0 {
            None
        } else {
            match self.cursor {
                Some(i) => if i < nl {
                    Some(i)
                } else {
                    Some(nl - 1)
                },
                None => Some(nl - 1),
            }
        };
    }

    /// Moves the selection down by one, wrapping at the end.
    pub fn next(&mut self)
        requires
            old(self).wf(),
        ensures
            final(self).wf(),
            Self::move_step(*old(self), 1, *final(self)),
            Self::same_shell(*old(self), *final(self)),
    {
        self.select_delta(1);
    }

    /// Moves the selection up by one, wrapping at the start.
    pub fn prev(&mut self)
        requires
            old(self).wf(),
        ensures
            final(self).wf(),
            Self::move_step(*old(self), -1, *final(self)),
            Self::same_shell(*old(self), *final(self)),
    {
        self.select_delta(-1);
    }

    /// Moves the selection to the first position: a move by the negative of
    /// the current cursor offset.
    pub fn top(&mut self)
        requires
            old(self).wf(),
        ensures
            final(self).wf(),
            Self::move_step(*old(self), -Self::cursor_or_zero(*old(self)), *final(self)),
            Self::same_shell(*old(self), *final(self)),
    {
        let idxs = self.filtered();
        if idxs.len() > 0 {
            self.cursor = Some(0);
            proof {
                let len = old(self).filtered_spec().len() as int;
                let i = Self::cursor_or_zero(*old(self));
                lemma_small_mod(0nat, len as nat);
                assert(wrapped_index(i, -i, len) == 0);
            }
        }
    }

    /// Moves the selection to the last position: a move by the distance
    /// from the current cursor offset to the end.
    pub fn bottom(&mut self)
        requires
            old(self).wf(),
        ensures
            final(self).wf(),
            Self::move_step(
                *old(self),
                old(self).filtered_spec().len() - 1 - Self::cursor_or_zero(*old(self)),
                *final(self),
            ),
            Self::same_shell(*old(self), *final(self)),
    {
        let idxs = self.filtered();
        let l = idxs.len();
        if l > 0 {
            self.cursor = Some(l - 1);
            proof {
                let len = old(self).filtered_spec().len() as int;
                let i = Self::cursor_or_zero(*old(self));
                lemma_small_mod((len - 1) as nat, len as nat);
                assert(wrapped_index(i, len - 1 - i, len) == len - 1);
            }
        }
    }

    /// Moves the selection by a signed number of positions over the
    /// filtered view, wrapping below and above. Over an empty view this is
    /// a no-op; with no cursor yet, the first position is selected.
    pub fn select_delta(&mut self, delta: isize)
        requires
            old(self).wf(),
        ensures
            final(self).wf(),
            Self::move_step(*old(self), delta as int, *final(self)),
            Self::same_shell(*old(self), *final(self)),
    {
        let idxs = self.filtered();
        let len = idxs.len();
        if len > 0 {
            match self.cursor {
                None => {
                    self.cursor = Some(0);
                },
                Some(i) => {
                    let l = len as u128;
                    let new_idx: usize = if delta >= 0 {
                        let d = (delta as u128) % l;
                        (((i as u128) + d) % l) as usize
                    } else {
                        let neg = delta as i128;
                        let mag = (-neg) as u128;
                        let d = mag % l;
                        (((i as u128) + l - d) % l) as usize
                    };
                    proof {
                        let li = len as int;
                        lemma_mod_bound(i + delta, li);
                        if delta >= 0 {
                            lemma_add_mod_noop_right(i as int, delta as int, li);
                        } else {
                            let mag = -(delta as int);
                            lemma_mod_bound(mag, li);
                            lemma_sub_mod_noop_right(i as int, mag, li);
                            lemma_mod_add_multiples_vanish(i - (mag % li), li);
                            assert((i + li - (mag % li)) % li == (i - (mag % li)) % li);
                        }
                        assert(new_idx == wrapped_index(i as int, delta as int, li));
                    }
                    self.cursor = Some(new_idx);
                },
            }
        }
    }

    /// Replaces the active filter and re-derives the visible view: the
    /// cursor resets to the first position, or is cleared when the new view
    /// is empty.
    fn update_filter(&mut self, regex: Option<Pattern>)
        requires
            old(self).wf(),
        ensures
            final(self).wf(),
            Self::filter_applied(*old(self), pattern_view(regex), *final(self)),
            Self::same_shell(*old(self), *final(self)),
    {
        self.search_regex = regex;
        let idxs = self.filtered();
        if idxs.len() > 0 {
            self.cursor = Some(0);
        } else {
            self.cursor = None;
        }
    }
}

/// Inserting never creates two entries with one identity: a collection
/// grown by inserts alone keeps its identity keys pairwise distinct, and a
/// duplicate insert leaves the entries unchanged, so the first insert of an
/// identity fixes its position.
pub proof fn lemma_insert_keeps_ids_unique<Item: ListEntry>(
    pre: ListWidget<Item>,
    item: Item,
    post: ListWidget<Item>,
)
    requires
        ListWidget::unique_ids(pre.items@),
        ListWidget::push_step(pre, item, post),
    ensures
        ListWidget::unique_ids(post.items@),
        ListWidget::contains_id(pre.items@, item.id_spec()) ==> post.items@ == pre.items@,
{
    if !ListWidget::contains_id(pre.items@, item.id_spec()) {
        assert forall|i: int, j: int|
            0 <= i < j < post.items@.len() implies post.items@[i].id_spec()
            != post.items@[j].id_spec() by {
            if j == post.items@.len() - 1 {
                assert(post.items@[i] == pre.items@[i]);
            }
        }
    }
}

/// Applying the same filter text twice gives the same view and the same
/// cursor as applying it once: filtering is idempotent.
pub proof fn lemma_filter_idempotent<Item: ListEntry>(
    pre: ListWidget<Item>,
    mid: ListWidget<Item>,
    post: ListWidget<Item>,
    pat: Option<Seq<char>>,
)
    requires
        ListWidget::filter_applied(pre, pat, mid),
        ListWidget::filter_applied(mid, pat, post),
    ensures
        post.filtered_spec() == mid.filtered_spec(),
        post.cursor == mid.cursor,
{
    assert(post.filter_pred() == mid.filter_pred());
}

/// Moving by `delta` and then by `-delta` over an unchanged collection
/// returns the cursor to its original position, for any non-empty filtered
/// view.
pub proof fn lemma_move_round_trip<Item: ListEntry>(
    pre: ListWidget<Item>,
    mid: ListWidget<Item>,
    post: ListWidget<Item>,
    delta: int,
)
    requires
        pre.wf(),
        0 < pre.filtered_spec().len() <= usize::MAX,
        ListWidget::move_step(pre, delta, mid),
        ListWidget::move_step(mid, -delta, post),
    ensures
        post.cursor == pre.cursor,
{
    assert(mid.filter_pred() == pre.filter_pred());
    assert(mid.filtered_spec() == pre.filtered_spec());
    let len = pre.filtered_spec().len() as int;
    match pre.cursor {
        None => {
            assert(false);
        },
        Some(i) => {
            lemma_wrapped_index_in_range(i as int, delta, len);
            lemma_move_by_round_trip(i as int, delta, len);
        },
    }
}

impl<Item: ListEntry> Default for ListWidget<Item> {
    /// An empty, unfiltered, unselected list named "ListWidget".
    fn default() -> (r: Self)
        ensures
            r.name@ == "ListWidget"@,
            r.items@.len() == 0,
            r.cursor is None,
            r.search_regex is None,
            r.search.search is None,
            r.current_mode is Display,
            r.wf(),
    {
        let r = ListWidget {
            name: String::from_str("ListWidget"),
            items: Vec::new(),
            cursor: None,
            search_regex: None,
            search: Search { search: None },
            current_mode: Mode::Display,
        };
        proof {
            r.items@.lemma_filter_len(r.filter_pred());
        }
        r
    }
}

impl<Item: ListEntry> DiscoveryWidget for ListWidget<Item> {
    /// The name, followed by the active filter text between `(/` and `/)`.
    open spec fn title_spec(&self) -> Seq<char> {
        self.name@ + match self.pat() {
            Some(p) => "(/"@ + p + "/)"@,
            None => Seq::<char>::empty(),
        }
    }

    open spec fn controls_spec(&self) -> Seq<char> {
        "Use \u{2193}\u{2191} to select next/prev, g/G to go top/bottom, / to search"@
    }

    open spec fn widget_wf(&self) -> bool {
        self.wf()
    }

    /// The input mode machine. Navigation mode routes the movement keys to
    /// the cursor, and `/` opens search entry with an empty buffer. Search
    /// entry routes characters and the erase key to the buffer; the cancel
    /// key discards the buffer and leaves the filter unchanged; the confirm
    /// key discards the buffer and applies it: an absent buffer clears the
    /// filter, a well-formed one replaces it, an ill-formed one leaves the
    /// previous filter in effect. All other keys change nothing.
    open spec fn key_step(pre: Self, key: Key, post: Self) -> bool {
        match pre.current_mode {
            Mode::Search => match key {
                Key::Esc => {
                    &&& post.items@ == pre.items@
                    &&& post.name == pre.name
                    &&& post.search_regex == pre.search_regex
                    &&& post.cursor == pre.cursor
                    &&& post.current_mode is Display
                    &&& post.search.search is None
                },
                Key::Enter => {
                    &&& post.name == pre.name
                    &&& post.current_mode is Display
                    &&& post.search.search is None
                    &&& match pre.search.buffer() {
                        None => Self::filter_applied(pre, None, post),
                        Some(t) => if regex_valid(t) {
                            Self::filter_applied(pre, Some(t), post)
                        } else {
                            &&& post.items@ == pre.items@
                            &&& post.search_regex == pre.search_regex
                            &&& post.cursor == pre.cursor
                        },
                    }
                },
                Key::Char(_) | Key::Backspace => {
                    &&& post.items@ == pre.items@
                    &&& post.name == pre.name
                    &&& post.search_regex == pre.search_regex
                    &&& post.cursor == pre.cursor
                    &&& post.current_mode is Search
                    &&& post.search.buffer() == Search::spec_edit(pre.search.buffer(), key)
                },
                _ => post == pre,
            },
            Mode::Display => match key {
                Key::Down => Self::move_step(pre, 1, post) && Self::same_shell(pre, post),
                Key::Up => Self::move_step(pre, -1, post) && Self::same_shell(pre, post),
                Key::Char(c) => if c == 'g' {
                    Self::move_step(pre, -Self::cursor_or_zero(pre), post) && Self::same_shell(
                        pre,
                        post,
                    )
                } else if c == 'G' {
                    Self::move_step(
                        pre,
                        pre.filtered_spec().len() - 1 - Self::cursor_or_zero(pre),
                        post,
                    ) && Self::same_shell(pre, post)
                } else if c == '/' {
                    &&& post.items@ == pre.items@
                    &&& post.name == pre.name
                    &&& post.search_regex == pre.search_regex
                    &&& post.cursor == pre.cursor
                    &&& post.current_mode is Search
                    &&& post.search.search is None
                } else {
                    post == pre
                },
                _ => post == pre,
            },
        }
    }

    fn title(&self) -> (r: String) {
        let mut t = self.name.clone();
        match &self.search_regex {
            Some(p) => {
                t.append("(/");
                t.append(p.as_str());
                t.append("/)");
            },
            None => {},
        }
        proof {
            assert(t@ =~= self.title_spec());
        }
        t
    }

    fn controls(&self) -> (r: String) {
        String::from_str("Use \u{2193}\u{2191} to select next/prev, g/G to go top/bottom, / to search")
    }

    fn process_key_event(&mut self, key_event: &Key) {
        let k = *key_event;
        match self.current_mode {
            Mode::Search => match k {
                Key::Esc => {
                    self.current_mode = Mode::Display;
                    self.search = Search { search: None };
                },
                Key::Enter => {
                    self.current_mode = Mode::Display;
                    let compiled = self.search.compile_regex();
                    self.search = Search { search: None };
                    match compiled {
                        Ok(p) => self.update_filter(p),
                        Err(_) => {},
                    }
                },
                Key::Char(_) | Key::Backspace => {
                    self.search.process_key_event(key_event);
                },
                _ => {},
            },
            Mode::Display => match k {
                Key::Down => self.next(),
                Key::Up => self.prev(),
                Key::Char(c) => {
                    if c == 'g' {
                        self.top();
                    } else if c == 'G' {
                        self.bottom();
                    } else if c == '/' {
                        self.current_mode = Mode::Search;
                        self.search = Search { search: None };
                    }
                },
                _ => {},
            },
        }
    }
}

} // verus!
