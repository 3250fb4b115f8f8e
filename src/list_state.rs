use vstd::prelude::*;

verus! {

/// Whether `a` comes before `b`, or equals it, char by char; for text this
/// is the order of its UTF-8 bytes.
pub open spec fn text_le(a: Seq<char>, b: Seq<char>) -> bool
    decreases a.len(),
{
    if a.len() == 0 {
        true
    } else if b.len() == 0 {
        false
    } else if (a[0] as u32) != (b[0] as u32) {
        (a[0] as u32) < (b[0] as u32)
    } else {
        text_le(a.drop_first(), b.drop_first())
    }
}

/// The selection after a step forward in a list of `len` items.
pub open spec fn next_selection(sel: Option<usize>, len: nat) -> Option<usize> {
    if len == 0 {
        None
    } else {
        match sel {
            Some(i) => Some(((i + 1) % len as int) as usize),
            None => Some(0usize),
        }
    }
}

/// The selection after a step back in a list of `len` items.
pub open spec fn previous_selection(sel: Option<usize>, len: nat) -> Option<usize> {
    if len == 0 {
        None
    } else {
        match sel {
            Some(i) => if i == 0 { Some((len - 1) as usize) } else { Some((i - 1) as usize) },
            None => Some(0usize),
        }
    }
}

pub open spec fn texts(v: Seq<String>) -> Seq<Seq<char>> {
    v.map_values(|s: String| s@)
}

pub open spec fn is_sorted_texts(s: Seq<Seq<char>>) -> bool {
    forall|i: int, j: int| 0 <= i < j < s.len() ==> text_le(#[trigger] s[i], #[trigger] s[j])
}

/// Relies on slice::sort_unstable over String, whose order is that of the
/// strings' bytes: the same strings, in ascending order.
#[verifier::external_body]
fn sort_texts(v: &mut Vec<String>)
    ensures
        texts(final(v)@).to_multiset() == texts(old(v)@).to_multiset(),
        final(v)@.len() == old(v)@.len(),
        is_sorted_texts(texts(final(v)@)),
{
    v.sort_unstable();
}

/// Whether two lists hold the same strings in the same order.
fn same_texts(a: &Vec<String>, b: &Vec<String>) -> (r: bool)
    ensures
        r == (texts(a@) == texts(b@)),
{
    if a.len() != b.len() {
        assert(texts(a@).len() != texts(b@).len());
        return false;
    }
    let mut i: usize = 0;
    while i < a.len()
        invariant
            a@.len() == b@.len(),
            i <= a@.len(),
            forall|k: int| 0 <= k < i ==> a@[k]@ == b@[k]@,
        decreases a@.len() - i,
    {
        if a[i] != b[i] {
            assert(texts(a@)[i as int] != texts(b@)[i as int]);
            return false;
        }
        i = i + 1;
    }
    assert(texts(a@) =~= texts(b@));
    true
}

/// A list of choices, kept sorted, with at most one selected.
pub struct ListStateTracker {
    items: Vec<String>,
    selected: Option<usize>,
}

impl ListStateTracker {
    pub open spec fn items_view(&self) -> Seq<Seq<char>> {
        texts(self.spec_items()@)
    }

    pub closed spec fn spec_items(&self) -> Vec<String> {
        self.items
    }

    pub closed spec fn selection(&self) -> Option<usize> {
        self.selected
    }

    pub open spec fn wf(&self) -> bool {
        self.selection() matches Some(i) ==> i < self.items_view().len()
    }

    /// The selection after the items were replaced: the first, if any.
    pub open spec fn first_or_none(len: nat) -> Option<usize> {
        if len > 0 { Some(0usize) } else { None }
    }

    /// A list of the given items, sorted, with the first selected.
    pub fn new(items: Vec<String>) -> (r: ListStateTracker)
        ensures
            r.wf(),
            r.items_view().to_multiset() == texts(items@).to_multiset(),
            r.items_view().len() == items@.len(),
            is_sorted_texts(r.items_view()),
            r.selection() == Self::first_or_none(items@.len()),
    {
        let mut items = items;
        sort_texts(&mut items);
        let mut ret = ListStateTracker { items, selected: None };
        ret.reset_selection();
        ret
    }

    /// An empty list.
    pub fn default() -> (r: ListStateTracker)
        ensures
            r.wf(),
            r.items_view().len() == 0,
            r.selection() is None,
    {
        ListStateTracker { items: Vec::new(), selected: None }
    }

    /// The items, in order.
    pub fn items(&self) -> (r: &Vec<String>)
        ensures
            texts(r@) == self.items_view(),
    {
        &self.items
    }

    /// The position of the selected item.
    pub fn selected(&self) -> (r: Option<usize>)
        ensures
            r == self.selection(),
    {
        self.selected
    }

    /// Takes the given items, sorted. Only when they differ from the items
    /// held are they stored and the selection reset.
    pub fn update_items(&mut self, items: Vec<String>)
        requires
            old(self).wf(),
        ensures
            final(self).wf(),
            final(self).items_view().to_multiset() == texts(items@).to_multiset(),
            final(self).items_view().len() == items@.len(),
            is_sorted_texts(final(self).items_view()),
            final(self).items_view() == old(self).items_view() ==> final(self).selection() == old(self).selection(),
            final(self).items_view() != old(self).items_view() ==> final(self).selection()
                == Self::first_or_none(items@.len()),
    {
        let mut items = items;
        sort_texts(&mut items);
        if !same_texts(&self.items, &items) {
            self.items = items;
            self.reset_selection();
        } else {
            assert(texts(self.items@) == texts(items@));
        }
    }

    /// Takes the given items, sorted, and selects the first.
    pub fn set_items(&mut self, items: Vec<String>)
        ensures
            final(self).wf(),
            final(self).items_view().to_multiset() == texts(items@).to_multiset(),
            final(self).items_view().len() == items@.len(),
            is_sorted_texts(final(self).items_view()),
            final(self).selection() == Self::first_or_none(items@.len()),
    {
        let mut items = items;
        sort_texts(&mut items);
        self.items = items;
        self.reset_selection();
    }

    /// Selects the next item, from the last back to the first; the first
    /// when none was selected.
    pub fn next(&mut self)
        requires
            old(self).wf(),
        ensures
            final(self).wf(),
            final(self).items_view() == old(self).items_view(),
            final(self).selection() == next_selection(old(self).selection(), old(self).items_view().len()),
    {
        if self.items.is_empty() {
            self.unselect();
            return;
        }
        let len = self.items.len();
        let new_idx = match self.selected {
            Some(i) => {
                assert(i < len);
                (i + 1) % len
            },
            None => 0,
        };
        self.selected = Some(new_idx);
    }

    /// Selects the previous item, from the first round to the last; the
    /// first when none was selected.
    pub fn previous(&mut self)
        requires
            old(self).wf(),
        ensures
            final(self).wf(),
            final(self).items_view() == old(self).items_view(),
            final(self).selection() == previous_selection(old(self).selection(), old(self).items_view().len()),
    {
        if self.items.is_empty() {
            self.unselect();
            return;
        }
        let new_idx = match self.selected {
            Some(i) => {
                if i == 0 {
                    self.items.len() - 1
                } else {
                    i - 1
                }
            },
            None => 0,
        };
        self.selected = Some(new_idx);
    }

    /// Selects the first item, or nothing when there are none.
    pub fn reset_selection(&mut self)
        ensures
            final(self).wf(),
            final(self).items_view() == old(self).items_view(),
            final(self).selection() == Self::first_or_none(old(self).items_view().len()),
    {
        if self.items.is_empty() {
            self.unselect();
        } else {
            self.selected = Some(0);
        }
    }

    /// Selects nothing.
    pub fn unselect(&mut self)
        ensures
            final(self).items_view() == old(self).items_view(),
            final(self).selection() is None,
    {
        self.selected = None;
    }

    /// The selected item.
    pub fn get_selected(&self) -> (r: Option<String>)
        requires
            self.wf(),
        ensures
            r is Some <==> self.selection() is Some,
            r matches Some(s) ==> s@ == self.items_view()[self.selection()->0 as int],
    {
        match self.selected {
            Some(i) => Some(self.items[i].clone()),
            None => None,
        }
    }
}

} // verus!
