use vstd::prelude::*;

use crate::text::{chars_bytes, copy_chars, is_white_space, string_from_chars, trim_trailing_white_space};
use vstd::utf8::encode_utf8;

verus! {

/// The model of the editor: the draft, the caret (`None` is the end of the
/// draft), the messages sent, the position in them while recalling, and the
/// draft that recalling set aside.
pub struct EditorView {
    pub buffer: Seq<char>,
    pub cursor: Option<nat>,
    pub history: Seq<Seq<char>>,
    pub history_index: Option<nat>,
    pub draft: Option<Seq<char>>,
}

impl EditorView {
    pub open spec fn wf(self) -> bool {
        &&& self.cursor matches Some(p) ==> p < self.buffer.len()
        &&& self.history_index matches Some(i) ==> i < self.history.len()
    }

    pub open spec fn with_buffer(self, buffer: Seq<char>, cursor: Option<nat>) -> EditorView {
        EditorView { buffer, cursor, ..self }
    }
}

/// A char typed at the caret; the caret moves past it.
pub open spec fn insert_spec(e: EditorView, c: char) -> EditorView {
    match e.cursor {
        Some(p) => e.with_buffer(e.buffer.insert(p as int, c), Some((p + 1) as nat)),
        None => e.with_buffer(e.buffer.push(c), None),
    }
}

/// The char before the caret removed; nothing at the start of the draft.
pub open spec fn delete_backward_spec(e: EditorView) -> EditorView {
    match e.cursor {
        Some(p) => if p > 0 {
            let buffer = e.buffer.remove(p - 1);
            let cursor = if p - 1 == buffer.len() { None } else { Some((p - 1) as nat) };
            e.with_buffer(buffer, cursor)
        } else {
            e
        },
        None => if e.buffer.len() > 0 {
            e.with_buffer(e.buffer.drop_last(), None)
        } else {
            e
        },
    }
}

/// The char at the caret removed; nothing at the end of the draft.
pub open spec fn delete_forward_spec(e: EditorView) -> EditorView {
    match e.cursor {
        Some(p) => if p < e.buffer.len() {
            let buffer = e.buffer.remove(p as int);
            let cursor = if p == buffer.len() { None } else { Some(p) };
            e.with_buffer(buffer, cursor)
        } else {
            e
        },
        None => e,
    }
}

/// Where the last white space of `s` stands, or 0 when it has none.
pub open spec fn last_white_space_or_start(s: Seq<char>) -> int
    decreases s.len(),
{
    if s.len() == 0 {
        0
    } else if is_white_space(s.last()) {
        s.len() - 1
    } else {
        last_white_space_or_start(s.drop_last())
    }
}

/// The draft with its last word removed: trailing white space goes, then
/// everything back to the previous white space, which goes too; a single
/// space follows what is left, if anything is.
pub open spec fn word_deleted(s: Seq<char>) -> Seq<char> {
    let trimmed = trim_trailing_white_space(s);
    let kept = trimmed.subrange(0, last_white_space_or_start(trimmed));
    if kept.len() > 0 {
        kept.push(' ')
    } else {
        kept
    }
}

pub open spec fn delete_word_backward_spec(e: EditorView) -> EditorView {
    e.with_buffer(word_deleted(e.buffer), None)
}

pub open spec fn move_left_spec(e: EditorView) -> EditorView {
    match e.cursor {
        Some(p) => if p > 0 { e.with_buffer(e.buffer, Some((p - 1) as nat)) } else { e },
        None => if e.buffer.len() > 0 {
            e.with_buffer(e.buffer, Some((e.buffer.len() - 1) as nat))
        } else {
            e
        },
    }
}

pub open spec fn move_right_spec(e: EditorView) -> EditorView {
    match e.cursor {
        Some(p) => if p + 1 < e.buffer.len() {
            e.with_buffer(e.buffer, Some((p + 1) as nat))
        } else {
            e.with_buffer(e.buffer, None)
        },
        None => e,
    }
}

pub open spec fn move_home_spec(e: EditorView) -> EditorView {
    if e.buffer.len() > 0 { e.with_buffer(e.buffer, Some(0)) } else { e }
}

pub open spec fn move_end_spec(e: EditorView) -> EditorView {
    e.with_buffer(e.buffer, None)
}

/// One step back in the messages sent. The first step sets the draft aside;
/// at the oldest message nothing changes but the caret, which goes to the end.
pub open spec fn recall_older_spec(e: EditorView) -> EditorView {
    let e = EditorView { cursor: None, ..e };
    match e.history_index {
        Some(i) => if i > 0 {
            EditorView { buffer: e.history[i - 1], history_index: Some((i - 1) as nat), ..e }
        } else {
            e
        },
        None => if e.history.len() > 0 {
            EditorView {
                buffer: e.history.last(),
                history_index: Some((e.history.len() - 1) as nat),
                draft: Some(e.buffer),
                ..e
            }
        } else {
            e
        },
    }
}

/// One step forward in the messages sent; past the newest the draft that
/// was set aside comes back.
pub open spec fn recall_newer_spec(e: EditorView) -> EditorView {
    let e = EditorView { cursor: None, ..e };
    match e.history_index {
        Some(i) => if i + 1 < e.history.len() {
            EditorView { buffer: e.history[i + 1 as int], history_index: Some((i + 1) as nat), ..e }
        } else {
            EditorView {
                buffer: match e.draft {
                    Some(d) => d,
                    None => Seq::<char>::empty(),
                },
                history_index: None,
                draft: None,
                ..e
            }
        },
        None => e,
    }
}

/// After a successful send: the draft joins the history and is cleared.
pub open spec fn commit_sent_spec(e: EditorView) -> EditorView {
    EditorView {
        buffer: Seq::<char>::empty(),
        cursor: None,
        history: e.history.push(e.buffer),
        history_index: None,
        ..e
    }
}

pub open spec fn recall_older_times(e: EditorView, n: nat) -> EditorView
    decreases n,
{
    if n == 0 {
        e
    } else {
        recall_older_spec(recall_older_times(e, (n - 1) as nat))
    }
}

pub open spec fn recall_newer_times(e: EditorView, n: nat) -> EditorView
    decreases n,
{
    if n == 0 {
        e
    } else {
        recall_newer_spec(recall_newer_times(e, (n - 1) as nat))
    }
}

proof fn lemma_older_steps(e: EditorView, k: nat)
    requires
        e.wf(),
        e.history_index is None,
        1 <= k <= e.history.len(),
    ensures
        recall_older_times(e, k) == (EditorView {
            buffer: e.history[e.history.len() - k],
            cursor: None,
            history: e.history,
            history_index: Some((e.history.len() - k) as nat),
            draft: Some(e.buffer),
        }),
    decreases k,
{
    if k > 1 {
        lemma_older_steps(e, (k - 1) as nat);
    } else {
        assert(recall_older_times(e, 0) == e);
        assert(e.history.last() == e.history[e.history.len() - 1]);
    }
}

proof fn lemma_newer_steps(s: EditorView, d: Seq<char>, j: nat)
    requires
        s.history.len() > 0,
        s.history_index == Some(0nat),
        s.buffer == s.history[0],
        s.cursor is None,
        s.draft == Some(d),
        j < s.history.len(),
    ensures
        recall_newer_times(s, j) == (EditorView {
            buffer: s.history[j as int],
            cursor: None,
            history: s.history,
            history_index: Some(j as nat),
            draft: Some(d),
        }),
    decreases j,
{
    if j > 0 {
        lemma_newer_steps(s, d, (j - 1) as nat);
    }
}

proof fn lemma_older_past_oldest(e: EditorView, k: nat)
    requires
        e.wf(),
        e.history_index is None,
        1 <= e.history.len() <= k,
    ensures
        recall_older_times(e, k) == recall_older_times(e, e.history.len()),
    decreases k,
{
    let n = e.history.len();
    if k > n {
        lemma_older_past_oldest(e, (k - 1) as nat);
        lemma_older_steps(e, n);
    }
}

proof fn lemma_newer_past_draft(s: EditorView, d: Seq<char>, k: nat)
    requires
        s.history.len() > 0,
        s.history_index == Some(0nat),
        s.buffer == s.history[0],
        s.cursor is None,
        s.draft == Some(d),
        k >= s.history.len(),
    ensures
        recall_newer_times(s, k) == (EditorView {
            buffer: d,
            cursor: None,
            history: s.history,
            history_index: None,
            draft: None,
        }),
    decreases k,
{
    if k > s.history.len() {
        lemma_newer_past_draft(s, d, (k - 1) as nat);
    } else {
        lemma_newer_steps(s, d, (k - 1) as nat);
    }
}

proof fn lemma_older_without_history(e: EditorView, k: nat)
    requires
        e.history.len() == 0,
        e.history_index is None,
    ensures
        recall_older_times(e, k).buffer == e.buffer,
        recall_older_times(e, k).history == e.history,
        recall_older_times(e, k).history_index is None,
    decreases k,
{
    if k > 0 {
        lemma_older_without_history(e, (k - 1) as nat);
    }
}

proof fn lemma_newer_without_selection(x: EditorView, k: nat)
    requires
        x.history_index is None,
    ensures
        recall_newer_times(x, k).buffer == x.buffer,
        recall_newer_times(x, k).history_index is None,
    decreases k,
{
    if k > 0 {
        lemma_newer_without_selection(x, (k - 1) as nat);
    }
}

/// Stepping back through the messages sent until the oldest shows (or more
/// often: the oldest stays), and then forward as many times, brings back
/// the draft that was being typed, with no message selected and the
/// history unchanged.
pub proof fn lemma_recall_round_trip(e: EditorView, k: nat)
    requires
        e.wf(),
        e.history_index is None,
        k >= e.history.len(),
    ensures
        ({
            let oldest = recall_older_times(e, k);
            let back = recall_newer_times(oldest, k);
            &&& e.history.len() > 0 ==> oldest.history_index == Some(0nat)
            &&& back.buffer == e.buffer
            &&& back.history_index is None
            &&& back.history == e.history
        }),
{
    let n = e.history.len();
    if n > 0 {
        lemma_older_steps(e, n);
        lemma_older_past_oldest(e, k);
        let oldest = recall_older_times(e, k);
        lemma_newer_past_draft(oldest, e.buffer, k);
    } else {
        lemma_older_without_history(e, k);
        let oldest = recall_older_times(e, k);
        lemma_newer_without_selection(oldest, k);
        lemma_newer_history_kept(oldest, k);
    }
}

proof fn lemma_newer_history_kept(x: EditorView, k: nat)
    ensures
        recall_newer_times(x, k).history == x.history,
    decreases k,
{
    if k > 0 {
        lemma_newer_history_kept(x, (k - 1) as nat);
    }
}

pub open spec fn nat_of(o: Option<usize>) -> Option<nat> {
    match o {
        Some(i) => Some(i as nat),
        None => None,
    }
}

/// The draft of the next message, its caret, and the messages sent.
pub struct InputEditor {
    buffer: Vec<char>,
    cursor: Option<usize>,
    history: Vec<Vec<char>>,
    history_index: Option<usize>,
    draft: Option<Vec<char>>,
}

impl View for InputEditor {
    type V = EditorView;

    closed spec fn view(&self) -> EditorView {
        EditorView {
            buffer: self.buffer@,
            cursor: nat_of(self.cursor),
            history: self.history@.map_values(|v: Vec<char>| v@),
            history_index: nat_of(self.history_index),
            draft: match self.draft {
                Some(d) => Some(d@),
                None => None,
            },
        }
    }
}

impl InputEditor {
    pub open spec fn wf(&self) -> bool {
        self@.wf()
    }

    /// An empty draft with no history.
    pub open spec fn new_spec() -> EditorView {
        EditorView {
            buffer: Seq::<char>::empty(),
            cursor: None,
            history: Seq::<Seq<char>>::empty(),
            history_index: None,
            draft: None,
        }
    }

    pub fn new() -> (r: Self)
        ensures
            r@ == Self::new_spec(),
            r.wf(),
    {
        let r = InputEditor {
            buffer: Vec::new(),
            cursor: None,
            history: Vec::new(),
            history_index: None,
            draft: None,
        };
        assert(r@.history =~= Seq::<Seq<char>>::empty());
        r
    }

    /// The draft, as text.
    pub fn text(&self) -> (r: String)
        ensures
            r@ == self@.buffer,
    {
        string_from_chars(self.buffer.as_slice())
    }

    /// The draft with a caret symbol where the caret stands.
    pub fn text_with_caret(&self, caret: char) -> (r: String)
        requires
            self.wf(),
        ensures
            r@ == match self@.cursor {
                Some(p) => self@.buffer.insert(p as int, caret),
                None => self@.buffer.push(caret),
            },
    {
        let mut chars = copy_chars(&self.buffer);
        match self.cursor {
            Some(p) => {
                chars.insert(p, caret);
            },
            None => {
                chars.push(caret);
            },
        }
        string_from_chars(chars.as_slice())
    }

    /// The UTF-8 bytes of the draft.
    pub fn text_bytes(&self) -> (r: Vec<u8>)
        ensures
            r@ == encode_utf8(self@.buffer),
    {
        chars_bytes(self.buffer.as_slice())
    }

    /// The caret: a position in the draft, or `None` at its end.
    pub fn cursor(&self) -> (r: Option<usize>)
        ensures
            nat_of(r) == self@.cursor,
    {
        self.cursor
    }

    /// The position in the messages sent while recalling them.
    pub fn history_index(&self) -> (r: Option<usize>)
        ensures
            nat_of(r) == self@.history_index,
    {
        self.history_index
    }

    /// The number of messages sent.
    pub fn history_len(&self) -> (r: usize)
        ensures
            r == self@.history.len(),
    {
        self.history.len()
    }

    /// A message sent, oldest first, as text.
    pub fn history_entry(&self, i: usize) -> (r: String)
        requires
            i < self@.history.len(),
        ensures
            r@ == self@.history[i as int],
    {
        string_from_chars(self.history[i].as_slice())
    }

    /// The bytes that sending the draft writes: its UTF-8 encoding, then the
    /// line ending.
    pub fn outbound_bytes(&self, end_of_line: &[u8]) -> (r: Vec<u8>)
        ensures
            r@ == encode_utf8(self@.buffer) + end_of_line@,
    {
        let mut r = chars_bytes(self.buffer.as_slice());
        r.extend_from_slice(end_of_line);
        assert(r@ =~= encode_utf8(self@.buffer) + end_of_line@);
        r
    }

    pub fn insert(&mut self, c: char)
        requires
            old(self).wf(),
        ensures
            final(self)@ == insert_spec(old(self)@, c),
            final(self).wf(),
    {
        let len = self.buffer.len();
        match self.cursor {
            Some(p) => {
                assert(p < len);
                self.buffer.insert(p, c);
                self.cursor = Some(p + 1);
            },
            None => {
                self.buffer.push(c);
            },
        }
    }

    pub fn delete_backward(&mut self)
        requires
            old(self).wf(),
        ensures
            final(self)@ == delete_backward_spec(old(self)@),
            final(self).wf(),
    {
        match self.cursor {
            Some(p) => {
                if p > 0 {
                    self.buffer.remove(p - 1);
                    if p - 1 == self.buffer.len() {
                        self.cursor = None;
                    } else {
                        self.cursor = Some(p - 1);
                    }
                }
            },
            None => {
                self.buffer.pop();
                assert(self.buffer@ =~= delete_backward_spec(old(self)@).buffer);
            },
        }
    }

    pub fn delete_forward(&mut self)
        requires
            old(self).wf(),
        ensures
            final(self)@ == delete_forward_spec(old(self)@),
            final(self).wf(),
    {
        if let Some(p) = self.cursor {
            if p < self.buffer.len() {
                self.buffer.remove(p);
                if p == self.buffer.len() {
                    self.cursor = None;
                }
            }
        }
    }

    /// Removes the last word of the draft, and leaves the caret at the end.
    pub fn delete_word_backward(&mut self)
        requires
            old(self).wf(),
        ensures
            final(self)@ == delete_word_backward_spec(old(self)@),
            final(self).wf(),
    {
        let ghost s = self.buffer@;
        let mut n: usize = self.buffer.len();
        assert(s.subrange(0, n as int) =~= s);
        while n > 0 && self.buffer[n - 1].is_whitespace()
            invariant
                n <= self.buffer@.len(),
                self.buffer@ == s,
                trim_trailing_white_space(s) == trim_trailing_white_space(s.subrange(0, n as int)),
            decreases n,
        {
            assert(s.subrange(0, n as int).drop_last() =~= s.subrange(0, n - 1));
            n = n - 1;
        }
        let ghost t = s.subrange(0, n as int);
        assert(trim_trailing_white_space(t) == t);
        let mut k: usize = n;
        assert(t.subrange(0, k as int) =~= t);
        while k > 0 && !self.buffer[k - 1].is_whitespace()
            invariant
                k <= n <= self.buffer@.len(),
                self.buffer@ == s,
                t == s.subrange(0, n as int),
                last_white_space_or_start(t) == last_white_space_or_start(t.subrange(0, k as int)),
            decreases k,
        {
            assert(t.subrange(0, k as int).drop_last() =~= t.subrange(0, k - 1));
            k = k - 1;
        }
        let cut: usize = if k > 0 { k - 1 } else { 0 };
        assert(last_white_space_or_start(t.subrange(0, k as int)) == cut);
        self.buffer.truncate(cut);
        assert(self.buffer@ =~= t.subrange(0, cut as int));
        if self.buffer.len() > 0 {
            self.buffer.push(' ');
        }
        self.cursor = None;
    }

    pub fn move_left(&mut self)
        requires
            old(self).wf(),
        ensures
            final(self)@ == move_left_spec(old(self)@),
            final(self).wf(),
    {
        match self.cursor {
            Some(p) => {
                if p > 0 {
                    self.cursor = Some(p - 1);
                }
            },
            None => {
                if self.buffer.len() > 0 {
                    self.cursor = Some(self.buffer.len() - 1);
                }
            },
        }
    }

    pub fn move_right(&mut self)
        requires
            old(self).wf(),
        ensures
            final(self)@ == move_right_spec(old(self)@),
            final(self).wf(),
    {
        let len = self.buffer.len();
        if let Some(p) = self.cursor {
            assert(p < len);
            if p + 1 < len {
                self.cursor = Some(p + 1);
            } else {
                self.cursor = None;
            }
        }
    }

    pub fn move_home(&mut self)
        requires
            old(self).wf(),
        ensures
            final(self)@ == move_home_spec(old(self)@),
            final(self).wf(),
    {
        if self.buffer.len() > 0 {
            self.cursor = Some(0);
        }
    }

    pub fn move_end(&mut self)
        requires
            old(self).wf(),
        ensures
            final(self)@ == move_end_spec(old(self)@),
            final(self).wf(),
    {
        self.cursor = None;
    }

    /// Shows the message sent before the one shown, or the newest.
    pub fn recall_older(&mut self)
        requires
            old(self).wf(),
        ensures
            final(self)@ == recall_older_spec(old(self)@),
            final(self).wf(),
    {
        self.cursor = None;
        match self.history_index {
            Some(i) => {
                if i > 0 {
                    self.history_index = Some(i - 1);
                    self.buffer = copy_chars(&self.history[i - 1]);
                }
            },
            None => {
                let n = self.history.len();
                if n > 0 {
                    self.history_index = Some(n - 1);
                    let recalled = copy_chars(&self.history[n - 1]);
                    let mut draft = recalled;
                    core::mem::swap(&mut draft, &mut self.buffer);
                    self.draft = Some(draft);
                }
            },
        }
        assert(self@ =~= recall_older_spec(old(self)@));
    }

    /// Shows the message sent after the one shown, or the draft set aside.
    pub fn recall_newer(&mut self)
        requires
            old(self).wf(),
        ensures
            final(self)@ == recall_newer_spec(old(self)@),
            final(self).wf(),
    {
        self.cursor = None;
        let len = self.history.len();
        if let Some(i) = self.history_index {
            assert(i < len);
            if i + 1 < len {
                self.history_index = Some(i + 1);
                self.buffer = copy_chars(&self.history[i + 1]);
            } else {
                self.history_index = None;
                self.buffer = match self.draft.take() {
                    Some(d) => d,
                    None => Vec::new(),
                };
            }
        }
        assert(self@ =~= recall_newer_spec(old(self)@));
    }

    /// Records the draft as sent: it joins the history, and the draft and
    /// the caret are reset.
    pub fn commit_sent(&mut self)
        requires
            old(self).wf(),
        ensures
            final(self)@ == commit_sent_spec(old(self)@),
            final(self).wf(),
    {
        let mut sent: Vec<char> = Vec::new();
        core::mem::swap(&mut sent, &mut self.buffer);
        self.history.push(sent);
        self.history_index = None;
        self.cursor = None;
        assert(self@.history =~= commit_sent_spec(old(self)@).history);
    }
}

} // verus!
