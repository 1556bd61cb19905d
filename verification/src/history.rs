//! The shared clipboard state, in both of its forms: an ordered history of
//! distinct consecutive values, and a single last-observed value.

use vstd::prelude::*;

verus! {

/// Whether a freshly read clipboard text must be stored: always when the
/// history is empty, otherwise only when it differs from the last entry.
pub open spec fn should_append(h: Seq<Seq<char>>, v: Seq<char>) -> bool {
    h.len() == 0 || h.last() != v
}

/// The history after one successful clipboard read of `v`, given the history
/// `h` before it: `v` is appended exactly when it must be stored.
pub open spec fn step(h: Seq<Seq<char>>, v: Seq<char>) -> Seq<Seq<char>> {
    if should_append(h, v) {
        h.push(v)
    } else {
        h
    }
}

/// The history that results from observing the reads `obs`, in order,
/// starting from an empty history.
pub open spec fn collapse(obs: Seq<Seq<char>>) -> Seq<Seq<char>>
    decreases obs.len(),
{
    if obs.len() == 0 {
        Seq::empty()
    } else {
        step(collapse(obs.drop_last()), obs.last())
    }
}

/// No two adjacent entries of `h` are equal.
pub open spec fn no_adjacent_dups(h: Seq<Seq<char>>) -> bool {
    forall|i: int| 0 <= i < h.len() - 1 ==> #[trigger] h[i] != h[i + 1]
}

/// The history form of the clipboard state: an append-only, insertion-ordered
/// sequence of the distinct consecutive values the watcher observed.
pub struct ClipboardHistory {
    clipboard_history: Vec<String>,
}

impl View for ClipboardHistory {
    type V = Seq<Seq<char>>;

    closed spec fn view(&self) -> Seq<Seq<char>> {
        self.clipboard_history.deep_view()
    }
}

/// One successful read never breaks the history invariant: if `h` holds no
/// two adjacent equal entries, neither does `step(h, v)`.
pub proof fn lemma_step_preserves_no_adjacent_dups(h: Seq<Seq<char>>, v: Seq<char>)
    requires
        no_adjacent_dups(h),
    ensures
        no_adjacent_dups(step(h, v)),
{
    if should_append(h, v) {
        let h2 = h.push(v);
        assert forall|i: int| 0 <= i < h2.len() - 1 implies #[trigger] h2[i] != h2[i + 1] by {
            assert(h2[i] == h[i]);
            if i < h.len() - 1 {
                assert(h2[i + 1] == h[i + 1]);
            } else {
                assert(h2[i + 1] == v);
                assert(h[h.len() - 1] == h.last());
            }
        }
    }
}

impl ClipboardHistory {
    /// The state's invariant: consecutive duplicates are never stored. It is
    /// established by `new` and preserved by every mutation, so every history
    /// reachable through this interface satisfies it.
    pub open spec fn wf(&self) -> bool {
        no_adjacent_dups(self@)
    }

    /// An empty history, as the process starts with.
    pub fn new() -> (h: ClipboardHistory)
        ensures
            h@ == Seq::<Seq<char>>::empty(),
            h.wf(),
    {
        ClipboardHistory { clipboard_history: Vec::new() }
    }

    /// Whether a fresh read `content` would have to be stored, as the watcher
    /// asks under its read lock before it takes the write lock.
    pub fn needs_append(&self, content: &String) -> (b: bool)
        ensures
            b == should_append(self@, content@),
    {
        let n = self.clipboard_history.len();
        if n == 0 {
            true
        } else {
            !(self.clipboard_history[n - 1] == *content)
        }
    }

    /// Mirrors one successful clipboard read into the history: appends
    /// `content` when the history is empty or `content` differs from the last
    /// entry, and otherwise leaves the history unchanged. Returns whether an
    /// append happened.
    pub fn observe(&mut self, content: String) -> (appended: bool)
        requires
            old(self).wf(),
        ensures
            final(self)@ == step(old(self)@, content@),
            appended == should_append(old(self)@, content@),
            final(self).wf(),
    {
        proof {
            lemma_step_preserves_no_adjacent_dups(self@, content@);
        }
        let flag = self.needs_append(&content);
        if flag {
            self.clipboard_history.push(content);
            proof {
                assert(self@ =~= old(self)@.push(content@));
            }
        }
        flag
    }

    /// One iteration of the watcher's decision, with the read's outcome as it
    /// came back: a successful read is mirrored into the history, a failed
    /// read is swallowed and leaves the history untouched (the watcher then
    /// simply retries on its next turn).
    pub fn poll(&mut self, read: Option<String>) -> (appended: bool)
        requires
            old(self).wf(),
        ensures
            read matches Some(v) ==> final(self)@ == step(old(self)@, v@) && appended
                == should_append(old(self)@, v@),
            read is None ==> final(self)@ == old(self)@ && !appended,
            final(self).wf(),
    {
        match read {
            Some(content) => self.observe(content),
            None => false,
        }
    }

    /// A read-only snapshot: a copy of the entire ordered history.
    pub fn get_previous_content(&self) -> (r: Vec<String>)
        ensures
            r.deep_view() == self@,
    {
        let mut r: Vec<String> = Vec::new();
        let n = self.clipboard_history.len();
        let mut i: usize = 0;
        while i < n
            invariant
                i <= n,
                n == self.clipboard_history.len(),
                r@.len() == i,
                forall|j: int| 0 <= j < i ==> r@[j] == self.clipboard_history@[j],
            decreases n - i,
        {
            r.push(self.clipboard_history[i].clone());
            i += 1;
        }
        proof {
            assert forall|j: int| 0 <= j < n implies r.deep_view()[j] == self@[j] by {
                assert(r.deep_view()[j] == r@[j]@);
                assert(self@[j] == self.clipboard_history@[j]@);
            }
            assert(r.deep_view() =~= self@);
        }
        r
    }
}

/// The history invariant: whatever sequence of clipboard reads the watcher
/// saw, the history built from them holds no two adjacent equal entries.
pub proof fn lemma_history_no_adjacent_dups(obs: Seq<Seq<char>>)
    ensures
        no_adjacent_dups(collapse(obs)),
    decreases obs.len(),
{
    if obs.len() > 0 {
        lemma_history_no_adjacent_dups(obs.drop_last());
        lemma_step_preserves_no_adjacent_dups(collapse(obs.drop_last()), obs.last());
    }
}

/// The watcher's loop keeps the history equal to the adjacent-dedup of its
/// reads: if before an iteration the history equals `collapse` of the reads so
/// far — as it does at the start, when both are empty — then `observe`'s
/// contract (`step` of the old history) makes it equal `collapse` of the reads
/// extended by the new one.
pub proof fn lemma_collapse_unfold(obs: Seq<Seq<char>>, v: Seq<char>)
    ensures
        collapse(obs.push(v)) == step(collapse(obs), v),
{
    assert(obs.push(v).drop_last() =~= obs);
    assert(obs.push(v).last() == v);
}

/// The history keeps the order in which distinct values were observed: one
/// more read only ever extends the history at its end, so entries already
/// stored stay, in their places.
pub proof fn lemma_history_append_only(obs: Seq<Seq<char>>, v: Seq<char>)
    ensures
        collapse(obs).is_prefix_of(collapse(obs.push(v))),
{
    lemma_collapse_unfold(obs, v);
    let h = collapse(obs);
    if should_append(h, v) {
        assert(h =~= h.push(v).subrange(0, h.len() as int));
    } else {
        assert(h =~= h.subrange(0, h.len() as int));
    }
}

/// From an empty history, the very first observed value is always appended,
/// whether or not the text itself is empty.
pub proof fn lemma_first_observation_appended(h: Seq<Seq<char>>, v: Seq<char>)
    requires
        h.len() == 0,
    ensures
        should_append(h, v),
        step(h, v) == seq![v],
{
    assert(step(h, v) =~= seq![v]);
}

/// The value kept by the singleton form after one poll that read `v`, given
/// the value `cur` before it: `v` overwrites `cur` exactly when it differs.
pub open spec fn overwrite(cur: Seq<char>, v: Seq<char>) -> Seq<char> {
    if cur != v {
        v
    } else {
        cur
    }
}

/// The singleton form of the clipboard state: only the last observed
/// clipboard text is kept, initially empty.
pub struct PreviousClipboard {
    previous_clipboard: String,
}

impl View for PreviousClipboard {
    type V = Seq<char>;

    closed spec fn view(&self) -> Seq<char> {
        self.previous_clipboard@
    }
}

impl PreviousClipboard {
    /// An empty stored value, as the process starts with.
    pub fn new() -> (p: PreviousClipboard)
        ensures
            p@ == Seq::<char>::empty(),
    {
        PreviousClipboard { previous_clipboard: String::new() }
    }

    /// Mirrors one successful clipboard read into the stored value:
    /// overwrites it when `content` differs, and otherwise leaves it as it
    /// was — so afterwards it always equals `content`. Returns whether an
    /// overwrite happened.
    pub fn observe(&mut self, content: String) -> (overwritten: bool)
        ensures
            final(self)@ == content@,
            final(self)@ == overwrite(old(self)@, content@),
            overwritten == (old(self)@ != content@),
    {
        if !(self.previous_clipboard == content) {
            self.previous_clipboard = content;
            true
        } else {
            false
        }
    }

    /// A read-only snapshot: a copy of the current stored value.
    pub fn get_current(&self) -> (r: String)
        ensures
            r@ == self@,
    {
        self.previous_clipboard.clone()
    }
}

/// After observing `v1`, then a differing `v2`, then `v3` equal to `v2`, the
/// singleton store holds exactly `v2`: the repeated value is not written
/// again, whatever value `s0` the store held at the start.
pub proof fn lemma_singleton_settles(s0: Seq<char>, v1: Seq<char>, v2: Seq<char>, v3: Seq<char>)
    requires
        v2 != v1,
        v3 == v2,
    ensures
        overwrite(overwrite(overwrite(s0, v1), v2), v3) == v2,
{
}

} // verus!
