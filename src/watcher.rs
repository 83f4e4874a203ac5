use vstd::prelude::*;

use crate::types::ClipboardItem;

verus! {

/// Most text items kept by the clipboard watcher.
pub const TEXT_HISTORY_CAP: usize = 50;

/// Most items kept through the generic item entry point.
pub const ITEM_HISTORY_CAP: usize = 100;

/// `c` has the Unicode `White_Space` property.
pub open spec fn is_white_space(c: char) -> bool {
    let n = c as u32;
    ||| 0x09 <= n <= 0x0D
    ||| n == 0x20
    ||| n == 0x85
    ||| n == 0xA0
    ||| n == 0x1680
    ||| 0x2000 <= n <= 0x200A
    ||| n == 0x2028
    ||| n == 0x2029
    ||| n == 0x202F
    ||| n == 0x205F
    ||| n == 0x3000
}

/// `s` holds nothing but white space: trimming it leaves it empty.
pub open spec fn is_blank(s: Seq<char>) -> bool {
    forall|i: int| 0 <= i < s.len() ==> is_white_space(#[trigger] s[i])
}

/// The first `n` entries of `s`.
pub open spec fn cap(s: Seq<ClipboardItem>, n: nat) -> Seq<ClipboardItem> {
    if s.len() > n {
        s.subrange(0, n as int)
    } else {
        s
    }
}

/// The entries of `h` whose content differs from `content`.
pub open spec fn other_contents(h: Seq<ClipboardItem>, content: Seq<char>) -> Seq<ClipboardItem> {
    h.filter(|e: ClipboardItem| e.content@ != content)
}

/// The text history after a genuine local change to `item`: entries of the
/// same content are dropped, `item` comes first, and the oldest beyond the
/// cap are evicted.
pub open spec fn recorded(h: Seq<ClipboardItem>, item: ClipboardItem) -> Seq<ClipboardItem> {
    cap(seq![item] + other_contents(h, item.content@), TEXT_HISTORY_CAP as nat)
}

/// The history after `item` is added through the generic entry point.
pub open spec fn added(h: Seq<ClipboardItem>, item: ClipboardItem) -> Seq<ClipboardItem> {
    cap(seq![item] + h, ITEM_HISTORY_CAP as nat)
}

/// No two entries of `h` have the same content.
pub open spec fn distinct_contents(h: Seq<ClipboardItem>) -> bool {
    forall|i: int, j: int| 0 <= i < h.len() && 0 <= j < h.len() && i != j ==>
        #[trigger] h[i].content@ != #[trigger] h[j].content@
}

/// The watcher's state as values.
pub struct WatcherView {
    pub history: Seq<ClipboardItem>,
    pub last_seen: Seq<char>,
    pub monitoring: bool,
    pub suppress_next_change: bool,
}

impl WatcherView {
    /// The state after one tick that read `text`, and whether the tick saw a
    /// genuine local change.
    pub open spec fn observe_step(self, text: Seq<char>) -> (WatcherView, bool) {
        if self.suppress_next_change {
            (WatcherView { suppress_next_change: false, last_seen: text, ..self }, false)
        } else if text != self.last_seen && !is_blank(text) {
            (WatcherView { last_seen: text, ..self }, true)
        } else {
            (self, false)
        }
    }

    /// The state after one tick: nothing happens while monitoring is off or
    /// when the clipboard could not be read.
    pub open spec fn tick_step(self, read: Option<Seq<char>>) -> (WatcherView, bool) {
        if !self.monitoring {
            (self, false)
        } else {
            match read {
                Some(text) => self.observe_step(text),
                None => (self, false),
            }
        }
    }

    /// The state once an inbound sync of `incoming` is about to be written,
    /// `current` being what the clipboard held (if it could be read), and
    /// whether it is written at all.
    pub open spec fn inbound_step(self, current: Option<Seq<char>>, incoming: Seq<char>) -> (WatcherView, bool) {
        let write = match current {
            Some(c) => c != incoming,
            None => true,
        };
        if write {
            (WatcherView { suppress_next_change: true, ..self }, true)
        } else {
            (self, false)
        }
    }
}

/// Decides whether a character is white space.
pub fn is_white_space_char(c: char) -> (r: bool)
    ensures
        r == is_white_space(c),
{
    let n = c as u32;
    (0x09 <= n && n <= 0x0D) || n == 0x20 || n == 0x85 || n == 0xA0 || n == 0x1680 || (0x2000 <= n
        && n <= 0x200A) || n == 0x2028 || n == 0x2029 || n == 0x202F || n == 0x205F || n == 0x3000
}

/// Decides whether a text is blank.
pub fn is_blank_text(s: &str) -> (r: bool)
    ensures
        r == is_blank(s@),
{
    let mut blank = true;
    for c in it: s.chars()
        invariant
            it.seq() == s@,
            blank == (forall|i: int| 0 <= i < it.index() ==> is_white_space(#[trigger] s@[i])),
    {
        let w = is_white_space_char(c);
        proof {
            if !w {
                assert(!is_white_space(s@[it.index() as int]));
            }
        }
        blank = blank && w;
    }
    blank
}


/// The entries of `h` whose id differs from `id`.
pub open spec fn other_ids(h: Seq<ClipboardItem>, id: Seq<char>) -> Seq<ClipboardItem> {
    h.filter(|e: ClipboardItem| e.id@ != id)
}

/// Copies the entries of `h` whose content differs from `content`.
fn keep_other_contents(h: &Vec<ClipboardItem>, content: &String) -> (r: Vec<ClipboardItem>)
    ensures
        r@ == other_contents(h@, content@),
{
    let ghost p = |e: ClipboardItem| e.content@ != content@;
    let mut r: Vec<ClipboardItem> = Vec::new();
    let mut i: usize = 0;
    while i < h.len()
        invariant
            i <= h@.len(),
            p == (|e: ClipboardItem| e.content@ != content@),
            r@ == h@.subrange(0, i as int).filter(p),
        decreases h@.len() - i,
    {
        proof {
            assert(h@.subrange(0, i + 1).drop_last() =~= h@.subrange(0, i as int));
            reveal(Seq::filter);
        }
        if h[i].content != *content {
            r.push(h[i].clone());
        }
        assert(h@.subrange(0, i + 1).last() == h@[i as int]);
        i = i + 1;
    }
    assert(h@.subrange(0, h@.len() as int) =~= h@);
    r
}

/// Copies the entries of `h` whose id differs from `id`.
fn keep_other_ids(h: &Vec<ClipboardItem>, id: &String) -> (r: Vec<ClipboardItem>)
    ensures
        r@ == other_ids(h@, id@),
{
    let ghost p = |e: ClipboardItem| e.id@ != id@;
    let mut r: Vec<ClipboardItem> = Vec::new();
    let mut i: usize = 0;
    while i < h.len()
        invariant
            i <= h@.len(),
            p == (|e: ClipboardItem| e.id@ != id@),
            r@ == h@.subrange(0, i as int).filter(p),
        decreases h@.len() - i,
    {
        proof {
            assert(h@.subrange(0, i + 1).drop_last() =~= h@.subrange(0, i as int));
            reveal(Seq::filter);
        }
        if h[i].id != *id {
            r.push(h[i].clone());
        }
        assert(h@.subrange(0, i + 1).last() == h@[i as int]);
        i = i + 1;
    }
    assert(h@.subrange(0, h@.len() as int) =~= h@);
    r
}

/// The clipboard side of a node: the in-memory history, the last text seen
/// on the clipboard, whether monitoring is on, and the flag that keeps a
/// text written by an inbound sync from being taken for a local change.
pub struct ClipboardWatcher {
    history: Vec<ClipboardItem>,
    last_seen: String,
    monitoring: bool,
    suppress_next_change: bool,
}

impl View for ClipboardWatcher {
    type V = WatcherView;

    closed spec fn view(&self) -> WatcherView {
        WatcherView {
            history: self.history@,
            last_seen: self.last_seen@,
            monitoring: self.monitoring,
            suppress_next_change: self.suppress_next_change,
        }
    }
}

impl ClipboardWatcher {
    /// A watcher that monitors, starting from the stored `history`.
    pub fn new(history: Vec<ClipboardItem>) -> (r: Self)
        ensures
            r@ == (WatcherView {
                history: history@,
                last_seen: Seq::empty(),
                monitoring: true,
                suppress_next_change: false,
            }),
    {
        ClipboardWatcher { history, last_seen: String::new(), monitoring: true, suppress_next_change: false }
    }

    /// One polling tick: `read` is the clipboard's text, or `None` where it
    /// could not be read. Says whether the text is a genuine local change.
    pub fn tick(&mut self, read: &Option<String>) -> (genuine: bool)
        ensures
            (final(self)@, genuine) == old(self)@.tick_step(
                match *read {
                    Some(t) => Some(t@),
                    None => None,
                },
            ),
    {
        if !self.monitoring {
            return false;
        }
        match read {
            Some(text) => {
                if self.suppress_next_change {
                    self.suppress_next_change = false;
                    self.last_seen = text.clone();
                    false
                } else if *text != self.last_seen && !is_blank_text(text.as_str()) {
                    self.last_seen = text.clone();
                    true
                } else {
                    false
                }
            },
            None => false,
        }
    }

    /// Puts a text item first in the history, dropping entries of the same
    /// content and evicting the oldest beyond the cap.
    pub fn record_local_change(&mut self, item: ClipboardItem)
        ensures
            final(self)@ == (WatcherView { history: recorded(old(self)@.history, item), ..old(self)@ }),
    {
        let mut h = keep_other_contents(&self.history, &item.content);
        h.insert(0, item);
        let ghost h1 = h@;
        h.truncate(TEXT_HISTORY_CAP);
        assert(h@ =~= cap(h1, TEXT_HISTORY_CAP as nat));
        assert(seq![item] + other_contents(old(self)@.history, item.content@) =~= other_contents(
            old(self)@.history,
            item.content@,
        ).insert(0, item));
        self.history = h;
    }

    /// Puts `item` first in the history, evicting the oldest beyond the
    /// generic cap.
    pub fn add_clipboard_item(&mut self, item: ClipboardItem)
        ensures
            final(self)@ == (WatcherView { history: added(old(self)@.history, item), ..old(self)@ }),
    {
        let ghost h0 = self.history@;
        self.history.insert(0, item);
        assert(seq![item] + h0 =~= h0.insert(0, item));
        let ghost h1 = self.history@;
        self.history.truncate(ITEM_HISTORY_CAP);
        assert(self.history@ =~= cap(h1, ITEM_HISTORY_CAP as nat));
    }

    /// Drops the entries whose id is `id`.
    pub fn delete_clipboard_item(&mut self, id: &String)
        ensures
            final(self)@ == (WatcherView { history: other_ids(old(self)@.history, id@), ..old(self)@ }),
    {
        self.history = keep_other_ids(&self.history, id);
    }

    /// Empties the history.
    pub fn clear_clipboard_history(&mut self)
        ensures
            final(self)@ == (WatcherView { history: Seq::empty(), ..old(self)@ }),
    {
        self.history.clear();
        assert(self@.history =~= Seq::<ClipboardItem>::empty());
    }

    pub fn clipboard_history(&self) -> (r: Vec<ClipboardItem>)
        ensures
            r@ == self@.history,
    {
        self.history.clone()
    }

    /// Switches monitoring on or off; gives the new setting.
    pub fn toggle_monitoring(&mut self) -> (enabled: bool)
        ensures
            enabled == !old(self)@.monitoring,
            final(self)@ == (WatcherView { monitoring: enabled, ..old(self)@ }),
    {
        self.monitoring = !self.monitoring;
        self.monitoring
    }

    pub fn is_monitoring_enabled(&self) -> (r: bool)
        ensures
            r == self@.monitoring,
    {
        self.monitoring
    }

    /// Marks the next clipboard change as one this node makes itself.
    pub fn suppress_next_change(&mut self)
        ensures
            final(self)@ == (WatcherView { suppress_next_change: true, ..old(self)@ }),
    {
        self.suppress_next_change = true;
    }

    /// Decides whether an inbound `incoming` text is written to the
    /// clipboard, `current` being what it holds (or `None` where it could not
    /// be read). Where it is, the next change is marked first, so that the
    /// watcher does not take the write for a local change.
    pub fn prepare_inbound_write(&mut self, current: &Option<String>, incoming: &String) -> (write: bool)
        ensures
            (final(self)@, write) == old(self)@.inbound_step(
                match current {
                    Some(t) => Some(t@),
                    None => None,
                },
                incoming@,
            ),
    {
        let write = match current {
            Some(c) => *c != *incoming,
            None => true,
        };
        if write {
            self.suppress_next_change = true;
        }
        write
    }
}

} // verus!
