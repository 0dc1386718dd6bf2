use vstd::prelude::*;

verus! {

/// How long, in milliseconds, a message stays in the feed.
pub const LOG_WINDOW_MS: u64 = 5000;

/// How many of the surviving messages are shown at once.
pub const LOG_VISIBLE: usize = 3;

/// One message of the feed, stamped with the frame time (in milliseconds) at
/// which it was drained.
#[derive(Debug)]
pub struct LogEntry {
    pub time_ms: u64,
    pub message: String,
}

/// A message is kept while it is younger than the window.
pub open spec fn alive(e: LogEntry, now: u64) -> bool {
    now < e.time_ms + LOG_WINDOW_MS
}

/// The entries of `s` that are still alive at `now`, in their order.
pub open spec fn surviving(s: Seq<LogEntry>, now: u64) -> Seq<LogEntry> {
    s.filter(|e: LogEntry| alive(e, now))
}

/// The messages stamped with `now`, in the order they were sent.
pub open spec fn stamped(msgs: Seq<String>, now: u64) -> Seq<LogEntry> {
    msgs.map_values(|m: String| LogEntry { time_ms: now, message: m })
}

/// The feed after one frame: the frame's messages are appended, stamped with
/// the frame time, and every entry that has outlived the window is dropped.
pub open spec fn after_frame(s: Seq<LogEntry>, now: u64, msgs: Seq<String>) -> Seq<LogEntry> {
    surviving(s + stamped(msgs, now), now)
}

/// What the feed shows: the last (at most three) surviving entries, oldest first.
pub open spec fn shown(s: Seq<LogEntry>) -> Seq<LogEntry> {
    if s.len() <= LOG_VISIBLE {
        s
    } else {
        s.subrange(s.len() - LOG_VISIBLE, s.len() as int)
    }
}

/// The transient message ticker.
pub struct LogFeed {
    pub entries: Vec<LogEntry>,
}

impl LogFeed {
    pub fn new() -> (r: LogFeed)
        ensures
            r.entries@.len() == 0,
    {
        LogFeed { entries: Vec::new() }
    }

    /// Drains one frame's messages into the feed and prunes what has expired.
    pub fn end_frame(&mut self, now: u64, msgs: Vec<String>)
        ensures
            final(self).entries@ == after_frame(old(self).entries@, now, msgs@),
    {
        let mut all: Vec<LogEntry> = Vec::new();
        let mut i: usize = 0;
        while i < self.entries.len()
            invariant
                i <= self.entries@.len(),
                all@ == self.entries@.subrange(0, i as int),
            decreases self.entries@.len() - i,
        {
            all.push(self.entries[i].clone_entry());
            assert(self.entries@.subrange(0, i + 1) == self.entries@.subrange(0, i as int).push(
                self.entries@[i as int],
            ));
            i = i + 1;
        }
        assert(self.entries@.subrange(0, i as int) == self.entries@);
        let ghost base = all@;
        let mut j: usize = 0;
        while j < msgs.len()
            invariant
                j <= msgs@.len(),
                all@ == base + stamped(msgs@.subrange(0, j as int), now),
            decreases msgs@.len() - j,
        {
            all.push(LogEntry { time_ms: now, message: msgs[j].clone() });
            assert(stamped(msgs@.subrange(0, j + 1), now) == stamped(
                msgs@.subrange(0, j as int),
                now,
            ).push(LogEntry { time_ms: now, message: msgs@[j as int] }));
            j = j + 1;
        }
        assert(msgs@.subrange(0, j as int) == msgs@);
        let mut kept: Vec<LogEntry> = Vec::new();
        let mut k: usize = 0;
        while k < all.len()
            invariant
                k <= all@.len(),
                kept@ == surviving(all@.subrange(0, k as int), now),
            decreases all@.len() - k,
        {
            let e = all[k].clone_entry();
            let keep = if e.time_ms > now {
                true
            } else {
                now - e.time_ms < LOG_WINDOW_MS
            };
            proof {
                let s = all@.subrange(0, k + 1);
                assert(s.drop_last() == all@.subrange(0, k as int));
                assert(s.last() == all@[k as int]);
                reveal(Seq::filter);
            }
            if keep {
                kept.push(e);
            }
            k = k + 1;
        }
        assert(all@.subrange(0, k as int) == all@);
        self.entries = kept;
    }

    /// The entries to draw this frame, oldest first.
    pub fn visible(&self) -> (r: Vec<String>)
        ensures
            r@.len() == shown(self.entries@).len(),
            forall|i: int| 0 <= i < r@.len() ==> r@[i] == #[trigger] shown(self.entries@)[i].message,
    {
        let n = self.entries.len();
        let start: usize = if n <= LOG_VISIBLE {
            0
        } else {
            n - LOG_VISIBLE
        };
        let mut r: Vec<String> = Vec::new();
        let mut i: usize = start;
        while i < n
            invariant
                start <= i <= n,
                n == self.entries@.len(),
                start == (if n <= LOG_VISIBLE { 0 } else { n - LOG_VISIBLE }),
                r@.len() == i - start,
                forall|j: int|
                    0 <= j < r@.len() ==> r@[j] == #[trigger] self.entries@[start + j].message,
            decreases n - i,
        {
            r.push(self.entries[i].message.clone());
            i = i + 1;
        }
        assert forall|j: int| 0 <= j < r@.len() implies r@[j] == #[trigger] shown(
            self.entries@,
        )[j].message by {
            assert(shown(self.entries@)[j] == self.entries@[start + j]);
        }
        r
    }
}

impl LogEntry {
    pub fn clone_entry(&self) -> (r: LogEntry)
        ensures
            r == *self,
    {
        LogEntry { time_ms: self.time_ms, message: self.message.clone() }
    }
}

/// A message drained at time `t` is still in the feed 4.9 s later, and is the
/// newest entry shown when no other message came since; 5.1 s later it is gone.
pub proof fn lemma_entry_lifetime(s: Seq<LogEntry>, t: u64, m: String)
    requires
        t + 5100 <= u64::MAX,
    ensures
        ({
            let f1 = after_frame(s, t, seq![m]);
            let f2 = after_frame(f1, (t + 4900) as u64, seq![]);
            let f3 = after_frame(f2, (t + 5100) as u64, seq![]);
            &&& f2.contains(LogEntry { time_ms: t, message: m })
            &&& shown(f2).last() == LogEntry { time_ms: t, message: m }
            &&& !f3.contains(LogEntry { time_ms: t, message: m })
        }),
{
    let e = LogEntry { time_ms: t, message: m };
    let f1 = after_frame(s, t, seq![m]);
    let t2 = (t + 4900) as u64;
    let t3 = (t + 5100) as u64;
    let f2 = after_frame(f1, t2, seq![]);
    let f3 = after_frame(f2, t3, seq![]);
    assert(stamped(seq![m], t) == seq![e]);
    assert(stamped(Seq::<String>::empty(), t2) == Seq::<LogEntry>::empty());
    assert(stamped(Seq::<String>::empty(), t3) == Seq::<LogEntry>::empty());
    assert(s + seq![e] == (s + Seq::<LogEntry>::empty()).push(e));
    lemma_filter_push_kept(s, e, t);
    assert(f1 == surviving(s, t).push(e));
    assert(f1 + Seq::<LogEntry>::empty() == f1);
    lemma_filter_push_kept(surviving(s, t), e, t2);
    assert(f2 == surviving(surviving(s, t), t2).push(e));
    assert(f2.last() == e);
    assert(f2[f2.len() - 1] == e);
    assert(f2.contains(e));
    assert(f2 + Seq::<LogEntry>::empty() == f2);
    assert(shown(f2).last() == e);
    if f3.contains(e) {
        let k = choose|k: int| 0 <= k < f3.len() && f3[k] == e;
        broadcast use vstd::seq_lib::group_filter_ensures;

        assert(alive(f3[k], t3));
    }
}

proof fn lemma_filter_push_kept(s: Seq<LogEntry>, e: LogEntry, now: u64)
    requires
        alive(e, now),
    ensures
        surviving(s.push(e), now) == surviving(s, now).push(e),
{
    reveal(Seq::filter);
    assert(s.push(e).drop_last() == s);
}

/// Whatever frames come between: an entry still younger than the window
/// survives a frame.
pub proof fn lemma_retained(s: Seq<LogEntry>, now: u64, msgs: Seq<String>, e: LogEntry)
    requires
        s.contains(e),
        alive(e, now),
    ensures
        after_frame(s, now, msgs).contains(e),
{
    broadcast use vstd::seq_lib::group_filter_ensures;

    let all = s + stamped(msgs, now);
    let k = choose|k: int| 0 <= k < s.len() && s[k] == e;
    assert(all[k] == e);
    assert(all.contains(e));
}

/// An entry as old as the window or older is gone after any frame.
pub proof fn lemma_expired(s: Seq<LogEntry>, now: u64, msgs: Seq<String>, e: LogEntry)
    requires
        !alive(e, now),
    ensures
        !after_frame(s, now, msgs).contains(e),
{
    broadcast use vstd::seq_lib::group_filter_ensures;

    let f = after_frame(s, now, msgs);
    if f.contains(e) {
        let k = choose|k: int| 0 <= k < f.len() && f[k] == e;
        assert(alive(f[k], now));
    }
}

/// Every message drained in a frame is in the feed after it, stamped with
/// that frame's time.
pub proof fn lemma_drained(s: Seq<LogEntry>, now: u64, msgs: Seq<String>, i: int)
    requires
        0 <= i < msgs.len(),
    ensures
        after_frame(s, now, msgs).contains(LogEntry { time_ms: now, message: msgs[i] }),
{
    broadcast use vstd::seq_lib::group_filter_ensures;

    let e = LogEntry { time_ms: now, message: msgs[i] };
    let all = s + stamped(msgs, now);
    assert(all[s.len() + i] == e);
    assert(all.contains(e));
    assert(alive(e, now));
}

/// An entry with fewer than three entries after it is drawn.
pub proof fn lemma_shown_tail(f: Seq<LogEntry>, i: int)
    requires
        0 <= i < f.len(),
        f.len() - i <= LOG_VISIBLE,
    ensures
        shown(f).contains(f[i]),
{
    if f.len() <= LOG_VISIBLE {
        assert(shown(f)[i] == f[i]);
    } else {
        let j = i - (f.len() - LOG_VISIBLE);
        assert(shown(f)[j] == f[i]);
    }
}

} // verus!
