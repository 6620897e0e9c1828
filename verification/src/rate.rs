//! Sliding-window rate limiting: per-username timestamp windows, purged
//! lazily on every admission check, capped strictly within any trailing
//! window. An explicitly constructed instance is shared by all requests.

use vstd::prelude::*;

use crate::text::str_eq;

verus! {

/// Length of the trailing admission window, in milliseconds.
pub const RATE_WINDOW_MS: u64 = 60000;

/// Largest number of requests admitted within one window.
pub const RATE_MAX_REQUESTS: usize = 100;

/// Whether a request stamped `t` still counts against the window ending at
/// `now`. A stamp from the future (a non-monotonic clock) is kept.
pub open spec fn in_window(t: u64, now: u64) -> bool {
    now - t < RATE_WINDOW_MS
}

/// The window with every stamp older than the window dropped, order kept.
pub open spec fn spec_purge(w: Seq<u64>, now: u64) -> Seq<u64>
    decreases w.len(),
{
    if w.len() == 0 {
        Seq::empty()
    } else {
        let rest = spec_purge(w.drop_last(), now);
        if in_window(w.last(), now) {
            rest.push(w.last())
        } else {
            rest
        }
    }
}

/// Whether a caller with window `w` is turned away at `now`.
pub open spec fn spec_limited(w: Seq<u64>, now: u64) -> bool {
    spec_purge(w, now).len() >= RATE_MAX_REQUESTS
}

/// The window after one admission check at `now`: purged, and extended by
/// the new stamp exactly when the request was admitted.
pub open spec fn spec_rate_step(w: Seq<u64>, now: u64) -> Seq<u64> {
    if spec_limited(w, now) {
        spec_purge(w, now)
    } else {
        spec_purge(w, now).push(now)
    }
}

/// Recorded request stamps of one username.
pub struct RateEntry {
    pub username: String,
    pub stamps: Vec<u64>,
}

/// Index of the first entry carrying `username`.
pub open spec fn spec_entry_index(entries: Seq<RateEntry>, username: Seq<char>) -> Option<int>
    decreases entries.len(),
{
    if entries.len() == 0 {
        None
    } else if entries[0].username@ == username {
        Some(0int)
    } else {
        match spec_entry_index(entries.drop_first(), username) {
            Some(i) => Some(i + 1),
            None => None,
        }
    }
}

/// Per-identity sliding-window counter deciding admission.
pub struct RateLimiter {
    pub entries: Vec<RateEntry>,
}

impl RateLimiter {
    /// No two entries carry the same username.
    pub open spec fn wf(&self) -> bool {
        forall|i: int, j: int|
            0 <= i < j < self.entries@.len() ==> self.entries@[i].username@
                != self.entries@[j].username@
    }

    /// The stamp window recorded for `username`; empty when the username
    /// was never seen.
    pub open spec fn window_of(&self, username: Seq<char>) -> Seq<u64> {
        match spec_entry_index(self.entries@, username) {
            Some(i) => self.entries@[i].stamps@,
            None => Seq::empty(),
        }
    }

    /// A limiter that has seen no request.
    pub fn new() -> (r: RateLimiter)
        ensures
            r.wf(),
            forall|u: Seq<char>| r.window_of(u) == Seq::<u64>::empty(),
    {
        RateLimiter { entries: Vec::new() }
    }

    /// Index of the entry carrying `username`, if one exists.
    fn find_entry(&self, username: &str) -> (r: Option<usize>)
        ensures
            match r {
                Some(i) => {
                    &&& i < self.entries@.len()
                    &&& self.entries@[i as int].username@ == username@
                    &&& forall|j: int| 0 <= j < i ==> self.entries@[j].username@ != username@
                    &&& spec_entry_index(self.entries@, username@) == Some(i as int)
                },
                None => {
                    &&& forall|j: int|
                        0 <= j < self.entries@.len() ==> self.entries@[j].username@ != username@
                    &&& spec_entry_index(self.entries@, username@) is None
                },
            },
    {
        let mut i: usize = 0;
        while i < self.entries.len()
            invariant
                0 <= i <= self.entries@.len(),
                forall|j: int| 0 <= j < i ==> self.entries@[j].username@ != username@,
            decreases self.entries@.len() - i,
        {
            if str_eq(self.entries[i].username.as_str(), username) {
                proof {
                    lemma_entry_index_agrees(self.entries@, username@, i as int);
                }
                return Some(i);
            }
            i = i + 1;
        }
        proof {
            lemma_entry_index_none(self.entries@, username@);
        }
        None
    }

    /// One admission check for `username` at time `now_ms`: stamps older
    /// than the window are purged; if the remaining count has reached the
    /// cap the request is turned away without being recorded, otherwise
    /// the new stamp is appended. Windows of other usernames are untouched.
    pub fn is_rate_limited(&mut self, username: &str, now_ms: u64) -> (limited: bool)
        requires
            old(self).wf(),
        ensures
            final(self).wf(),
            limited == spec_limited(old(self).window_of(username@), now_ms),
            final(self).window_of(username@) == spec_rate_step(
                old(self).window_of(username@),
                now_ms,
            ),
            forall|u: Seq<char>| u != username@ ==> final(self).window_of(u) == old(
                self,
            ).window_of(u),
    {
        let ghost w0 = old(self).window_of(username@);
        let idx: usize;
        match self.find_entry(username) {
            Some(i) => {
                idx = i;
            },
            None => {
                idx = self.entries.len();
                let owned: String = username.to_owned();
                self.entries.push(RateEntry { username: owned, stamps: Vec::new() });
                proof {
                    lemma_entry_index_agrees(self.entries@, username@, idx as int);
                    assert(self.entries@[idx as int].stamps@ =~= w0);
                    assert forall|u: Seq<char>| u != username@ implies self.window_of(u) == old(
                        self,
                    ).window_of(u) by {
                        lemma_entry_index_push_other(old(self).entries@, self.entries@[idx as int], u);
                        lemma_entry_index_characterizes(old(self).entries@, u);
                    }
                }
            },
        }
        proof {
            assert(self.wf());
            assert(spec_entry_index(self.entries@, username@) == Some(idx as int));
            assert(self.entries@[idx as int].stamps@ == w0);
        }
        let ghost mid = *self;

        // Purge: keep exactly the stamps still inside the trailing window.
        let ghost orig = self.entries@[idx as int].stamps@;
        let mut kept: Vec<u64> = Vec::new();
        let mut i: usize = 0;
        while i < self.entries[idx].stamps.len()
            invariant
                *self == mid,
                idx < self.entries@.len(),
                orig == self.entries@[idx as int].stamps@,
                0 <= i <= orig.len(),
                kept@ == spec_purge(orig.subrange(0, i as int), now_ms),
            decreases orig.len() - i,
        {
            let t: u64 = self.entries[idx].stamps[i];
            proof {
                assert(orig.subrange(0, i + 1).drop_last() =~= orig.subrange(0, i as int));
                assert(orig.subrange(0, i + 1).last() == t);
            }
            if t >= now_ms || now_ms - t < RATE_WINDOW_MS {
                kept.push(t);
            }
            i = i + 1;
        }
        proof {
            assert(orig.subrange(0, orig.len() as int) =~= orig);
            assert(kept@ == spec_purge(w0, now_ms));
        }

        let limited = kept.len() >= RATE_MAX_REQUESTS;
        if !limited {
            kept.push(now_ms);
        }
        let ghost entry_before = self.entries@[idx as int];
        self.entries[idx].stamps = kept;
        proof {
            assert(self.entries@ == mid.entries@.update(
                idx as int,
                RateEntry { username: entry_before.username, stamps: self.entries@[idx as int].stamps },
            ));
            assert forall|k: int| 0 <= k < self.entries@.len() implies self.entries@[k].username@
                == mid.entries@[k].username@ by {}
            lemma_entry_index_same_usernames(mid.entries@, self.entries@, username@);
            assert(spec_entry_index(self.entries@, username@) == Some(idx as int));
            assert(self.window_of(username@) == spec_rate_step(w0, now_ms));
            assert forall|u: Seq<char>| u != username@ implies self.window_of(u) == mid.window_of(
                u,
            ) by {
                lemma_entry_index_same_usernames(mid.entries@, self.entries@, u);
                if spec_entry_index(mid.entries@, u) is Some {
                    let j = spec_entry_index(mid.entries@, u)->Some_0;
                    lemma_entry_index_characterizes(mid.entries@, u);
                    assert(j != idx as int);
                }
            }
        }
        limited
    }
}

/// A username match at `i` with no earlier match forces the entry index.
proof fn lemma_entry_index_agrees(entries: Seq<RateEntry>, username: Seq<char>, i: int)
    requires
        0 <= i < entries.len(),
        entries[i].username@ == username,
        forall|j: int| 0 <= j < i ==> entries[j].username@ != username,
    ensures
        spec_entry_index(entries, username) == Some(i),
    decreases entries.len(),
{
    if i > 0 {
        assert(forall|j: int|
            0 <= j < entries.drop_first().len() ==> entries.drop_first()[j] == entries[j + 1]);
        lemma_entry_index_agrees(entries.drop_first(), username, i - 1);
    }
}

/// When no entry carries the username, lookup yields nothing.
proof fn lemma_entry_index_none(entries: Seq<RateEntry>, username: Seq<char>)
    requires
        forall|j: int| 0 <= j < entries.len() ==> entries[j].username@ != username,
    ensures
        spec_entry_index(entries, username) is None,
    decreases entries.len(),
{
    if entries.len() > 0 {
        assert(forall|j: int|
            0 <= j < entries.drop_first().len() ==> entries.drop_first()[j] == entries[j + 1]);
        lemma_entry_index_none(entries.drop_first(), username);
    }
}

/// What a resolved entry index means: a match there, none earlier.
proof fn lemma_entry_index_characterizes(entries: Seq<RateEntry>, username: Seq<char>)
    ensures
        match spec_entry_index(entries, username) {
            Some(i) => 0 <= i < entries.len() && entries[i].username@ == username && forall|
                j: int,
            | 0 <= j < i ==> entries[j].username@ != username,
            None => forall|j: int| 0 <= j < entries.len() ==> entries[j].username@ != username,
        },
    decreases entries.len(),
{
    if entries.len() > 0 && entries[0].username@ != username {
        let rest = entries.drop_first();
        assert(forall|j: int| 0 <= j < rest.len() ==> rest[j] == entries[j + 1]);
        lemma_entry_index_characterizes(rest, username);
        match spec_entry_index(rest, username) {
            Some(i) => {
                assert(entries[i + 1].username@ == username);
                assert forall|j: int| 0 <= j < i + 1 implies entries[j].username@ != username by {
                    if j > 0 {
                        assert(rest[j - 1] == entries[j]);
                    }
                }
            },
            None => {
                assert forall|j: int|
                    0 <= j < entries.len() implies entries[j].username@ != username by {
                    if j > 0 {
                        assert(rest[j - 1] == entries[j]);
                    }
                }
            },
        }
    }
}

/// Appending an entry with a different username leaves a lookup unchanged.
proof fn lemma_entry_index_push_other(entries: Seq<RateEntry>, pushed: RateEntry, u: Seq<char>)
    requires
        pushed.username@ != u,
    ensures
        spec_entry_index(entries.push(pushed), u) == spec_entry_index(entries, u),
    decreases entries.len(),
{
    if entries.len() == 0 {
        assert(entries.push(pushed).drop_first() =~= entries);
    } else {
        assert(entries.push(pushed).drop_first() =~= entries.drop_first().push(pushed));
        lemma_entry_index_push_other(entries.drop_first(), pushed, u);
    }
}

/// Two entry sequences with the same usernames in the same order resolve
/// every username to the same index.
proof fn lemma_entry_index_same_usernames(e1: Seq<RateEntry>, e2: Seq<RateEntry>, u: Seq<char>)
    requires
        e1.len() == e2.len(),
        forall|k: int| 0 <= k < e1.len() ==> e1[k].username@ == e2[k].username@,
    ensures
        spec_entry_index(e1, u) == spec_entry_index(e2, u),
    decreases e1.len(),
{
    if e1.len() > 0 {
        assert(forall|j: int| 0 <= j < e1.drop_first().len() ==> e1.drop_first()[j] == e1[j + 1]);
        assert(forall|j: int| 0 <= j < e2.drop_first().len() ==> e2.drop_first()[j] == e2[j + 1]);
        lemma_entry_index_same_usernames(e1.drop_first(), e2.drop_first(), u);
    }
}

/// Every stamp the purge keeps is inside the window.
pub proof fn lemma_purge_in_window(w: Seq<u64>, now: u64)
    ensures
        forall|i: int|
            0 <= i < spec_purge(w, now).len() ==> in_window(#[trigger] spec_purge(w, now)[i], now),
    decreases w.len(),
{
    if w.len() > 0 {
        lemma_purge_in_window(w.drop_last(), now);
        let rest = spec_purge(w.drop_last(), now);
        let p = spec_purge(w, now);
        assert forall|i: int| 0 <= i < p.len() implies in_window(#[trigger] p[i], now) by {
            if in_window(w.last(), now) {
                assert(p == rest.push(w.last()));
                if i < rest.len() {
                    assert(p[i] == rest[i]);
                }
            } else {
                assert(p == rest);
            }
        }
    }
}

/// Purging a window whose stamps all lie inside the window changes nothing.
pub proof fn lemma_purge_all_in_window(w: Seq<u64>, now: u64)
    requires
        forall|i: int| 0 <= i < w.len() ==> in_window(#[trigger] w[i], now),
    ensures
        spec_purge(w, now) == w,
    decreases w.len(),
{
    if w.len() > 0 {
        assert(forall|i: int|
            0 <= i < w.drop_last().len() ==> in_window(#[trigger] w.drop_last()[i], now));
        lemma_purge_all_in_window(w.drop_last(), now);
        assert(spec_purge(w, now) =~= w);
    }
}

/// Purging twice at the same instant is purging once.
pub proof fn lemma_purge_idempotent(w: Seq<u64>, now: u64)
    ensures
        spec_purge(spec_purge(w, now), now) == spec_purge(w, now),
{
    lemma_purge_in_window(w, now);
    lemma_purge_all_in_window(spec_purge(w, now), now);
}

/// Law: while fewer than the cap of a caller's stamps lie within the
/// trailing window, its next request is admitted and recorded.
pub proof fn lemma_admitted_while_under_cap(w: Seq<u64>, now: u64)
    requires
        spec_purge(w, now).len() < RATE_MAX_REQUESTS,
    ensures
        !spec_limited(w, now),
        spec_rate_step(w, now) == spec_purge(w, now).push(now),
{
}

/// Law: once the cap of requests has been admitted within the trailing
/// window — as after the hundred-and-first arrives while a hundred stamps
/// are still current — the next request is turned away and not recorded.
pub proof fn lemma_limited_at_cap(w: Seq<u64>, now: u64)
    requires
        w.len() >= RATE_MAX_REQUESTS,
        forall|i: int| 0 <= i < w.len() ==> in_window(#[trigger] w[i], now),
    ensures
        spec_limited(w, now),
        spec_rate_step(w, now) == w,
{
    lemma_purge_all_in_window(w, now);
}

/// The windows a fresh caller's window passes through: the result of
/// running one admission check per instant, in order, starting from an
/// empty window — exactly what `is_rate_limited` does to a new username.
pub open spec fn spec_replay(times: Seq<u64>) -> Seq<u64>
    decreases times.len(),
{
    if times.len() == 0 {
        Seq::empty()
    } else {
        spec_rate_step(spec_replay(times.drop_last()), times.last())
    }
}

/// How many of the given instants lie within the window ending at `now`.
pub open spec fn spec_current_count(times: Seq<u64>, now: u64) -> nat
    decreases times.len(),
{
    if times.len() == 0 {
        0
    } else {
        spec_current_count(times.drop_last(), now) + if in_window(times.last(), now) {
            1nat
        } else {
            0nat
        }
    }
}

/// Purging at one instant and then at another keeps no more than purging
/// at the second instant alone.
proof fn lemma_purge_twice_le(w: Seq<u64>, t: u64, now: u64)
    ensures
        spec_purge(spec_purge(w, t), now).len() <= spec_purge(w, now).len(),
    decreases w.len(),
{
    if w.len() > 0 {
        let v = w.drop_last();
        let x = w.last();
        lemma_purge_twice_le(v, t, now);
        if in_window(x, t) {
            assert(spec_purge(w, t) == spec_purge(v, t).push(x));
            assert(spec_purge(v, t).push(x).drop_last() =~= spec_purge(v, t));
        }
    }
}

/// A caller's recorded window never holds more current stamps than it
/// made requests current at that instant.
proof fn lemma_replay_window_bounded(times: Seq<u64>, now: u64)
    ensures
        spec_purge(spec_replay(times), now).len() <= spec_current_count(times, now),
    decreases times.len(),
{
    if times.len() > 0 {
        let p = times.drop_last();
        let t = times.last();
        let w = spec_replay(p);
        lemma_replay_window_bounded(p, now);
        lemma_purge_twice_le(w, t, now);
        if !spec_limited(w, t) {
            assert(spec_rate_step(w, t) == spec_purge(w, t).push(t));
            assert(spec_purge(w, t).push(t).drop_last() =~= spec_purge(w, t));
        }
    }
}

/// Law: an identity issuing at most the cap of requests within any
/// trailing window — counting the request itself — has every one of them
/// admitted. `times` are the instants of one caller's checks, in order;
/// `spec_replay` mirrors what repeated `is_rate_limited` calls do to its
/// window, so none of those checks turns the caller away.
pub proof fn lemma_sparse_caller_always_admitted(times: Seq<u64>, i: int)
    requires
        0 <= i < times.len(),
        spec_current_count(times.subrange(0, i + 1), times[i]) <= RATE_MAX_REQUESTS,
    ensures
        !spec_limited(spec_replay(times.subrange(0, i)), times[i]),
{
    let p = times.subrange(0, i);
    let t = times[i];
    lemma_replay_window_bounded(p, t);
    assert(times.subrange(0, i + 1).drop_last() =~= p);
    assert(times.subrange(0, i + 1).last() == t);
    assert(in_window(t, t));
    assert(spec_current_count(p, t) < RATE_MAX_REQUESTS);
}

/// Law: an admission check never leaves more than the cap of current
/// stamps in a window that was within the cap before — so a window grown
/// only by admission checks never exceeds the cap.
pub proof fn lemma_window_never_exceeds_cap(w: Seq<u64>, now: u64)
    requires
        spec_purge(w, now).len() <= RATE_MAX_REQUESTS,
    ensures
        spec_purge(spec_rate_step(w, now), now).len() <= RATE_MAX_REQUESTS,
{
    lemma_purge_idempotent(w, now);
    if !spec_limited(w, now) {
        lemma_purge_in_window(w, now);
        assert(in_window(now, now));
        assert(forall|i: int|
            0 <= i < spec_purge(w, now).push(now).len() ==> in_window(
                #[trigger] spec_purge(w, now).push(now)[i],
                now,
            ));
        lemma_purge_all_in_window(spec_purge(w, now).push(now), now);
    }
}

} // verus!
