//! The decisions of the agent's main loop, apart from reading the log,
//! running the model and calling the firewall: which events reach the
//! memory, which IPs are blocked and when their blocks expire, how long to
//! wait between analyses, and the running counts.
use vstd::prelude::*;
use crate::ingestion::LogEvent;
use crate::memory::{record_user_agent, strings_view, window_push, ThreatMemory, TriggerResult};
use crate::text::str_eq;

verus! {

/// What became of an event.
pub enum Observation {
    /// Its IP is blocked: the event is ignored.
    Blocked,
    /// The event joined its IP's window, which is not full yet.
    Recorded,
    /// The event filled its IP's window: analyse it.
    Triggered(TriggerResult),
}

/// The agent's state between events.
pub struct Sentinel {
    memory: ThreatMemory,
    blocked: Vec<(String, u64)>,
    total_analyzed: u64,
    total_blocked: u64,
}

/// Milliseconds to wait before the next analysis so that analyses are at
/// least `rate_limit_ms` apart, given the time since the last one.
pub open spec fn spec_rate_limit_wait(since_last_ms: u64, rate_limit_ms: u64) -> u64 {
    if since_last_ms < rate_limit_ms {
        (rate_limit_ms - since_last_ms) as u64
    } else {
        0
    }
}

/// How long to wait before the next analysis.
pub fn rate_limit_wait(since_last_ms: u64, rate_limit_ms: u64) -> (r: u64)
    ensures
        r == spec_rate_limit_wait(since_last_ms, rate_limit_ms),
{
    if since_last_ms < rate_limit_ms {
        rate_limit_ms - since_last_ms
    } else {
        0
    }
}

/// A block placed at `blocked_at_ms` has run its `duration_secs` by `now_ms`.
pub open spec fn block_expired(blocked_at_ms: u64, now_ms: u64, duration_secs: u64) -> bool {
    now_ms >= blocked_at_ms && (now_ms - blocked_at_ms) >= duration_secs * 1000
}

/// The blocked list as values: each IP's text and when it was blocked.
pub open spec fn block_entries(v: Seq<(String, u64)>) -> Seq<(Seq<char>, u64)> {
    v.map_values(|e: (String, u64)| (e.0@, e.1))
}

/// No IP appears twice in the list.
pub open spec fn distinct_keys(s: Seq<(Seq<char>, u64)>) -> bool {
    forall|i: int, j: int| 0 <= i < j < s.len() ==> #[trigger] s[i].0 != #[trigger] s[j].0
}

/// The list as a map from IP to the time of its block.
pub open spec fn block_map(s: Seq<(Seq<char>, u64)>) -> Map<Seq<char>, u64>
    decreases s.len(),
{
    if s.len() == 0 {
        Map::empty()
    } else {
        block_map(s.drop_last()).insert(s.last().0, s.last().1)
    }
}

proof fn lemma_block_map_contains(s: Seq<(Seq<char>, u64)>, k: Seq<char>)
    requires
        distinct_keys(s),
    ensures
        block_map(s).contains_key(k) <==> exists|j: int| 0 <= j < s.len() && #[trigger] s[j].0 == k,
        forall|j: int| 0 <= j < s.len() && #[trigger] s[j].0 == k ==> block_map(s)[k] == s[j].1,
    decreases s.len(),
{
    if s.len() > 0 {
        let d = s.drop_last();
        let n = s.len() - 1;
        assert(distinct_keys(d));
        lemma_block_map_contains(d, k);
        if block_map(s).contains_key(k) {
            if k == s[n].0 {
                assert(s[n].0 == k);
            } else {
                let j = choose|j: int| 0 <= j < d.len() && #[trigger] d[j].0 == k;
                assert(s[j].0 == k);
            }
        }
        assert forall|j: int| 0 <= j < s.len() && #[trigger] s[j].0 == k implies block_map(
            s,
        ).contains_key(k) && block_map(s)[k] == s[j].1 by {
            if j < n {
                assert(d[j].0 == k);
                assert(s[j].0 != s[n].0);
            }
        }
    }
}

proof fn lemma_block_map_update(s: Seq<(Seq<char>, u64)>, i: int, t: u64)
    requires
        distinct_keys(s),
        0 <= i < s.len(),
    ensures
        distinct_keys(s.update(i, (s[i].0, t))),
        block_map(s.update(i, (s[i].0, t))) == block_map(s).insert(s[i].0, t),
    decreases s.len(),
{
    let u = s.update(i, (s[i].0, t));
    let d = s.drop_last();
    if i == s.len() - 1 {
        assert(u.drop_last() =~= d);
        assert(block_map(u) =~= block_map(s).insert(s[i].0, t));
    } else {
        assert(distinct_keys(d));
        lemma_block_map_update(d, i, t);
        assert(u.drop_last() =~= d.update(i, (d[i].0, t)));
        assert(s.last().0 != s[i].0);
        assert(block_map(u) =~= block_map(s).insert(s[i].0, t));
    }
}

proof fn lemma_block_map_remove(s: Seq<(Seq<char>, u64)>, i: int)
    requires
        distinct_keys(s),
        0 <= i < s.len(),
    ensures
        distinct_keys(s.remove(i)),
        block_map(s.remove(i)) == block_map(s).remove(s[i].0),
    decreases s.len(),
{
    let r = s.remove(i);
    let d = s.drop_last();
    assert(distinct_keys(d));
    if i == s.len() - 1 {
        assert(r =~= d);
        lemma_block_map_contains(d, s[i].0);
        assert(block_map(r) =~= block_map(s).remove(s[i].0));
    } else {
        lemma_block_map_remove(d, i);
        assert(r.drop_last() =~= d.remove(i));
        assert(r.last() == s.last());
        assert(s.last().0 != s[i].0);
        assert(block_map(r) =~= block_map(s).remove(s[i].0));
    }
}

proof fn lemma_block_map_len(s: Seq<(Seq<char>, u64)>)
    requires
        distinct_keys(s),
    ensures
        block_map(s).dom().finite(),
        block_map(s).len() == s.len(),
    decreases s.len(),
{
    if s.len() > 0 {
        let d = s.drop_last();
        assert(distinct_keys(d));
        lemma_block_map_len(d);
        lemma_block_map_contains(d, s.last().0);
    }
}

impl Sentinel {
    /// The memory of suspicious events.
    pub closed spec fn memory(&self) -> ThreatMemory {
        self.memory
    }

    /// Each blocked IP and when (in milliseconds of a monotonic clock) it
    /// was blocked.
    pub closed spec fn blocked(&self) -> Map<Seq<char>, u64> {
        block_map(block_entries(self.blocked@))
    }

    pub closed spec fn analyzed(&self) -> nat {
        self.total_analyzed as nat
    }

    pub closed spec fn blocks_placed(&self) -> nat {
        self.total_blocked as nat
    }

    /// The memory is well formed and no IP is listed twice as blocked.
    pub closed spec fn wf(&self) -> bool {
        &&& self.memory.wf()
        &&& distinct_keys(block_entries(self.blocked@))
    }

    /// Nothing blocked, nothing counted, and an empty memory with windows of
    /// `window_size` events.
    pub fn new(window_size: usize) -> (s: Sentinel)
        ensures
            s.wf(),
            s.memory().window() == window_size,
            s.memory().entries() == Map::<Seq<char>, (Seq<Seq<char>>, Set<Seq<char>>)>::empty(),
            s.blocked() == Map::<Seq<char>, u64>::empty(),
            s.analyzed() == 0,
            s.blocks_placed() == 0,
    {
        let s = Sentinel {
            memory: ThreatMemory::new(window_size),
            blocked: Vec::new(),
            total_analyzed: 0,
            total_blocked: 0,
        };
        assert(block_entries(s.blocked@) =~= Seq::<(Seq<char>, u64)>::empty());
        s
    }

    fn blocked_index(&self, ip: &str) -> (r: Option<usize>)
        ensures
            match r {
                Some(i) => i < self.blocked@.len() && block_entries(self.blocked@)[i as int].0 == ip@,
                None => forall|i: int|
                    0 <= i < self.blocked@.len() ==> block_entries(self.blocked@)[i].0 != ip@,
            },
    {
        let mut i: usize = 0;
        while i < self.blocked.len()
            invariant
                i <= self.blocked@.len(),
                forall|j: int| 0 <= j < i ==> block_entries(self.blocked@)[j].0 != ip@,
            decreases self.blocked@.len() - i,
        {
            if str_eq(self.blocked[i].0.as_str(), ip) {
                return Some(i);
            }
            i = i + 1;
        }
        None
    }

    /// Whether `ip` is blocked.
    pub fn is_blocked(&self, ip: &str) -> (r: bool)
        requires
            self.wf(),
        ensures
            r == self.blocked().contains_key(ip@),
    {
        let r = self.blocked_index(ip);
        proof {
            lemma_block_map_contains(block_entries(self.blocked@), ip@);
        }
        r.is_some()
    }

    /// Takes in a suspicious event: ignored when its IP is blocked, else
    /// pushed into the memory (as its compact summary and User-Agent), which
    /// may trigger an analysis.
    pub fn observe(&mut self, event: &LogEvent) -> (r: Observation)
        requires
            old(self).wf(),
        ensures
            final(self).wf(),
            final(self).blocked() == old(self).blocked(),
            final(self).analyzed() == old(self).analyzed(),
            final(self).blocks_placed() == old(self).blocks_placed(),
            final(self).memory().window() == old(self).memory().window(),
            old(self).blocked().contains_key(event.ip@) ==> r is Blocked && final(self).memory()
                == old(self).memory(),
            !old(self).blocked().contains_key(event.ip@) ==> {
                &&& !(r is Blocked)
                &&& final(self).memory().entries() == old(self).memory().entries().insert(
                    event.ip@,
                    (
                        window_push(
                            old(self).memory().events_of(event.ip@),
                            old(self).memory().window(),
                            crate::ingestion::spec_compact_summary(
                                event.method@,
                                event.path@,
                                event.status,
                                event.user_agent@,
                                event.referer@,
                                event.headers@,
                            ),
                        ),
                        record_user_agent(
                            old(self).memory().user_agents_of(event.ip@),
                            event.user_agent@,
                        ),
                    ),
                )
                &&& match r {
                    Observation::Triggered(t) => {
                        &&& final(self).memory().events_of(event.ip@).len() >= final(self).memory().window()
                        &&& strings_view(t.history@) == final(self).memory().events_of(event.ip@)
                        &&& t.unique_ua_count == final(self).memory().user_agents_of(
                            event.ip@,
                        ).len()
                        &&& t.ua_rotation == (t.unique_ua_count > 1)
                    },
                    _ => final(self).memory().events_of(event.ip@).len() < final(self).memory().window(),
                }
            },
    {
        if self.is_blocked(event.ip.as_str()) {
            return Observation::Blocked;
        }
        let summary = event.compact_summary();
        match self.memory.push(event.ip.as_str(), summary, event.user_agent.as_str()) {
            Some(t) => Observation::Triggered(t),
            None => Observation::Recorded,
        }
    }

    /// Counts an analysis the model answered.
    pub fn note_analysis(&mut self)
        requires
            old(self).analyzed() < u64::MAX,
        ensures
            final(self).analyzed() == old(self).analyzed() + 1,
            final(self).blocks_placed() == old(self).blocks_placed(),
            final(self).blocked() == old(self).blocked(),
            final(self).memory() == old(self).memory(),
            old(self).wf() ==> final(self).wf(),
    {
        self.total_analyzed = self.total_analyzed + 1;
    }

    /// Records that the firewall now blocks `ip` since `now_ms`: it is
    /// counted, listed as blocked (a renewed block restarts its time), and
    /// forgotten by the memory.
    pub fn note_block(&mut self, ip: &str, now_ms: u64)
        requires
            old(self).wf(),
            old(self).blocks_placed() < u64::MAX,
        ensures
            final(self).wf(),
            final(self).blocks_placed() == old(self).blocks_placed() + 1,
            final(self).analyzed() == old(self).analyzed(),
            final(self).blocked() == old(self).blocked().insert(ip@, now_ms),
            final(self).memory().entries() == old(self).memory().entries().remove(ip@),
            final(self).memory().window() == old(self).memory().window(),
    {
        self.total_blocked = self.total_blocked + 1;
        let ghost old_entries = block_entries(self.blocked@);
        match self.blocked_index(ip) {
            Some(i) => {
                self.blocked.set(i, (ip.to_owned(), now_ms));
                proof {
                    assert(block_entries(self.blocked@) =~= old_entries.update(
                        i as int,
                        (ip@, now_ms),
                    ));
                    lemma_block_map_update(old_entries, i as int, now_ms);
                }
            },
            None => {
                self.blocked.push((ip.to_owned(), now_ms));
                proof {
                    assert(block_entries(self.blocked@) =~= old_entries.push((ip@, now_ms)));
                    assert(block_entries(self.blocked@).drop_last() =~= old_entries);
                }
            },
        }
        self.memory.clear_ip(ip);
    }

    /// The blocked IPs whose block has run its time by `now_ms`.
    pub fn expired_blocks(&self, now_ms: u64, duration_secs: u64) -> (ips: Vec<String>)
        requires
            self.wf(),
        ensures
            strings_view(ips@).no_duplicates(),
            forall|ip: Seq<char>|
                strings_view(ips@).contains(ip) <==> self.blocked().contains_key(ip)
                    && block_expired(self.blocked()[ip], now_ms, duration_secs),
    {
        let ghost e = block_entries(self.blocked@);
        let mut ips: Vec<String> = Vec::new();
        let mut i: usize = 0;
        let limit: u128 = duration_secs as u128 * 1000;
        while i < self.blocked.len()
            invariant
                i <= self.blocked@.len(),
                e == block_entries(self.blocked@),
                limit == duration_secs * 1000,
                distinct_keys(e),
                strings_view(ips@).no_duplicates(),
                forall|ip: Seq<char>|
                    strings_view(ips@).contains(ip) <==> exists|j: int|
                        0 <= j < i && #[trigger] e[j].0 == ip && block_expired(
                            e[j].1,
                            now_ms,
                            duration_secs,
                        ),
            decreases self.blocked@.len() - i,
        {
            let ip = &self.blocked[i].0;
            let at = self.blocked[i].1;
            let ghost before = strings_view(ips@);
            if now_ms >= at && (now_ms - at) as u128 >= limit {
                ips.push(ip.clone());
                proof {
                    assert(strings_view(ips@) =~= before.push(ip@));
                    if before.contains(ip@) {
                        let j = choose|j: int|
                            0 <= j < i && #[trigger] e[j].0 == ip@ && block_expired(
                                e[j].1,
                                now_ms,
                                duration_secs,
                            );
                        assert(e[i as int].0 == ip@);
                    }
                }
            }
            proof {
                assert forall|x: Seq<char>|
                    strings_view(ips@).contains(x) <==> exists|j: int|
                        0 <= j < i + 1 && #[trigger] e[j].0 == x && block_expired(
                            e[j].1,
                            now_ms,
                            duration_secs,
                        ) by {
                    if strings_view(ips@).contains(x) && !before.contains(x) {
                        assert(e[i as int].0 == x);
                    }
                    if exists|j: int|
                        0 <= j < i + 1 && #[trigger] e[j].0 == x && block_expired(
                            e[j].1,
                            now_ms,
                            duration_secs,
                        ) {
                        let j = choose|j: int|
                            0 <= j < i + 1 && #[trigger] e[j].0 == x && block_expired(
                                e[j].1,
                                now_ms,
                                duration_secs,
                            );
                        if j == i {
                            assert(strings_view(ips@).last() == x);
                        } else {
                            assert(before.contains(x));
                            let k = choose|k: int| 0 <= k < before.len() && before[k] == x;
                            assert(strings_view(ips@)[k] == x);
                        }
                    }
                }
            }
            i = i + 1;
        }
        proof {
            assert forall|ip: Seq<char>|
                strings_view(ips@).contains(ip) <==> self.blocked().contains_key(ip)
                    && block_expired(self.blocked()[ip], now_ms, duration_secs) by {
                lemma_block_map_contains(e, ip);
            }
        }
        ips
    }

    /// Lifts the block on `ip` (its time has run out).
    pub fn release(&mut self, ip: &str)
        requires
            old(self).wf(),
        ensures
            final(self).wf(),
            final(self).blocked() == old(self).blocked().remove(ip@),
            final(self).memory() == old(self).memory(),
            final(self).analyzed() == old(self).analyzed(),
            final(self).blocks_placed() == old(self).blocks_placed(),
    {
        let ghost old_entries = block_entries(self.blocked@);
        if let Some(i) = self.blocked_index(ip) {
            let _ = self.blocked.remove(i);
            proof {
                assert(block_entries(self.blocked@) =~= old_entries.remove(i as int));
                lemma_block_map_remove(old_entries, i as int);
            }
        } else {
            proof {
                lemma_block_map_contains(old_entries, ip@);
                assert(old_entries =~= block_entries(self.blocked@));
                assert(self.blocked() =~= old(self).blocked().remove(ip@));
            }
        }
    }

    /// Number of IPs blocked now.
    pub fn active_blocks(&self) -> (n: usize)
        requires
            self.wf(),
        ensures
            n == self.blocked().len(),
    {
        proof {
            self.lemma_blocked_len();
        }
        self.blocked.len()
    }

    proof fn lemma_blocked_len(&self)
        requires
            self.wf(),
        ensures
            self.blocked().dom().finite(),
            self.blocked().len() == self.blocked@.len(),
    {
        lemma_block_map_len(block_entries(self.blocked@));
    }

    /// The IPs the memory tracks, each once.
    pub fn tracked_ips(&self) -> (ips: Vec<String>)
        ensures
            strings_view(ips@).no_duplicates(),
            strings_view(ips@).to_set() == self.memory().entries().dom(),
    {
        self.memory.tracked_ips()
    }

    /// Analyses the model answered.
    pub fn total_analyzed(&self) -> (n: u64)
        ensures
            n == self.analyzed(),
    {
        self.total_analyzed
    }

    /// Blocks placed.
    pub fn total_blocked(&self) -> (n: u64)
        ensures
            n == self.blocks_placed(),
    {
        self.total_blocked
    }
}

} // verus!
