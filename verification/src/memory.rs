//! Per-IP memory of suspicious events: a sliding window of the latest
//! summaries and the set of User-Agents seen, kept in a `DashMap`.
use vstd::prelude::*;
use std::collections::VecDeque;
use dashmap::DashMap;
use crate::ingestion::is_present;
use crate::text::str_eq;

verus! {

/// What the memory holds for one IP: the window of recent event summaries,
/// oldest first, and the distinct User-Agents seen since it was last cleared.
pub struct IpState {
    events: VecDeque<String>,
    user_agents: Vec<String>,
}

/// The text of each string.
pub open spec fn strings_view(s: Seq<String>) -> Seq<Seq<char>> {
    s.map_values(|x: String| x@)
}

impl View for IpState {
    type V = (Seq<Seq<char>>, Seq<Seq<char>>);

    closed spec fn view(&self) -> (Seq<Seq<char>>, Seq<Seq<char>>) {
        (strings_view(self.events@), strings_view(self.user_agents@))
    }
}

impl IpState {
    fn new() -> (st: IpState)
        ensures
            st@ == (Seq::<Seq<char>>::empty(), Seq::<Seq<char>>::empty()),
    {
        let st = IpState { events: VecDeque::new(), user_agents: Vec::new() };
        assert(st@.0 =~= Seq::<Seq<char>>::empty());
        assert(st@.1 =~= Seq::<Seq<char>>::empty());
        st
    }

    fn event_count(&self) -> (n: usize)
        ensures
            n == self@.0.len(),
    {
        self.events.len()
    }

    /// Appends `event`, dropping the oldest when the window overflows.
    fn push_event(&mut self, event: String, window_size: usize)
        ensures
            final(self)@.0 == window_push(old(self)@.0, window_size as nat, event@),
            final(self)@.1 == old(self)@.1,
    {
        let ghost old_events = self@.0;
        self.events.push_back(event);
        assert(strings_view(self.events@) =~= old_events.push(event@));
        if self.events.len() > window_size {
            let _ = self.events.pop_front();
            assert(strings_view(self.events@) =~= old_events.push(event@).drop_first());
        }
    }

    /// Records `ua` unless it is already known.
    fn add_user_agent(&mut self, ua: &str)
        requires
            old(self)@.1.no_duplicates(),
        ensures
            final(self)@.0 == old(self)@.0,
            final(self)@.1.no_duplicates(),
            final(self)@.1.to_set() == old(self)@.1.to_set().insert(ua@),
    {
        let ghost old_uas = self@.1;
        let mut i: usize = 0;
        while i < self.user_agents.len()
            invariant
                i <= self.user_agents@.len(),
                self@.1 == old_uas,
                old_uas.no_duplicates(),
                forall|j: int| 0 <= j < i ==> old_uas[j] != ua@,
            decreases self.user_agents@.len() - i,
        {
            if str_eq(self.user_agents[i].as_str(), ua) {
                assert(old_uas[i as int] == ua@);
                assert(old_uas.to_set() =~= old_uas.to_set().insert(ua@));
                return;
            }
            i = i + 1;
        }
        self.user_agents.push(ua.to_owned());
        assert(self@.1 =~= old_uas.push(ua@));
        proof {
            assert(old_uas.push(ua@) =~= old_uas + seq![ua@]);
            Seq::lemma_to_set_insert_commutes(old_uas, ua@);
        }
    }

    /// A copy of the window, oldest first.
    fn history(&self) -> (h: Vec<String>)
        ensures
            strings_view(h@) == self@.0,
    {
        let mut h: Vec<String> = Vec::new();
        let mut i: usize = 0;
        while i < self.events.len()
            invariant
                i <= self.events@.len(),
                strings_view(h@) =~= strings_view(self.events@).take(i as int),
            decreases self.events@.len() - i,
        {
            let e = self.events[i].clone();
            let ghost old_h = h@;
            h.push(e);
            assert(strings_view(h@) =~= strings_view(old_h).push(e@));
            assert(strings_view(self.events@).take(i + 1) =~= strings_view(self.events@).take(
                i as int,
            ).push(e@));
            i = i + 1;
        }
        assert(strings_view(self.events@).take(i as int) =~= strings_view(self.events@));
        h
    }
}

// ---------------------------------------------------------------- the map

/// `dashmap::DashMap`, a concurrent hash map.
#[verifier::external_type_specification]
#[verifier::external_body]
#[verifier::reject_recursive_types(K)]
#[verifier::reject_recursive_types(V)]
#[verifier::reject_recursive_types(S)]
pub struct ExDashMap<K, V, S>(DashMap<K, V, S>);

/// Names what a `DashMap` of IP states holds: each key's text mapped to the
/// view of its state.
pub uninterp spec fn ip_table(m: DashMap<String, IpState>) -> Map<
    Seq<char>,
    (Seq<Seq<char>>, Seq<Seq<char>>),
>;

/// `DashMap::new`: an empty map.
#[verifier::external_body]
fn ip_table_new() -> (r: DashMap<String, IpState>)
    ensures
        ip_table(r).dom() == Set::<Seq<char>>::empty(),
{
    DashMap::new()
}

/// `DashMap::remove`: takes the entry for `key` out of the map and hands
/// back its value, if there was one.
#[verifier::external_body]
fn ip_table_take(m: &mut DashMap<String, IpState>, key: &str) -> (r: Option<IpState>)
    ensures
        ip_table(*final(m)) == ip_table(*old(m)).remove(key@),
        match r {
            Some(st) => ip_table(*old(m)).contains_key(key@) && st@ == ip_table(*old(m))[key@],
            None => !ip_table(*old(m)).contains_key(key@),
        },
{
    m.remove(key).map(|(_, st)| st)
}

/// `DashMap::insert`: maps `key` to `st`, replacing any earlier value.
#[verifier::external_body]
fn ip_table_put(m: &mut DashMap<String, IpState>, key: String, st: IpState)
    ensures
        ip_table(*final(m)) == ip_table(*old(m)).insert(key@, st@),
{
    m.insert(key, st);
}

/// `DashMap::get`, reading the number of events of the entry for `key`.
#[verifier::external_body]
fn ip_table_event_count(m: &DashMap<String, IpState>, key: &str) -> (r: Option<usize>)
    ensures
        match r {
            Some(n) => ip_table(*m).contains_key(key@) && n == ip_table(*m)[key@].0.len(),
            None => !ip_table(*m).contains_key(key@),
        },
{
    m.get(key).map(|entry| entry.event_count())
}

/// `DashMap::iter`, collecting each key once, in the map's own order.
#[verifier::external_body]
fn ip_table_keys(m: &DashMap<String, IpState>) -> (r: Vec<String>)
    ensures
        strings_view(r@).no_duplicates(),
        strings_view(r@).to_set() == ip_table(*m).dom(),
{
    m.iter().map(|entry| entry.key().clone()).collect()
}

// ---------------------------------------------------------------- memory

/// The window after `event` arrives: appended, and the oldest dropped when
/// the window would exceed `window` events.
pub open spec fn window_push(events: Seq<Seq<char>>, window: nat, event: Seq<char>) -> Seq<
    Seq<char>,
> {
    let s = events.push(event);
    if s.len() > window {
        s.drop_first()
    } else {
        s
    }
}

/// The User-Agents after a request with `ua`: recorded unless empty or `-`.
pub open spec fn record_user_agent(uas: Set<Seq<char>>, ua: Seq<char>) -> Set<Seq<char>> {
    if is_present(ua) {
        uas.insert(ua)
    } else {
        uas
    }
}

/// What a full window hands over for analysis.
pub struct TriggerResult {
    /// The window's event summaries, oldest first.
    pub history: Vec<String>,
    /// More than one distinct User-Agent has been seen for the IP.
    pub ua_rotation: bool,
    pub unique_ua_count: usize,
}

/// Memory of recent suspicious events per IP.
pub struct ThreatMemory {
    buffer: DashMap<String, IpState>,
    window_size: usize,
}

impl ThreatMemory {
    /// For each tracked IP: its window of event summaries and its set of
    /// User-Agents.
    pub closed spec fn entries(&self) -> Map<Seq<char>, (Seq<Seq<char>>, Set<Seq<char>>)> {
        ip_table(self.buffer).map_values(
            |st: (Seq<Seq<char>>, Seq<Seq<char>>)| (st.0, st.1.to_set()),
        )
    }

    /// The number of events at which a window triggers analysis.
    pub closed spec fn window(&self) -> nat {
        self.window_size as nat
    }

    /// Every window holds at most `window()` events, and User-Agents are
    /// stored without repetition.
    pub closed spec fn wf(&self) -> bool {
        forall|ip: Seq<char>|
            #![trigger ip_table(self.buffer)[ip]]
            ip_table(self.buffer).contains_key(ip) ==> {
                &&& ip_table(self.buffer)[ip].0.len() <= self.window_size
                &&& ip_table(self.buffer)[ip].1.no_duplicates()
            }
    }

    /// The window of `ip`, empty when it is not tracked.
    pub open spec fn events_of(&self, ip: Seq<char>) -> Seq<Seq<char>> {
        if self.entries().contains_key(ip) {
            self.entries()[ip].0
        } else {
            Seq::empty()
        }
    }

    /// The User-Agents seen for `ip`, empty when it is not tracked.
    pub open spec fn user_agents_of(&self, ip: Seq<char>) -> Set<Seq<char>> {
        if self.entries().contains_key(ip) {
            self.entries()[ip].1
        } else {
            Set::empty()
        }
    }

    /// An empty memory whose windows trigger at `window_size` events.
    pub fn new(window_size: usize) -> (m: ThreatMemory)
        ensures
            m.wf(),
            m.window() == window_size,
            m.entries() == Map::<Seq<char>, (Seq<Seq<char>>, Set<Seq<char>>)>::empty(),
    {
        let m = ThreatMemory { buffer: ip_table_new(), window_size };
        assert(m.entries() =~= Map::<Seq<char>, (Seq<Seq<char>>, Set<Seq<char>>)>::empty());
        m
    }

    /// Records a suspicious event of `ip`. When the window then holds at
    /// least `window()` events, hands it over together with the User-Agent
    /// statistics; otherwise returns `None`.
    pub fn push(&mut self, ip: &str, event: String, user_agent: &str) -> (r: Option<TriggerResult>)
        requires
            old(self).wf(),
        ensures
            final(self).wf(),
            final(self).window() == old(self).window(),
            final(self).entries() == old(self).entries().insert(
                ip@,
                (
                    window_push(old(self).events_of(ip@), old(self).window(), event@),
                    record_user_agent(old(self).user_agents_of(ip@), user_agent@),
                ),
            ),
            match r {
                Some(t) => {
                    &&& final(self).events_of(ip@).len() >= final(self).window()
                    &&& strings_view(t.history@) == final(self).events_of(ip@)
                    &&& t.unique_ua_count == final(self).user_agents_of(ip@).len()
                    &&& t.ua_rotation == (t.unique_ua_count > 1)
                },
                None => final(self).events_of(ip@).len() < final(self).window(),
            },
    {
        let ghost old_table = ip_table(self.buffer);
        let mut st = match ip_table_take(&mut self.buffer, ip) {
            Some(s) => s,
            None => IpState::new(),
        };
        proof {
            if old_table.contains_key(ip@) {
                assert(old_table[ip@].1.no_duplicates());
            }
            assert(st@.0 == old(self).events_of(ip@));
            assert(st@.1.to_set() =~= old(self).user_agents_of(ip@));
        }
        st.push_event(event, self.window_size);
        if !user_agent.is_empty() && !str_eq(user_agent, "-") {
            st.add_user_agent(user_agent);
        }
        proof {
            assert(st@.1.to_set() == record_user_agent(old(self).user_agents_of(ip@), user_agent@));
            st@.1.unique_seq_to_set();
        }
        let count = st.event_count();
        let result = if count >= self.window_size {
            let unique_ua = st.user_agents.len();
            Some(
                TriggerResult {
                    history: st.history(),
                    ua_rotation: unique_ua > 1,
                    unique_ua_count: unique_ua,
                },
            )
        } else {
            None
        };
        let ghost new_state = st@;
        ip_table_put(&mut self.buffer, ip.to_owned(), st);
        proof {
            assert(ip_table(self.buffer) == old_table.remove(ip@).insert(ip@, new_state));
            assert(self.entries() =~= old(self).entries().insert(
                ip@,
                (
                    window_push(old(self).events_of(ip@), old(self).window(), event@),
                    record_user_agent(old(self).user_agents_of(ip@), user_agent@),
                ),
            ));
        }
        result
    }

    /// Forgets everything about `ip`.
    pub fn clear_ip(&mut self, ip: &str)
        requires
            old(self).wf(),
        ensures
            final(self).wf(),
            final(self).window() == old(self).window(),
            final(self).entries() == old(self).entries().remove(ip@),
    {
        let _ = ip_table_take(&mut self.buffer, ip);
        assert(self.entries() =~= old(self).entries().remove(ip@));
    }

    /// The number of events in the window of `ip`; 0 for an untracked IP.
    pub fn event_count(&self, ip: &str) -> (n: usize)
        requires
            self.wf(),
        ensures
            n == self.events_of(ip@).len(),
            n <= self.window(),
    {
        match ip_table_event_count(&self.buffer, ip) {
            Some(n) => n,
            None => 0,
        }
    }

    /// The tracked IPs, each once, in no particular order.
    pub fn tracked_ips(&self) -> (ips: Vec<String>)
        ensures
            strings_view(ips@).no_duplicates(),
            strings_view(ips@).to_set() == self.entries().dom(),
    {
        let ips = ip_table_keys(&self.buffer);
        assert(self.entries().dom() =~= ip_table(self.buffer).dom());
        ips
    }
}

// ---------------------------------------------------------------- laws

/// The window of an IP after the events `events` arrive one by one into an
/// empty window.
pub open spec fn window_after(window: nat, events: Seq<Seq<char>>) -> Seq<Seq<char>>
    decreases events.len(),
{
    if events.len() == 0 {
        Seq::empty()
    } else {
        window_push(window_after(window, events.drop_last()), window, events.last())
    }
}

/// Law: the window of an IP is always the latest `window` events pushed for
/// it since it was last cleared (all of them while fewer have arrived).
pub proof fn law_window_keeps_latest_events(window: nat, events: Seq<Seq<char>>)
    ensures
        window_after(window, events) == events.skip(
            if events.len() > window {
                events.len() - window
            } else {
                0
            },
        ),
    decreases events.len(),
{
    if events.len() > 0 {
        let prev = events.drop_last();
        law_window_keeps_latest_events(window, prev);
        if events.len() > window {
            assert(window_after(window, events) =~= events.skip(events.len() - window));
        } else {
            assert(window_after(window, events) =~= events.skip(0));
        }
    } else {
        assert(events.skip(0) =~= Seq::<Seq<char>>::empty());
    }
}

/// Law: once an IP is cleared, it has no events and no User-Agents, and a
/// later push starts its window afresh.
pub proof fn law_cleared_ip_starts_afresh(
    before: ThreatMemory,
    after: ThreatMemory,
    ip: Seq<char>,
    event: Seq<char>,
    user_agent: Seq<char>,
)
    requires
        after.entries() == before.entries().remove(ip),
    ensures
        after.events_of(ip).len() == 0,
        after.user_agents_of(ip) == Set::<Seq<char>>::empty(),
        window_push(after.events_of(ip), after.window(), event) == if after.window() >= 1 {
            seq![event]
        } else {
            Seq::<Seq<char>>::empty()
        },
{
    assert(window_push(after.events_of(ip), after.window(), event) =~= if after.window() >= 1 {
        seq![event]
    } else {
        Seq::<Seq<char>>::empty()
    });
}

/// Law: a window never holds more than `window` events.
pub proof fn law_window_bounded(window: nat, events: Seq<Seq<char>>)
    ensures
        window_after(window, events).len() <= window,
{
    law_window_keeps_latest_events(window, events);
}

/// `after` is `before` after `push(p.0, p.1, p.2)`: the IP `p.0`, the event
/// summary `p.1` and the User-Agent `p.2`, as `push` states it.
pub open spec fn pushed(
    before: ThreatMemory,
    after: ThreatMemory,
    p: (Seq<char>, Seq<char>, Seq<char>),
) -> bool {
    &&& after.window() == before.window()
    &&& after.entries() == before.entries().insert(
        p.0,
        (
            window_push(before.events_of(p.0), before.window(), p.1),
            record_user_agent(before.user_agents_of(p.0), p.2),
        ),
    )
}

/// The event summaries of the pushes for `ip` among `pushes`, in order.
pub open spec fn events_pushed_for(
    ip: Seq<char>,
    pushes: Seq<(Seq<char>, Seq<char>, Seq<char>)>,
) -> Seq<Seq<char>>
    decreases pushes.len(),
{
    if pushes.len() == 0 {
        Seq::empty()
    } else {
        let prev = events_pushed_for(ip, pushes.drop_last());
        if pushes.last().0 == ip {
            prev.push(pushes.last().1)
        } else {
            prev
        }
    }
}

/// The distinct User-Agents, neither empty nor `-`, of the pushes for `ip`
/// among `pushes`.
pub open spec fn user_agents_pushed_for(
    ip: Seq<char>,
    pushes: Seq<(Seq<char>, Seq<char>, Seq<char>)>,
) -> Set<Seq<char>> {
    Set::new(
        |u: Seq<char>|
            exists|k: int|
                0 <= k < pushes.len() && #[trigger] pushes[k].0 == ip && pushes[k].2 == u
                    && is_present(u),
    )
}

/// Law: run the pushes `pushes` one after another from a memory in which
/// `ip` is not tracked (a new memory, or one where `ip` was just cleared),
/// `ms[k + 1]` being `ms[k]` after push `k`. Then the window of `ip` holds the
/// latest `window` event summaries pushed for it (all of them while fewer
/// have arrived), so a push hands a window over exactly once `window` events
/// have arrived for the IP; and its User-Agents are the distinct ones, neither
/// empty nor `-`, of all those pushes, not only of the events still in the
/// window.
pub proof fn law_pushes_since_clear(
    ms: Seq<ThreatMemory>,
    pushes: Seq<(Seq<char>, Seq<char>, Seq<char>)>,
    ip: Seq<char>,
)
    requires
        ms.len() == pushes.len() + 1,
        !ms[0].entries().contains_key(ip),
        forall|k: int| 0 <= k < pushes.len() ==> #[trigger] pushed(ms[k], ms[k + 1], pushes[k]),
    ensures
        ms.last().window() == ms[0].window(),
        ms.last().events_of(ip) == window_after(ms[0].window(), events_pushed_for(ip, pushes)),
        ms.last().events_of(ip).len() == if events_pushed_for(ip, pushes).len()
            < ms[0].window() {
            events_pushed_for(ip, pushes).len()
        } else {
            ms[0].window()
        },
        ms.last().user_agents_of(ip) == user_agents_pushed_for(ip, pushes),
    decreases pushes.len(),
{
    let w = ms[0].window();
    if pushes.len() == 0 {
        assert(user_agents_pushed_for(ip, pushes) =~= Set::<Seq<char>>::empty());
    } else {
        let n = pushes.len() - 1;
        let prev_ms = ms.drop_last();
        let prev_pushes = pushes.drop_last();
        assert forall|k: int| 0 <= k < prev_pushes.len() implies #[trigger] pushed(
            prev_ms[k],
            prev_ms[k + 1],
            prev_pushes[k],
        ) by {
            assert(pushed(ms[k], ms[k + 1], pushes[k]));
        }
        law_pushes_since_clear(prev_ms, prev_pushes, ip);
        assert(pushed(ms[n], ms[n + 1], pushes[n]));
        let p = pushes[n];
        let before = ms[n];
        let after = ms[n + 1];
        assert(prev_ms.last() == before);
        assert(ms.last() == after);
        if p.0 == ip {
            assert(after.entries().contains_key(ip));
            assert(events_pushed_for(ip, pushes) == events_pushed_for(ip, prev_pushes).push(p.1));
            assert(events_pushed_for(ip, pushes).drop_last() =~= events_pushed_for(
                ip,
                prev_pushes,
            ));
        } else {
            assert(after.entries().contains_key(ip) == before.entries().contains_key(ip));
            if before.entries().contains_key(ip) {
                assert(after.entries()[ip] == before.entries()[ip]);
            }
        }
        assert forall|u: Seq<char>|
            #![trigger user_agents_pushed_for(ip, pushes).contains(u)]
            user_agents_pushed_for(ip, pushes).contains(u) == after.user_agents_of(ip).contains(
                u,
            ) by {
            if user_agents_pushed_for(ip, pushes).contains(u) {
                let k = choose|k: int|
                    0 <= k < pushes.len() && #[trigger] pushes[k].0 == ip && pushes[k].2 == u
                        && is_present(u);
                if k < n {
                    assert(prev_pushes[k] == pushes[k]);
                    assert(user_agents_pushed_for(ip, prev_pushes).contains(u));
                }
            }
            if after.user_agents_of(ip).contains(u) {
                if p.0 == ip && p.2 == u && is_present(u) {
                    assert(pushes[n].0 == ip);
                } else {
                    assert(before.user_agents_of(ip).contains(u));
                    assert(user_agents_pushed_for(ip, prev_pushes).contains(u));
                    let k = choose|k: int|
                        0 <= k < prev_pushes.len() && #[trigger] prev_pushes[k].0 == ip
                            && prev_pushes[k].2 == u && is_present(u);
                    assert(pushes[k] == prev_pushes[k]);
                }
            }
        }
        assert(user_agents_pushed_for(ip, pushes) =~= after.user_agents_of(ip));
    }
    law_window_keeps_latest_events(w, events_pushed_for(ip, pushes));
}

} // verus!
