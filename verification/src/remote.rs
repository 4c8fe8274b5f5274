//! The mesh's side: which host a request goes to, and what is known of the hosts.

use vstd::hash_map::StringHashMap;
use vstd::prelude::*;
use vstd::string::*;
use crate::text;

verus! {

/// How long the answer of a check is trusted, in seconds.
pub const REACHABLE_CACHE_TTL_SECS: u64 = 300;

/// How long a connection may take, in milliseconds.
pub const REACHABLE_TIMEOUT_MS: u64 = 500;

/// The nanoseconds in a second. Points in time are counted in nanoseconds.
pub const NANOS_PER_SEC: u128 = 1_000_000_000;

// ---------------------------------------------------------------------------
// Checking a host
// ---------------------------------------------------------------------------

/// Whether a request may name this host at all.
pub open spec fn is_host(host: Seq<char>) -> bool {
    host.len() > 0 && !host.contains('/') && !host.contains('\\')
}

/// The address that a check of the host asks; there is none for what is no host.
pub open spec fn check_asked(host: Seq<char>) -> Option<Seq<char>> {
    if is_host(host) {
        Some("http://"@ + host + "/nix-cache-info"@)
    } else {
        None
    }
}

/// What a check finds: the host is reachable where a reply came and its status is
/// one of success.
pub open spec fn check_found(status: Option<u16>) -> bool {
    status is Some && 200 <= status->0 < 300
}

/// Whether a request may name this host at all.
pub fn valid_host(host: &str) -> (valid: bool)
    ensures
        valid == is_host(host@),
{
    !host.is_empty() && !text::has_char(host, '/') && !text::has_char(host, '\\')
}

/// The address that a check of the host asks; there is none for what is no host.
pub fn check_reachable(host: &str) -> (url: Option<String>)
    ensures
        crate::store::shown(url) == check_asked(host@),
{
    if !valid_host(host) {
        return None;
    }
    let mut url = "http://".to_owned();
    url.append(host);
    url.append("/nix-cache-info");
    Some(url)
}

/// What a check finds, given the status of the reply where one came.
pub fn check_verdict(status: Option<u16>) -> (reachable: bool)
    ensures
        reachable == check_found(status),
{
    match status {
        Some(status) => 200 <= status && status < 300,
        None => false,
    }
}

// ---------------------------------------------------------------------------
// What is known of the hosts
// ---------------------------------------------------------------------------

/// What is known of a host: what the last check found and when, whether one is under
/// way, and the tickets of those who wait for it.
pub struct CacheEntry {
    value: bool,
    checked_at: u128,
    checking: bool,
    waiters: Vec<u64>,
}

/// The contents of a [`CacheEntry`].
#[verifier::ext_equal]
pub struct EntryView {
    pub value: bool,
    pub checked_at: u128,
    pub checking: bool,
    pub waiters: Seq<u64>,
}

impl View for CacheEntry {
    type V = EntryView;

    closed spec fn view(&self) -> EntryView {
        EntryView {
            value: self.value,
            checked_at: self.checked_at,
            checking: self.checking,
            waiters: self.waiters@,
        }
    }
}

/// What is known of the hosts.
pub struct ReachabilityCache {
    entries: StringHashMap<CacheEntry>,
}

impl View for ReachabilityCache {
    type V = Map<Seq<char>, EntryView>;

    closed spec fn view(&self) -> Map<Seq<char>, EntryView> {
        self.entries@.map_values(|entry: CacheEntry| entry@)
    }
}

/// Whether what was found at `checked_at` is still trusted at `now`.
pub open spec fn is_fresh(checked_at: u128, now: u128) -> bool {
    checked_at + REACHABLE_CACHE_TTL_SECS * NANOS_PER_SEC > now
}

/// What the cache says of a host: it is no host; what was found is still trusted, and
/// is checked again in the background where it was bad news; or it must be checked.
#[derive(Debug, Clone, Copy, PartialEq, Eq, Structural)]
pub enum Reachability {
    Refused,
    Known { reachable: bool, refresh: bool },
    Unknown,
}

/// What the cache says of a host.
pub open spec fn reachability(
    cache: Map<Seq<char>, EntryView>,
    host: Seq<char>,
    now: u128,
) -> Reachability {
    if !is_host(host) {
        Reachability::Refused
    } else if cache.contains_key(host) && is_fresh(cache[host].checked_at, now) {
        Reachability::Known { reachable: cache[host].value, refresh: !cache[host].value }
    } else {
        Reachability::Unknown
    }
}

/// How a refresh goes on: it waits for the check that is under way, or it checks.
#[derive(Debug, Clone, Copy, PartialEq, Eq, Structural)]
pub enum Turn {
    Wait,
    Check,
}

/// The cache after a refresh has begun, and how it goes on. Where a check is under
/// way its ticket is kept with the host.
pub open spec fn refresh_begun(
    cache: Map<Seq<char>, EntryView>,
    host: Seq<char>,
    now: u128,
    ticket: u64,
) -> (Map<Seq<char>, EntryView>, Turn) {
    if cache.contains_key(host) && cache[host].checking {
        (
            cache.insert(
                host,
                EntryView { waiters: cache[host].waiters.push(ticket), ..cache[host] },
            ),
            Turn::Wait,
        )
    } else if cache.contains_key(host) {
        (cache.insert(host, EntryView { checking: true, ..cache[host] }), Turn::Check)
    } else {
        (
            cache.insert(
                host,
                EntryView {
                    value: false,
                    checked_at: now,
                    checking: true,
                    waiters: Seq::empty(),
                },
            ),
            Turn::Check,
        )
    }
}

/// The tickets of those who wait for the check of a host.
pub open spec fn waiting(cache: Map<Seq<char>, EntryView>, host: Seq<char>) -> Seq<u64> {
    if cache.contains_key(host) {
        cache[host].waiters
    } else {
        Seq::empty()
    }
}

/// The cache after a check of the host has ended.
pub open spec fn refresh_finished(
    cache: Map<Seq<char>, EntryView>,
    host: Seq<char>,
    verdict: bool,
    now: u128,
) -> Map<Seq<char>, EntryView> {
    cache.insert(
        host,
        EntryView {
            value: verdict,
            checked_at: now,
            checking: false,
            waiters: Seq::empty(),
        },
    )
}

impl ReachabilityCache {
    /// A cache that knows of no host.
    pub fn new() -> (cache: ReachabilityCache)
        ensures
            cache@ == Map::<Seq<char>, EntryView>::empty(),
    {
        let cache = ReachabilityCache { entries: StringHashMap::new() };
        assert(cache@ =~= Map::<Seq<char>, EntryView>::empty());
        cache
    }

    /// What the cache says of a host.
    pub fn reachable(&self, host: &str, now: u128) -> (found: Reachability)
        ensures
            found == reachability(self@, host@, now),
    {
        if !valid_host(host) {
            return Reachability::Refused;
        }
        let ttl: u128 = (REACHABLE_CACHE_TTL_SECS as u128) * NANOS_PER_SEC;
        match self.entries.get(host) {
            Some(entry) => {
                assert(self@[host@] == entry@);
                if now < entry.checked_at || now - entry.checked_at < ttl {
                    Reachability::Known { reachable: entry.value, refresh: !entry.value }
                } else {
                    Reachability::Unknown
                }
            },
            None => Reachability::Unknown,
        }
    }

    /// Puts an entry in the place of what is known of a host.
    fn put(&mut self, host: &str, entry: CacheEntry)
        ensures
            final(self)@ == old(self)@.insert(host@, entry@),
    {
        self.entries.insert(host.to_owned(), entry);
        assert(self@ =~= old(self)@.insert(host@, entry@));
    }

    /// Begins a refresh of what is known of a host.
    pub fn begin_refresh(&mut self, host: &str, now: u128, ticket: u64) -> (turn: Turn)
        ensures
            (final(self)@, turn) == refresh_begun(old(self)@, host@, now, ticket),
    {
        let (entry, turn) = match self.entries.get(host) {
            Some(known) => {
                assert(self@[host@] == known@);
                let mut waiters: Vec<u64> = known.waiters.clone();
                assert(waiters@ =~= known.waiters@);
                if known.checking {
                    waiters.push(ticket);
                }
                let turn = if known.checking {
                    Turn::Wait
                } else {
                    Turn::Check
                };
                (
                    CacheEntry {
                        value: known.value,
                        checked_at: known.checked_at,
                        checking: true,
                        waiters,
                    },
                    turn,
                )
            },
            None => (
                CacheEntry { value: false, checked_at: now, checking: true, waiters: Vec::new() },
                Turn::Check,
            ),
        };
        self.put(host, entry);
        turn
    }

    /// The tickets of those who wait for the check of a host.
    pub fn waiters(&self, host: &str) -> (tickets: Vec<u64>)
        ensures
            tickets@ == waiting(self@, host@),
    {
        match self.entries.get(host) {
            Some(known) => {
                assert(self@[host@] == known@);
                let tickets: Vec<u64> = known.waiters.clone();
                assert(tickets@ =~= known.waiters@);
                tickets
            },
            None => Vec::new(),
        }
    }

    /// Ends a check of a host, and gives the tickets of those who waited for it.
    pub fn finish_refresh(&mut self, host: &str, verdict: bool, now: u128) -> (tickets: Vec<u64>)
        ensures
            final(self)@ == refresh_finished(old(self)@, host@, verdict, now),
            tickets@ == waiting(old(self)@, host@),
    {
        let tickets = self.waiters(host);
        self.put(
            host,
            CacheEntry { value: verdict, checked_at: now, checking: false, waiters: Vec::new() },
        );
        tickets
    }

    /// Forgets a host, and gives the tickets of those who waited for its check.
    pub fn invalidate_cache(&mut self, host: &str) -> (tickets: Vec<u64>)
        ensures
            final(self)@ == old(self)@.remove(host@),
            tickets@ == waiting(old(self)@, host@),
    {
        let tickets = self.waiters(host);
        self.entries.remove(host);
        assert(self@ =~= old(self)@.remove(host@));
        tickets
    }
}

// ---------------------------------------------------------------------------
// Refreshing what is known of a host
// ---------------------------------------------------------------------------

/// A refresh that has not begun.
pub struct RefreshTask {
    host: String,
}

impl View for RefreshTask {
    type V = Seq<char>;

    closed spec fn view(&self) -> Seq<char> {
        self.host@
    }
}

/// A refresh whose check is under way.
pub struct Checking {
    host: String,
}

impl View for Checking {
    type V = Seq<char>;

    closed spec fn view(&self) -> Seq<char> {
        self.host@
    }
}

/// How a refresh goes on: it waits for the answer to its ticket, or it asks an
/// address and comes back with the status of the reply. Where there is no address
/// there is nothing to ask, and no reply.
pub enum RefreshStep {
    Wait,
    Check(Option<String>, Checking),
}

/// The contents of a [`RefreshStep`]; a check is known by its host.
#[verifier::ext_equal]
pub enum RefreshStepView {
    Wait,
    Check(Option<Seq<char>>, Seq<char>),
}

impl View for RefreshStep {
    type V = RefreshStepView;

    open spec fn view(&self) -> RefreshStepView {
        match self {
            RefreshStep::Wait => RefreshStepView::Wait,
            RefreshStep::Check(url, checking) => RefreshStepView::Check(
                crate::store::shown(*url),
                checking@,
            ),
        }
    }
}

/// The step that a refresh takes on its turn.
pub open spec fn refresh_step(host: Seq<char>, turn: Turn) -> RefreshStepView {
    match turn {
        Turn::Wait => RefreshStepView::Wait,
        Turn::Check => RefreshStepView::Check(check_asked(host), host),
    }
}

/// What those who waited for a check are told.
#[derive(Debug)]
pub struct Answers {
    pub reachable: bool,
    pub tickets: Vec<u64>,
}

/// A refresh of what is known of the host.
pub fn refresh_task(host: &str) -> (task: RefreshTask)
    ensures
        task@ == host@,
{
    RefreshTask { host: host.to_owned() }
}

impl RefreshTask {
    /// Begins the refresh.
    pub fn begin(self, cache: &mut ReachabilityCache, now: u128, ticket: u64) -> (step: RefreshStep)
        ensures
            final(cache)@ == refresh_begun(old(cache)@, self@, now, ticket).0,
            step@ == refresh_step(self@, refresh_begun(old(cache)@, self@, now, ticket).1),
    {
        match cache.begin_refresh(self.host.as_str(), now, ticket) {
            Turn::Wait => RefreshStep::Wait,
            Turn::Check => RefreshStep::Check(
                check_reachable(self.host.as_str()),
                Checking { host: self.host },
            ),
        }
    }
}

/// What one who waited goes by: an answer that never comes is bad news.
pub fn awaited(answer: Option<bool>) -> (reachable: bool)
    ensures
        reachable == (answer == Some(true)),
{
    match answer {
        Some(reachable) => reachable,
        None => false,
    }
}

impl Checking {
    /// Ends the refresh with the status of the reply, where one came. What the check
    /// found goes to the cache and to all who waited for it.
    pub fn finish(self, cache: &mut ReachabilityCache, status: Option<u16>, now: u128) -> (answers:
        Answers)
        ensures
            final(cache)@ == refresh_finished(old(cache)@, self@, check_found(status), now),
            answers.reachable == check_found(status),
            answers.tickets@ == waiting(old(cache)@, self@),
    {
        let reachable = check_verdict(status);
        let tickets = cache.finish_refresh(self.host.as_str(), reachable, now);
        Answers { reachable, tickets }
    }
}

// ---------------------------------------------------------------------------
// Forwarding a request
// ---------------------------------------------------------------------------

/// A request that is to be forwarded: its host, and its path without the leading
/// slash.
pub struct Forward {
    host: String,
    path: String,
}

/// A request that waits for a refresh of what is known of its host.
pub struct Refreshing {
    forward: Forward,
}

/// A request that has been sent on.
pub struct Sending {
    forward: Forward,
}

/// The contents of a [`Forward`].
#[verifier::ext_equal]
pub struct ForwardView {
    pub host: Seq<char>,
    pub path: Seq<char>,
}

impl View for Forward {
    type V = ForwardView;

    closed spec fn view(&self) -> ForwardView {
        ForwardView { host: self.host@, path: self.path@ }
    }
}

impl View for Refreshing {
    type V = ForwardView;

    closed spec fn view(&self) -> ForwardView {
        self.forward@
    }
}

impl View for Sending {
    type V = ForwardView;

    closed spec fn view(&self) -> ForwardView {
        self.forward@
    }
}

/// What is to be done next for a request: refresh what is known of its host and come
/// back with the answer, send it to an address and come back with the outcome, or
/// give it up.
pub enum ForwardStep {
    Refresh(Refreshing),
    Send(String, Sending),
    NotForwarded,
}

/// The contents of a [`ForwardStep`].
#[verifier::ext_equal]
pub enum ForwardStepView {
    Refresh(ForwardView),
    Send(Seq<char>, ForwardView),
    NotForwarded,
}

impl View for ForwardStep {
    type V = ForwardStepView;

    open spec fn view(&self) -> ForwardStepView {
        match self {
            ForwardStep::Refresh(refreshing) => ForwardStepView::Refresh(refreshing@),
            ForwardStep::Send(url, sending) => ForwardStepView::Send(url@, sending@),
            ForwardStep::NotForwarded => ForwardStepView::NotForwarded,
        }
    }
}

/// The request that a path stands for: its first segment names the host. There is
/// none where the path has a single segment.
pub open spec fn forward_asked(path: Seq<char>) -> Option<ForwardView> {
    let rest = path.skip(1);
    match rest.index_of_first('/') {
        Some(i) => Some(ForwardView { host: rest.take(i), path: rest }),
        None => None,
    }
}

/// The address that a request is sent to.
pub open spec fn forward_url(forward: ForwardView) -> Seq<char> {
    "http://"@ + forward.path
}

/// The step for a request once it is known whether its host is reachable.
pub open spec fn forward_answered(forward: ForwardView, reachable: bool) -> ForwardStepView {
    if reachable {
        ForwardStepView::Send(forward_url(forward), forward)
    } else {
        ForwardStepView::NotForwarded
    }
}

/// The first step for a request, by what the cache says of its host.
pub open spec fn forward_started(forward: ForwardView, found: Reachability) -> ForwardStepView {
    match found {
        Reachability::Refused => ForwardStepView::NotForwarded,
        Reachability::Known { reachable, .. } => forward_answered(forward, reachable),
        Reachability::Unknown => ForwardStepView::Refresh(forward),
    }
}

/// What came of sending a request on: the reply, or that the host could not be
/// connected to, or that it failed in another way.
#[derive(Debug)]
pub enum SendOutcome<T> {
    Replied(T),
    ConnectFailed,
    Failed,
}

/// The request that a path stands for. The path begins with a character that takes
/// one byte.
pub fn try_forward(path: &str) -> (forward: Option<Forward>)
    requires
        path@.len() > 0,
        path@[0] <= '\u{7f}',
    ensures
        match forward {
            Some(forward) => forward_asked(path@) == Some(forward@),
            None => forward_asked(path@) is None,
        },
{
    let end: usize = path.unicode_len();
    let rest = text::cut(path, 1, end);
    assert(rest@ =~= path@.skip(1));
    match text::find(rest.as_str(), '/') {
        Some(i) => {
            let host = text::cut(rest.as_str(), 0, i);
            Some(Forward { host, path: rest })
        },
        None => None,
    }
}

impl Forward {
    /// The step for the request once it is known whether its host is reachable.
    fn answered(self, reachable: bool) -> (step: ForwardStep)
        ensures
            step@ == forward_answered(self@, reachable),
    {
        if !reachable {
            return ForwardStep::NotForwarded;
        }
        let mut url = "http://".to_owned();
        url.append(self.path.as_str());
        ForwardStep::Send(url, Sending { forward: self })
    }

    /// The host that the request names.
    pub fn host(&self) -> (host: &str)
        ensures
            host@ == self@.host,
    {
        self.host.as_str()
    }

    /// The first step for the request, by what the cache says of its host. Where the
    /// host is to be checked again in the background, that refresh stands beside the
    /// step.
    pub fn reachable(self, cache: &ReachabilityCache, now: u128) -> (next: (
        ForwardStep,
        Option<RefreshTask>,
    ))
        ensures
            next.0@ == forward_started(self@, reachability(cache@, self@.host, now)),
            match next.1 {
                Some(task) => task@ == self@.host && reachability(cache@, self@.host, now)
                    == (Reachability::Known { reachable: false, refresh: true }),
                None => reachability(cache@, self@.host, now) != (Reachability::Known {
                    reachable: false,
                    refresh: true,
                }),
            },
    {
        match cache.reachable(self.host.as_str(), now) {
            Reachability::Refused => (ForwardStep::NotForwarded, None),
            Reachability::Known { reachable, refresh } => {
                let task = if refresh {
                    Some(refresh_task(self.host.as_str()))
                } else {
                    None
                };
                (self.answered(reachable), task)
            },
            Reachability::Unknown => (
                ForwardStep::Refresh(Refreshing { forward: self }),
                None,
            ),
        }
    }
}

impl Refreshing {
    /// The refresh that the request waits for.
    pub fn task(&self) -> (task: RefreshTask)
        ensures
            task@ == self@.host,
    {
        refresh_task(self.forward.host.as_str())
    }

    /// The step for the request once the refresh has answered.
    pub fn resume(self, reachable: bool) -> (step: ForwardStep)
        ensures
            step@ == forward_answered(self@, reachable),
    {
        self.forward.answered(reachable)
    }
}

impl Sending {
    /// Ends the forwarding, and gives the reply that is relayed: the one that came,
    /// where one came. A host that could not be connected to is forgotten, and those
    /// who wait for its check are told that it is not reachable.
    pub fn finish<T>(self, cache: &mut ReachabilityCache, outcome: SendOutcome<T>) -> (end: (
        Option<T>,
        Answers,
    ))
        ensures
            end.0 == (match outcome {
                SendOutcome::Replied(reply) => Some(reply),
                _ => None,
            }),
            !end.1.reachable,
            outcome is ConnectFailed ==> final(cache)@ == old(cache)@.remove(self@.host)
                && end.1.tickets@ == waiting(old(cache)@, self@.host),
            !(outcome is ConnectFailed) ==> final(cache)@ == old(cache)@
                && end.1.tickets@.len() == 0,
    {
        match outcome {
            SendOutcome::Replied(reply) => (
                Some(reply),
                Answers { reachable: false, tickets: Vec::new() },
            ),
            SendOutcome::ConnectFailed => {
                let tickets = cache.invalidate_cache(self.forward.host.as_str());
                (None, Answers { reachable: false, tickets })
            },
            SendOutcome::Failed => (None, Answers { reachable: false, tickets: Vec::new() }),
        }
    }
}

} // verus!
