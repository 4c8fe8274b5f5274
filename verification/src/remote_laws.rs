//! What holds of the cache of hosts over any run of refreshes, and of forwarding.

use vstd::prelude::*;
use crate::remote;
use crate::remote::{
    EntryView, ForwardStepView, ForwardView, Reachability, RefreshStepView, Turn,
};
use crate::store;
use crate::store_laws;

verus! {

/// What can happen to the cache.
pub enum CacheEvent {
    /// A refresh of the host begins.
    Begin { host: Seq<char>, now: u128, ticket: u64 },
    /// A check of the host ends.
    Finish { host: Seq<char>, verdict: bool, now: u128 },
    /// The host is forgotten.
    Forget { host: Seq<char> },
}

/// The host that an event is about.
pub open spec fn host_of(event: CacheEvent) -> Seq<char> {
    match event {
        CacheEvent::Begin { host, .. } => host,
        CacheEvent::Finish { host, .. } => host,
        CacheEvent::Forget { host } => host,
    }
}

/// The cache after an event.
pub open spec fn after(cache: Map<Seq<char>, EntryView>, event: CacheEvent) -> Map<
    Seq<char>,
    EntryView,
> {
    match event {
        CacheEvent::Begin { host, now, ticket } => remote::refresh_begun(
            cache,
            host,
            now,
            ticket,
        ).0,
        CacheEvent::Finish { host, verdict, now } => remote::refresh_finished(
            cache,
            host,
            verdict,
            now,
        ),
        CacheEvent::Forget { host } => cache.remove(host),
    }
}

/// The cache after a run of events.
pub open spec fn after_all(
    cache: Map<Seq<char>, EntryView>,
    events: Seq<CacheEvent>,
) -> Map<Seq<char>, EntryView>
    decreases events.len(),
{
    if events.len() == 0 {
        cache
    } else {
        after(after_all(cache, events.drop_last()), events.last())
    }
}

/// The tickets that an event makes wait for the check of a host.
pub open spec fn kept(
    cache: Map<Seq<char>, EntryView>,
    event: CacheEvent,
    host: Seq<char>,
) -> Seq<u64> {
    match event {
        CacheEvent::Begin { host: refreshed, now, ticket } => if refreshed == host
            && remote::refresh_begun(cache, host, now, ticket).1 == Turn::Wait {
            seq![ticket]
        } else {
            Seq::empty()
        },
        _ => Seq::empty(),
    }
}

/// The tickets, among those that wait for the check of a host, that an event answers.
pub open spec fn answered(
    cache: Map<Seq<char>, EntryView>,
    event: CacheEvent,
    host: Seq<char>,
) -> Seq<u64> {
    if !(event is Begin) && host_of(event) == host {
        remote::waiting(cache, host)
    } else {
        Seq::empty()
    }
}

/// The tickets that a run makes wait for the check of a host, in order.
pub open spec fn all_kept(
    cache: Map<Seq<char>, EntryView>,
    events: Seq<CacheEvent>,
    host: Seq<char>,
) -> Seq<u64>
    decreases events.len(),
{
    if events.len() == 0 {
        Seq::empty()
    } else {
        all_kept(cache, events.drop_last(), host) + kept(
            after_all(cache, events.drop_last()),
            events.last(),
            host,
        )
    }
}

/// The tickets of a host that a run answers, in order.
pub open spec fn all_answered(
    cache: Map<Seq<char>, EntryView>,
    events: Seq<CacheEvent>,
    host: Seq<char>,
) -> Seq<u64>
    decreases events.len(),
{
    if events.len() == 0 {
        Seq::empty()
    } else {
        all_answered(cache, events.drop_last(), host) + answered(
            after_all(cache, events.drop_last()),
            events.last(),
            host,
        )
    }
}

/// Whether an event ends the check of a host, or forgets the host.
pub open spec fn ends_check_of(event: CacheEvent, host: Seq<char>) -> bool {
    !(event is Begin) && host_of(event) == host
}

/// Whether no one waits but for a check that is under way.
pub open spec fn none_waits_idly(cache: Map<Seq<char>, EntryView>) -> bool {
    forall|host: Seq<char>|
        #![trigger cache[host]]
        cache.contains_key(host) && !cache[host].checking ==> cache[host].waiters.len() == 0
}

/// Every ticket that is kept waiting is answered once, in the order of arrival, or
/// still waits: none is lost, none is answered twice, and none is made up.
pub proof fn law_every_waiter_is_answered_once(events: Seq<CacheEvent>, host: Seq<char>)
    ensures
        all_answered(Map::empty(), events, host) + remote::waiting(
            after_all(Map::empty(), events),
            host,
        ) == all_kept(Map::empty(), events, host),
    decreases events.len(),
{
    let empty = Map::<Seq<char>, EntryView>::empty();
    if events.len() > 0 {
        let past = events.drop_last();
        let event = events.last();
        let cache = after_all(empty, past);
        law_every_waiter_is_answered_once(past, host);
        assert(answered(cache, event, host) + remote::waiting(after(cache, event), host)
            =~= remote::waiting(cache, host) + kept(cache, event, host));
        assert(all_answered(empty, events, host) + remote::waiting(after(cache, event), host)
            =~= all_answered(empty, past, host) + (answered(cache, event, host)
            + remote::waiting(after(cache, event), host)));
        assert(all_answered(empty, past, host) + (remote::waiting(cache, host) + kept(
            cache,
            event,
            host,
        )) =~= (all_answered(empty, past, host) + remote::waiting(cache, host)) + kept(
            cache,
            event,
            host,
        ));
    } else {
        assert(all_answered(empty, events, host) + remote::waiting(empty, host) =~= all_kept(
            empty,
            events,
            host,
        ));
    }
}

/// Whatever happens, no one waits but for a check that is under way.
pub proof fn law_none_waits_idly(events: Seq<CacheEvent>)
    ensures
        none_waits_idly(after_all(Map::empty(), events)),
    decreases events.len(),
{
    if events.len() > 0 {
        law_none_waits_idly(events.drop_last());
    }
}

/// While a check of a host is under way no other begins: until it ends or the host is
/// forgotten, every refresh of the host waits.
pub proof fn law_one_check_at_a_time(
    cache: Map<Seq<char>, EntryView>,
    events: Seq<CacheEvent>,
    host: Seq<char>,
    now: u128,
    ticket: u64,
)
    requires
        cache.contains_key(host) && cache[host].checking,
        forall|i: int| 0 <= i < events.len() ==> !ends_check_of(#[trigger] events[i], host),
    ensures
        remote::refresh_begun(after_all(cache, events), host, now, ticket).1 == Turn::Wait,
{
    lemma_entry_kept(cache, events, host);
}

/// Until a check of a host ends or the host is forgotten, its entry stays, with what
/// was found and when, and a check that is under way stays so.
proof fn lemma_entry_kept(
    cache: Map<Seq<char>, EntryView>,
    events: Seq<CacheEvent>,
    host: Seq<char>,
)
    requires
        cache.contains_key(host),
        forall|i: int| 0 <= i < events.len() ==> !ends_check_of(#[trigger] events[i], host),
    ensures
        after_all(cache, events).contains_key(host),
        after_all(cache, events)[host].value == cache[host].value,
        after_all(cache, events)[host].checked_at == cache[host].checked_at,
        cache[host].checking ==> after_all(cache, events)[host].checking,
    decreases events.len(),
{
    if events.len() > 0 {
        let past = events.drop_last();
        assert forall|i: int| 0 <= i < past.len() implies !ends_check_of(
            #[trigger] past[i],
            host,
        ) by {
            assert(past[i] == events[i]);
        }
        assert(!ends_check_of(events[events.len() - 1], host));
        lemma_entry_kept(cache, past, host);
    }
}

/// A refresh that begins when no check of its host is under way checks it itself.
pub proof fn law_idle_host_is_checked(
    cache: Map<Seq<char>, EntryView>,
    host: Seq<char>,
    now: u128,
    ticket: u64,
)
    requires
        !(cache.contains_key(host) && cache[host].checking),
    ensures
        remote::refresh_begun(cache, host, now, ticket).1 == Turn::Check,
        remote::refresh_begun(cache, host, now, ticket).0[host].checking,
{
}

/// What a check finds is what the cache says of the host for the time that it is
/// trusted, whatever refreshes begin meanwhile and whatever happens to other hosts;
/// bad news is checked again in the background. After that time the host must be
/// checked anew.
pub proof fn law_verdict_is_trusted_for_its_time(
    cache: Map<Seq<char>, EntryView>,
    host: Seq<char>,
    verdict: bool,
    found_at: u128,
    events: Seq<CacheEvent>,
    now: u128,
)
    requires
        remote::is_host(host),
        forall|i: int| 0 <= i < events.len() ==> !ends_check_of(#[trigger] events[i], host),
    ensures
        remote::reachability(
            after_all(remote::refresh_finished(cache, host, verdict, found_at), events),
            host,
            now,
        ) == (if found_at + 300_000_000_000 > now {
            Reachability::Known { reachable: verdict, refresh: !verdict }
        } else {
            Reachability::Unknown
        }),
{
    lemma_entry_kept(remote::refresh_finished(cache, host, verdict, found_at), events, host);
}

/// A host that is forgotten must be checked anew.
pub proof fn law_forgotten_host_is_unknown(
    cache: Map<Seq<char>, EntryView>,
    host: Seq<char>,
    now: u128,
)
    requires
        remote::is_host(host),
    ensures
        remote::reachability(after(cache, CacheEvent::Forget { host }), host, now)
            == Reachability::Unknown,
{
}

/// What happens to one host changes nothing of what is known of another.
pub proof fn law_hosts_are_independent(
    cache: Map<Seq<char>, EntryView>,
    event: CacheEvent,
    other: Seq<char>,
)
    requires
        host_of(event) != other,
    ensures
        after(cache, event).contains_key(other) == cache.contains_key(other),
        cache.contains_key(other) ==> after(cache, event)[other] == cache[other],
{
}

/// A request is sent on only where the cache knows, in time, that its host was found
/// reachable, or where the refresh that it waited for has answered so.
pub proof fn law_only_reachable_hosts_are_asked(
    cache: Map<Seq<char>, EntryView>,
    forward: ForwardView,
    now: u128,
    answer: bool,
)
    ensures
        remote::forward_started(
            forward,
            remote::reachability(cache, forward.host, now),
        ) is Send <==> remote::is_host(forward.host) && cache.contains_key(forward.host)
            && cache[forward.host].value && remote::is_fresh(
            cache[forward.host].checked_at,
            now,
        ),
        remote::forward_answered(forward, answer) is Send <==> answer,
{
}

/// The request for what a host calls `/rest` is the host's name, a slash and `rest`;
/// it goes to that host and asks it for `/rest`.
pub proof fn law_forwarded_path_reaches_its_host(host: Seq<char>, rest: Seq<char>)
    requires
        !host.contains('/'),
    ensures
        remote::forward_asked("/"@ + host + "/"@ + rest) == Some(
            ForwardView { host, path: host + "/"@ + rest },
        ),
        remote::forward_url(ForwardView { host, path: host + "/"@ + rest }) == "http://"@ + host
            + "/"@ + rest,
{
    reveal_strlit("/");
    let path = "/"@ + host + "/"@ + rest;
    let tail = host + "/"@ + rest;
    assert(path.skip(1) =~= tail);
    tail.index_of_first_ensures('/');
    assert(tail[host.len() as int] == '/');
    assert(tail.contains('/'));
    let i = tail.index_of_first('/')->0;
    if i < host.len() {
        assert(tail[i] == host[i]);
    }
    assert(tail.take(host.len() as int) =~= host);
    assert("http://"@ + tail =~= "http://"@ + host + "/"@ + rest);
}

/// An archive that a host advertises is had from that host: the address, asked for
/// under the host's name, goes to the host and is understood there as a request for
/// the hash part with the hash of the archive.
pub proof fn law_advertised_archive_is_had_through_the_mesh(
    host: Seq<char>,
    hash_part: Seq<char>,
    nar_hash: Seq<char>,
)
    requires
        !host.contains('/'),
        !hash_part.contains('-'),
    ensures
        ({
            let url = store::nar_url(hash_part, nar_hash);
            let forward = remote::forward_asked("/"@ + host + "/"@ + url)->0;
            &&& remote::forward_asked("/"@ + host + "/"@ + url) is Some
            &&& forward.host == host
            &&& remote::forward_url(forward) == "http://"@ + host + ("/"@ + url)
            &&& store::nar_with_hash_asked("/"@ + url) == Some(
                (hash_part, store::short_hash(nar_hash)),
            )
        }),
{
    let url = store::nar_url(hash_part, nar_hash);
    law_forwarded_path_reaches_its_host(host, url);
    store_laws::law_advertised_address_is_understood(hash_part, nar_hash);
    assert("http://"@ + host + "/"@ + url =~= "http://"@ + host + ("/"@ + url));
}

/// A path is forwarded to the host that it names before its first inner slash, so the
/// name holds no slash; a path of one segment is not forwarded.
pub proof fn law_forwarded_host_is_first_segment(path: Seq<char>)
    ensures
        remote::forward_asked(path) matches Some(forward) ==> {
            &&& !forward.host.contains('/')
            &&& forward.path == path.skip(1)
            &&& (forward.host + "/"@).is_prefix_of(path.skip(1))
        },
        remote::forward_asked(path) is None <==> !path.skip(1).contains('/'),
{
    reveal_strlit("/");
    let rest = path.skip(1);
    rest.index_of_first_ensures('/');
    if let Some(i) = rest.index_of_first('/') {
        assert((rest.take(i) + "/"@) =~= rest.subrange(0, i + 1));
    }
}

/// A host is accepted exactly where it is not empty and no character of it is a slash or
/// a backslash. One that is accepted and not in the cache is unknown, never refused; the
/// first step of a request for it is to refresh what is known of it; and its check asks
/// for the cache's description at that very host.
pub proof fn law_every_host_without_slashes_is_checked(
    cache: Map<Seq<char>, EntryView>,
    host: Seq<char>,
    path: Seq<char>,
    now: u128,
)
    requires
        host.len() > 0,
        forall|i: int| 0 <= i < host.len() ==> #[trigger] host[i] != '/' && host[i] != '\\',
    ensures
        remote::is_host(host),
        !cache.contains_key(host) ==> {
            &&& remote::reachability(cache, host, now) == Reachability::Unknown
            &&& remote::forward_started(
                ForwardView { host, path },
                remote::reachability(cache, host, now),
            ) == ForwardStepView::Refresh(ForwardView { host, path })
        },
        remote::reachability(cache, host, now) != Reachability::Refused,
        remote::check_asked(host) == Some("http://"@ + host + "/nix-cache-info"@),
        remote::refresh_step(host, Turn::Check) == RefreshStepView::Check(
            Some("http://"@ + host + "/nix-cache-info"@),
            host,
        ),
        remote::refresh_step(host, Turn::Wait) == RefreshStepView::Wait,
{
}

/// What is empty, or has a slash or a backslash in it, is no host: it is refused whatever
/// the cache holds, no request is sent to it, and its check asks nothing.
pub proof fn law_what_is_no_host_is_refused(
    cache: Map<Seq<char>, EntryView>,
    host: Seq<char>,
    path: Seq<char>,
    now: u128,
)
    requires
        host.len() == 0 || exists|i: int|
            0 <= i < host.len() && (#[trigger] host[i] == '/' || host[i] == '\\'),
    ensures
        !remote::is_host(host),
        remote::reachability(cache, host, now) == Reachability::Refused,
        remote::forward_started(
            ForwardView { host, path },
            remote::reachability(cache, host, now),
        ) == ForwardStepView::NotForwarded,
        remote::check_asked(host) is None,
        remote::refresh_step(host, Turn::Check) == RefreshStepView::Check(None, host),
        remote::refresh_step(host, Turn::Wait) == RefreshStepView::Wait,
{
    if host.len() > 0 {
        let i = choose|i: int|
            0 <= i < host.len() && (#[trigger] host[i] == '/' || host[i] == '\\');
        assert(host.contains('/') || host.contains('\\'));
    }
}

/// A check finds a host reachable exactly where a reply came with a status of the two
/// hundreds.
pub proof fn law_check_goes_by_the_status(status: u16)
    ensures
        remote::check_found(Some(status)) <==> status / 100 == 2,
        !remote::check_found(None),
{
}

/// What the cache says of a host that it holds: what was found, for less than three
/// hundred seconds after it was found, with a refresh where it was bad news; and after
/// that the host is unknown.
pub proof fn law_known_host_is_trusted_for_three_hundred_seconds(
    cache: Map<Seq<char>, EntryView>,
    host: Seq<char>,
    path: Seq<char>,
    now: u128,
)
    requires
        host.len() > 0,
        forall|i: int| 0 <= i < host.len() ==> #[trigger] host[i] != '/' && host[i] != '\\',
        cache.contains_key(host),
    ensures
        now < cache[host].checked_at + 300_000_000_000 ==> {
            &&& remote::reachability(cache, host, now) == (Reachability::Known {
                reachable: cache[host].value,
                refresh: !cache[host].value,
            })
            &&& cache[host].value ==> remote::forward_started(
                ForwardView { host, path },
                remote::reachability(cache, host, now),
            ) == ForwardStepView::Send("http://"@ + path, ForwardView { host, path })
            &&& !cache[host].value ==> remote::forward_started(
                ForwardView { host, path },
                remote::reachability(cache, host, now),
            ) == ForwardStepView::NotForwarded
        },
        now >= cache[host].checked_at + 300_000_000_000 ==> {
            &&& remote::reachability(cache, host, now) == Reachability::Unknown
            &&& remote::forward_started(
                ForwardView { host, path },
                remote::reachability(cache, host, now),
            ) == ForwardStepView::Refresh(ForwardView { host, path })
        },
{
}

/// A request whose host was found reachable is sent to the address of its whole path; one
/// whose host was not is given up.
pub proof fn law_request_is_sent_to_its_whole_path(forward: ForwardView)
    ensures
        remote::forward_url(forward) == "http://"@ + forward.path,
        remote::forward_answered(forward, true) == ForwardStepView::Send(
            "http://"@ + forward.path,
            forward,
        ),
        remote::forward_answered(forward, false) == ForwardStepView::NotForwarded,
{
}

/// A path is forwarded exactly where something without a slash stands between its first
/// character and the next slash: that is the host, and all but the first character is
/// what is asked for.
pub proof fn law_forwarded_path_is_understood(path: Seq<char>, forward: ForwardView)
    requires
        path.len() > 0,
    ensures
        remote::forward_asked(path) == Some(forward) <==> {
            &&& path == seq![path[0]] + forward.path
            &&& (forward.host + seq!['/']).is_prefix_of(forward.path)
            &&& forall|i: int| 0 <= i < forward.host.len() ==> #[trigger] forward.host[i] != '/'
        },
{
    let rest = path.skip(1);
    assert(path =~= seq![path[0]] + rest);
    assert((seq![path[0]] + forward.path).skip(1) =~= forward.path);
    rest.index_of_first_ensures('/');
    if let Some(i) = rest.index_of_first('/') {
        assert((rest.take(i) + seq!['/']) =~= rest.subrange(0, i + 1));
        if forward.path == rest && (forward.host + seq!['/']).is_prefix_of(rest) && forall|i: int|
            0 <= i < forward.host.len() ==> #[trigger] forward.host[i] != '/' {
            let n = forward.host.len() as int;
            let head = rest.subrange(0, n + 1);
            assert(head == forward.host + seq!['/']);
            assert(head[n] == '/' && head[n] == rest[n]);
            if i < n {
                assert(head[i] == rest[i] && head[i] == forward.host[i]);
            }
            assert(i == n);
            assert(rest.take(i) =~= forward.host) by {
                assert forall|j: int| 0 <= j < n implies rest[j] == forward.host[j] by {
                    assert(head[j] == rest[j]);
                }
            }
        }
    } else if (forward.host + seq!['/']).is_prefix_of(rest) {
        let n = forward.host.len() as int;
        assert(rest.subrange(0, n + 1)[n] == rest[n]);
    }
}

/// A refresh of a host whose check is under way waits: its ticket joins those that wait
/// for the host, at the end, and nothing else changes.
pub proof fn law_refresh_joins_the_check_under_way(
    cache: Map<Seq<char>, EntryView>,
    host: Seq<char>,
    now: u128,
    ticket: u64,
)
    requires
        cache.contains_key(host),
        cache[host].checking,
    ensures
        ({
            let (next, turn) = remote::refresh_begun(cache, host, now, ticket);
            &&& turn == Turn::Wait
            &&& next.dom() == cache.dom()
            &&& next[host].value == cache[host].value
            &&& next[host].checked_at == cache[host].checked_at
            &&& next[host].checking
            &&& next[host].waiters == cache[host].waiters + seq![ticket]
            &&& forall|other: Seq<char>| other != host ==> #[trigger] next[other] == cache[other]
        }),
{
    let (next, turn) = remote::refresh_begun(cache, host, now, ticket);
    assert(next.dom() =~= cache.dom());
    assert(next[host].waiters =~= cache[host].waiters + seq![ticket]);
}

/// A refresh of a host that is not being checked checks it. What is known of the host
/// stays meanwhile; of one that is not known it is noted that it is not reachable, as
/// of now. Nothing else changes.
pub proof fn law_refresh_checks_an_idle_host(
    cache: Map<Seq<char>, EntryView>,
    host: Seq<char>,
    now: u128,
    ticket: u64,
)
    requires
        cache.contains_key(host) ==> !cache[host].checking,
    ensures
        ({
            let (next, turn) = remote::refresh_begun(cache, host, now, ticket);
            &&& turn == Turn::Check
            &&& next.dom() == cache.dom().insert(host)
            &&& next[host].checking
            &&& cache.contains_key(host) ==> next[host].value == cache[host].value
                && next[host].checked_at == cache[host].checked_at && next[host].waiters
                == cache[host].waiters
            &&& !cache.contains_key(host) ==> !next[host].value && next[host].checked_at == now
                && next[host].waiters.len() == 0
            &&& forall|other: Seq<char>| other != host ==> #[trigger] next[other] == cache[other]
        }),
{
    let (next, turn) = remote::refresh_begun(cache, host, now, ticket);
    assert(next.dom() =~= cache.dom().insert(host));
}

/// A check that ends leaves what it found and when, no check under way, and no one
/// waiting; nothing else changes.
pub proof fn law_finished_check_is_noted(
    cache: Map<Seq<char>, EntryView>,
    host: Seq<char>,
    verdict: bool,
    now: u128,
)
    ensures
        ({
            let next = remote::refresh_finished(cache, host, verdict, now);
            &&& next.dom() == cache.dom().insert(host)
            &&& next[host].value == verdict
            &&& next[host].checked_at == now
            &&& !next[host].checking
            &&& next[host].waiters.len() == 0
            &&& forall|other: Seq<char>| other != host ==> #[trigger] next[other] == cache[other]
        }),
{
    let next = remote::refresh_finished(cache, host, verdict, now);
    assert(next.dom() =~= cache.dom().insert(host));
}

/// Those who wait for a host are those whom its entry holds; for a host without an entry
/// no one waits.
pub proof fn law_waiters_are_the_entrys(cache: Map<Seq<char>, EntryView>, host: Seq<char>)
    ensures
        cache.contains_key(host) ==> remote::waiting(cache, host) == cache[host].waiters,
        !cache.contains_key(host) ==> remote::waiting(cache, host).len() == 0,
{
}

} // verus!
