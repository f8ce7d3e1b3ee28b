//! Which bridges a household needs, and where its players reach this machine.

use crate::model::{opt_view, seq_view};
use crate::text::{
    all_digits, begins_with, behind_prefix, decimal, decimal_is_a_numeral, decimal_reads_back,
    digits_are_no_negative_number, is_digit, parse_unsigned, prefix_and_rest_make_the_text, read_unsigned, strip_prefix,
    to_chars, u64_to_string,
};
use vstd::prelude::*;

verus! {

broadcast use vstd::string::group_string_axioms;

// ---------------------------------------------------------------------------
// Address of this machine
// ---------------------------------------------------------------------------

/// The port of the cloud queue server where none is configured.
pub const DEFAULT_CLOUD_QUEUE_PORT: u16 = 9444;

/// What stands before the first colon of a text, all of it where there is none.
pub open spec fn before_colon(s: Seq<char>) -> Seq<char>
    decreases s.len(),
{
    if s.len() == 0 || s[0] == ':' {
        Seq::empty()
    } else {
        seq![s[0]] + before_colon(s.skip(1))
    }
}

/// The host in a WebSocket URL.
pub open spec fn host_in(url: Seq<char>) -> Option<Seq<char>> {
    match behind_prefix(url, "wss://"@) {
        Some(rest) => Some(before_colon(rest)),
        None => match behind_prefix(url, "ws://"@) {
            Some(rest) => Some(before_colon(rest)),
            None => None,
        },
    }
}

/// The first URL that is present.
pub open spec fn first_present(urls: Seq<Option<Seq<char>>>) -> Option<Seq<char>>
    decreases urls.len(),
{
    if urls.len() == 0 {
        None
    } else {
        match urls[0] {
            Some(url) => Some(url),
            None => first_present(urls.skip(1)),
        }
    }
}

/// The host of the first player that has a URL, where the URL names one.
pub open spec fn host_to_reach(urls: Seq<Option<Seq<char>>>) -> Option<Seq<char>> {
    match first_present(urls) {
        Some(url) => host_in(url),
        None => None,
    }
}

/// The views of optional texts.
pub open spec fn texts_view(texts: Seq<Option<String>>) -> Seq<Option<Seq<char>>> {
    Seq::new(texts.len(), |i: int| opt_view(texts[i]))
}

/// The text before the first colon ends there or is all of the text.
proof fn lemma_before_colon(s: Seq<char>, k: int)
    requires
        0 <= k <= s.len(),
        forall|i: int| 0 <= i < k ==> s[i] != ':',
        k == s.len() || s[k] == ':',
    ensures
        before_colon(s) == s.take(k),
    decreases s.len(),
{
    if k == 0 {
        assert(s.take(0) =~= Seq::<char>::empty());
    } else {
        assert forall|i: int| 0 <= i < k - 1 implies s.skip(1)[i] != ':' by {
            assert(s.skip(1)[i] == s[i + 1]);
        }
        lemma_before_colon(s.skip(1), k - 1);
        assert(s.take(k) =~= seq![s[0]] + s.skip(1).take(k - 1));
    }
}

/// Cuts a text before its first colon.
fn cut_at_colon(s: &str) -> (r: String)
    ensures
        r@ == before_colon(s@),
{
    let chars = to_chars(s);
    let n: usize = s.unicode_len();
    let mut k: usize = 0;
    while k < n && chars[k] != ':'
        invariant
            chars@ == s@,
            n == s@.len(),
            k <= n,
            forall|i: int| 0 <= i < k ==> s@[i] != ':',
        decreases n - k,
    {
        k = k + 1;
    }
    proof {
        lemma_before_colon(s@, k as int);
        assert(s@.take(k as int) =~= s@.subrange(0, k as int));
    }
    s.substring_char(0, k).to_owned()
}

/// Extracts the host from a WebSocket URL like "wss://192.168.1.100:1443/...".
pub fn websocket_host(url: &str) -> (r: Option<String>)
    ensures
        opt_view(r) == host_in(url@),
{
    match strip_prefix(url, "wss://") {
        Some(rest) => Some(cut_at_colon(rest)),
        None => match strip_prefix(url, "ws://") {
            Some(rest) => Some(cut_at_colon(rest)),
            None => None,
        },
    }
}

/// The host of the first player that has a WebSocket URL; this machine is to
/// be reached the way it reaches that host.
pub fn player_host(websocket_urls: &Vec<Option<String>>) -> (r: Option<String>)
    ensures
        opt_view(r) == host_to_reach(texts_view(websocket_urls@)),
{
    let ghost urls = texts_view(websocket_urls@);
    let n: usize = websocket_urls.len();
    let mut i: usize = 0;
    proof {
        assert(urls.skip(0) =~= urls);
    }
    while i < n
        invariant
            n == websocket_urls@.len(),
            i <= n,
            urls == texts_view(websocket_urls@),
            first_present(urls) == first_present(urls.skip(i as int)),
        decreases n - i,
    {
        proof {
            assert(urls.skip(i as int)[0] == opt_view(websocket_urls@[i as int]));
            assert(urls.skip(i as int).skip(1) =~= urls.skip(i + 1));
        }
        match &websocket_urls[i] {
            Some(url) => {
                return websocket_host(url.as_str());
            },
            None => {},
        }
        i = i + 1;
    }
    None
}

/// The port that a setting stands for.
pub open spec fn port_of(setting: Option<Seq<char>>) -> u16 {
    match setting {
        Some(s) => match read_unsigned(s, u16::MAX as int) {
            Some(port) => port as u16,
            None => DEFAULT_CLOUD_QUEUE_PORT,
        },
        None => DEFAULT_CLOUD_QUEUE_PORT,
    }
}

/// Reads the port of the cloud queue server from its setting. What is no port
/// number stands for the default.
pub fn cloud_queue_port(setting: &Option<String>) -> (r: u16)
    ensures
        r == port_of(opt_view(*setting)),
{
    match setting {
        Some(s) => match parse_unsigned(s.as_str(), u16::MAX as u64) {
            Some(port) => port as u16,
            None => DEFAULT_CLOUD_QUEUE_PORT,
        },
        None => DEFAULT_CLOUD_QUEUE_PORT,
    }
}

/// The base URL of the cloud queue server; the loopback address stands in for
/// an unknown one.
pub open spec fn base_url_of(local_ip: Option<Seq<char>>, port: u16) -> Seq<char> {
    let host = match local_ip {
        Some(ip) => ip,
        None => "127.0.0.1"@,
    };
    "http://"@ + host + ":"@ + decimal(port as nat)
}

/// Writes the base URL of the cloud queue server.
pub fn cloud_queue_base_url(local_ip: &Option<String>, port: u16) -> (r: String)
    ensures
        r@ == base_url_of(opt_view(*local_ip), port),
{
    let mut url = "http://".to_owned();
    match local_ip {
        Some(ip) => {
            url.append(ip.as_str());
        },
        None => {
            url.append("127.0.0.1");
        },
    }
    url.append(":");
    let digits = u64_to_string(port as u64);
    url.append(digits.as_str());
    url
}

// ---------------------------------------------------------------------------
// Groups and bridges
// ---------------------------------------------------------------------------

/// A group of players and the player that coordinates it. For a bridge, the
/// group that it serves and the coordinator that it was started with.
#[derive(Debug)]
pub struct Group {
    pub id: String,
    pub coordinator_id: String,
}

pub struct GroupView {
    pub id: Seq<char>,
    pub coordinator_id: Seq<char>,
}

impl View for Group {
    type V = GroupView;

    open spec fn view(&self) -> GroupView {
        GroupView { id: self.id@, coordinator_id: self.coordinator_id@ }
    }
}

/// The coordinator of a group; of several groups with one ID the last counts.
pub open spec fn coordinator_of(groups: Seq<GroupView>, id: Seq<char>) -> Option<Seq<char>>
    decreases groups.len(),
{
    if groups.len() == 0 {
        None
    } else if groups.last().id == id {
        Some(groups.last().coordinator_id)
    } else {
        coordinator_of(groups.drop_last(), id)
    }
}

/// Whether a bridge is stale: its group is gone or has another coordinator.
pub open spec fn stale(groups: Seq<GroupView>, bridge: GroupView) -> bool {
    coordinator_of(groups, bridge.id) != Some(bridge.coordinator_id)
}

/// Whether a group has a bridge.
pub open spec fn bridged(bridges: Seq<GroupView>, id: Seq<char>) -> bool {
    exists|i: int| 0 <= i < bridges.len() && (#[trigger] bridges[i]).id == id
}

/// Whether a bridge is stale: its group is gone or has another coordinator.
pub fn is_stale(groups: &Vec<Group>, bridge: &Group) -> (r: bool)
    ensures
        r == stale(seq_view(groups@), bridge@),
{
    let ghost all = seq_view(groups@);
    let mut i: usize = groups.len();
    proof {
        assert(all.take(i as int) =~= all);
    }
    while i > 0
        invariant
            i <= groups@.len(),
            all == seq_view(groups@),
            coordinator_of(all, bridge@.id) == coordinator_of(all.take(i as int), bridge@.id),
        decreases i,
    {
        i = i - 1;
        proof {
            assert(all.take(i + 1).last() == groups@[i as int]@);
            assert(all.take(i + 1).drop_last() =~= all.take(i as int));
        }
        if groups[i].id == bridge.id {
            return groups[i].coordinator_id != bridge.coordinator_id;
        }
    }
    true
}

/// Finds the stale bridges: the places of those whose group is gone or has
/// another coordinator, in order.
pub fn stale_bridges(bridges: &Vec<Group>, groups: &Vec<Group>) -> (r: Vec<usize>)
    ensures
        forall|k: int| 0 <= k < r@.len() ==> (#[trigger] r@[k]) < bridges@.len(),
        forall|j: int, k: int| 0 <= j < k < r@.len() ==> r@[j] < r@[k],
        forall|i: int|
            0 <= i < bridges@.len() ==> (r@.contains(i as usize) <==> stale(
                seq_view(groups@),
                (#[trigger] bridges@[i])@,
            )),
{
    let mut places: Vec<usize> = Vec::new();
    let n: usize = bridges.len();
    let mut i: usize = 0;
    while i < n
        invariant
            n == bridges@.len(),
            i <= n,
            forall|k: int| 0 <= k < places@.len() ==> (#[trigger] places@[k]) < i,
            forall|j: int, k: int| 0 <= j < k < places@.len() ==> places@[j] < places@[k],
            forall|m: int|
                0 <= m < i ==> (places@.contains(m as usize) <==> stale(
                    seq_view(groups@),
                    (#[trigger] bridges@[m])@,
                )),
        decreases n - i,
    {
        let ghost before = places@;
        if is_stale(groups, &bridges[i]) {
            places.push(i);
            proof {
                assert(places@[places@.len() - 1] == i);
                assert forall|m: int| 0 <= m < i + 1 implies (places@.contains(m as usize)
                    <==> stale(seq_view(groups@), (#[trigger] bridges@[m])@)) by {
                    if m < i {
                        if before.contains(m as usize) {
                            let k = before.index_of(m as usize);
                            assert(places@[k] == m as usize);
                        }
                        if places@.contains(m as usize) {
                            let k = places@.index_of(m as usize);
                            assert(before[k] == m as usize);
                        }
                    }
                }
            }
        } else {
            proof {
                assert(!places@.contains(i));
            }
        }
        i = i + 1;
    }
    places
}

/// Whether a group needs a bridge: it has none.
pub fn needs_bridge(bridges: &Vec<Group>, group_id: &str) -> (r: bool)
    ensures
        r == !bridged(seq_view(bridges@), group_id@),
{
    let wanted = group_id.to_owned();
    let ghost all = seq_view(bridges@);
    let n: usize = bridges.len();
    let mut i: usize = 0;
    while i < n
        invariant
            n == bridges@.len(),
            i <= n,
            wanted@ == group_id@,
            all == seq_view(bridges@),
            forall|k: int| 0 <= k < i ==> (#[trigger] all[k]).id != group_id@,
        decreases n - i,
    {
        if bridges[i].id == wanted {
            proof {
                assert(all[i as int].id == group_id@);
            }
            return false;
        }
        i = i + 1;
    }
    true
}

// ---------------------------------------------------------------------------
// Laws
// ---------------------------------------------------------------------------

/// The bridges that are not stale.
pub open spec fn kept_bridges(bridges: Seq<GroupView>, groups: Seq<GroupView>) -> Seq<GroupView> {
    bridges.filter(|bridge: GroupView| !stale(groups, bridge))
}

/// The bridges once each group that had none has got one, group by group.
pub open spec fn completed_bridges(bridges: Seq<GroupView>, groups: Seq<GroupView>) -> Seq<
    GroupView,
>
    decreases groups.len(),
{
    if groups.len() == 0 {
        bridges
    } else {
        let before = completed_bridges(bridges, groups.drop_last());
        if bridged(before, groups.last().id) {
            before
        } else {
            before.push(groups.last())
        }
    }
}

/// Where every group ID occurs once, the coordinator of a listed group is the
/// one that it is listed with.
proof fn lemma_coordinator_of_listed(groups: Seq<GroupView>, k: int)
    requires
        0 <= k < groups.len(),
        forall|i: int, j: int|
            0 <= i < j < groups.len() ==> (#[trigger] groups[i]).id != (#[trigger] groups[j]).id,
    ensures
        coordinator_of(groups, groups[k].id) == Some(groups[k].coordinator_id),
    decreases groups.len(),
{
    if k < groups.len() - 1 {
        assert(groups.drop_last()[k] == groups[k]);
        lemma_coordinator_of_listed(groups.drop_last(), k);
    }
}

/// A group that has a coordinator is listed with it.
proof fn lemma_coordinator_is_listed(groups: Seq<GroupView>, id: Seq<char>)
    requires
        coordinator_of(groups, id) is Some,
    ensures
        groups.contains(GroupView { id, coordinator_id: coordinator_of(groups, id)->0 }),
    decreases groups.len(),
{
    let wanted = GroupView { id, coordinator_id: coordinator_of(groups, id)->0 };
    if groups.last().id == id {
        assert(groups[groups.len() - 1] == wanted);
    } else {
        lemma_coordinator_is_listed(groups.drop_last(), id);
        let k = groups.drop_last().index_of(wanted);
        assert(groups[k] == wanted);
    }
}

/// Completing adds listed groups only, keeps what was there, and leaves no
/// listed group without a bridge.
proof fn lemma_completed(bridges: Seq<GroupView>, groups: Seq<GroupView>)
    ensures
        forall|b: GroupView|
            completed_bridges(bridges, groups).contains(b) ==> bridges.contains(b)
                || groups.contains(b),
        forall|k: int|
            0 <= k < groups.len() ==> bridged(
                completed_bridges(bridges, groups),
                (#[trigger] groups[k]).id,
            ),
        forall|i: int|
            0 <= i < bridges.len() ==> completed_bridges(bridges, groups).contains(
                #[trigger] bridges[i],
            ),
    decreases groups.len(),
{
    let after = completed_bridges(bridges, groups);
    if groups.len() > 0 {
        let rest = groups.drop_last();
        let before = completed_bridges(bridges, rest);
        lemma_completed(bridges, rest);
        assert forall|b: GroupView| after.contains(b) implies bridges.contains(b)
            || groups.contains(b) by {
            let i = after.index_of(b);
            if i < before.len() {
                assert(before[i] == b);
                assert(before.contains(b));
                if !bridges.contains(b) {
                    let j = rest.index_of(b);
                    assert(groups[j] == b);
                }
            } else {
                assert(groups[groups.len() - 1] == b);
            }
        }
        assert forall|i: int| 0 <= i < before.len() implies after.contains(
            #[trigger] before[i],
        ) by {
            assert(after[i] == before[i]);
        }
        assert forall|k: int| 0 <= k < groups.len() implies bridged(
            after,
            (#[trigger] groups[k]).id,
        ) by {
            if k < groups.len() - 1 {
                assert(rest[k] == groups[k]);
                let i = choose|i: int|
                    0 <= i < before.len() && (#[trigger] before[i]).id == groups[k].id;
                assert(after[i].id == groups[k].id);
            } else if !bridged(before, groups[k].id) {
                assert(after[before.len() as int] == groups[k]);
            }
        }
        assert forall|i: int| 0 <= i < bridges.len() implies after.contains(
            #[trigger] bridges[i],
        ) by {
            assert(before.contains(bridges[i]));
            let j = before.index_of(bridges[i]);
            assert(after[j] == bridges[i]);
        }
    } else {
        assert forall|i: int| 0 <= i < bridges.len() implies after.contains(
            #[trigger] bridges[i],
        ) by {
            assert(after[i] == bridges[i]);
        }
    }
}

/// After a topology update, where every group ID occurs once: when the stale
/// bridges are removed and each group without a bridge gets one, the bridges
/// are those of the groups of the topology with their coordinators, every
/// group has one, and bridges that were up to date are kept.
pub proof fn bridges_follow_the_topology(bridges: Seq<GroupView>, groups: Seq<GroupView>)
    requires
        forall|i: int, j: int|
            0 <= i < j < groups.len() ==> (#[trigger] groups[i]).id != (#[trigger] groups[j]).id,
    ensures
        ({
            let settled = completed_bridges(kept_bridges(bridges, groups), groups);
            &&& forall|b: GroupView| settled.contains(b) <==> groups.contains(b)
            &&& forall|i: int|
                0 <= i < bridges.len() && !stale(groups, #[trigger] bridges[i])
                    ==> settled.contains(bridges[i])
        }),
{
    broadcast use vstd::seq_lib::group_filter_ensures;

    let up_to_date = |bridge: GroupView| !stale(groups, bridge);
    let kept = kept_bridges(bridges, groups);
    let settled = completed_bridges(kept, groups);
    lemma_completed(kept, groups);
    assert forall|b: GroupView| settled.contains(b) implies groups.contains(b) by {
        if kept.contains(b) {
            assert(up_to_date(b));
            lemma_coordinator_is_listed(groups, b.id);
        }
    }
    assert forall|b: GroupView| groups.contains(b) implies settled.contains(b) by {
        let k = groups.index_of(b);
        lemma_coordinator_of_listed(groups, k);
        assert(bridged(settled, groups[k].id));
        let i = choose|i: int| 0 <= i < settled.len() && (#[trigger] settled[i]).id == b.id;
        assert(settled.contains(settled[i]));
        assert(groups.contains(settled[i]));
        let j = groups.index_of(settled[i]);
        lemma_coordinator_of_listed(groups, j);
        assert(settled[i] == b);
    }
    assert forall|i: int|
        0 <= i < bridges.len() && !stale(groups, #[trigger] bridges[i]) implies settled.contains(
        bridges[i],
    ) by {
        assert(up_to_date(bridges[i]));
        assert(kept.contains(bridges[i]));
        let j = kept.index_of(bridges[i]);
        assert(settled.contains(kept[j]));
    }
}

/// Before the first colon of a text stands its longest beginning without one.
pub proof fn nothing_before_the_colon_is_a_colon(s: Seq<char>)
    ensures
        ({
            let host = before_colon(s);
            &&& host.len() <= s.len()
            &&& host == s.take(host.len() as int)
            &&& forall|i: int| 0 <= i < host.len() ==> #[trigger] host[i] != ':'
            &&& host.len() < s.len() ==> s[host.len() as int] == ':'
        }),
    decreases s.len(),
{
    let host = before_colon(s);
    if s.len() > 0 && s[0] != ':' {
        let rest = s.skip(1);
        nothing_before_the_colon_is_a_colon(rest);
        assert forall|i: int| 0 <= i < host.len() implies #[trigger] host[i] != ':' by {
            if i > 0 {
                assert(host[i] == before_colon(rest)[i - 1]);
            }
        }
        assert(host =~= s.take(host.len() as int));
        if host.len() < s.len() {
            assert(s[host.len() as int] == rest[host.len() - 1]);
        }
    } else {
        assert(host =~= s.take(0));
    }
}

/// The host of a WebSocket URL is what stands between the scheme and the colon
/// of the port; a text with another scheme has none.
pub proof fn host_stands_between_scheme_and_port(host: Seq<char>, rest: Seq<char>, url: Seq<char>)
    requires
        forall|i: int| 0 <= i < host.len() ==> #[trigger] host[i] != ':',
    ensures
        host_in("wss://"@ + host + ":"@ + rest) == Some(host),
        host_in("ws://"@ + host + ":"@ + rest) == Some(host),
        host_in("wss://"@ + host) == Some(host),
        host_in("ws://"@ + host) == Some(host),
        !begins_with(url, "wss://"@) && !begins_with(url, "ws://"@) ==> host_in(url) is None,
{
    reveal_strlit("wss://");
    reveal_strlit("ws://");
    reveal_strlit(":");
    let tail = host + ":"@ + rest;
    assert("wss://"@ + host + ":"@ + rest =~= "wss://"@ + tail);
    assert("ws://"@ + host + ":"@ + rest =~= "ws://"@ + tail);
    prefix_and_rest_make_the_text("wss://"@, tail, url);
    prefix_and_rest_make_the_text("ws://"@, tail, url);
    prefix_and_rest_make_the_text("wss://"@, host, url);
    prefix_and_rest_make_the_text("ws://"@, host, url);
    assert(("ws://"@ + tail)[2] != "wss://"@[2]);
    assert(("ws://"@ + host)[2] != "wss://"@[2]);
    assert(begins_with("ws://"@ + tail, "wss://"@) ==> ("ws://"@ + tail).take(6)[2] == ("ws://"@
        + tail)[2]);
    assert(begins_with("ws://"@ + host, "wss://"@) ==> ("ws://"@ + host).take(6)[2] == ("ws://"@
        + host)[2]);
    assert forall|i: int| 0 <= i < host.len() implies tail[i] != ':' by {
        assert(tail[i] == host[i]);
    }
    assert(tail[host.len() as int] == ':');
    lemma_before_colon(tail, host.len() as int);
    lemma_before_colon(host, host.len() as int);
    assert(tail.take(host.len() as int) =~= host);
    assert(host.take(host.len() as int) =~= host);
}

/// The first player that has a URL decides: those before it do not matter, and
/// those behind it do not either.
pub proof fn first_player_with_a_url_decides(urls: Seq<Option<Seq<char>>>, k: int)
    requires
        0 <= k <= urls.len(),
        forall|i: int| 0 <= i < k ==> (#[trigger] urls[i]) is None,
    ensures
        k == urls.len() ==> host_to_reach(urls) is None,
        k < urls.len() ==> (urls[k] matches Some(url) ==> host_to_reach(urls) == host_in(url)),
    decreases k,
{
    if k > 0 {
        let rest = urls.skip(1);
        assert(urls[0] is None);
        assert forall|i: int| 0 <= i < k - 1 implies (#[trigger] rest[i]) is None by {
            assert(rest[i] == urls[i + 1]);
        }
        first_player_with_a_url_decides(rest, k - 1);
        if k < urls.len() {
            assert(rest[k - 1] == urls[k]);
        }
    }
}

/// A port that is set as a number up to 65535 is the one that is used; without
/// one, or with a text that is no number or a larger one, the port is 9444.
pub proof fn set_port_is_used(port: u16, larger: nat, text: Seq<char>)
    requires
        larger > 65535,
        !all_digits(text),
        text.len() == 0 || text[0] != '+',
    ensures
        port_of(Some(decimal(port as nat))) == port,
        port_of(Some(decimal(larger))) == 9444,
        port_of(Some(text)) == 9444,
        port_of(None) == 9444,
{
    decimal_reads_back(port as nat, u16::MAX as int);
    decimal_is_a_numeral(larger);
    assert(is_digit(decimal(larger)[0]));
}

/// The base URL names the address of this machine and the port.
pub proof fn base_url_names_address_and_port(ip: Seq<char>, port: u16)
    ensures
        base_url_of(Some(ip), port) == "http://"@ + ip + ":"@ + decimal(port as nat),
        base_url_of(None, port) == base_url_of(Some("127.0.0.1"@), port),
{
}

/// A bridge is stale exactly where the last group with its ID, if there is one,
/// has another coordinator.
pub proof fn last_group_decides_about_a_bridge(groups: Seq<GroupView>, bridge: GroupView, k: int)
    requires
        -1 <= k < groups.len(),
        forall|i: int| k < i < groups.len() ==> (#[trigger] groups[i]).id != bridge.id,
        k >= 0 ==> groups[k].id == bridge.id,
    ensures
        k < 0 ==> stale(groups, bridge),
        k >= 0 ==> (stale(groups, bridge) <==> groups[k].coordinator_id != bridge.coordinator_id),
    decreases groups.len(),
{
    if groups.len() > 0 && k < groups.len() - 1 {
        let rest = groups.drop_last();
        assert(groups[groups.len() - 1].id != bridge.id);
        assert forall|i: int| k < i < rest.len() implies (#[trigger] rest[i]).id != bridge.id by {
            assert(rest[i] == groups[i]);
        }
        if k >= 0 {
            assert(rest[k] == groups[k]);
        }
        last_group_decides_about_a_bridge(rest, bridge, k);
    }
}

/// A setting that reads as a number up to 65535 is the port, however it is written;
/// any other stands for 9444.
pub proof fn port_is_read_from_its_setting(setting: Seq<char>)
    ensures
        read_unsigned(setting, 65535) matches Some(n) ==> port_of(Some(setting)) == n,
        read_unsigned(setting, 65535) is None ==> port_of(Some(setting)) == 9444,
{
    if setting.len() > 0 && setting[0] == '+' {
        digits_are_no_negative_number(setting.skip(1));
    }
    digits_are_no_negative_number(setting);
}

/// A group has a bridge where the ID of one of the bridges is its own.
pub proof fn bridge_is_found_by_its_id(bridges: Seq<GroupView>, b: GroupView, id: Seq<char>)
    ensures
        !bridged(Seq::empty(), id),
        bridged(bridges.push(b), id) <==> bridged(bridges, id) || b.id == id,
{
    let longer = bridges.push(b);
    assert(longer[bridges.len() as int] == b);
    if bridged(bridges, id) {
        let i = choose|i: int| 0 <= i < bridges.len() && (#[trigger] bridges[i]).id == id;
        assert(longer[i].id == id);
    }
    if bridged(longer, id) && b.id != id {
        let i = choose|i: int| 0 <= i < longer.len() && (#[trigger] longer[i]).id == id;
        assert(bridges[i].id == id);
    }
}

/// What is seen of groups and URLs is what they hold.
pub proof fn groups_are_seen_as_they_are(group: Group, urls: Seq<Option<String>>)
    ensures
        group@.id == group.id@,
        group@.coordinator_id == group.coordinator_id@,
        texts_view(urls).len() == urls.len(),
        forall|i: int| 0 <= i < urls.len() ==> #[trigger] texts_view(urls)[i] == opt_view(urls[i]),
{
}

} // verus!
