//! The history of connections: one entry per server, most recent first, the
//! ten most recent kept.

use crate::clock::Timestamp;
use crate::ui::models::{optional_text, ConnectionEntry, ConnectionEntryView};
use vstd::prelude::*;
use vstd::string::*;

verus! {

/// The number of entries the history keeps.
pub const HISTORY_LIMIT: usize = 10;

/// The readings of a sequence of entries.
pub open spec fn views(entries: Seq<ConnectionEntry>) -> Seq<ConnectionEntryView> {
    entries.map_values(|entry: ConnectionEntry| entry@)
}

/// Whether an entry is the one for the given server.
pub open spec fn is_for(entry: ConnectionEntryView, address: Seq<char>, port: Seq<char>) -> bool {
    entry.address == address && entry.port == port
}

/// The position of the first entry for the given server, or the length of
/// the history where there is none.
pub open spec fn position_of(history: Seq<ConnectionEntryView>, address: Seq<char>, port: Seq<char>)
    -> int
    decreases history.len(),
{
    if history.len() == 0 {
        0
    } else if is_for(history[0], address, port) {
        0
    } else {
        1 + position_of(history.subrange(1, history.len() as int), address, port)
    }
}

/// An existing entry after another attempt to connect: a user named now
/// replaces the one on record, the method and the time are brought up to
/// date, and a success is remembered for good.
pub open spec fn refreshed(
    entry: ConnectionEntryView,
    username: Option<Seq<char>>,
    auth_method: Seq<char>,
    successful: bool,
    now: Timestamp,
) -> ConnectionEntryView {
    ConnectionEntryView {
        username: match username {
            Some(username) => Some(username),
            None => entry.username,
        },
        auth_method,
        last_connected: now,
        successful: entry.successful || successful,
        ..entry
    }
}

/// The history with an attempt to connect written down, before it is put in
/// order: the first entry for the server is refreshed in place, or, where
/// there is none, a new entry is added at the end.
pub open spec fn noted(
    history: Seq<ConnectionEntryView>,
    address: Seq<char>,
    port: Seq<char>,
    username: Option<Seq<char>>,
    auth_method: Seq<char>,
    successful: bool,
    now: Timestamp,
) -> Seq<ConnectionEntryView> {
    let at = position_of(history, address, port);
    if at < history.len() {
        history.update(at, refreshed(history[at], username, auth_method, successful, now))
    } else {
        history.push(
            ConnectionEntryView {
                address,
                port,
                username,
                auth_method,
                last_connected: now,
                successful,
            },
        )
    }
}

/// A sequence in order with one more entry put in its place: behind every
/// entry that is as recent or more recent, before the others.
pub open spec fn placed(ordered: Seq<ConnectionEntryView>, entry: ConnectionEntryView) -> Seq<
    ConnectionEntryView,
>
    decreases ordered.len(),
{
    if ordered.len() == 0 {
        seq![entry]
    } else if entry.last_connected.later_than(ordered.last().last_connected) {
        placed(ordered.drop_last(), entry).push(ordered.last())
    } else {
        ordered.push(entry)
    }
}

/// The entries with the most recent first. Entries of the same time keep
/// the order they had.
pub open spec fn newest_first(entries: Seq<ConnectionEntryView>) -> Seq<ConnectionEntryView>
    decreases entries.len(),
{
    if entries.len() == 0 {
        Seq::empty()
    } else {
        placed(newest_first(entries.drop_last()), entries.last())
    }
}

/// The first `limit` entries, or all where there are fewer.
pub open spec fn capped(entries: Seq<ConnectionEntryView>, limit: int) -> Seq<ConnectionEntryView> {
    if entries.len() > limit && limit >= 0 {
        entries.subrange(0, limit)
    } else {
        entries
    }
}

/// The history after an attempt to connect: the attempt is written down,
/// the entries are put in order, and only the most recent are kept.
pub open spec fn history_after(
    history: Seq<ConnectionEntryView>,
    address: Seq<char>,
    port: Seq<char>,
    username: Option<Seq<char>>,
    auth_method: Seq<char>,
    successful: bool,
    now: Timestamp,
) -> Seq<ConnectionEntryView> {
    capped(
        newest_first(noted(history, address, port, username, auth_method, successful, now)),
        HISTORY_LIMIT as int,
    )
}

/// Whether no entry comes before a more recent one.
pub open spec fn in_order(entries: Seq<ConnectionEntryView>) -> bool {
    forall|i: int, j: int|
        0 <= i < j < entries.len() ==> !(#[trigger] entries[j]).last_connected.later_than(
            (#[trigger] entries[i]).last_connected,
        )
}

/// Where `placed` puts an entry: at `at`, if every entry from `at` on is
/// less recent and the one before `at`, if any, is not.
proof fn lemma_placed_at(ordered: Seq<ConnectionEntryView>, entry: ConnectionEntryView, at: int)
    requires
        0 <= at <= ordered.len(),
        forall|k: int|
            at <= k < ordered.len() ==> entry.last_connected.later_than(
                (#[trigger] ordered[k]).last_connected,
            ),
        at > 0 ==> !entry.last_connected.later_than(ordered[at - 1].last_connected),
    ensures
        placed(ordered, entry) == ordered.insert(at, entry),
    decreases ordered.len() - at,
{
    if at == ordered.len() {
        assert(ordered.insert(at, entry) =~= ordered.push(entry));
        if ordered.len() > 0 {
            assert(ordered.last() == ordered[at - 1]);
        }
    } else {
        assert(entry.last_connected.later_than(ordered[ordered.len() - 1].last_connected));
        let front = ordered.drop_last();
        assert forall|k: int| at <= k < front.len() implies entry.last_connected.later_than(
            (#[trigger] front[k]).last_connected,
        ) by {
            assert(front[k] == ordered[k]);
        }
        if at > 0 {
            assert(front[at - 1] == ordered[at - 1]);
        }
        lemma_placed_at(front, entry, at);
        assert(front.insert(at, entry).push(ordered.last()) =~= ordered.insert(at, entry));
    }
}

/// Putting an entry in its place keeps the order, and adds the entry and
/// nothing else.
proof fn lemma_placed_keeps_order(ordered: Seq<ConnectionEntryView>, entry: ConnectionEntryView)
    requires
        in_order(ordered),
    ensures
        in_order(placed(ordered, entry)),
        placed(ordered, entry).to_multiset() == ordered.to_multiset().insert(entry),
        placed(ordered, entry).len() == ordered.len() + 1,
    decreases ordered.len(),
{
    broadcast use vstd::seq_lib::group_to_multiset_ensures;

    if ordered.len() == 0 {
        assert(placed(ordered, entry) =~= Seq::<ConnectionEntryView>::empty().push(entry));
        assert(ordered =~= Seq::<ConnectionEntryView>::empty());
    } else if entry.last_connected.later_than(ordered.last().last_connected) {
        let front = ordered.drop_last();
        assert forall|i: int, j: int| 0 <= i < j < front.len() implies !(
        #[trigger] front[j]).last_connected.later_than((#[trigger] front[i]).last_connected) by {
            assert(front[i] == ordered[i]);
            assert(front[j] == ordered[j]);
        }
        lemma_placed_keeps_order(front, entry);
        let inner = placed(front, entry);
        let result = inner.push(ordered.last());
        assert(ordered =~= front.push(ordered.last()));
        // Every entry of `inner` is the new one or one of `front`.
        assert forall|i: int, j: int| 0 <= i < j < result.len() implies !(
        #[trigger] result[j]).last_connected.later_than((#[trigger] result[i]).last_connected) by {
            if j < inner.len() {
                assert(result[i] == inner[i]);
                assert(result[j] == inner[j]);
            } else {
                assert(result[j] == ordered.last());
                assert(result[i] == inner[i]);
                assert(inner.to_multiset().count(inner[i]) > 0);
                if inner[i] != entry {
                    assert(front.to_multiset().count(inner[i]) > 0);
                    let k = choose|k: int| 0 <= k < front.len() && front[k] == inner[i];
                    assert(ordered[k] == inner[i]);
                    assert(!ordered[ordered.len() - 1].last_connected.later_than(
                        ordered[k].last_connected,
                    ));
                }
            }
        }
    } else {
        let result = ordered.push(entry);
        assert forall|i: int, j: int| 0 <= i < j < result.len() implies !(
        #[trigger] result[j]).last_connected.later_than((#[trigger] result[i]).last_connected) by {
            if j < ordered.len() {
                assert(result[i] == ordered[i]);
                assert(result[j] == ordered[j]);
            } else {
                assert(result[i] == ordered[i]);
                assert(!ordered[ordered.len() - 1].last_connected.later_than(
                    ordered[i].last_connected,
                ) || i == ordered.len() - 1);
            }
        }
    }
}

/// Ordering a history changes nothing but the order: the result has no
/// entry before a more recent one, and holds the same entries, each as often
/// as before.
pub proof fn lemma_newest_first_orders(entries: Seq<ConnectionEntryView>)
    ensures
        in_order(newest_first(entries)),
        newest_first(entries).to_multiset() == entries.to_multiset(),
        newest_first(entries).len() == entries.len(),
    decreases entries.len(),
{
    broadcast use vstd::seq_lib::group_to_multiset_ensures;

    if entries.len() > 0 {
        lemma_newest_first_orders(entries.drop_last());
        lemma_placed_keeps_order(newest_first(entries.drop_last()), entries.last());
        assert(entries =~= entries.drop_last().push(entries.last()));
    }
}

/// Where the search for a server ends: at `at`, if no entry before `at` is
/// for the server and the one at `at`, if any, is.
proof fn lemma_position_found(
    history: Seq<ConnectionEntryView>,
    address: Seq<char>,
    port: Seq<char>,
    at: int,
)
    requires
        0 <= at <= history.len(),
        forall|k: int| 0 <= k < at ==> !is_for(#[trigger] history[k], address, port),
        at < history.len() ==> is_for(history[at], address, port),
    ensures
        position_of(history, address, port) == at,
    decreases history.len(),
{
    if history.len() > 0 && at > 0 {
        let rest = history.subrange(1, history.len() as int);
        assert(!is_for(history[0], address, port));
        assert forall|k: int| 0 <= k < at - 1 implies !is_for(
            #[trigger] rest[k],
            address,
            port,
        ) by {
            assert(rest[k] == history[k + 1]);
        }
        if at < history.len() {
            assert(rest[at - 1] == history[at]);
        }
        lemma_position_found(rest, address, port, at - 1);
    }
}

/// Puts the entries in order, the most recent first; entries of the same
/// time keep the order they had.
pub fn sort_newest_first(history: &mut Vec<ConnectionEntry>)
    ensures
        views(final(history)@) == newest_first(views(old(history)@)),
        in_order(views(final(history)@)),
        views(final(history)@).to_multiset() == views(old(history)@).to_multiset(),
{
    let ghost initial = views(history@);
    let count = history.len();
    let mut i: usize = 0;
    while i < count
        invariant
            i <= count,
            history@.len() == count,
            initial.len() == count,
            views(history@) == newest_first(initial.subrange(0, i as int)) + initial.subrange(
                i as int,
                count as int,
            ),
        decreases count - i,
    {
        let ghost ordered = newest_first(initial.subrange(0, i as int));
        let ghost waiting = initial.subrange(i as int, count as int);
        proof {
            lemma_newest_first_orders(initial.subrange(0, i as int));
            assert(views(history@)[i as int] == waiting[0]);
        }
        let time = history[i].last_connected;
        let mut at: usize = i;
        while at > 0 && time.is_later_than(&history[at - 1].last_connected)
            invariant
                at <= i < count,
                history@.len() == count,
                ordered.len() == i,
                views(history@) == ordered + waiting,
                time == initial[i as int].last_connected,
                forall|k: int|
                    at <= k < i ==> time.later_than((#[trigger] ordered[k]).last_connected),
            decreases at,
        {
            proof {
                assert(views(history@)[at - 1] == ordered[at - 1]);
            }
            at -= 1;
        }
        proof {
            if at > 0 {
                assert(views(history@)[at - 1] == ordered[at - 1]);
            }
            lemma_placed_at(ordered, initial[i as int], at as int);
            let next = initial.subrange(0, i + 1);
            assert(next.drop_last() =~= initial.subrange(0, i as int));
            assert(next.last() == initial[i as int]);
        }
        let ghost before = history@;
        let entry = history.remove(i);
        history.insert(at, entry);
        proof {
            let target = ordered.insert(at as int, initial[i as int]) + initial.subrange(
                i + 1,
                count as int,
            );
            assert(entry@ == views(before)[i as int]);
            assert(history@ == before.remove(i as int).insert(at as int, entry));
            assert(target.len() == count);
            assert forall|k: int| 0 <= k < count implies views(history@)[k] == target[k] by {
                if k < at {
                    assert(history@[k] == before[k]);
                    assert(views(before)[k] == ordered[k]);
                } else if k == at {
                    assert(history@[k] == entry);
                } else if k <= i {
                    assert(history@[k] == before[k - 1]);
                    assert(views(before)[k - 1] == ordered[k - 1]);
                } else {
                    assert(history@[k] == before[k]);
                    assert(views(before)[k] == waiting[k - i]);
                }
            }
            assert(views(history@) =~= target);
        }
        i += 1;
    }
    proof {
        assert(initial.subrange(0, count as int) =~= initial);
        assert(views(history@) =~= newest_first(initial));
        lemma_newest_first_orders(initial);
    }
}

/// Writes an attempt to connect at the time `now` into the history.
///
/// The first entry for the server is brought up to date, or a new one is
/// added; then the entries are put in order, the most recent first, and all
/// but the ten most recent are dropped.
pub fn record_connection(
    history: &mut Vec<ConnectionEntry>,
    address: &str,
    port: &str,
    username: Option<&str>,
    auth_method: &str,
    successful: bool,
    now: Timestamp,
)
    ensures
        views(final(history)@) == history_after(
            views(old(history)@),
            address@,
            port@,
            optional_text(username),
            auth_method@,
            successful,
            now,
        ),
        final(history)@.len() <= HISTORY_LIMIT,
{
    let ghost initial = views(history@);
    let wanted_address = String::from_str(address);
    let wanted_port = String::from_str(port);
    let mut at: usize = 0;
    while at < history.len() && !(history[at].address == wanted_address && history[at].port
        == wanted_port)
        invariant
            at <= history@.len(),
            history@ == old(history)@,
            wanted_address@ == address@,
            wanted_port@ == port@,
            forall|k: int| 0 <= k < at ==> !is_for(#[trigger] views(history@)[k], address@, port@),
        decreases history@.len() - at,
    {
        at += 1;
    }
    proof {
        lemma_position_found(initial, address@, port@, at as int);
    }
    if at < history.len() {
        let mut entry = history.remove(at);
        if let Some(name) = username {
            entry.username = Some(String::from_str(name));
        }
        entry.auth_method = String::from_str(auth_method);
        entry.last_connected = now;
        if successful {
            entry.successful = true;
        }
        history.insert(at, entry);
        proof {
            assert(views(history@) =~= initial.update(
                at as int,
                refreshed(initial[at as int], optional_text(username), auth_method@, successful, now),
            ));
        }
    } else {
        let entry = ConnectionEntry {
            address: wanted_address,
            port: wanted_port,
            username: match username {
                Some(name) => Some(String::from_str(name)),
                None => None,
            },
            auth_method: String::from_str(auth_method),
            last_connected: now,
            successful,
        };
        history.push(entry);
        proof {
            assert(views(history@) =~= initial.push(entry@));
        }
    }
    let ghost written = views(history@);
    sort_newest_first(history);
    proof {
        lemma_newest_first_orders(written);
    }
    if history.len() > HISTORY_LIMIT {
        history.truncate(HISTORY_LIMIT);
        proof {
            assert(views(history@) =~= newest_first(written).subrange(0, HISTORY_LIMIT as int));
        }
    }
}

/// Writes an attempt to connect, made now, into the history, as
/// [`record_connection`] does for the current time.
pub fn add_to_connection_history(
    history: &mut Vec<ConnectionEntry>,
    address: &str,
    port: &str,
    username: Option<&str>,
    auth_method: &str,
    successful: bool,
)
    ensures
        exists|now: Timestamp|
            views(final(history)@) == #[trigger] history_after(
                views(old(history)@),
                address@,
                port@,
                optional_text(username),
                auth_method@,
                successful,
                now,
            ),
        final(history)@.len() <= HISTORY_LIMIT,
{
    let now = Timestamp::now();
    record_connection(history, address, port, username, auth_method, successful, now);
}

} // verus!
