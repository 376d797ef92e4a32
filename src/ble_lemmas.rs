//! Facts about the GATT server's state machine, proved over [`step`] and
//! [`publish_actions`].

use crate::ble::{
    index_from, index_of, initial_view, is_cccd_handle, le_bytes, notifications_enabled,
    notify_all, publish_actions, publish_one, published, ready, step, tree_full, write_step,
    Connection, GattAction, GattEvent, ServerView, MAX_CONNECTIONS,
};
use vstd::prelude::*;

verus! {

/// The state after handling each of `events` in turn, starting from `s`.
pub open spec fn run(s: ServerView, events: Seq<GattEvent>) -> ServerView
    decreases events.len(),
{
    if events.len() == 0 {
        s
    } else {
        step(run(s, events.drop_last()), events.last()).0
    }
}

/// `index_of` finds the first connection with the given ID, and `-1` means
/// there is none.
pub proof fn lemma_index_from(conns: Seq<Connection>, conn_id: u16, start: int)
    requires
        0 <= start,
    ensures
        index_from(conns, conn_id, start) == -1 ==> forall|j: int|
            start <= j < conns.len() ==> conns[j].conn_id != conn_id,
        index_from(conns, conn_id, start) != -1 ==> {
            let r = index_from(conns, conn_id, start);
            &&& start <= r < conns.len()
            &&& conns[r].conn_id == conn_id
            &&& forall|j: int| start <= j < r ==> conns[j].conn_id != conn_id
        },
    decreases conns.len() - start,
{
    if start < conns.len() && conns[start].conn_id != conn_id {
        lemma_index_from(conns, conn_id, start + 1);
    }
}

/// The connection table never holds more than [`MAX_CONNECTIONS`] entries.
pub proof fn lemma_step_keeps_table_bounded(s: ServerView, e: GattEvent)
    requires
        s.connections.len() <= MAX_CONNECTIONS,
    ensures
        step(s, e).0.connections.len() <= MAX_CONNECTIONS,
{
    match e {
        GattEvent::PeerDisconnected { conn_id } => {
            lemma_index_from(s.connections, conn_id, 0);
        },
        GattEvent::Mtu { conn_id, mtu } => {
            lemma_index_from(s.connections, conn_id, 0);
        },
        GattEvent::Write { conn_id, .. } => {
            lemma_index_from(s.connections, conn_id, 0);
        },
        _ => {},
    }
}

/// However many events arrive, connects included, the connection table
/// never holds more than [`MAX_CONNECTIONS`] entries.
pub proof fn lemma_run_keeps_table_bounded(s: ServerView, events: Seq<GattEvent>)
    requires
        s.connections.len() <= MAX_CONNECTIONS,
    ensures
        run(s, events).connections.len() <= MAX_CONNECTIONS,
    decreases events.len(),
{
    if events.len() > 0 {
        lemma_run_keeps_table_bounded(s, events.drop_last());
        lemma_step_keeps_table_bounded(run(s, events.drop_last()), events.last());
    }
}

/// A connect event that finds the table full is dropped: no entry is made
/// and nothing is requested of the stack.
pub proof fn lemma_connect_when_full_dropped(s: ServerView, conn_id: u16, peer: [u8; 6])
    requires
        s.connections.len() >= MAX_CONNECTIONS,
    ensures
        step(s, GattEvent::PeerConnected { conn_id, peer }) == (s, Seq::<GattAction>::empty()),
{
}

/// A disconnect removes the connection from the table and always restarts
/// advertising, whether or not other connections remain; once it is gone,
/// no entry with its ID is left unless the table held the ID twice.
pub proof fn lemma_disconnect_removes_and_advertises(s: ServerView, conn_id: u16)
    ensures
        step(s, GattEvent::PeerDisconnected { conn_id }).1 == seq![GattAction::StartAdvertising],
        index_of(s.connections, conn_id) == -1 ==> step(
            s,
            GattEvent::PeerDisconnected { conn_id },
        ).0 == s,
        index_of(s.connections, conn_id) != -1 ==> step(
            s,
            GattEvent::PeerDisconnected { conn_id },
        ).0.connections == s.connections.remove(index_of(s.connections, conn_id)),
        index_of(s.connections, conn_id) != -1 ==> step(
            s,
            GattEvent::PeerDisconnected { conn_id },
        ).0.connections.len() == s.connections.len() - 1,
        (forall|j: int, k: int|
            0 <= j < k < s.connections.len() ==> s.connections[j].conn_id != s.connections[k].conn_id)
            ==> forall|j: int|
            0 <= j < step(s, GattEvent::PeerDisconnected { conn_id }).0.connections.len()
                ==> step(s, GattEvent::PeerDisconnected { conn_id }).0.connections[j].conn_id
                != conn_id,
{
    lemma_index_from(s.connections, conn_id, 0);
    let i = index_of(s.connections, conn_id);
    let after = step(s, GattEvent::PeerDisconnected { conn_id }).0.connections;
    if i != -1 {
        assert forall|j: int| 0 <= j < after.len() implies #[trigger] after[j] == if j < i {
            s.connections[j]
        } else {
            s.connections[j + 1]
        } by {}
    }
}

/// The event is a bring-up confirmation.
pub open spec fn is_bring_up_event(e: GattEvent) -> bool {
    match e {
        GattEvent::AppRegistered { .. } => true,
        GattEvent::ServiceCreated { .. } => true,
        GattEvent::ServiceStarted { .. } => true,
        GattEvent::CharacteristicAdded { .. } => true,
        GattEvent::DescriptorAdded { .. } => true,
        GattEvent::AdvertisingConfigured { .. } => true,
        _ => false,
    }
}

/// The status a bring-up confirmation reports.
pub open spec fn bring_up_ok(e: GattEvent) -> bool {
    match e {
        GattEvent::AppRegistered { ok, .. } => ok,
        GattEvent::ServiceCreated { ok, .. } => ok,
        GattEvent::ServiceStarted { ok, .. } => ok,
        GattEvent::CharacteristicAdded { ok, .. } => ok,
        GattEvent::DescriptorAdded { ok, .. } => ok,
        GattEvent::AdvertisingConfigured { ok } => ok,
        _ => true,
    }
}

/// The event confirms with success that a characteristic was added.
pub open spec fn is_characteristic_confirmation(e: GattEvent) -> bool {
    match e {
        GattEvent::CharacteristicAdded { ok, .. } => ok,
        _ => false,
    }
}

/// The event confirms with success that a descriptor was added.
pub open spec fn is_descriptor_confirmation(e: GattEvent) -> bool {
    match e {
        GattEvent::DescriptorAdded { ok, .. } => ok,
        _ => false,
    }
}

/// How many events of `events` satisfy `f`.
pub open spec fn count_events(events: Seq<GattEvent>, f: spec_fn(GattEvent) -> bool) -> int
    decreases events.len(),
{
    if events.len() == 0 {
        0
    } else {
        count_events(events.drop_last(), f) + if f(events.last()) {
            1int
        } else {
            0
        }
    }
}

/// How many characteristic handles are known.
pub open spec fn known_characteristics(s: ServerView) -> int {
    (if s.temp_handle is Some { 1int } else { 0 }) + (if s.humid_handle is Some { 1int } else { 0 })
        + (if s.co2_handle is Some { 1int } else { 0 })
}

/// How many descriptor handles are known.
pub open spec fn known_descriptors(s: ServerView) -> int {
    (if s.temp_cccd_handle is Some { 1int } else { 0 }) + (if s.humid_cccd_handle is Some {
        1int
    } else {
        0
    }) + (if s.co2_cccd_handle is Some { 1int } else { 0 })
}

/// Only a successful characteristic confirmation adds a characteristic
/// handle, and only a successful descriptor confirmation adds a descriptor
/// handle, one at a time.
pub proof fn lemma_step_handle_growth(s: ServerView, e: GattEvent)
    ensures
        known_characteristics(step(s, e).0) <= known_characteristics(s) + if is_characteristic_confirmation(e) {
            1int
        } else {
            0
        },
        known_descriptors(step(s, e).0) <= known_descriptors(s) + if is_descriptor_confirmation(e) {
            1int
        } else {
            0
        },
{
    match e {
        GattEvent::PeerDisconnected { conn_id } => {},
        GattEvent::Mtu { conn_id, mtu } => {},
        GattEvent::Write { conn_id, .. } => {},
        _ => {},
    }
}

/// Starting from boot, the attribute tree holds no more characteristic
/// (descriptor) handles than there were successful characteristic
/// (descriptor) confirmations.
pub proof fn lemma_run_handle_counts(events: Seq<GattEvent>)
    ensures
        known_characteristics(run(initial_view(), events)) <= count_events(
            events,
            |e: GattEvent| is_characteristic_confirmation(e),
        ),
        known_descriptors(run(initial_view(), events)) <= count_events(
            events,
            |e: GattEvent| is_descriptor_confirmation(e),
        ),
    decreases events.len(),
{
    if events.len() > 0 {
        lemma_run_handle_counts(events.drop_last());
        lemma_step_handle_growth(run(initial_view(), events.drop_last()), events.last());
    }
}

/// Starting from boot, bring-up completes only after at least three
/// successful characteristic confirmations and three successful descriptor
/// confirmations, and then with all six handles known.
pub proof fn lemma_ready_needs_confirmations(events: Seq<GattEvent>)
    ensures
        ready(run(initial_view(), events)) ==> {
            &&& tree_full(run(initial_view(), events))
            &&& count_events(events, |e: GattEvent| is_characteristic_confirmation(e)) >= 3
            &&& count_events(events, |e: GattEvent| is_descriptor_confirmation(e)) >= 3
        },
{
    lemma_run_handle_counts(events);
}

/// Advertising is requested on a bring-up confirmation only when it
/// completes bring-up, that is with the whole attribute tree known.
pub proof fn lemma_advertising_only_when_ready(s: ServerView, e: GattEvent)
    requires
        !(e is PeerDisconnected),
        step(s, e).1.contains(GattAction::StartAdvertising),
    ensures
        ready(step(s, e).0),
        tree_full(step(s, e).0),
        !ready(s),
{
    let acts = step(s, e).1;
    let k = choose|k: int| 0 <= k < acts.len() && acts[k] == GattAction::StartAdvertising;
    match e {
        GattEvent::PeerConnected { .. } => {},
        GattEvent::Mtu { .. } => {},
        GattEvent::Read { .. } => {},
        GattEvent::Write { .. } => {},
        _ => {},
    }
}

/// A failure status on any bring-up confirmation halts bring-up, and
/// requests nothing.
pub proof fn lemma_failure_halts(s: ServerView, e: GattEvent)
    requires
        is_bring_up_event(e),
        !bring_up_ok(e),
    ensures
        step(s, e).0.halted,
        step(s, e).1 == Seq::<GattAction>::empty(),
{
}

/// Once halted, bring-up stays halted: later bring-up confirmations change
/// nothing and request nothing, and bring-up is never complete.
pub proof fn lemma_halt_is_permanent(s: ServerView, e: GattEvent)
    requires
        s.halted,
    ensures
        step(s, e).0.halted,
        !ready(step(s, e).0),
        is_bring_up_event(e) ==> step(s, e) == (s, Seq::<GattAction>::empty()),
{
    match e {
        GattEvent::PeerDisconnected { conn_id } => {},
        GattEvent::Mtu { conn_id, mtu } => {},
        GattEvent::Write { conn_id, .. } => {},
        _ => {},
    }
}

/// However many events follow a halt, bring-up never completes.
pub proof fn lemma_run_after_halt(s: ServerView, events: Seq<GattEvent>)
    requires
        s.halted,
    ensures
        run(s, events).halted,
        !ready(run(s, events)),
    decreases events.len(),
{
    if events.len() > 0 {
        lemma_run_after_halt(s, events.drop_last());
        lemma_halt_is_permanent(run(s, events.drop_last()), events.last());
    }
}

/// The request is a notification to the given connection.
pub open spec fn is_notify_to(a: GattAction, conn_id: u16) -> bool {
    match a {
        GattAction::Notify { conn_id: c, .. } => c == conn_id,
        _ => false,
    }
}

/// Some request of `actions` is a notification to the given connection.
pub open spec fn notifies(actions: Seq<GattAction>, conn_id: u16) -> bool {
    exists|k: int| 0 <= k < actions.len() && is_notify_to(#[trigger] actions[k], conn_id)
}

/// No entry of the table for the given connection is subscribed.
pub open spec fn unsubscribed(conns: Seq<Connection>, conn_id: u16) -> bool {
    forall|j: int| 0 <= j < conns.len() && #[trigger] conns[j].conn_id == conn_id ==> !conns[j].subscribed
}

/// The state and the requests after publishing each of `readings`
/// (temperature, humidity, CO2) in turn.
pub open spec fn publish_all(s: ServerView, readings: Seq<(i16, u16, u16)>) -> (
    ServerView,
    Seq<GattAction>,
)
    decreases readings.len(),
{
    if readings.len() == 0 {
        (s, seq![])
    } else {
        let before = publish_all(s, readings.drop_last());
        let r = readings.last();
        (
            published(before.0, r.0, r.1, r.2),
            before.1 + publish_actions(before.0, r.0, r.1, r.2),
        )
    }
}

proof fn lemma_notify_all_skips(
    conns: Seq<Connection>,
    gatt_if: u8,
    handle: u16,
    value: [u8; 2],
    conn_id: u16,
)
    requires
        unsubscribed(conns, conn_id),
    ensures
        !notifies(notify_all(conns, gatt_if, handle, value), conn_id),
    decreases conns.len(),
{
    if conns.len() > 0 {
        let init = conns.drop_last();
        assert forall|j: int| 0 <= j < init.len() && #[trigger] init[j].conn_id == conn_id implies !init[j].subscribed by {
            assert(init[j] == conns[j]);
        }
        lemma_notify_all_skips(init, gatt_if, handle, value, conn_id);
        assert(conns.last() == conns[conns.len() - 1]);
    }
}

proof fn lemma_notify_all_reaches(
    conns: Seq<Connection>,
    gatt_if: u8,
    handle: u16,
    value: [u8; 2],
    j: int,
)
    requires
        0 <= j < conns.len(),
        conns[j].subscribed,
    ensures
        notifies(notify_all(conns, gatt_if, handle, value), conns[j].conn_id),
    decreases conns.len(),
{
    let all = notify_all(conns, gatt_if, handle, value);
    let init = conns.drop_last();
    let prefix = notify_all(init, gatt_if, handle, value);
    if j < conns.len() - 1 {
        assert(init[j] == conns[j]);
        lemma_notify_all_reaches(init, gatt_if, handle, value, j);
        let k = choose|k: int| 0 <= k < prefix.len() && is_notify_to(#[trigger] prefix[k], conns[j].conn_id);
        assert(all[k] == prefix[k]);
    } else {
        assert(all[prefix.len() as int] == GattAction::Notify { gatt_if, conn_id: conns[j].conn_id, handle, value });
    }
}

proof fn lemma_publish_one_skips(
    conns: Seq<Connection>,
    gatt_if: u8,
    handle: Option<u16>,
    value: [u8; 2],
    conn_id: u16,
)
    requires
        unsubscribed(conns, conn_id),
    ensures
        !notifies(publish_one(conns, gatt_if, handle, value), conn_id),
{
    if let Some(h) = handle {
        lemma_notify_all_skips(conns, gatt_if, h, value, conn_id);
        let tail = notify_all(conns, gatt_if, h, value);
        let all = publish_one(conns, gatt_if, handle, value);
        assert forall|k: int| 0 <= k < all.len() implies !is_notify_to(#[trigger] all[k], conn_id) by {
            if k > 0 {
                assert(all[k] == tail[k - 1]);
            }
        }
    }
}

/// Publishing sends no notification to a connection that is not subscribed,
/// and leaves the connection table as it was.
pub proof fn lemma_publish_skips_unsubscribed(
    s: ServerView,
    temperature: i16,
    humidity: u16,
    co2: u16,
    conn_id: u16,
)
    requires
        unsubscribed(s.connections, conn_id),
    ensures
        !notifies(publish_actions(s, temperature, humidity, co2), conn_id),
        published(s, temperature, humidity, co2).connections == s.connections,
{
    if let Some(g) = s.gatt_if {
        let a = publish_one(s.connections, g, s.temp_handle, le_bytes(temperature as u16));
        let b = publish_one(s.connections, g, s.humid_handle, le_bytes(humidity));
        let c = publish_one(s.connections, g, s.co2_handle, le_bytes(co2));
        lemma_publish_one_skips(s.connections, g, s.temp_handle, le_bytes(temperature as u16), conn_id);
        lemma_publish_one_skips(s.connections, g, s.humid_handle, le_bytes(humidity), conn_id);
        lemma_publish_one_skips(s.connections, g, s.co2_handle, le_bytes(co2), conn_id);
        let all = publish_actions(s, temperature, humidity, co2);
        assert(all == a + b + c);
        assert forall|k: int| 0 <= k < all.len() implies !is_notify_to(#[trigger] all[k], conn_id) by {
            if k < a.len() {
                assert(all[k] == a[k]);
            } else if k < a.len() + b.len() {
                assert(all[k] == b[k - a.len()]);
            } else {
                assert(all[k] == c[k - a.len() - b.len()]);
            }
        }
    }
}

/// Across any number of publishes, a connection that is not subscribed
/// receives no notification.
pub proof fn lemma_unsubscribed_never_notified(
    s: ServerView,
    readings: Seq<(i16, u16, u16)>,
    conn_id: u16,
)
    requires
        unsubscribed(s.connections, conn_id),
    ensures
        !notifies(publish_all(s, readings).1, conn_id),
        publish_all(s, readings).0.connections == s.connections,
    decreases readings.len(),
{
    if readings.len() > 0 {
        lemma_unsubscribed_never_notified(s, readings.drop_last(), conn_id);
        let before = publish_all(s, readings.drop_last());
        let r = readings.last();
        lemma_publish_skips_unsubscribed(before.0, r.0, r.1, r.2, conn_id);
        let x = before.1;
        let y = publish_actions(before.0, r.0, r.1, r.2);
        let all = x + y;
        assert forall|k: int| 0 <= k < all.len() implies !is_notify_to(#[trigger] all[k], conn_id) by {
            if k < x.len() {
                assert(all[k] == x[k]);
            } else {
                assert(all[k] == y[k - x.len()]);
            }
        }
    }
}

/// Publishing notifies a subscribed connection, once the application
/// identity and the temperature characteristic are known.
pub proof fn lemma_publish_reaches_subscribed(
    s: ServerView,
    temperature: i16,
    humidity: u16,
    co2: u16,
    j: int,
)
    requires
        s.gatt_if is Some,
        s.temp_handle is Some,
        0 <= j < s.connections.len(),
        s.connections[j].subscribed,
    ensures
        notifies(publish_actions(s, temperature, humidity, co2), s.connections[j].conn_id),
{
    let g = s.gatt_if.unwrap();
    let h = s.temp_handle.unwrap();
    let v = le_bytes(temperature as u16);
    lemma_notify_all_reaches(s.connections, g, h, v, j);
    let tail = notify_all(s.connections, g, h, v);
    let a = publish_one(s.connections, g, s.temp_handle, v);
    let all = publish_actions(s, temperature, humidity, co2);
    let k = choose|k: int| 0 <= k < tail.len() && is_notify_to(#[trigger] tail[k], s.connections[j].conn_id);
    assert(a[k + 1] == tail[k]);
    assert(all[k + 1] == a[k + 1]);
}

/// A two-byte write to any of the three configuration descriptors sets the
/// writer's subscription to bit 0 of the flags word, and only that entry
/// changes.
pub proof fn lemma_subscription_write(
    s: ServerView,
    gatt_if: u8,
    conn_id: u16,
    trans_id: u32,
    handle: u16,
    offset: u16,
    need_rsp: bool,
    is_prep: bool,
    value: Seq<u8>,
)
    requires
        is_cccd_handle(s, handle),
        value.len() == 2,
        index_of(s.connections, conn_id) != -1,
    ensures
        ({
            let after = write_step(s, gatt_if, conn_id, trans_id, handle, offset, need_rsp, is_prep, value).0;
            let i = index_of(s.connections, conn_id);
            &&& 0 <= i < s.connections.len()
            &&& after.connections.len() == s.connections.len()
            &&& after.connections[i].subscribed == notifications_enabled(value)
            &&& after.connections[i].conn_id == conn_id
            &&& forall|j: int| 0 <= j < s.connections.len() && j != i ==> after.connections[j] == s.connections[j]
        }),
{
    lemma_index_from(s.connections, conn_id, 0);
}

/// For a connection that appears once in the table, a two-byte
/// configuration descriptor write decides whether later publishes notify
/// it: they do exactly when bit 0 of the written flags word is set (once
/// the application identity and the temperature characteristic are known).
pub proof fn lemma_subscription_controls_notifications(
    s: ServerView,
    gatt_if: u8,
    conn_id: u16,
    trans_id: u32,
    handle: u16,
    offset: u16,
    need_rsp: bool,
    is_prep: bool,
    value: Seq<u8>,
    temperature: i16,
    humidity: u16,
    co2: u16,
)
    requires
        is_cccd_handle(s, handle),
        value.len() == 2,
        index_of(s.connections, conn_id) != -1,
        forall|j: int|
            0 <= j < s.connections.len() && j != index_of(s.connections, conn_id)
                ==> s.connections[j].conn_id != conn_id,
        s.gatt_if is Some,
        s.temp_handle is Some,
    ensures
        notifies(
            publish_actions(
                write_step(s, gatt_if, conn_id, trans_id, handle, offset, need_rsp, is_prep, value).0,
                temperature,
                humidity,
                co2,
            ),
            conn_id,
        ) == notifications_enabled(value),
{
    lemma_subscription_write(s, gatt_if, conn_id, trans_id, handle, offset, need_rsp, is_prep, value);
    let after = write_step(s, gatt_if, conn_id, trans_id, handle, offset, need_rsp, is_prep, value).0;
    let i = index_of(s.connections, conn_id);
    if notifications_enabled(value) {
        lemma_publish_reaches_subscribed(after, temperature, humidity, co2, i);
    } else {
        assert forall|j: int| 0 <= j < after.connections.len() && #[trigger] after.connections[j].conn_id == conn_id implies !after.connections[j].subscribed by {
            if j != i {
                assert(after.connections[j] == s.connections[j]);
            }
        }
        lemma_publish_skips_unsubscribed(after, temperature, humidity, co2, conn_id);
    }
}

} // verus!
