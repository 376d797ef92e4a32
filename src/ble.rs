//! The GATT peripheral that publishes the sensor's readings: attribute
//! bring-up, the connection and subscription table, read and write requests,
//! and notification fan-out.
//!
//! The server is a state machine. Each confirmation or request from the
//! wireless stack is a [`GattEvent`]; handling it updates a [`ServerState`]
//! and yields the [`GattAction`]s that the caller performs against the stack.

use vstd::prelude::*;

verus! {

/// CO2 characteristic UUID.
pub const CO2_CHAR_UUID: u128 = 0x00002b8c00001000800000805f9b34fb;

/// Humidity characteristic UUID.
pub const HUMIDITY_CHAR_UUID: u128 = 0x00002a6f00001000800000805f9b34fb;

/// Service UUID.
pub const SERVICE_UUID: u128 = 0xc892f08b050249a68c52b959aa997e54;

/// Temperature characteristic UUID.
pub const TEMPERATURE_CHAR_UUID: u128 = 0x00002a6e00001000800000805f9b34fb;

/// UUID of the client characteristic configuration descriptor.
pub const CCCD_UUID: u16 = 0x2902;

/// Application ID.
pub const APP_ID: u16 = 0;

/// Device name.
pub const DEVICE_NAME: &'static str = "ESP32-CO2";

/// Attribute handles reserved for the service: enough for the three
/// characteristics and their descriptors.
pub const SERVICE_NUM_HANDLES: u16 = 16;

/// Maximum length of a characteristic value.
pub const CHAR_MAX_LEN: u16 = 6;

/// Maximum number of connections.
pub const MAX_CONNECTIONS: usize = 2;

/// A Bluetooth UUID; two UUIDs are equal when they have the same width and
/// value.
#[derive(Debug, Clone, Copy, PartialEq, Eq, Structural)]
pub enum Uuid {
    Uuid16(u16),
    Uuid32(u32),
    Uuid128(u128),
}

/// A tracked client connection.
#[derive(Debug, Clone, Copy, PartialEq, Eq)]
pub struct Connection {
    /// Peer address.
    pub peer: [u8; 6],
    /// Connection ID.
    pub conn_id: u16,
    /// Subscribed status.
    pub subscribed: bool,
    /// MTU.
    pub mtu: Option<u16>,
}

#[verifier::external_type_specification]
#[verifier::external_body]
#[verifier::reject_recursive_types(T)]
pub struct ExHeaplessVec<T, const N: usize>(heapless::Vec<T, N>);

/// The connections held in a table, in order of arrival.
pub uninterp spec fn table_items(t: heapless::Vec<Connection, MAX_CONNECTIONS>) -> Seq<Connection>;

/// Relies on `heapless::Vec::new`: a new vector is empty.
#[verifier::external_body]
fn table_new() -> (r: heapless::Vec<Connection, MAX_CONNECTIONS>)
    ensures
        table_items(r) == Seq::<Connection>::empty(),
{
    heapless::Vec::new()
}

/// Relies on `heapless::Vec::as_slice`: the items in order, never more than
/// the capacity.
#[verifier::external_body]
fn table_slice(t: &heapless::Vec<Connection, MAX_CONNECTIONS>) -> (r: &[Connection])
    ensures
        r@ == table_items(*t),
        r@.len() <= MAX_CONNECTIONS,
{
    t.as_slice()
}

/// Relies on `heapless::Vec::push`: appends the item when the vector is not
/// full, and hands it back otherwise.
#[verifier::external_body]
fn table_push(t: &mut heapless::Vec<Connection, MAX_CONNECTIONS>, c: Connection) -> (r: Result<(), Connection>)
    ensures
        r == if table_items(*old(t)).len() < MAX_CONNECTIONS {
            Ok::<(), Connection>(())
        } else {
            Err(c)
        },
        table_items(*final(t)) == if table_items(*old(t)).len() < MAX_CONNECTIONS {
            table_items(*old(t)).push(c)
        } else {
            table_items(*old(t))
        },
{
    t.push(c)
}

/// Relies on `heapless::Vec::remove`: takes out the item at `i`, shifting
/// the later ones down.
#[verifier::external_body]
fn table_remove(t: &mut heapless::Vec<Connection, MAX_CONNECTIONS>, i: usize) -> (r: Connection)
    requires
        i < table_items(*old(t)).len(),
    ensures
        r == table_items(*old(t))[i as int],
        table_items(*final(t)) == table_items(*old(t)).remove(i as int),
{
    t.remove(i)
}

/// Relies on `heapless::Vec::insert`: puts the item at `i`, shifting the
/// later ones up, when the vector is not full; hands it back otherwise.
#[verifier::external_body]
fn table_insert(
    t: &mut heapless::Vec<Connection, MAX_CONNECTIONS>,
    i: usize,
    c: Connection,
) -> (r: Result<(), Connection>)
    requires
        i <= table_items(*old(t)).len(),
    ensures
        r == if table_items(*old(t)).len() < MAX_CONNECTIONS {
            Ok::<(), Connection>(())
        } else {
            Err(c)
        },
        table_items(*final(t)) == if table_items(*old(t)).len() < MAX_CONNECTIONS {
            table_items(*old(t)).insert(i as int, c)
        } else {
            table_items(*old(t))
        },
{
    t.insert(i, c)
}

/// A confirmation or request delivered by the wireless stack.
#[derive(Debug)]
pub enum GattEvent {
    /// The application identity was registered; `gatt_if` is its interface.
    AppRegistered { ok: bool, app_id: u16, gatt_if: u8 },
    /// The service was created.
    ServiceCreated { ok: bool, service_handle: u16 },
    /// The service was started.
    ServiceStarted { ok: bool, service_handle: u16 },
    /// A characteristic was added to a service.
    CharacteristicAdded { ok: bool, service_handle: u16, attr_handle: u16, uuid: Uuid },
    /// A descriptor was added to a service.
    DescriptorAdded { ok: bool, service_handle: u16, attr_handle: u16, uuid: Uuid },
    /// The advertisement payload was configured.
    AdvertisingConfigured { ok: bool },
    /// A client connected.
    PeerConnected { conn_id: u16, peer: [u8; 6] },
    /// A client disconnected.
    PeerDisconnected { conn_id: u16 },
    /// A connection negotiated its MTU.
    Mtu { conn_id: u16, mtu: u16 },
    /// A client reads an attribute.
    Read { gatt_if: u8, conn_id: u16, trans_id: u32, handle: u16, offset: u16, need_rsp: bool },
    /// A client writes an attribute.
    Write {
        gatt_if: u8,
        conn_id: u16,
        trans_id: u32,
        handle: u16,
        offset: u16,
        need_rsp: bool,
        is_prep: bool,
        value: Vec<u8>,
    },
}

/// A request to the wireless stack.
#[derive(Debug, Clone, Copy, PartialEq, Eq)]
pub enum GattAction {
    /// Create the service [`SERVICE_UUID`] with [`SERVICE_NUM_HANDLES`]
    /// handles.
    CreateService { gatt_if: u8 },
    /// Set the device name and the advertisement payload (name, tx power,
    /// [`SERVICE_UUID`]).
    ConfigureAdvertising,
    /// Start the service.
    StartService { service_handle: u16 },
    /// Add a readable, notifiable characteristic to the service.
    AddCharacteristic { service_handle: u16, uuid: u128 },
    /// Add a client characteristic configuration descriptor to the service.
    AddDescriptor { service_handle: u16 },
    /// Start advertising.
    StartAdvertising,
    /// Answer a read with the attribute's value.
    ReadResponse { gatt_if: u8, conn_id: u16, trans_id: u32, handle: u16, offset: u16, value: [u8; 2] },
    /// Answer a read of an unknown attribute with "not found".
    NotFoundResponse { gatt_if: u8, conn_id: u16, trans_id: u32 },
    /// Acknowledge a write; for a prepared write, echo the written value.
    WriteResponse {
        gatt_if: u8,
        conn_id: u16,
        trans_id: u32,
        handle: u16,
        offset: u16,
        echo_value: bool,
    },
    /// Store a new value in an attribute.
    SetAttribute { handle: u16, value: [u8; 2] },
    /// Send a notification to a connection.
    Notify { gatt_if: u8, conn_id: u16, handle: u16, value: [u8; 2] },
}

/// The server's state as a mathematical value.
pub struct ServerView {
    pub gatt_if: Option<u8>,
    pub service_handle: Option<u16>,
    pub temp_handle: Option<u16>,
    pub humid_handle: Option<u16>,
    pub co2_handle: Option<u16>,
    pub temp_cccd_handle: Option<u16>,
    pub humid_cccd_handle: Option<u16>,
    pub co2_cccd_handle: Option<u16>,
    pub adv_configured: bool,
    pub service_started: bool,
    pub halted: bool,
    pub connections: Seq<Connection>,
    pub latest_temperature: i16,
    pub latest_humidity: u16,
    pub latest_co2: u16,
}

/// The state shared by the stack's callbacks and the measurement loop.
pub struct ServerState {
    gatt_if: Option<u8>,
    service_handle: Option<u16>,
    temp_handle: Option<u16>,
    humid_handle: Option<u16>,
    co2_handle: Option<u16>,
    temp_cccd_handle: Option<u16>,
    humid_cccd_handle: Option<u16>,
    co2_cccd_handle: Option<u16>,
    adv_configured: bool,
    service_started: bool,
    halted: bool,
    connections: heapless::Vec<Connection, MAX_CONNECTIONS>,
    latest_temperature: i16,
    latest_humidity: u16,
    latest_co2: u16,
}

impl View for ServerState {
    type V = ServerView;

    closed spec fn view(&self) -> ServerView {
        ServerView {
            gatt_if: self.gatt_if,
            service_handle: self.service_handle,
            temp_handle: self.temp_handle,
            humid_handle: self.humid_handle,
            co2_handle: self.co2_handle,
            temp_cccd_handle: self.temp_cccd_handle,
            humid_cccd_handle: self.humid_cccd_handle,
            co2_cccd_handle: self.co2_cccd_handle,
            adv_configured: self.adv_configured,
            service_started: self.service_started,
            halted: self.halted,
            connections: table_items(self.connections),
            latest_temperature: self.latest_temperature,
            latest_humidity: self.latest_humidity,
            latest_co2: self.latest_co2,
        }
    }
}

/// The state at boot: nothing registered, no connections, zero readings.
pub open spec fn initial_view() -> ServerView {
    ServerView {
        gatt_if: None,
        service_handle: None,
        temp_handle: None,
        humid_handle: None,
        co2_handle: None,
        temp_cccd_handle: None,
        humid_cccd_handle: None,
        co2_cccd_handle: None,
        adv_configured: false,
        service_started: false,
        halted: false,
        connections: Seq::empty(),
        latest_temperature: 0,
        latest_humidity: 0,
        latest_co2: 0,
    }
}

/// All three characteristic handles and all three descriptor handles are
/// known.
pub open spec fn tree_full(s: ServerView) -> bool {
    &&& s.temp_handle is Some
    &&& s.humid_handle is Some
    &&& s.co2_handle is Some
    &&& s.temp_cccd_handle is Some
    &&& s.humid_cccd_handle is Some
    &&& s.co2_cccd_handle is Some
}

/// Bring-up is complete: the attribute tree is populated, the service is
/// started and advertising is configured, and no step failed.
pub open spec fn ready(s: ServerView) -> bool {
    &&& !s.halted
    &&& s.adv_configured
    &&& s.service_started
    &&& tree_full(s)
}

/// `StartAdvertising` when a transition completes bring-up.
pub open spec fn advertise_on_ready(before: ServerView, after: ServerView) -> Seq<GattAction> {
    if !ready(before) && ready(after) {
        seq![GattAction::StartAdvertising]
    } else {
        seq![]
    }
}

/// A bring-up confirmation: ignored once bring-up has halted, halts it on a
/// failure status, and otherwise takes the transition `next`, starting
/// advertising if that completes bring-up.
pub open spec fn bring_up_step(s: ServerView, ok: bool, next: (ServerView, Seq<GattAction>)) -> (
    ServerView,
    Seq<GattAction>,
) {
    if s.halted {
        (s, seq![])
    } else if !ok {
        (ServerView { halted: true, ..s }, seq![])
    } else {
        (next.0, next.1 + advertise_on_ready(s, next.0))
    }
}

/// Our application identity is registered: remember its interface and
/// create the service.
pub open spec fn app_registered_next(s: ServerView, app_id: u16, gatt_if: u8) -> (
    ServerView,
    Seq<GattAction>,
) {
    if app_id == APP_ID {
        (ServerView { gatt_if: Some(gatt_if), ..s }, seq![GattAction::CreateService { gatt_if }])
    } else {
        (s, seq![])
    }
}

/// The service exists: rebuild the attribute tree from scratch, configure
/// advertising, start the service and add the three characteristics.
pub open spec fn service_created_next(s: ServerView, service_handle: u16) -> (
    ServerView,
    Seq<GattAction>,
) {
    (
        ServerView {
            service_handle: Some(service_handle),
            temp_handle: None,
            humid_handle: None,
            co2_handle: None,
            temp_cccd_handle: None,
            humid_cccd_handle: None,
            co2_cccd_handle: None,
            adv_configured: false,
            service_started: false,
            ..s
        },
        seq![
            GattAction::ConfigureAdvertising,
            GattAction::StartService { service_handle },
            GattAction::AddCharacteristic { service_handle, uuid: TEMPERATURE_CHAR_UUID },
            GattAction::AddCharacteristic { service_handle, uuid: HUMIDITY_CHAR_UUID },
            GattAction::AddCharacteristic { service_handle, uuid: CO2_CHAR_UUID },
        ],
    )
}

/// Our service was started.
pub open spec fn service_started_next(s: ServerView, service_handle: u16) -> (
    ServerView,
    Seq<GattAction>,
) {
    if s.service_handle == Some(service_handle) {
        (ServerView { service_started: true, ..s }, seq![])
    } else {
        (s, seq![])
    }
}

/// A characteristic of our service exists: record its handle by its UUID and
/// ask for its descriptor.
pub open spec fn characteristic_added_next(
    s: ServerView,
    service_handle: u16,
    attr_handle: u16,
    uuid: Uuid,
) -> (ServerView, Seq<GattAction>) {
    if s.service_handle != Some(service_handle) {
        (s, seq![])
    } else if uuid == Uuid::Uuid128(TEMPERATURE_CHAR_UUID) {
        (
            ServerView { temp_handle: Some(attr_handle), ..s },
            seq![GattAction::AddDescriptor { service_handle }],
        )
    } else if uuid == Uuid::Uuid128(HUMIDITY_CHAR_UUID) {
        (
            ServerView { humid_handle: Some(attr_handle), ..s },
            seq![GattAction::AddDescriptor { service_handle }],
        )
    } else if uuid == Uuid::Uuid128(CO2_CHAR_UUID) {
        (
            ServerView { co2_handle: Some(attr_handle), ..s },
            seq![GattAction::AddDescriptor { service_handle }],
        )
    } else {
        (s, seq![])
    }
}

/// A descriptor of our service exists: a configuration descriptor goes to
/// the first characteristic, in order of registration, that is known and
/// has none yet.
pub open spec fn descriptor_added_next(
    s: ServerView,
    service_handle: u16,
    attr_handle: u16,
    uuid: Uuid,
) -> (ServerView, Seq<GattAction>) {
    if s.service_handle != Some(service_handle) || uuid != Uuid::Uuid16(CCCD_UUID) {
        (s, seq![])
    } else if s.temp_handle is Some && s.temp_cccd_handle is None {
        (ServerView { temp_cccd_handle: Some(attr_handle), ..s }, seq![])
    } else if s.humid_handle is Some && s.humid_cccd_handle is None {
        (ServerView { humid_cccd_handle: Some(attr_handle), ..s }, seq![])
    } else if s.co2_handle is Some && s.co2_cccd_handle is None {
        (ServerView { co2_cccd_handle: Some(attr_handle), ..s }, seq![])
    } else {
        (s, seq![])
    }
}

/// The advertisement payload is configured.
pub open spec fn advertising_configured_next(s: ServerView) -> (ServerView, Seq<GattAction>) {
    (ServerView { adv_configured: true, ..s }, seq![])
}

/// Position of the first connection with the given ID at or after `i`, or
/// `-1`.
pub open spec fn index_from(conns: Seq<Connection>, conn_id: u16, i: int) -> int
    decreases conns.len() - i,
{
    if i < 0 || i >= conns.len() {
        -1
    } else if conns[i].conn_id == conn_id {
        i
    } else {
        index_from(conns, conn_id, i + 1)
    }
}

/// Position of the first connection with the given ID, or `-1`.
pub open spec fn index_of(conns: Seq<Connection>, conn_id: u16) -> int {
    index_from(conns, conn_id, 0)
}

/// A client connected: track it while the table has room.
pub open spec fn connected(s: ServerView, conn_id: u16, peer: [u8; 6]) -> ServerView {
    if s.connections.len() < MAX_CONNECTIONS {
        ServerView {
            connections: s.connections.push(
                Connection { peer, conn_id, subscribed: false, mtu: None },
            ),
            ..s
        }
    } else {
        s
    }
}

/// A client disconnected: forget its connection.
pub open spec fn disconnected(s: ServerView, conn_id: u16) -> ServerView {
    let i = index_of(s.connections, conn_id);
    if i >= 0 {
        ServerView { connections: s.connections.remove(i), ..s }
    } else {
        s
    }
}

/// A connection negotiated its MTU: record it.
pub open spec fn mtu_negotiated(s: ServerView, conn_id: u16, mtu: u16) -> ServerView {
    let i = index_of(s.connections, conn_id);
    if i >= 0 {
        ServerView {
            connections: s.connections.update(i, Connection { mtu: Some(mtu), ..s.connections[i] }),
            ..s
        }
    } else {
        s
    }
}

/// The little-endian bytes of a 16-bit word.
pub open spec fn le_bytes(w: u16) -> [u8; 2] {
    [(w % 256) as u8, (w / 256) as u8]
}

/// The answer to a read of `handle`, when the client asked for one.
pub open spec fn read_actions(
    s: ServerView,
    gatt_if: u8,
    conn_id: u16,
    trans_id: u32,
    handle: u16,
    offset: u16,
    need_rsp: bool,
) -> Seq<GattAction> {
    if !need_rsp {
        seq![]
    } else if s.temp_handle == Some(handle) {
        seq![GattAction::ReadResponse { gatt_if, conn_id, trans_id, handle, offset, value: le_bytes(s.latest_temperature as u16) }]
    } else if s.humid_handle == Some(handle) {
        seq![GattAction::ReadResponse { gatt_if, conn_id, trans_id, handle, offset, value: le_bytes(s.latest_humidity) }]
    } else if s.co2_handle == Some(handle) {
        seq![GattAction::ReadResponse { gatt_if, conn_id, trans_id, handle, offset, value: le_bytes(s.latest_co2) }]
    } else {
        seq![GattAction::NotFoundResponse { gatt_if, conn_id, trans_id }]
    }
}

/// `handle` is one of the three configuration descriptors.
pub open spec fn is_cccd_handle(s: ServerView, handle: u16) -> bool {
    s.temp_cccd_handle == Some(handle) || s.humid_cccd_handle == Some(handle)
        || s.co2_cccd_handle == Some(handle)
}

/// A two-byte configuration value, read as a little-endian flags word,
/// enables notifications when its bit 0 is set.
pub open spec fn notifications_enabled(value: Seq<u8>) -> bool {
    (value[0] as int + 256 * value[1] as int) % 2 == 1
}

/// A configuration descriptor write: a two-byte value sets the one
/// subscription flag of the writer's connection, whichever of the three
/// descriptors it targets.
pub open spec fn subscription_written(s: ServerView, conn_id: u16, value: Seq<u8>) -> ServerView {
    let i = index_of(s.connections, conn_id);
    if value.len() == 2 && i >= 0 {
        ServerView {
            connections: s.connections.update(
                i,
                Connection { subscribed: notifications_enabled(value), ..s.connections[i] },
            ),
            ..s
        }
    } else {
        s
    }
}

/// What a write does: only writes to a configuration descriptor are handled,
/// and acknowledged when the client asked for a response.
pub open spec fn write_step(
    s: ServerView,
    gatt_if: u8,
    conn_id: u16,
    trans_id: u32,
    handle: u16,
    offset: u16,
    need_rsp: bool,
    is_prep: bool,
    value: Seq<u8>,
) -> (ServerView, Seq<GattAction>) {
    if !is_cccd_handle(s, handle) {
        (s, seq![])
    } else if need_rsp {
        (
            subscription_written(s, conn_id, value),
            seq![GattAction::WriteResponse { gatt_if, conn_id, trans_id, handle, offset, echo_value: is_prep }],
        )
    } else {
        (subscription_written(s, conn_id, value), seq![])
    }
}

/// The new state and the requests that handling `e` in state `s` yields.
pub open spec fn step(s: ServerView, e: GattEvent) -> (ServerView, Seq<GattAction>) {
    match e {
        GattEvent::AppRegistered { ok, app_id, gatt_if } => bring_up_step(
            s,
            ok,
            app_registered_next(s, app_id, gatt_if),
        ),
        GattEvent::ServiceCreated { ok, service_handle } => bring_up_step(
            s,
            ok,
            service_created_next(s, service_handle),
        ),
        GattEvent::ServiceStarted { ok, service_handle } => bring_up_step(
            s,
            ok,
            service_started_next(s, service_handle),
        ),
        GattEvent::CharacteristicAdded { ok, service_handle, attr_handle, uuid } => bring_up_step(
            s,
            ok,
            characteristic_added_next(s, service_handle, attr_handle, uuid),
        ),
        GattEvent::DescriptorAdded { ok, service_handle, attr_handle, uuid } => bring_up_step(
            s,
            ok,
            descriptor_added_next(s, service_handle, attr_handle, uuid),
        ),
        GattEvent::AdvertisingConfigured { ok } => bring_up_step(
            s,
            ok,
            advertising_configured_next(s),
        ),
        GattEvent::PeerConnected { conn_id, peer } => (connected(s, conn_id, peer), seq![]),
        GattEvent::PeerDisconnected { conn_id } => (
            disconnected(s, conn_id),
            seq![GattAction::StartAdvertising],
        ),
        GattEvent::Mtu { conn_id, mtu } => (mtu_negotiated(s, conn_id, mtu), seq![]),
        GattEvent::Read { gatt_if, conn_id, trans_id, handle, offset, need_rsp } => (
            s,
            read_actions(s, gatt_if, conn_id, trans_id, handle, offset, need_rsp),
        ),
        GattEvent::Write { gatt_if, conn_id, trans_id, handle, offset, need_rsp, is_prep, value } =>
            write_step(s, gatt_if, conn_id, trans_id, handle, offset, need_rsp, is_prep, value@),
    }
}

/// Notifications of `value` on `handle` to every subscribed connection, in
/// table order.
pub open spec fn notify_all(conns: Seq<Connection>, gatt_if: u8, handle: u16, value: [u8; 2]) -> Seq<
    GattAction,
>
    decreases conns.len(),
{
    if conns.len() == 0 {
        seq![]
    } else {
        notify_all(conns.drop_last(), gatt_if, handle, value) + if conns.last().subscribed {
            seq![GattAction::Notify { gatt_if, conn_id: conns.last().conn_id, handle, value }]
        } else {
            seq![]
        }
    }
}

/// Publishing one characteristic whose handle may be known: store the value,
/// then notify the subscribers.
pub open spec fn publish_one(
    conns: Seq<Connection>,
    gatt_if: u8,
    handle: Option<u16>,
    value: [u8; 2],
) -> Seq<GattAction> {
    match handle {
        None => seq![],
        Some(h) => seq![GattAction::SetAttribute { handle: h, value }] + notify_all(
            conns,
            gatt_if,
            h,
            value,
        ),
    }
}

/// What publishing new readings requests: nothing before the application
/// identity is known; else temperature, humidity, then CO2.
pub open spec fn publish_actions(s: ServerView, temperature: i16, humidity: u16, co2: u16) -> Seq<
    GattAction,
> {
    match s.gatt_if {
        None => seq![],
        Some(g) => publish_one(s.connections, g, s.temp_handle, le_bytes(temperature as u16))
            + publish_one(s.connections, g, s.humid_handle, le_bytes(humidity)) + publish_one(
            s.connections,
            g,
            s.co2_handle,
            le_bytes(co2),
        ),
    }
}

/// The state after publishing: the latest readings are replaced.
pub open spec fn published(s: ServerView, temperature: i16, humidity: u16, co2: u16) -> ServerView {
    ServerView {
        latest_temperature: temperature,
        latest_humidity: humidity,
        latest_co2: co2,
        ..s
    }
}

/// `w.to_le_bytes()`.
fn word_to_le(w: u16) -> (r: [u8; 2])
    ensures
        r == le_bytes(w),
{
    [(w % 256) as u8, (w / 256) as u8]
}

impl ServerState {
    /// A server that has registered nothing and tracks no connection.
    pub fn new() -> (r: ServerState)
        ensures
            r@ == initial_view(),
    {
        ServerState {
            gatt_if: None,
            service_handle: None,
            temp_handle: None,
            humid_handle: None,
            co2_handle: None,
            temp_cccd_handle: None,
            humid_cccd_handle: None,
            co2_cccd_handle: None,
            adv_configured: false,
            service_started: false,
            halted: false,
            connections: table_new(),
            latest_temperature: 0,
            latest_humidity: 0,
            latest_co2: 0,
        }
    }

    /// Bring-up is complete.
    pub fn is_ready(&self) -> (r: bool)
        ensures
            r == ready(self@),
    {
        !self.halted && self.adv_configured && self.service_started && self.temp_handle.is_some()
            && self.humid_handle.is_some() && self.co2_handle.is_some()
            && self.temp_cccd_handle.is_some() && self.humid_cccd_handle.is_some()
            && self.co2_cccd_handle.is_some()
    }

    /// Whether a bring-up confirmation with status `ok` is to be acted on;
    /// records the halt when it reports a failure.
    fn begin_bring_up(&mut self, ok: bool) -> (proceed: bool)
        ensures
            proceed == (!old(self)@.halted && ok),
            final(self)@ == if old(self)@.halted || ok {
                old(self)@
            } else {
                ServerView { halted: true, ..old(self)@ }
            },
    {
        if self.halted {
            return false;
        }
        if !ok {
            self.halted = true;
            return false;
        }
        true
    }

    /// Starts advertising if bring-up has just completed.
    fn finish_bring_up(&self, was_ready: bool, actions: &mut Vec<GattAction>)
        ensures
            final(actions)@ == old(actions)@ + if !was_ready && ready(self@) {
                seq![GattAction::StartAdvertising]
            } else {
                seq![]
            },
    {
        if !was_ready && self.is_ready() {
            actions.push(GattAction::StartAdvertising);
        } else {
            assert(actions@ =~= actions@ + seq![]);
        }
    }

    fn on_app_registered(&mut self, ok: bool, app_id: u16, gatt_if: u8) -> (r: Vec<GattAction>)
        ensures
            (final(self)@, r@) == bring_up_step(
                old(self)@,
                ok,
                app_registered_next(old(self)@, app_id, gatt_if),
            ),
    {
        let mut actions: Vec<GattAction> = Vec::new();
        if !self.begin_bring_up(ok) {
            assert(actions@ =~= seq![]);
            return actions;
        }
        let was_ready = self.is_ready();
        if app_id == APP_ID {
            self.gatt_if = Some(gatt_if);
            actions.push(GattAction::CreateService { gatt_if });
        }
        self.finish_bring_up(was_ready, &mut actions);
        actions
    }

    fn on_service_created(&mut self, ok: bool, service_handle: u16) -> (r: Vec<GattAction>)
        ensures
            (final(self)@, r@) == bring_up_step(
                old(self)@,
                ok,
                service_created_next(old(self)@, service_handle),
            ),
    {
        let mut actions: Vec<GattAction> = Vec::new();
        if !self.begin_bring_up(ok) {
            assert(actions@ =~= seq![]);
            return actions;
        }
        let was_ready = self.is_ready();
        self.service_handle = Some(service_handle);
        self.temp_handle = None;
        self.humid_handle = None;
        self.co2_handle = None;
        self.temp_cccd_handle = None;
        self.humid_cccd_handle = None;
        self.co2_cccd_handle = None;
        self.adv_configured = false;
        self.service_started = false;
        actions.push(GattAction::ConfigureAdvertising);
        actions.push(GattAction::StartService { service_handle });
        actions.push(
            GattAction::AddCharacteristic { service_handle, uuid: TEMPERATURE_CHAR_UUID },
        );
        actions.push(GattAction::AddCharacteristic { service_handle, uuid: HUMIDITY_CHAR_UUID });
        actions.push(GattAction::AddCharacteristic { service_handle, uuid: CO2_CHAR_UUID });
        self.finish_bring_up(was_ready, &mut actions);
        actions
    }

    fn on_service_started(&mut self, ok: bool, service_handle: u16) -> (r: Vec<GattAction>)
        ensures
            (final(self)@, r@) == bring_up_step(
                old(self)@,
                ok,
                service_started_next(old(self)@, service_handle),
            ),
    {
        let mut actions: Vec<GattAction> = Vec::new();
        if !self.begin_bring_up(ok) {
            assert(actions@ =~= seq![]);
            return actions;
        }
        let was_ready = self.is_ready();
        if self.service_handle == Some(service_handle) {
            self.service_started = true;
        }
        self.finish_bring_up(was_ready, &mut actions);
        actions
    }

    fn on_characteristic_added(
        &mut self,
        ok: bool,
        service_handle: u16,
        attr_handle: u16,
        uuid: Uuid,
    ) -> (r: Vec<GattAction>)
        ensures
            (final(self)@, r@) == bring_up_step(
                old(self)@,
                ok,
                characteristic_added_next(old(self)@, service_handle, attr_handle, uuid),
            ),
    {
        let mut actions: Vec<GattAction> = Vec::new();
        if !self.begin_bring_up(ok) {
            assert(actions@ =~= seq![]);
            return actions;
        }
        let was_ready = self.is_ready();
        if self.service_handle == Some(service_handle) {
            if uuid == Uuid::Uuid128(TEMPERATURE_CHAR_UUID) {
                self.temp_handle = Some(attr_handle);
                actions.push(GattAction::AddDescriptor { service_handle });
            } else if uuid == Uuid::Uuid128(HUMIDITY_CHAR_UUID) {
                self.humid_handle = Some(attr_handle);
                actions.push(GattAction::AddDescriptor { service_handle });
            } else if uuid == Uuid::Uuid128(CO2_CHAR_UUID) {
                self.co2_handle = Some(attr_handle);
                actions.push(GattAction::AddDescriptor { service_handle });
            }
        }
        self.finish_bring_up(was_ready, &mut actions);
        actions
    }

    fn on_descriptor_added(
        &mut self,
        ok: bool,
        service_handle: u16,
        attr_handle: u16,
        uuid: Uuid,
    ) -> (r: Vec<GattAction>)
        ensures
            (final(self)@, r@) == bring_up_step(
                old(self)@,
                ok,
                descriptor_added_next(old(self)@, service_handle, attr_handle, uuid),
            ),
    {
        let mut actions: Vec<GattAction> = Vec::new();
        if !self.begin_bring_up(ok) {
            assert(actions@ =~= seq![]);
            return actions;
        }
        let was_ready = self.is_ready();
        if self.service_handle == Some(service_handle) && uuid == Uuid::Uuid16(CCCD_UUID) {
            if self.temp_handle.is_some() && self.temp_cccd_handle.is_none() {
                self.temp_cccd_handle = Some(attr_handle);
            } else if self.humid_handle.is_some() && self.humid_cccd_handle.is_none() {
                self.humid_cccd_handle = Some(attr_handle);
            } else if self.co2_handle.is_some() && self.co2_cccd_handle.is_none() {
                self.co2_cccd_handle = Some(attr_handle);
            }
        }
        self.finish_bring_up(was_ready, &mut actions);
        actions
    }

    fn on_advertising_configured(&mut self, ok: bool) -> (r: Vec<GattAction>)
        ensures
            (final(self)@, r@) == bring_up_step(old(self)@, ok, advertising_configured_next(old(self)@)),
    {
        let mut actions: Vec<GattAction> = Vec::new();
        if !self.begin_bring_up(ok) {
            assert(actions@ =~= seq![]);
            return actions;
        }
        let was_ready = self.is_ready();
        self.adv_configured = true;
        self.finish_bring_up(was_ready, &mut actions);
        actions
    }

    /// Position of the first connection with the given ID.
    fn find_connection(&self, conn_id: u16) -> (r: Option<usize>)
        ensures
            match r {
                Some(i) => i == index_of(self@.connections, conn_id) && i < self@.connections.len(),
                None => index_of(self@.connections, conn_id) == -1,
            },
    {
        let conns = table_slice(&self.connections);
        let mut i: usize = 0;
        while i < conns.len()
            invariant
                conns@ == self@.connections,
                i <= conns@.len(),
                index_of(conns@, conn_id) == index_from(conns@, conn_id, i as int),
            decreases conns@.len() - i,
        {
            if conns[i].conn_id == conn_id {
                return Some(i);
            }
            i = i + 1;
        }
        None
    }

    /// Replaces the connection at `i`.
    fn replace_connection(&mut self, i: usize, c: Connection)
        requires
            i < old(self)@.connections.len(),
        ensures
            final(self)@ == (ServerView {
                connections: old(self)@.connections.update(i as int, c),
                ..old(self)@
            }),
    {
        let ghost before = self@.connections;
        let _ = table_slice(&self.connections);
        let _ = table_remove(&mut self.connections, i);
        let _ = table_insert(&mut self.connections, i, c);
        assert(table_items(self.connections) =~= before.update(i as int, c));
    }

    fn on_peer_connected(&mut self, conn_id: u16, peer: [u8; 6]) -> (r: Vec<GattAction>)
        ensures
            final(self)@ == connected(old(self)@, conn_id, peer),
            r@ == Seq::<GattAction>::empty(),
    {
        let conns = table_slice(&self.connections);
        if conns.len() < MAX_CONNECTIONS {
            let _ = table_push(
                &mut self.connections,
                Connection { peer, conn_id, subscribed: false, mtu: None },
            );
        }
        let actions: Vec<GattAction> = Vec::new();
        assert(actions@ =~= seq![]);
        actions
    }

    fn on_peer_disconnected(&mut self, conn_id: u16) -> (r: Vec<GattAction>)
        ensures
            final(self)@ == disconnected(old(self)@, conn_id),
            r@ == seq![GattAction::StartAdvertising],
    {
        if let Some(i) = self.find_connection(conn_id) {
            let _ = table_remove(&mut self.connections, i);
        }
        let mut actions: Vec<GattAction> = Vec::new();
        actions.push(GattAction::StartAdvertising);
        assert(actions@ =~= seq![GattAction::StartAdvertising]);
        actions
    }

    fn on_mtu(&mut self, conn_id: u16, mtu: u16) -> (r: Vec<GattAction>)
        ensures
            final(self)@ == mtu_negotiated(old(self)@, conn_id, mtu),
            r@ == Seq::<GattAction>::empty(),
    {
        if let Some(i) = self.find_connection(conn_id) {
            let conns = table_slice(&self.connections);
            let c = conns[i];
            self.replace_connection(i, Connection { mtu: Some(mtu), ..c });
        }
        let actions: Vec<GattAction> = Vec::new();
        assert(actions@ =~= seq![]);
        actions
    }

    /// Applies a configuration descriptor write of `value` by `conn_id`.
    fn set_subscription(&mut self, conn_id: u16, value: &Vec<u8>)
        ensures
            final(self)@ == subscription_written(old(self)@, conn_id, value@),
    {
        if value.len() == 2 {
            let flags: u16 = (value[0] as u16) + (value[1] as u16) * 256;
            let enable_notify = flags & 1 != 0;
            assert((flags & 1 != 0) == (flags % 2 == 1)) by (bit_vector);
            if let Some(i) = self.find_connection(conn_id) {
                let conns = table_slice(&self.connections);
                let c = conns[i];
                self.replace_connection(i, Connection { subscribed: enable_notify, ..c });
            }
        }
    }

    fn on_write(
        &mut self,
        gatt_if: u8,
        conn_id: u16,
        trans_id: u32,
        handle: u16,
        offset: u16,
        need_rsp: bool,
        is_prep: bool,
        value: &Vec<u8>,
    ) -> (r: Vec<GattAction>)
        ensures
            (final(self)@, r@) == write_step(
                old(self)@,
                gatt_if,
                conn_id,
                trans_id,
                handle,
                offset,
                need_rsp,
                is_prep,
                value@,
            ),
    {
        let mut actions: Vec<GattAction> = Vec::new();
        let handled = self.temp_cccd_handle == Some(handle) || self.humid_cccd_handle == Some(
            handle,
        ) || self.co2_cccd_handle == Some(handle);
        if handled {
            self.set_subscription(conn_id, value);
            if need_rsp {
                actions.push(
                    GattAction::WriteResponse {
                        gatt_if,
                        conn_id,
                        trans_id,
                        handle,
                        offset,
                        echo_value: is_prep,
                    },
                );
            }
        }
        assert(actions@ =~= write_step(
            old(self)@,
            gatt_if,
            conn_id,
            trans_id,
            handle,
            offset,
            need_rsp,
            is_prep,
            value@,
        ).1);
        actions
    }

    fn on_read(
        &self,
        gatt_if: u8,
        conn_id: u16,
        trans_id: u32,
        handle: u16,
        offset: u16,
        need_rsp: bool,
    ) -> (r: Vec<GattAction>)
        ensures
            r@ == read_actions(self@, gatt_if, conn_id, trans_id, handle, offset, need_rsp),
    {
        let mut actions: Vec<GattAction> = Vec::new();
        if need_rsp {
            let value = if self.temp_handle == Some(handle) {
                Some(word_to_le(self.latest_temperature as u16))
            } else if self.humid_handle == Some(handle) {
                Some(word_to_le(self.latest_humidity))
            } else if self.co2_handle == Some(handle) {
                Some(word_to_le(self.latest_co2))
            } else {
                None
            };
            match value {
                Some(value) => actions.push(
                    GattAction::ReadResponse { gatt_if, conn_id, trans_id, handle, offset, value },
                ),
                None => actions.push(GattAction::NotFoundResponse { gatt_if, conn_id, trans_id }),
            }
        }
        assert(actions@ =~= read_actions(
            self@,
            gatt_if,
            conn_id,
            trans_id,
            handle,
            offset,
            need_rsp,
        ));
        actions
    }

    /// Handles one event from the wireless stack and returns the requests to
    /// make of it, in order.
    pub fn handle_event(&mut self, event: &GattEvent) -> (r: Vec<GattAction>)
        ensures
            (final(self)@, r@) == step(old(self)@, *event),
    {
        match event {
            GattEvent::AppRegistered { ok, app_id, gatt_if } => self.on_app_registered(
                *ok,
                *app_id,
                *gatt_if,
            ),
            GattEvent::ServiceCreated { ok, service_handle } => self.on_service_created(
                *ok,
                *service_handle,
            ),
            GattEvent::ServiceStarted { ok, service_handle } => self.on_service_started(
                *ok,
                *service_handle,
            ),
            GattEvent::CharacteristicAdded { ok, service_handle, attr_handle, uuid } => {
                self.on_characteristic_added(*ok, *service_handle, *attr_handle, *uuid)
            },
            GattEvent::DescriptorAdded { ok, service_handle, attr_handle, uuid } => {
                self.on_descriptor_added(*ok, *service_handle, *attr_handle, *uuid)
            },
            GattEvent::AdvertisingConfigured { ok } => self.on_advertising_configured(*ok),
            GattEvent::PeerConnected { conn_id, peer } => self.on_peer_connected(*conn_id, *peer),
            GattEvent::PeerDisconnected { conn_id } => self.on_peer_disconnected(*conn_id),
            GattEvent::Mtu { conn_id, mtu } => self.on_mtu(*conn_id, *mtu),
            GattEvent::Read { gatt_if, conn_id, trans_id, handle, offset, need_rsp } => {
                self.on_read(*gatt_if, *conn_id, *trans_id, *handle, *offset, *need_rsp)
            },
            GattEvent::Write {
                gatt_if,
                conn_id,
                trans_id,
                handle,
                offset,
                need_rsp,
                is_prep,
                value,
            } => self.on_write(
                *gatt_if,
                *conn_id,
                *trans_id,
                *handle,
                *offset,
                *need_rsp,
                *is_prep,
                value,
            ),
        }
    }

    /// Stores one characteristic's new value and notifies the subscribed
    /// connections, when its handle is known.
    fn push_publish_one(
        &self,
        gatt_if: u8,
        handle: Option<u16>,
        value: [u8; 2],
        actions: &mut Vec<GattAction>,
    )
        ensures
            final(actions)@ == old(actions)@ + publish_one(self@.connections, gatt_if, handle, value),
    {
        if let Some(h) = handle {
            actions.push(GattAction::SetAttribute { handle: h, value });
            let ghost start = actions@;
            let conns = table_slice(&self.connections);
            let mut i: usize = 0;
            while i < conns.len()
                invariant
                    conns@ == self@.connections,
                    i <= conns@.len(),
                    actions@ == start + notify_all(
                        conns@.subrange(0, i as int),
                        gatt_if,
                        h,
                        value,
                    ),
                decreases conns@.len() - i,
            {
                let c = conns[i];
                assert(conns@.subrange(0, i + 1).drop_last() =~= conns@.subrange(0, i as int));
                if c.subscribed {
                    actions.push(GattAction::Notify { gatt_if, conn_id: c.conn_id, handle: h, value });
                }
                assert(actions@ =~= start + notify_all(
                    conns@.subrange(0, i + 1),
                    gatt_if,
                    h,
                    value,
                ));
                i = i + 1;
            }
            assert(conns@.subrange(0, conns@.len() as int) =~= conns@);
            assert(actions@ =~= old(actions)@ + publish_one(self@.connections, gatt_if, handle, value));
        } else {
            assert(actions@ =~= old(actions)@ + seq![]);
        }
    }

    /// Update characteristic values and notify subscribers: the latest
    /// readings are replaced, and once the application identity is known
    /// each characteristic with a known handle gets the new value and a
    /// notification to every subscribed connection.
    pub fn update_values(&mut self, temperature: i16, humidity: u16, co2: u16) -> (r: Vec<
        GattAction,
    >)
        ensures
            final(self)@ == published(old(self)@, temperature, humidity, co2),
            r@ == publish_actions(old(self)@, temperature, humidity, co2),
    {
        let mut actions: Vec<GattAction> = Vec::new();
        let ghost before = self@;
        self.latest_temperature = temperature;
        self.latest_humidity = humidity;
        self.latest_co2 = co2;
        match self.gatt_if {
            None => {
                assert(actions@ =~= seq![]);
            },
            Some(gatt_if) => {
                let temp_handle = self.temp_handle;
                let humid_handle = self.humid_handle;
                let co2_handle = self.co2_handle;
                self.push_publish_one(
                    gatt_if,
                    temp_handle,
                    word_to_le(temperature as u16),
                    &mut actions,
                );
                self.push_publish_one(gatt_if, humid_handle, word_to_le(humidity), &mut actions);
                self.push_publish_one(gatt_if, co2_handle, word_to_le(co2), &mut actions);
                assert(actions@ =~= publish_actions(before, temperature, humidity, co2));
            },
        }
        actions
    }

    /// The interface of the registered application identity.
    pub fn gatt_if(&self) -> (r: Option<u8>)
        ensures
            r == self@.gatt_if,
    {
        self.gatt_if
    }

    /// Bring-up has stopped on a failure status.
    pub fn is_halted(&self) -> (r: bool)
        ensures
            r == self@.halted,
    {
        self.halted
    }

    /// The temperature, humidity and CO2 characteristic handles.
    pub fn characteristic_handles(&self) -> (r: [Option<u16>; 3])
        ensures
            r == [self@.temp_handle, self@.humid_handle, self@.co2_handle],
    {
        [self.temp_handle, self.humid_handle, self.co2_handle]
    }

    /// The temperature, humidity and CO2 configuration descriptor handles.
    pub fn descriptor_handles(&self) -> (r: [Option<u16>; 3])
        ensures
            r == [self@.temp_cccd_handle, self@.humid_cccd_handle, self@.co2_cccd_handle],
    {
        [self.temp_cccd_handle, self.humid_cccd_handle, self.co2_cccd_handle]
    }

    /// The latest temperature, humidity and CO2 readings.
    pub fn latest_readings(&self) -> (r: (i16, u16, u16))
        ensures
            r == (self@.latest_temperature, self@.latest_humidity, self@.latest_co2),
    {
        (self.latest_temperature, self.latest_humidity, self.latest_co2)
    }

    /// Number of tracked connections.
    pub fn connection_count(&self) -> (r: usize)
        ensures
            r == self@.connections.len(),
            r <= MAX_CONNECTIONS,
    {
        table_slice(&self.connections).len()
    }

    /// The tracked connection at position `i`, in order of arrival.
    pub fn connection(&self, i: usize) -> (r: Connection)
        requires
            i < self@.connections.len(),
        ensures
            r == self@.connections[i as int],
    {
        table_slice(&self.connections)[i]
    }
}

} // verus!
