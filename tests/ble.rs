use scd41_node::ble::{
    GattAction, GattEvent, ServerState, Uuid, APP_ID, CCCD_UUID, CO2_CHAR_UUID,
    HUMIDITY_CHAR_UUID, MAX_CONNECTIONS, TEMPERATURE_CHAR_UUID,
};

const GATT_IF: u8 = 3;
const SERVICE: u16 = 40;
const TEMP: u16 = 42;
const HUMID: u16 = 44;
const CO2: u16 = 46;
const TEMP_CCCD: u16 = 43;
const HUMID_CCCD: u16 = 45;
const CO2_CCCD: u16 = 47;

fn char_added(attr_handle: u16, uuid: u128) -> GattEvent {
    GattEvent::CharacteristicAdded {
        ok: true,
        service_handle: SERVICE,
        attr_handle,
        uuid: Uuid::Uuid128(uuid),
    }
}

fn cccd_added(attr_handle: u16) -> GattEvent {
    GattEvent::DescriptorAdded {
        ok: true,
        service_handle: SERVICE,
        attr_handle,
        uuid: Uuid::Uuid16(CCCD_UUID),
    }
}

fn connect(s: &mut ServerState, conn_id: u16) -> Vec<GattAction> {
    s.handle_event(&GattEvent::PeerConnected { conn_id, peer: [conn_id as u8; 6] })
}

fn write_cccd(s: &mut ServerState, conn_id: u16, handle: u16, value: Vec<u8>) -> Vec<GattAction> {
    s.handle_event(&GattEvent::Write {
        gatt_if: GATT_IF,
        conn_id,
        trans_id: 9,
        handle,
        offset: 0,
        need_rsp: true,
        is_prep: false,
        value,
    })
}

/// Runs bring-up to completion and returns the state.
fn ready_server() -> ServerState {
    let mut s = ServerState::new();
    s.handle_event(&GattEvent::AppRegistered { ok: true, app_id: APP_ID, gatt_if: GATT_IF });
    s.handle_event(&GattEvent::ServiceCreated { ok: true, service_handle: SERVICE });
    s.handle_event(&GattEvent::AdvertisingConfigured { ok: true });
    s.handle_event(&GattEvent::ServiceStarted { ok: true, service_handle: SERVICE });
    s.handle_event(&char_added(TEMP, TEMPERATURE_CHAR_UUID));
    s.handle_event(&char_added(HUMID, HUMIDITY_CHAR_UUID));
    s.handle_event(&char_added(CO2, CO2_CHAR_UUID));
    s.handle_event(&cccd_added(TEMP_CCCD));
    s.handle_event(&cccd_added(HUMID_CCCD));
    let last = s.handle_event(&cccd_added(CO2_CCCD));
    assert_eq!(last, vec![GattAction::StartAdvertising]);
    assert!(s.is_ready());
    s
}

fn notified(actions: &[GattAction]) -> Vec<(u16, u16)> {
    actions
        .iter()
        .filter_map(|a| match a {
            GattAction::Notify { conn_id, handle, .. } => Some((*conn_id, *handle)),
            _ => None,
        })
        .collect()
}

#[test]
fn bring_up_sequence_requests() {
    let mut s = ServerState::new();
    assert_eq!(
        s.handle_event(&GattEvent::AppRegistered { ok: true, app_id: APP_ID, gatt_if: GATT_IF }),
        vec![GattAction::CreateService { gatt_if: GATT_IF }]
    );
    assert_eq!(
        s.handle_event(&GattEvent::ServiceCreated { ok: true, service_handle: SERVICE }),
        vec![
            GattAction::ConfigureAdvertising,
            GattAction::StartService { service_handle: SERVICE },
            GattAction::AddCharacteristic { service_handle: SERVICE, uuid: TEMPERATURE_CHAR_UUID },
            GattAction::AddCharacteristic { service_handle: SERVICE, uuid: HUMIDITY_CHAR_UUID },
            GattAction::AddCharacteristic { service_handle: SERVICE, uuid: CO2_CHAR_UUID },
        ]
    );
    assert_eq!(
        s.handle_event(&char_added(TEMP, TEMPERATURE_CHAR_UUID)),
        vec![GattAction::AddDescriptor { service_handle: SERVICE }]
    );
}

#[test]
fn other_app_id_is_ignored() {
    let mut s = ServerState::new();
    assert!(s
        .handle_event(&GattEvent::AppRegistered { ok: true, app_id: APP_ID + 1, gatt_if: GATT_IF })
        .is_empty());
    assert_eq!(s.gatt_if(), None);
}

#[test]
fn advertising_waits_for_three_characteristics_and_three_descriptors() {
    let mut s = ServerState::new();
    let mut all = Vec::new();
    all.extend(s.handle_event(&GattEvent::AppRegistered { ok: true, app_id: APP_ID, gatt_if: GATT_IF }));
    all.extend(s.handle_event(&GattEvent::ServiceCreated { ok: true, service_handle: SERVICE }));
    all.extend(s.handle_event(&GattEvent::AdvertisingConfigured { ok: true }));
    all.extend(s.handle_event(&GattEvent::ServiceStarted { ok: true, service_handle: SERVICE }));
    all.extend(s.handle_event(&char_added(TEMP, TEMPERATURE_CHAR_UUID)));
    all.extend(s.handle_event(&cccd_added(TEMP_CCCD)));
    all.extend(s.handle_event(&char_added(HUMID, HUMIDITY_CHAR_UUID)));
    all.extend(s.handle_event(&cccd_added(HUMID_CCCD)));
    all.extend(s.handle_event(&char_added(CO2, CO2_CHAR_UUID)));
    assert!(!all.contains(&GattAction::StartAdvertising));
    assert!(!s.is_ready());
    assert_eq!(s.handle_event(&cccd_added(CO2_CCCD)), vec![GattAction::StartAdvertising]);
    assert!(s.is_ready());
    assert_eq!(s.characteristic_handles(), [Some(TEMP), Some(HUMID), Some(CO2)]);
    assert_eq!(s.descriptor_handles(), [Some(TEMP_CCCD), Some(HUMID_CCCD), Some(CO2_CCCD)]);
}

#[test]
fn descriptors_are_assigned_in_order() {
    let mut s = ServerState::new();
    s.handle_event(&GattEvent::ServiceCreated { ok: true, service_handle: SERVICE });
    // A descriptor before any characteristic has nowhere to go.
    s.handle_event(&cccd_added(99));
    s.handle_event(&char_added(CO2, CO2_CHAR_UUID));
    s.handle_event(&char_added(TEMP, TEMPERATURE_CHAR_UUID));
    s.handle_event(&cccd_added(50));
    s.handle_event(&cccd_added(51));
    assert_eq!(s.descriptor_handles(), [Some(50), None, Some(51)]);
}

#[test]
fn foreign_service_and_uuids_are_ignored() {
    let mut s = ServerState::new();
    s.handle_event(&GattEvent::ServiceCreated { ok: true, service_handle: SERVICE });
    assert!(s
        .handle_event(&GattEvent::CharacteristicAdded {
            ok: true,
            service_handle: SERVICE + 1,
            attr_handle: TEMP,
            uuid: Uuid::Uuid128(TEMPERATURE_CHAR_UUID),
        })
        .is_empty());
    assert!(s.handle_event(&char_added(TEMP, 0x1234)).is_empty());
    // The 16-bit form of a UUID is not its 128-bit form.
    assert!(s
        .handle_event(&GattEvent::CharacteristicAdded {
            ok: true,
            service_handle: SERVICE,
            attr_handle: TEMP,
            uuid: Uuid::Uuid16(0x2a6e),
        })
        .is_empty());
    assert_eq!(s.characteristic_handles(), [None, None, None]);
}

#[test]
fn failure_status_halts_bring_up() {
    let mut s = ServerState::new();
    s.handle_event(&GattEvent::AppRegistered { ok: true, app_id: APP_ID, gatt_if: GATT_IF });
    s.handle_event(&GattEvent::ServiceCreated { ok: true, service_handle: SERVICE });
    s.handle_event(&GattEvent::AdvertisingConfigured { ok: true });
    s.handle_event(&GattEvent::ServiceStarted { ok: true, service_handle: SERVICE });
    s.handle_event(&char_added(TEMP, TEMPERATURE_CHAR_UUID));
    assert!(s
        .handle_event(&GattEvent::CharacteristicAdded {
            ok: false,
            service_handle: SERVICE,
            attr_handle: HUMID,
            uuid: Uuid::Uuid128(HUMIDITY_CHAR_UUID),
        })
        .is_empty());
    assert!(s.is_halted());
    let mut later = Vec::new();
    later.extend(s.handle_event(&char_added(HUMID, HUMIDITY_CHAR_UUID)));
    later.extend(s.handle_event(&char_added(CO2, CO2_CHAR_UUID)));
    later.extend(s.handle_event(&cccd_added(TEMP_CCCD)));
    later.extend(s.handle_event(&cccd_added(HUMID_CCCD)));
    later.extend(s.handle_event(&cccd_added(CO2_CCCD)));
    later.extend(s.handle_event(&GattEvent::ServiceCreated { ok: true, service_handle: SERVICE }));
    assert!(later.is_empty());
    assert!(!s.is_ready());
    assert_eq!(s.characteristic_handles(), [Some(TEMP), None, None]);
}

#[test]
fn failed_registration_halts() {
    let mut s = ServerState::new();
    assert!(s
        .handle_event(&GattEvent::AppRegistered { ok: false, app_id: APP_ID, gatt_if: GATT_IF })
        .is_empty());
    assert!(s.is_halted());
    assert!(s
        .handle_event(&GattEvent::AppRegistered { ok: true, app_id: APP_ID, gatt_if: GATT_IF })
        .is_empty());
    assert_eq!(s.gatt_if(), None);
}

#[test]
fn service_restart_rebuilds_tree() {
    let mut s = ready_server();
    s.handle_event(&GattEvent::ServiceCreated { ok: true, service_handle: 60 });
    assert!(!s.is_ready());
    assert_eq!(s.characteristic_handles(), [None, None, None]);
    assert_eq!(s.descriptor_handles(), [None, None, None]);
}

#[test]
fn connection_table_is_bounded() {
    let mut s = ready_server();
    for id in 1..=5u16 {
        assert!(connect(&mut s, id).is_empty());
        assert!(s.connection_count() <= MAX_CONNECTIONS);
    }
    assert_eq!(s.connection_count(), 2);
    assert_eq!(s.connection(0).conn_id, 1);
    assert_eq!(s.connection(1).conn_id, 2);
    assert!(!s.connection(0).subscribed);
    assert_eq!(s.connection(0).mtu, None);
    assert_eq!(s.connection(1).peer, [2u8; 6]);
}

#[test]
fn third_connection_is_not_notified() {
    let mut s = ready_server();
    connect(&mut s, 1);
    connect(&mut s, 2);
    connect(&mut s, 3);
    write_cccd(&mut s, 1, TEMP_CCCD, vec![1, 0]);
    write_cccd(&mut s, 2, TEMP_CCCD, vec![1, 0]);
    write_cccd(&mut s, 3, TEMP_CCCD, vec![1, 0]);
    let ids: Vec<u16> = notified(&s.update_values(2500, 5000, 400)).iter().map(|n| n.0).collect();
    assert!(!ids.contains(&3));
    assert_eq!(ids.len(), 6);
}

#[test]
fn mtu_is_recorded() {
    let mut s = ready_server();
    connect(&mut s, 1);
    connect(&mut s, 2);
    assert!(s.handle_event(&GattEvent::Mtu { conn_id: 2, mtu: 247 }).is_empty());
    s.handle_event(&GattEvent::Mtu { conn_id: 9, mtu: 100 });
    assert_eq!(s.connection(0).mtu, None);
    assert_eq!(s.connection(1).mtu, Some(247));
}

#[test]
fn unsubscribed_connection_gets_no_notifications() {
    let mut s = ready_server();
    connect(&mut s, 1);
    connect(&mut s, 2);
    write_cccd(&mut s, 2, HUMID_CCCD, vec![1, 0]);
    for i in 0..5 {
        let actions = s.update_values(2000 + i, 4000, 500);
        assert!(notified(&actions).iter().all(|n| n.0 == 2));
    }
}

#[test]
fn subscription_toggle_controls_notifications() {
    let mut s = ready_server();
    connect(&mut s, 7);
    assert!(notified(&s.update_values(1, 2, 3)).is_empty());
    // Enabling through one descriptor enables all three characteristics.
    assert_eq!(
        write_cccd(&mut s, 7, CO2_CCCD, vec![0x01, 0x00]),
        vec![GattAction::WriteResponse {
            gatt_if: GATT_IF,
            conn_id: 7,
            trans_id: 9,
            handle: CO2_CCCD,
            offset: 0,
            echo_value: false,
        }]
    );
    assert!(s.connection(0).subscribed);
    assert_eq!(
        notified(&s.update_values(1, 2, 3)),
        vec![(7, TEMP), (7, HUMID), (7, CO2)]
    );
    // Bit 0 clear disables, whatever the other bits hold.
    write_cccd(&mut s, 7, TEMP_CCCD, vec![0x02, 0xff]);
    assert!(!s.connection(0).subscribed);
    assert!(notified(&s.update_values(1, 2, 3)).is_empty());
    // Bit 0 of the low byte enables.
    write_cccd(&mut s, 7, HUMID_CCCD, vec![0x03, 0x00]);
    assert_eq!(notified(&s.update_values(1, 2, 3)).len(), 3);
}

#[test]
fn subscription_value_of_wrong_length_is_ignored() {
    let mut s = ready_server();
    connect(&mut s, 7);
    assert_eq!(write_cccd(&mut s, 7, TEMP_CCCD, vec![1]).len(), 1);
    assert!(!s.connection(0).subscribed);
    write_cccd(&mut s, 7, TEMP_CCCD, vec![1, 0, 0]);
    assert!(!s.connection(0).subscribed);
}

#[test]
fn write_to_other_handle_is_not_handled() {
    let mut s = ready_server();
    connect(&mut s, 7);
    assert!(write_cccd(&mut s, 7, TEMP, vec![1, 0]).is_empty());
    assert!(!s.connection(0).subscribed);
}

#[test]
fn prepared_write_echoes_value() {
    let mut s = ready_server();
    connect(&mut s, 7);
    let actions = s.handle_event(&GattEvent::Write {
        gatt_if: GATT_IF,
        conn_id: 7,
        trans_id: 11,
        handle: HUMID_CCCD,
        offset: 0,
        need_rsp: true,
        is_prep: true,
        value: vec![1, 0],
    });
    assert_eq!(
        actions,
        vec![GattAction::WriteResponse {
            gatt_if: GATT_IF,
            conn_id: 7,
            trans_id: 11,
            handle: HUMID_CCCD,
            offset: 0,
            echo_value: true,
        }]
    );
    let silent = s.handle_event(&GattEvent::Write {
        gatt_if: GATT_IF,
        conn_id: 7,
        trans_id: 12,
        handle: HUMID_CCCD,
        offset: 0,
        need_rsp: false,
        is_prep: false,
        value: vec![0, 0],
    });
    assert!(silent.is_empty());
    assert!(!s.connection(0).subscribed);
}

#[test]
fn disconnect_removes_and_readvertises() {
    let mut s = ready_server();
    connect(&mut s, 1);
    connect(&mut s, 2);
    assert_eq!(
        s.handle_event(&GattEvent::PeerDisconnected { conn_id: 1 }),
        vec![GattAction::StartAdvertising]
    );
    assert_eq!(s.connection_count(), 1);
    assert_eq!(s.connection(0).conn_id, 2);
    assert_eq!(
        s.handle_event(&GattEvent::PeerDisconnected { conn_id: 2 }),
        vec![GattAction::StartAdvertising]
    );
    assert_eq!(s.connection_count(), 0);
    // Unknown connections still restart advertising.
    assert_eq!(
        s.handle_event(&GattEvent::PeerDisconnected { conn_id: 5 }),
        vec![GattAction::StartAdvertising]
    );
    // A freed slot is reused.
    connect(&mut s, 3);
    assert_eq!(s.connection(0).conn_id, 3);
}

#[test]
fn read_returns_latest_values_little_endian() {
    let mut s = ready_server();
    s.update_values(-1234, 5678, 910);
    assert_eq!(s.latest_readings(), (-1234, 5678, 910));
    let read = |s: &mut ServerState, handle: u16| {
        s.handle_event(&GattEvent::Read {
            gatt_if: GATT_IF,
            conn_id: 1,
            trans_id: 5,
            handle,
            offset: 0,
            need_rsp: true,
        })
    };
    let t = (-1234i16).to_le_bytes();
    assert_eq!(
        read(&mut s, TEMP),
        vec![GattAction::ReadResponse { gatt_if: GATT_IF, conn_id: 1, trans_id: 5, handle: TEMP, offset: 0, value: t }]
    );
    assert_eq!(
        read(&mut s, HUMID),
        vec![GattAction::ReadResponse { gatt_if: GATT_IF, conn_id: 1, trans_id: 5, handle: HUMID, offset: 0, value: 5678u16.to_le_bytes() }]
    );
    assert_eq!(
        read(&mut s, CO2),
        vec![GattAction::ReadResponse { gatt_if: GATT_IF, conn_id: 1, trans_id: 5, handle: CO2, offset: 0, value: [0x8e, 0x03] }]
    );
    assert_eq!(
        read(&mut s, TEMP_CCCD),
        vec![GattAction::NotFoundResponse { gatt_if: GATT_IF, conn_id: 1, trans_id: 5 }]
    );
    let no_rsp = s.handle_event(&GattEvent::Read {
        gatt_if: GATT_IF,
        conn_id: 1,
        trans_id: 5,
        handle: TEMP,
        offset: 0,
        need_rsp: false,
    });
    assert!(no_rsp.is_empty());
}

#[test]
fn publish_before_registration_only_caches() {
    let mut s = ServerState::new();
    assert!(s.update_values(100, 200, 300).is_empty());
    assert_eq!(s.latest_readings(), (100, 200, 300));
}

#[test]
fn publish_sets_attributes_then_notifies() {
    let mut s = ready_server();
    connect(&mut s, 1);
    connect(&mut s, 2);
    write_cccd(&mut s, 2, TEMP_CCCD, vec![1, 0]);
    let t = 2345i16.to_le_bytes();
    let h = 4567u16.to_le_bytes();
    let c = 890u16.to_le_bytes();
    assert_eq!(
        s.update_values(2345, 4567, 890),
        vec![
            GattAction::SetAttribute { handle: TEMP, value: t },
            GattAction::Notify { gatt_if: GATT_IF, conn_id: 2, handle: TEMP, value: t },
            GattAction::SetAttribute { handle: HUMID, value: h },
            GattAction::Notify { gatt_if: GATT_IF, conn_id: 2, handle: HUMID, value: h },
            GattAction::SetAttribute { handle: CO2, value: c },
            GattAction::Notify { gatt_if: GATT_IF, conn_id: 2, handle: CO2, value: c },
        ]
    );
}

#[test]
fn publish_skips_unknown_characteristics() {
    let mut s = ServerState::new();
    s.handle_event(&GattEvent::AppRegistered { ok: true, app_id: APP_ID, gatt_if: GATT_IF });
    s.handle_event(&GattEvent::ServiceCreated { ok: true, service_handle: SERVICE });
    s.handle_event(&char_added(HUMID, HUMIDITY_CHAR_UUID));
    assert_eq!(
        s.update_values(1, 2, 3),
        vec![GattAction::SetAttribute { handle: HUMID, value: [2, 0] }]
    );
}
