use bluest::adapter::{
    AdapterEvent, AdapterImpl, ConnectionEvent, Device, DiscoverStep, PeerInfo, RawAdapterEvent, RawDeviceEvent,
};
use bluest::cache::ValueCache;
use bluest::characteristic::{is_notifying, notify_value, Characteristic};
use bluest::descriptor::{value_to_slice, DescriptorImpl, NativeValue, PeripheralEvent};
use bluest::error::{Error, ErrorKind};
use bluest::ids::{any_shared, DeviceId, Uuid};
use bluest::notify::{CccdValue, NotifyAction, NotifyPhase, Subscription};
use bluest::properties::{CharacteristicProperties, CharacteristicProperty};

const NOTIFY: u32 = 0x10;
const INDICATE: u32 = 0x20;
const READ: u32 = 0x02;
const WRITE: u32 = 0x08;

fn uuid(n: u128) -> Uuid {
    Uuid { bits: n }
}

fn peer(raw: u128, connected: bool, services: &[u128]) -> PeerInfo {
    PeerInfo { id: DeviceId { raw }, connected, services: services.iter().map(|s| uuid(*s)).collect() }
}

#[test]
fn notify_without_notify_or_indicate_is_not_supported() {
    let mut c = Characteristic::new(uuid(1), READ | WRITE);
    let before = c.subscription;
    let r = c.notify();
    assert_eq!(r.unwrap_err().kind, ErrorKind::NotSupported);
    assert_eq!(c.subscription, before);
    assert_eq!(c.subscription.phase, NotifyPhase::Idle);
}

#[test]
fn notify_prefers_notifications_over_indications() {
    let both = CharacteristicProperties::from_bits_truncate(NOTIFY | INDICATE);
    assert_eq!(notify_value(both), Ok(CccdValue::Notify));
    let ind = CharacteristicProperties::from_bits_truncate(INDICATE);
    assert_eq!(notify_value(ind), Ok(CccdValue::Indicate));
    let mut c = Characteristic::new(uuid(1), INDICATE);
    assert_eq!(c.notify(), Ok(NotifyAction::WriteCccd(CccdValue::Indicate)));
}

#[test]
fn subscribe_then_dispose_writes_on_once_and_off_once() {
    let mut c = Characteristic::new(uuid(7), NOTIFY);
    let mut writes: Vec<CccdValue> = Vec::new();
    if let Ok(NotifyAction::WriteCccd(v)) = c.notify() {
        writes.push(v);
    }
    assert_eq!(c.subscription.enable_finished(true), NotifyAction::Deliver);
    if let NotifyAction::WriteCccd(v) = c.subscription.release() {
        writes.push(v);
    }
    assert_eq!(c.subscription.disable_finished(), NotifyAction::Nothing);
    assert_eq!(writes, vec![CccdValue::Notify, CccdValue::Disabled]);
    assert_eq!(c.subscription.phase, NotifyPhase::Idle);
}

#[test]
fn two_subscribers_share_one_enable_and_one_disable() {
    let mut c = Characteristic::new(uuid(7), NOTIFY);
    let mut enables = 0;
    let mut disables = 0;
    let mut count = |a: NotifyAction| match a {
        NotifyAction::WriteCccd(CccdValue::Disabled) => disables += 1,
        NotifyAction::WriteCccd(_) => enables += 1,
        _ => {}
    };
    count(c.notify().unwrap());
    assert_eq!(c.notify(), Ok(NotifyAction::Wait));
    count(c.subscription.enable_finished(true));
    assert_eq!(c.subscription.subscribers, 2);
    let first_release = c.subscription.release();
    assert_eq!(first_release, NotifyAction::Nothing);
    assert_eq!(c.subscription.phase, NotifyPhase::Active);
    count(first_release);
    count(c.subscription.release());
    count(c.subscription.disable_finished());
    assert_eq!(enables, 1);
    assert_eq!(disables, 1);
}

#[test]
fn subscriber_joining_active_toggle_writes_nothing() {
    let mut s = Subscription::new();
    assert_eq!(s.subscribe(CccdValue::Notify), NotifyAction::WriteCccd(CccdValue::Notify));
    s.enable_finished(true);
    assert_eq!(s.subscribe(CccdValue::Notify), NotifyAction::Deliver);
    assert_eq!(s.subscribers, 2);
}

#[test]
fn failed_enable_returns_to_idle() {
    let mut s = Subscription::new();
    s.subscribe(CccdValue::Indicate);
    assert_eq!(s.enable_finished(false), NotifyAction::Fail);
    assert_eq!(s.phase, NotifyPhase::Idle);
    assert_eq!(s.subscribers, 0);
}

#[test]
fn subscribe_while_disabling_retries() {
    let mut s = Subscription::new();
    s.subscribe(CccdValue::Notify);
    s.enable_finished(true);
    s.release();
    assert_eq!(s.phase, NotifyPhase::Disabling);
    assert_eq!(s.subscribe(CccdValue::Notify), NotifyAction::Retry);
    assert_eq!(s.phase, NotifyPhase::Disabling);
}

#[test]
fn wait_available_on_powered_adapter_polls_nothing() {
    let a = AdapterImpl { index: 0 };
    let items = vec![Err(Error::from_kind(ErrorKind::Internal))];
    let w = a.wait_available(true, &items);
    assert_eq!(w.result, Ok(()));
    assert_eq!(w.polled, 0);
}

#[test]
fn wait_available_ends_on_first_available() {
    let a = AdapterImpl { index: 0 };
    let items = vec![Ok(AdapterEvent::Unavailable), Ok(AdapterEvent::Available), Ok(AdapterEvent::Unavailable)];
    let w = a.wait_available(false, &items);
    assert_eq!(w.result, Ok(()));
    assert_eq!(w.polled, 2);
}

#[test]
fn wait_available_stream_end_is_internal() {
    let a = AdapterImpl { index: 0 };
    let w = a.wait_available(false, &vec![Ok(AdapterEvent::Unavailable)]);
    assert_eq!(w.result.unwrap_err().kind, ErrorKind::Internal);
    let w = a.wait_available(false, &vec![Err(Error::platform(-5)), Ok(AdapterEvent::Available)]);
    assert_eq!(w.result, Err(Error::platform(-5)));
    assert_eq!(w.polled, 1);
}

#[test]
fn connected_devices_keeps_connected_in_order() {
    let a = AdapterImpl { index: 0 };
    let peers = vec![peer(1, true, &[]), peer(2, false, &[]), peer(3, true, &[9])];
    let ids: Vec<u128> = a.connected_devices(&peers).iter().map(|d| d.id.raw).collect();
    assert_eq!(ids, vec![1, 3]);
}

#[test]
fn connected_devices_with_services_filters_by_service() {
    let a = AdapterImpl { index: 0 };
    let peers = vec![peer(1, true, &[4, 5]), peer(2, false, &[5]), peer(3, true, &[6]), peer(4, true, &[7, 5])];
    let r = a.connected_devices_with_services(&vec![uuid(5), uuid(8)], &peers);
    let ids: Vec<u128> = r.iter().map(|d| d.id.raw).collect();
    assert_eq!(ids, vec![1, 4]);
}

#[test]
fn cached_value_before_read_is_not_ready() {
    let mut c = Characteristic::new(uuid(2), READ);
    assert_eq!(c.value().unwrap_err().kind, ErrorKind::NotReady);
    let got = c.read(Ok(vec![9, 8, 7]));
    assert_eq!(got, Ok(vec![9, 8, 7]));
    assert_eq!(c.value(), Ok(vec![9, 8, 7]));
}

#[test]
fn failed_read_leaves_cache_alone() {
    let mut c = Characteristic::new(uuid(2), READ);
    c.read(Ok(vec![1]));
    let r = c.read(Err(Error::platform(3)));
    assert_eq!(r, Err(Error::platform(3)));
    assert_eq!(c.value(), Ok(vec![1]));
}

#[test]
fn discover_yields_connected_device_without_scanning() {
    let a = AdapterImpl { index: 0 };
    let peers = vec![peer(0x42, true, &[0x180d]), peer(0x43, false, &[0x180d])];
    let mut session = a.discover_devices(&vec![uuid(0x180d)], &peers);
    let first = session.next_step();
    assert_eq!(first, DiscoverStep::Yield(Device { id: DeviceId { raw: 0x42 } }));
    assert!(!session.scanning);
    drop(session);
}

#[test]
fn discover_starts_scan_once_after_snapshot() {
    let a = AdapterImpl { index: 0 };
    let mut session = a.discover_devices(&Vec::new(), &vec![peer(1, true, &[])]);
    assert_eq!(session.next_step(), DiscoverStep::Yield(Device { id: DeviceId { raw: 1 } }));
    assert_eq!(session.next_step(), DiscoverStep::StartScan);
    assert_eq!(session.next_step(), DiscoverStep::AwaitAdvertisement);
    assert!(session.scanning);
}

#[test]
fn write_with_response_then_read_round_trips() {
    let mut c = Characteristic::new(uuid(3), READ | WRITE);
    let req = c.write_with_response(&[0x01, 0x02]);
    assert!(req.with_response);
    // a peer that persists what was written answers the read with it
    let stored = req.bytes.clone();
    assert_eq!(c.read(Ok(stored)), Ok(vec![0x01, 0x02]));
    assert_eq!(c.value(), Ok(vec![0x01, 0x02]));
}

#[test]
fn write_without_response_request() {
    let c = Characteristic::new(uuid(3), 0x04);
    let req = c.write(&[5, 6, 7]);
    assert!(!req.with_response);
    assert_eq!(req.bytes, vec![5, 6, 7]);
}

#[test]
fn notification_updates_cache_only_while_active() {
    let mut c = Characteristic::new(uuid(4), NOTIFY);
    assert!(!c.deliver(&[1, 2]));
    assert_eq!(c.value().unwrap_err().kind, ErrorKind::NotReady);
    c.notify().unwrap();
    c.subscription.enable_finished(true);
    assert!(c.deliver(&[3, 4]));
    assert_eq!(c.value(), Ok(vec![3, 4]));
}

#[test]
fn properties_truncate_unknown_bits() {
    let c = Characteristic::new(uuid(5), 0xffff_fc12);
    assert_eq!(c.properties().bits, 0x12);
    assert!(c.properties().contains(CharacteristicProperty::Notify));
    assert!(c.properties().contains(CharacteristicProperty::Read));
    assert!(!c.properties().contains(CharacteristicProperty::Indicate));
    assert_eq!(CharacteristicProperty::WritableAuxiliaries.bit(), 0x200);
    assert_eq!(c.uuid(), uuid(5));
}

#[test]
fn is_notifying_reads_both_bits() {
    assert!(!is_notifying(0));
    assert!(is_notifying(1));
    assert!(is_notifying(2));
    assert!(is_notifying(3));
    assert!(!is_notifying(4));
}

#[test]
fn adapter_events_keep_order_and_drop_others() {
    let a = AdapterImpl { index: 0 };
    let raw = vec![
        RawAdapterEvent::Powered(false),
        RawAdapterEvent::OtherProperty,
        RawAdapterEvent::DeviceAdded(DeviceId { raw: 1 }),
        RawAdapterEvent::Powered(true),
    ];
    assert_eq!(a.events(&raw), vec![AdapterEvent::Unavailable, AdapterEvent::Available]);
}

#[test]
fn device_events_keep_order_and_drop_others() {
    let a = AdapterImpl { index: 0 };
    let raw = vec![
        RawDeviceEvent::ConnectedChanged(true),
        RawDeviceEvent::OtherProperty,
        RawDeviceEvent::ConnectedChanged(false),
    ];
    assert_eq!(a.device_connection_events(&raw), vec![ConnectionEvent::Connected, ConnectionEvent::Disconnected]);
}

#[test]
fn open_device_checks_address_width() {
    let a = AdapterImpl { index: 0 };
    let ok = DeviceId { raw: 0xffff_ffff_ffff };
    assert_eq!(a.open_device(&ok), Ok(Device { id: ok }));
    let bad = DeviceId { raw: 0x1_0000_0000_0000 };
    assert_eq!(a.open_device(&bad).unwrap_err().kind, ErrorKind::InvalidParameter);
}

#[test]
fn scan_filters_connected_and_by_service() {
    let a = AdapterImpl { index: 0 };
    let wanted = vec![uuid(10)];
    assert!(a.scan_accepts(&wanted, false, &vec![uuid(3), uuid(10)]));
    assert!(!a.scan_accepts(&wanted, true, &vec![uuid(10)]));
    assert!(!a.scan_accepts(&wanted, false, &vec![uuid(3)]));
    assert!(a.scan_accepts(&Vec::new(), false, &Vec::new()));
    assert!(a.discover_accepts(&Vec::new(), &Vec::new()));
    assert!(!a.discover_accepts(&wanted, &Vec::new()));
    assert!(any_shared(&vec![uuid(1), uuid(2)], &vec![uuid(2)]));
    assert!(!any_shared(&Vec::new(), &vec![uuid(2)]));
}

#[test]
fn descriptor_values_become_bytes() {
    assert_eq!(value_to_slice(&NativeValue::Number(0x0201)), vec![0x01, 0x02]);
    assert_eq!(value_to_slice(&NativeValue::Text(b"hi".to_vec())), b"hi".to_vec());
    assert_eq!(value_to_slice(&NativeValue::Data(vec![9])), vec![9]);
    assert_eq!(value_to_slice(&NativeValue::Unknown), Vec::<u8>::new());
}

#[test]
fn descriptor_read_outcomes() {
    let mut d = DescriptorImpl::new(uuid(0x2902), 11, Some(4));
    assert_eq!(d.value().unwrap_err().kind, ErrorKind::NotReady);
    assert_eq!(d.read(false, &Vec::new()).unwrap_err().kind, ErrorKind::NotConnected);
    let events = vec![
        PeripheralEvent::Other,
        PeripheralEvent::DescriptorValueUpdate { descriptor: 12, value: Some(NativeValue::Data(vec![0])), error: None },
        PeripheralEvent::ServicesChanged { invalidated_services: vec![5] },
        PeripheralEvent::DescriptorValueUpdate { descriptor: 11, value: Some(NativeValue::Number(1)), error: None },
    ];
    assert_eq!(d.read(true, &events), Ok(vec![1, 0]));
    assert_eq!(d.value(), Ok(vec![1, 0]));
    let changed = vec![PeripheralEvent::ServicesChanged { invalidated_services: vec![3, 4] }];
    assert_eq!(d.read(true, &changed).unwrap_err().kind, ErrorKind::ServiceChanged);
    let dropped = vec![PeripheralEvent::Disconnected { error: Some(7) }];
    assert_eq!(d.read(true, &dropped), Err(Error::with_code(ErrorKind::NotConnected, Some(7))));
    let failed = vec![PeripheralEvent::DescriptorValueUpdate { descriptor: 11, value: None, error: Some(14) }];
    assert_eq!(d.read(true, &failed), Err(Error::platform(14)));
    assert_eq!(d.read(true, &vec![PeripheralEvent::Other]).unwrap_err().kind, ErrorKind::Internal);
    assert_eq!(d.value(), Ok(vec![1, 0]));
    assert_eq!(d.uuid_async(), Ok(uuid(0x2902)));
}

#[test]
fn descriptor_write_outcomes() {
    let orphan = DescriptorImpl::new(uuid(1), 2, None);
    assert_eq!(orphan.write(true, &Vec::new()).unwrap_err().kind, ErrorKind::NotReady);
    let d = DescriptorImpl::new(uuid(1), 2, Some(8));
    assert_eq!(d.write(false, &Vec::new()).unwrap_err().kind, ErrorKind::NotConnected);
    let ok = vec![
        PeripheralEvent::DescriptorValueWrite { descriptor: 3, error: Some(1) },
        PeripheralEvent::DescriptorValueWrite { descriptor: 2, error: None },
    ];
    assert_eq!(d.write(true, &ok), Ok(()));
    let rejected = vec![PeripheralEvent::DescriptorValueWrite { descriptor: 2, error: Some(-3) }];
    assert_eq!(d.write(true, &rejected), Err(Error::platform(-3)));
    assert_eq!(d.write(true, &Vec::new()).unwrap_err().kind, ErrorKind::Internal);
}

#[test]
fn cache_store_replaces_value() {
    let mut c = ValueCache::new();
    c.store(&[1]);
    c.store(&[2, 3]);
    assert_eq!(c.value(), Ok(vec![2, 3]));
}

#[test]
fn cccd_bits() {
    assert_eq!(CccdValue::Disabled.bits(), 0);
    assert_eq!(CccdValue::Notify.bits(), 1);
    assert_eq!(CccdValue::Indicate.bits(), 2);
}
