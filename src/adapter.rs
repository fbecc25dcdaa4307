use vstd::prelude::*;
use crate::error::{Error, ErrorKind};
use crate::ids::{any_shared, shares_any, DeviceId, Uuid};

verus! {

/// The largest raw value of a 48-bit device address.
pub const MAX_ADDRESS: u128 = 0xffff_ffff_ffff;

/// A change of the radio's availability.
#[derive(Clone, Copy, Debug, PartialEq, Eq, Structural)]
pub enum AdapterEvent {
    Available,
    Unavailable,
}

/// A change of a device's connection state.
#[derive(Clone, Copy, Debug, PartialEq, Eq, Structural)]
pub enum ConnectionEvent {
    Connected,
    Disconnected,
}

/// An event of the platform's adapter object.
#[derive(Clone, Copy, Debug, PartialEq, Eq, Structural)]
pub enum RawAdapterEvent {
    /// The powered property changed to the given value.
    Powered(bool),
    /// Another property changed.
    OtherProperty,
    /// A device became known to the adapter.
    DeviceAdded(DeviceId),
    /// A device was forgotten by the adapter.
    DeviceRemoved(DeviceId),
}

/// An event of the platform's device object.
#[derive(Clone, Copy, Debug, PartialEq, Eq, Structural)]
pub enum RawDeviceEvent {
    /// The connected property changed to the given value.
    ConnectedChanged(bool),
    /// Another property changed.
    OtherProperty,
}

/// The availability change a platform event stands for, if any.
pub open spec fn availability_of(e: RawAdapterEvent) -> Option<AdapterEvent> {
    match e {
        RawAdapterEvent::Powered(true) => Some(AdapterEvent::Available),
        RawAdapterEvent::Powered(false) => Some(AdapterEvent::Unavailable),
        _ => None,
    }
}

/// The connection change a platform event stands for, if any.
pub open spec fn connection_of(e: RawDeviceEvent) -> Option<ConnectionEvent> {
    match e {
        RawDeviceEvent::ConnectedChanged(true) => Some(ConnectionEvent::Connected),
        RawDeviceEvent::ConnectedChanged(false) => Some(ConnectionEvent::Disconnected),
        RawDeviceEvent::OtherProperty => None,
    }
}

/// The availability changes among `es`, in their order; other events dropped.
pub open spec fn availability_events(es: Seq<RawAdapterEvent>) -> Seq<AdapterEvent>
    decreases es.len(),
{
    if es.len() == 0 {
        Seq::empty()
    } else {
        let rest = availability_events(es.drop_last());
        match availability_of(es.last()) {
            Some(a) => rest.push(a),
            None => rest,
        }
    }
}

/// The connection changes among `es`, in their order; other events dropped.
pub open spec fn connection_events(es: Seq<RawDeviceEvent>) -> Seq<ConnectionEvent>
    decreases es.len(),
{
    if es.len() == 0 {
        Seq::empty()
    } else {
        let rest = connection_events(es.drop_last());
        match connection_of(es.last()) {
            Some(c) => rest.push(c),
            None => rest,
        }
    }
}

/// The availability change a platform event stands for, if any.
pub fn adapter_event(e: RawAdapterEvent) -> (r: Option<AdapterEvent>)
    ensures
        r == availability_of(e),
{
    match e {
        RawAdapterEvent::Powered(true) => Some(AdapterEvent::Available),
        RawAdapterEvent::Powered(false) => Some(AdapterEvent::Unavailable),
        _ => None,
    }
}

/// The connection change a platform event stands for, if any.
pub fn connection_event(e: RawDeviceEvent) -> (r: Option<ConnectionEvent>)
    ensures
        r == connection_of(e),
{
    match e {
        RawDeviceEvent::ConnectedChanged(true) => Some(ConnectionEvent::Connected),
        RawDeviceEvent::ConnectedChanged(false) => Some(ConnectionEvent::Disconnected),
        RawDeviceEvent::OtherProperty => None,
    }
}

/// How an item of the availability stream ends a wait for the radio, if it
/// does: an error ends it with that error, `Available` ends it successfully.
pub open spec fn wait_decision(item: Result<AdapterEvent, Error>) -> Option<Result<(), Error>> {
    match item {
        Err(e) => Some(Err(e)),
        Ok(AdapterEvent::Available) => Some(Ok(())),
        Ok(AdapterEvent::Unavailable) => None,
    }
}

/// The outcome of waiting on the stream items from index `i` on: the first
/// that decides, or `Internal` when the stream ends first.
pub open spec fn wait_result(items: Seq<Result<AdapterEvent, Error>>, i: int) -> Result<(), Error>
    decreases items.len() - i,
{
    if i < 0 || i >= items.len() {
        Err(Error { kind: ErrorKind::Internal, code: None })
    } else {
        match wait_decision(items[i]) {
            Some(r) => r,
            None => wait_result(items, i + 1),
        }
    }
}

/// How an item of the availability stream ends a wait, if it does.
pub fn wait_step(item: Result<AdapterEvent, Error>) -> (r: Option<Result<(), Error>>)
    ensures
        r == wait_decision(item),
{
    match item {
        Err(e) => Some(Err(e)),
        Ok(AdapterEvent::Available) => Some(Ok(())),
        Ok(AdapterEvent::Unavailable) => None,
    }
}

/// The outcome of a wait for the radio and how many stream items it took.
#[derive(Clone, Copy, Debug)]
pub struct WaitOutcome {
    pub result: Result<(), Error>,
    pub polled: usize,
}

/// A known remote peer as the platform reports it at one instant.
#[derive(Clone, Debug)]
pub struct PeerInfo {
    pub id: DeviceId,
    pub connected: bool,
    /// The service types the peer exposes or advertises.
    pub services: Vec<Uuid>,
}

/// A handle to a remote peer.
#[derive(Clone, Copy, Debug, PartialEq, Eq, Structural, Hash)]
pub struct Device {
    pub id: DeviceId,
}

/// The connected peers among `ps`, in their order.
pub open spec fn connected_of(ps: Seq<PeerInfo>) -> Seq<Device>
    decreases ps.len(),
{
    if ps.len() == 0 {
        Seq::empty()
    } else {
        let rest = connected_of(ps.drop_last());
        if ps.last().connected {
            rest.push(Device { id: ps.last().id })
        } else {
            rest
        }
    }
}

/// The connected peers among `ps` that expose a service of `services`.
pub open spec fn with_services_of(services: Seq<Uuid>, ps: Seq<PeerInfo>) -> Seq<Device>
    decreases ps.len(),
{
    if ps.len() == 0 {
        Seq::empty()
    } else {
        let rest = with_services_of(services, ps.drop_last());
        if ps.last().connected && shares_any(services, ps.last().services@) {
            rest.push(Device { id: ps.last().id })
        } else {
            rest
        }
    }
}

/// Whether an advertisement of a peer belongs in a scan for `services`: the
/// peer is not connected, and `services` is empty or the advertised service
/// types hold one of them.
pub open spec fn scan_match(services: Seq<Uuid>, connected: bool, advertised: Seq<Uuid>) -> bool {
    !connected && (services.len() == 0 || shares_any(services, advertised))
}

/// Whether a peer seen while discovering belongs to a discovery for
/// `services`: `services` is empty or the peer's service types hold one.
pub open spec fn discover_match(services: Seq<Uuid>, offered: Seq<Uuid>) -> bool {
    services.len() == 0 || shares_any(services, offered)
}

/// What the next pull of a discovery sequence does.
#[derive(Clone, Copy, Debug, PartialEq, Eq, Structural)]
pub enum DiscoverStep {
    /// Hand out this already-connected device.
    Yield(Device),
    /// The snapshot is used up: start the radio scan now.
    StartScan,
    /// The scan runs: wait for the next matching advertisement.
    AwaitAdvertisement,
}

/// A discovery sequence: first the connected matching devices, then a scan.
#[derive(Clone, Debug)]
pub struct DiscoverSession {
    pub snapshot: Vec<Device>,
    pub next: usize,
    pub scanning: bool,
}

/// The state of a discovery sequence as values.
pub struct DiscoverModel {
    pub snapshot: Seq<Device>,
    pub next: int,
    pub scanning: bool,
}

/// One pull of a discovery sequence: the next state and what it does.
pub open spec fn discover_next(m: DiscoverModel) -> (DiscoverModel, DiscoverStep) {
    if 0 <= m.next < m.snapshot.len() {
        (
            DiscoverModel { snapshot: m.snapshot, next: m.next + 1, scanning: m.scanning },
            DiscoverStep::Yield(m.snapshot[m.next]),
        )
    } else if !m.scanning {
        (DiscoverModel { snapshot: m.snapshot, next: m.next, scanning: true }, DiscoverStep::StartScan)
    } else {
        (m, DiscoverStep::AwaitAdvertisement)
    }
}

impl DiscoverSession {
    pub open spec fn view(&self) -> DiscoverModel {
        DiscoverModel { snapshot: self.snapshot@, next: self.next as int, scanning: self.scanning }
    }

    /// The next pull of the sequence. The scan starts only once every device
    /// of the snapshot was handed out, and only once.
    pub fn next_step(&mut self) -> (r: DiscoverStep)
        requires
            old(self).next <= old(self).snapshot.len(),
        ensures
            (final(self)@, r) == discover_next(old(self)@),
            final(self).next <= final(self).snapshot.len(),
    {
        if self.next < self.snapshot.len() {
            let d = self.snapshot[self.next];
            self.next = self.next + 1;
            DiscoverStep::Yield(d)
        } else if !self.scanning {
            self.scanning = true;
            DiscoverStep::StartScan
        } else {
            DiscoverStep::AwaitAdvertisement
        }
    }
}

/// The local radio, known by its adapter index.
#[derive(Clone, Copy, Debug, PartialEq, Eq, Structural, Hash)]
pub struct AdapterImpl {
    pub index: u16,
}

impl AdapterImpl {
    /// The availability changes among `raw`, in their order.
    pub fn events(&self, raw: &Vec<RawAdapterEvent>) -> (r: Vec<AdapterEvent>)
        ensures
            r@ == availability_events(raw@),
    {
        let mut r: Vec<AdapterEvent> = Vec::new();
        let mut i: usize = 0;
        while i < raw.len()
            invariant
                i <= raw.len(),
                r@ == availability_events(raw@.subrange(0, i as int)),
            decreases raw.len() - i,
        {
            assert(raw@.subrange(0, i + 1).drop_last() == raw@.subrange(0, i as int));
            match adapter_event(raw[i]) {
                Some(a) => r.push(a),
                None => {},
            }
            i += 1;
        }
        assert(raw@.subrange(0, raw.len() as int) == raw@);
        r
    }

    /// Waits until the radio is powered. When it already is, the wait ends at
    /// once and takes nothing from the availability stream. Otherwise it ends
    /// at the first item of `items` that is `Available` or an error, and with
    /// `Internal` when the stream ends before that.
    pub fn wait_available(&self, powered: bool, items: &Vec<Result<AdapterEvent, Error>>) -> (r: WaitOutcome)
        ensures
            powered ==> r.result.is_ok() && r.polled == 0,
            !powered ==> r.result == wait_result(items@, 0),
            r.polled <= items.len(),
    {
        if powered {
            return WaitOutcome { result: Ok(()), polled: 0 };
        }
        let mut i: usize = 0;
        while i < items.len()
            invariant
                !powered,
                i <= items.len(),
                wait_result(items@, 0) == wait_result(items@, i as int),
            decreases items.len() - i,
        {
            match wait_step(items[i]) {
                Some(res) => return WaitOutcome { result: res, polled: i + 1 },
                None => {},
            }
            i += 1;
        }
        WaitOutcome { result: Err(Error::from_kind(ErrorKind::Internal)), polled: i }
    }

    /// A handle for the peer `id`; `InvalidParameter` when `id` is not a
    /// 48-bit address.
    pub fn open_device(&self, id: &DeviceId) -> (r: Result<Device, Error>)
        ensures
            id.raw <= MAX_ADDRESS ==> r == Ok::<Device, Error>(Device { id: *id }),
            id.raw > MAX_ADDRESS ==> r == Err::<Device, Error>(
                Error { kind: ErrorKind::InvalidParameter, code: None },
            ),
    {
        if id.raw <= MAX_ADDRESS {
            Ok(Device { id: *id })
        } else {
            Err(Error::from_kind(ErrorKind::InvalidParameter))
        }
    }

    /// The connected peers among `peers`, in their order.
    pub fn connected_devices(&self, peers: &Vec<PeerInfo>) -> (r: Vec<Device>)
        ensures
            r@ == connected_of(peers@),
    {
        let mut r: Vec<Device> = Vec::new();
        let mut i: usize = 0;
        while i < peers.len()
            invariant
                i <= peers.len(),
                r@ == connected_of(peers@.subrange(0, i as int)),
            decreases peers.len() - i,
        {
            assert(peers@.subrange(0, i + 1).drop_last() == peers@.subrange(0, i as int));
            if peers[i].connected {
                r.push(Device { id: peers[i].id });
            }
            i += 1;
        }
        assert(peers@.subrange(0, peers.len() as int) == peers@);
        r
    }

    /// The connected peers among `peers` that expose at least one service of
    /// `services`, in their order. An empty `services` is a caller's error.
    pub fn connected_devices_with_services(&self, services: &Vec<Uuid>, peers: &Vec<PeerInfo>) -> (r: Vec<Device>)
        requires
            services.len() > 0,
        ensures
            r@ == with_services_of(services@, peers@),
    {
        let mut r: Vec<Device> = Vec::new();
        let mut i: usize = 0;
        while i < peers.len()
            invariant
                i <= peers.len(),
                r@ == with_services_of(services@, peers@.subrange(0, i as int)),
            decreases peers.len() - i,
        {
            assert(peers@.subrange(0, i + 1).drop_last() == peers@.subrange(0, i as int));
            if peers[i].connected && any_shared(services, &peers[i].services) {
                r.push(Device { id: peers[i].id });
            }
            i += 1;
        }
        assert(peers@.subrange(0, peers.len() as int) == peers@);
        r
    }

    /// Whether a scan for `services` yields an advertisement of a peer.
    pub fn scan_accepts(&self, services: &Vec<Uuid>, connected: bool, advertised: &Vec<Uuid>) -> (r: bool)
        ensures
            r == scan_match(services@, connected, advertised@),
    {
        !connected && (services.len() == 0 || any_shared(services, advertised))
    }

    /// Whether a discovery for `services` yields a peer seen while scanning.
    pub fn discover_accepts(&self, services: &Vec<Uuid>, offered: &Vec<Uuid>) -> (r: bool)
        ensures
            r == discover_match(services@, offered@),
    {
        services.len() == 0 || any_shared(services, offered)
    }

    /// A discovery sequence for `services`: its snapshot holds the connected
    /// matching peers among `peers` (all connected ones when `services` is
    /// empty), and no scan has started.
    pub fn discover_devices(&self, services: &Vec<Uuid>, peers: &Vec<PeerInfo>) -> (r: DiscoverSession)
        ensures
            services.len() == 0 ==> r.snapshot@ == connected_of(peers@),
            services.len() > 0 ==> r.snapshot@ == with_services_of(services@, peers@),
            r.next == 0,
            !r.scanning,
    {
        let snapshot = if services.len() == 0 {
            self.connected_devices(peers)
        } else {
            self.connected_devices_with_services(services, peers)
        };
        DiscoverSession { snapshot, next: 0, scanning: false }
    }

    /// The connection changes of a device among `raw`, in their order.
    pub fn device_connection_events(&self, raw: &Vec<RawDeviceEvent>) -> (r: Vec<ConnectionEvent>)
        ensures
            r@ == connection_events(raw@),
    {
        let mut r: Vec<ConnectionEvent> = Vec::new();
        let mut i: usize = 0;
        while i < raw.len()
            invariant
                i <= raw.len(),
                r@ == connection_events(raw@.subrange(0, i as int)),
            decreases raw.len() - i,
        {
            assert(raw@.subrange(0, i + 1).drop_last() == raw@.subrange(0, i as int));
            match connection_event(raw[i]) {
                Some(c) => r.push(c),
                None => {},
            }
            i += 1;
        }
        assert(raw@.subrange(0, raw.len() as int) == raw@);
        r
    }
}


/// A pull of a discovery sequence never starts the scan while devices of the
/// snapshot remain: it hands out the next one and leaves the scan as it was.
/// So a discovery for `services` over one connected peer that exposes one of
/// them hands out that peer first, and a consumer that stops after it never
/// causes a scan.
pub proof fn lemma_snapshot_before_scan(services: Seq<Uuid>, p: PeerInfo, m: DiscoverModel)
    requires
        services.len() > 0,
        p.connected,
        shares_any(services, p.services@),
    ensures
        with_services_of(services, seq![p]) == seq![Device { id: p.id }],
        0 <= m.next < m.snapshot.len() ==> discover_next(m).1 == DiscoverStep::Yield(m.snapshot[m.next])
            && discover_next(m).0.scanning == m.scanning,
        ({
            let first = discover_next(
                DiscoverModel { snapshot: seq![Device { id: p.id }], next: 0, scanning: false },
            );
            first.1 == DiscoverStep::Yield(Device { id: p.id }) && !first.0.scanning
        }),
{
    let ps = seq![p];
    assert(ps.drop_last() =~= Seq::<PeerInfo>::empty());
    assert(ps.last() == p);
    assert(with_services_of(services, ps.drop_last()) == Seq::<Device>::empty());
    assert(Seq::<Device>::empty().push(Device { id: p.id }) =~= seq![Device { id: p.id }]);
}

} // verus!
