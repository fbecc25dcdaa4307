use vstd::prelude::*;
use crate::cache::{copy_bytes, outcome, ValueCache};
use crate::error::{Error, ErrorKind};
use crate::ids::Uuid;

verus! {

/// A descriptor value as the platform hands it over.
#[derive(Clone, Debug)]
pub enum NativeValue {
    /// A 16-bit number (extended properties, configuration values, PSM).
    Number(u16),
    /// A string's UTF-8 bytes (user description).
    Text(Vec<u8>),
    /// Raw bytes (all other descriptors).
    Data(Vec<u8>),
    /// A value of a kind that carries no bytes.
    Unknown,
}

/// The little-endian bytes of a 16-bit number.
pub open spec fn le_bytes(n: u16) -> Seq<u8> {
    seq![(n % 256) as u8, (n / 256) as u8]
}

/// The bytes a native value stands for.
pub open spec fn native_bytes(v: NativeValue) -> Seq<u8> {
    match v {
        NativeValue::Number(n) => le_bytes(n),
        NativeValue::Text(b) => b@,
        NativeValue::Data(b) => b@,
        NativeValue::Unknown => Seq::empty(),
    }
}

/// The bytes a native value stands for.
pub fn value_to_slice(v: &NativeValue) -> (r: Vec<u8>)
    ensures
        r@ == native_bytes(*v),
{
    match v {
        NativeValue::Number(n) => {
            let mut r: Vec<u8> = Vec::new();
            r.push((*n % 256) as u8);
            r.push((*n / 256) as u8);
            assert(r@ =~= le_bytes(*n));
            r
        },
        NativeValue::Text(b) => copy_bytes(b.as_slice()),
        NativeValue::Data(b) => copy_bytes(b.as_slice()),
        NativeValue::Unknown => Vec::new(),
    }
}

/// An event of the peer connection that descriptor operations wait on.
#[derive(Clone, Debug)]
pub enum PeripheralEvent {
    DescriptorValueUpdate { descriptor: u64, value: Option<NativeValue>, error: Option<i64> },
    DescriptorValueWrite { descriptor: u64, error: Option<i64> },
    Disconnected { error: Option<i64> },
    ServicesChanged { invalidated_services: Vec<u64> },
    Other,
}

/// A result seen through its value's bytes.
pub open spec fn bytes_result(r: Result<Vec<u8>, Error>) -> Result<Seq<u8>, Error> {
    match r {
        Ok(v) => Ok(v@),
        Err(e) => Err(e),
    }
}

/// How an event ends an operation of any kind on a descriptor of `service`,
/// if it does: the connection dropped, or the service was invalidated.
pub open spec fn interrupted_by(service: u64, ev: PeripheralEvent) -> Option<Error> {
    match ev {
        PeripheralEvent::Disconnected { error } => Some(Error { kind: ErrorKind::NotConnected, code: error }),
        PeripheralEvent::ServicesChanged { invalidated_services } => if invalidated_services@.contains(service) {
            Some(Error { kind: ErrorKind::ServiceChanged, code: None })
        } else {
            None
        },
        _ => None,
    }
}

/// How an event ends a read of descriptor `handle` of `service`, if it does.
pub open spec fn read_decision(handle: u64, service: u64, ev: PeripheralEvent) -> Option<Result<Seq<u8>, Error>> {
    match ev {
        PeripheralEvent::DescriptorValueUpdate { descriptor, value, error } => if descriptor == handle {
            Some(
                match error {
                    Some(c) => Err(Error { kind: ErrorKind::Platform, code: Some(c) }),
                    None => match value {
                        Some(v) => Ok(native_bytes(v)),
                        None => Err(Error { kind: ErrorKind::NotReady, code: None }),
                    },
                },
            )
        } else {
            None
        },
        _ => match interrupted_by(service, ev) {
            Some(e) => Some(Err(e)),
            None => None,
        },
    }
}

/// How an event ends a write of descriptor `handle` of `service`, if it does.
pub open spec fn write_decision(handle: u64, service: u64, ev: PeripheralEvent) -> Option<Result<(), Error>> {
    match ev {
        PeripheralEvent::DescriptorValueWrite { descriptor, error } => if descriptor == handle {
            Some(
                match error {
                    Some(c) => Err(Error { kind: ErrorKind::Platform, code: Some(c) }),
                    None => Ok(()),
                },
            )
        } else {
            None
        },
        _ => match interrupted_by(service, ev) {
            Some(e) => Some(Err(e)),
            None => None,
        },
    }
}

/// The error of an event stream that ended while an operation waited on it.
pub open spec fn stream_closed() -> Error {
    Error { kind: ErrorKind::Internal, code: None }
}

/// The outcome of a read that waits on the events from index `i` on: the first
/// event that decides it, or `Internal` when the stream ends first.
pub open spec fn read_result(handle: u64, service: u64, evs: Seq<PeripheralEvent>, i: int) -> Result<Seq<u8>, Error>
    decreases evs.len() - i,
{
    if i < 0 || i >= evs.len() {
        Err(stream_closed())
    } else {
        match read_decision(handle, service, evs[i]) {
            Some(r) => r,
            None => read_result(handle, service, evs, i + 1),
        }
    }
}

/// The outcome of a write that waits on the events from index `i` on.
pub open spec fn write_result(handle: u64, service: u64, evs: Seq<PeripheralEvent>, i: int) -> Result<(), Error>
    decreases evs.len() - i,
{
    if i < 0 || i >= evs.len() {
        Err(stream_closed())
    } else {
        match write_decision(handle, service, evs[i]) {
            Some(r) => r,
            None => write_result(handle, service, evs, i + 1),
        }
    }
}

/// Whether `services` holds `service`.
fn holds_service(services: &Vec<u64>, service: u64) -> (r: bool)
    ensures
        r == services@.contains(service),
{
    let mut i: usize = 0;
    while i < services.len()
        invariant
            i <= services.len(),
            forall|k: int| 0 <= k < i ==> services@[k] != service,
        decreases services.len() - i,
    {
        if services[i] == service {
            return true;
        }
        i += 1;
    }
    false
}

/// How an event ends any operation on a descriptor of `service`, if it does.
pub fn interruption(service: u64, ev: &PeripheralEvent) -> (r: Option<Error>)
    ensures
        r == interrupted_by(service, *ev),
{
    match ev {
        PeripheralEvent::Disconnected { error } => Some(Error::with_code(ErrorKind::NotConnected, *error)),
        PeripheralEvent::ServicesChanged { invalidated_services } => if holds_service(invalidated_services, service) {
            Some(Error::from_kind(ErrorKind::ServiceChanged))
        } else {
            None
        },
        _ => None,
    }
}

/// A GATT descriptor: its type, the platform handle it is known by, the
/// service it belongs to, if that still exists, and its cached value.
#[derive(Clone, Debug)]
pub struct DescriptorImpl {
    pub uuid: Uuid,
    pub handle: u64,
    pub service: Option<u64>,
    pub cache: ValueCache,
}

impl DescriptorImpl {
    /// A descriptor with nothing cached.
    pub fn new(uuid: Uuid, handle: u64, service: Option<u64>) -> (r: DescriptorImpl)
        ensures
            r.uuid == uuid,
            r.handle == handle,
            r.service == service,
            r.cache.view().is_none(),
    {
        DescriptorImpl { uuid, handle, service, cache: ValueCache::new() }
    }

    /// The type of this descriptor.
    pub fn uuid(&self) -> (r: Uuid)
        ensures
            r == self.uuid,
    {
        self.uuid
    }

    /// The type of this descriptor, in the form of a fallible operation.
    pub fn uuid_async(&self) -> (r: Result<Uuid, Error>)
        ensures
            r == Ok::<Uuid, Error>(self.uuid),
    {
        Ok(self.uuid)
    }

    /// The cached value: `NotReady` until a read filled it.
    pub fn value(&self) -> (r: Result<Vec<u8>, Error>)
        ensures
            outcome(r) == self.cache.cached(),
    {
        self.cache.value()
    }

    /// Handles one event while a read of this descriptor waits: `None` while
    /// the read goes on, else its outcome; a value read is cached.
    pub fn read_event(&mut self, ev: &PeripheralEvent) -> (r: Option<Result<Vec<u8>, Error>>)
        requires
            old(self).service.is_some(),
        ensures
            ({
                let d = read_decision(old(self).handle, old(self).service.unwrap(), *ev);
                &&& r.is_some() == d.is_some()
                &&& r.is_some() ==> bytes_result(r.unwrap()) == d.unwrap()
            }),
            match r {
                Some(Ok(v)) => final(self).cache.view() == Some(v@),
                _ => final(self).cache == old(self).cache,
            },
            final(self).uuid == old(self).uuid,
            final(self).handle == old(self).handle,
            final(self).service == old(self).service,
    {
        let service = self.service.unwrap();
        match ev {
            PeripheralEvent::DescriptorValueUpdate { descriptor, value, error } => {
                if *descriptor != self.handle {
                    return None;
                }
                match error {
                    Some(c) => Some(Err(Error::platform(*c))),
                    None => match value {
                        Some(v) => {
                            let bytes = value_to_slice(v);
                            self.cache.store(bytes.as_slice());
                            Some(Ok(bytes))
                        },
                        None => Some(Err(Error::from_kind(ErrorKind::NotReady))),
                    },
                }
            },
            _ => match interruption(service, ev) {
                Some(e) => Some(Err(e)),
                None => None,
            },
        }
    }

    /// Handles one event while a write to this descriptor waits: `None` while
    /// the write goes on, else its outcome.
    pub fn write_event(&self, ev: &PeripheralEvent) -> (r: Option<Result<(), Error>>)
        requires
            self.service.is_some(),
        ensures
            r == write_decision(self.handle, self.service.unwrap(), *ev),
    {
        let service = self.service.unwrap();
        match ev {
            PeripheralEvent::DescriptorValueWrite { descriptor, error } => {
                if *descriptor != self.handle {
                    return None;
                }
                match error {
                    Some(c) => Some(Err(Error::platform(*c))),
                    None => Some(Ok(())),
                }
            },
            _ => match interruption(service, ev) {
                Some(e) => Some(Err(e)),
                None => None,
            },
        }
    }

    /// Reads the descriptor: `NotConnected` when the peer is not connected;
    /// otherwise the outcome of the first of `events` that decides the read,
    /// or `Internal` when the event stream ends first. A value read is cached.
    pub fn read(&mut self, connected: bool, events: &Vec<PeripheralEvent>) -> (r: Result<Vec<u8>, Error>)
        requires
            old(self).service.is_some(),
        ensures
            !connected ==> r == Err::<Vec<u8>, Error>(Error { kind: ErrorKind::NotConnected, code: None }),
            connected ==> bytes_result(r) == read_result(old(self).handle, old(self).service.unwrap(), events@, 0),
            match r {
                Ok(v) => final(self).cache.view() == Some(v@),
                Err(_) => final(self).cache == old(self).cache,
            },
            final(self).uuid == old(self).uuid,
            final(self).handle == old(self).handle,
            final(self).service == old(self).service,
    {
        if !connected {
            return Err(Error::from_kind(ErrorKind::NotConnected));
        }
        let ghost handle = self.handle;
        let ghost service = self.service.unwrap();
        let mut i: usize = 0;
        while i < events.len()
            invariant
                connected,
                i <= events.len(),
                handle == old(self).handle,
                Some(service) == old(self).service,
                self.handle == handle,
                self.service == Some(service),
                self.uuid == old(self).uuid,
                self.cache == old(self).cache,
                read_result(handle, service, events@, 0) == read_result(handle, service, events@, i as int),
            decreases events.len() - i,
        {
            match self.read_event(&events[i]) {
                Some(r) => return r,
                None => {},
            }
            i += 1;
        }
        Err(Error::from_kind(ErrorKind::Internal))
    }

    /// Writes the descriptor: `NotReady` when its service no longer exists,
    /// `NotConnected` when the peer is not connected; otherwise the outcome of
    /// the first of `events` that decides the write, or `Internal` when the
    /// event stream ends first.
    pub fn write(&self, connected: bool, events: &Vec<PeripheralEvent>) -> (r: Result<(), Error>)
        ensures
            self.service.is_none() ==> r == Err::<(), Error>(Error { kind: ErrorKind::NotReady, code: None }),
            self.service.is_some() && !connected ==> r == Err::<(), Error>(
                Error { kind: ErrorKind::NotConnected, code: None },
            ),
            self.service.is_some() && connected ==> r == write_result(self.handle, self.service.unwrap(), events@, 0),
    {
        if self.service.is_none() {
            return Err(Error::from_kind(ErrorKind::NotReady));
        }
        if !connected {
            return Err(Error::from_kind(ErrorKind::NotConnected));
        }
        let mut i: usize = 0;
        while i < events.len()
            invariant
                connected,
                i <= events.len(),
                self.service.is_some(),
                write_result(self.handle, self.service.unwrap(), events@, 0)
                    == write_result(self.handle, self.service.unwrap(), events@, i as int),
            decreases events.len() - i,
        {
            match self.write_event(&events[i]) {
                Some(r) => return r,
                None => {},
            }
            i += 1;
        }
        Err(Error::from_kind(ErrorKind::Internal))
    }
}

} // verus!
