use vstd::prelude::*;
use crate::cache::{copy_bytes, outcome, ValueCache};
use crate::error::{Error, ErrorKind};
use crate::ids::Uuid;
use crate::notify::{CccdValue, NotifyAction, NotifyEvent, NotifyPhase, Subscription, step};
use crate::properties::{CharacteristicProperties, CharacteristicProperty};

verus! {

/// A request to write bytes to a characteristic on the peer.
#[derive(Clone, Debug)]
pub struct WriteRequest {
    pub bytes: Vec<u8>,
    pub with_response: bool,
}

/// A GATT characteristic: its type, its declared properties, its cached value
/// and its notification subscription state.
#[derive(Clone, Debug)]
pub struct Characteristic {
    pub uuid: Uuid,
    pub properties: CharacteristicProperties,
    pub cache: ValueCache,
    pub subscription: Subscription,
}

/// The configuration value that turns on updates for a characteristic with
/// the given properties: notifications first, then indications.
pub open spec fn enabling_value(p: CharacteristicProperties) -> Option<CccdValue> {
    if p.has(CharacteristicProperty::Notify) {
        Some(CccdValue::Notify)
    } else if p.has(CharacteristicProperty::Indicate) {
        Some(CccdValue::Indicate)
    } else {
        None
    }
}

/// Whether a client characteristic configuration value has notifications or
/// indications on.
pub open spec fn cccd_on(config: u16) -> bool {
    config % 2 == 1 || (config / 2) % 2 == 1
}

/// Whether the peer's configuration value, as last read, has updates on.
pub fn is_notifying(config: u16) -> (r: bool)
    ensures
        r == cccd_on(config),
{
    let r = config & 3 != 0;
    assert(config & 3 != 0 <==> (config % 2 == 1 || (config / 2) % 2 == 1)) by (bit_vector);
    r
}

/// The value that turns on updates, or `NotSupported` when the
/// characteristic declares neither notifications nor indications.
pub fn notify_value(p: CharacteristicProperties) -> (r: Result<CccdValue, Error>)
    ensures
        match enabling_value(p) {
            Some(v) => r == Ok::<CccdValue, Error>(v),
            None => r.is_err() && r.unwrap_err().kind == ErrorKind::NotSupported,
        },
{
    if p.contains(CharacteristicProperty::Notify) {
        Ok(CccdValue::Notify)
    } else if p.contains(CharacteristicProperty::Indicate) {
        Ok(CccdValue::Indicate)
    } else {
        Err(Error::from_kind(ErrorKind::NotSupported))
    }
}

impl Characteristic {
    /// The characteristic's model is consistent.
    pub open spec fn wf(&self) -> bool {
        self.properties.wf() && self.subscription.wf()
    }

    /// A characteristic of type `uuid` with the raw properties field `raw`,
    /// nothing cached and no subscribers.
    pub fn new(uuid: Uuid, raw_properties: u32) -> (r: Characteristic)
        ensures
            r.uuid == uuid,
            r.properties.bits == raw_properties % 1024,
            r.cache.view().is_none(),
            r.subscription.phase == NotifyPhase::Idle,
            r.wf(),
    {
        Characteristic {
            uuid,
            properties: CharacteristicProperties::from_bits_truncate(raw_properties),
            cache: ValueCache::new(),
            subscription: Subscription::new(),
        }
    }

    /// The type of this characteristic.
    pub fn uuid(&self) -> (r: Uuid)
        ensures
            r == self.uuid,
    {
        self.uuid
    }

    /// The operations this characteristic declares.
    pub fn properties(&self) -> (r: CharacteristicProperties)
        ensures
            r == self.properties,
    {
        self.properties
    }

    /// The cached value: `NotReady` until a read or a notification filled it.
    pub fn value(&self) -> (r: Result<Vec<u8>, Error>)
        ensures
            outcome(r) == self.cache.cached(),
    {
        self.cache.value()
    }

    /// Completes a read from the peer: a value read is cached and returned; a
    /// failure is returned and leaves the cache as it was.
    pub fn read(&mut self, fetched: Result<Vec<u8>, Error>) -> (r: Result<Vec<u8>, Error>)
        ensures
            r.is_ok() == fetched.is_ok(),
            fetched.is_ok() ==> r.unwrap()@ == fetched.unwrap()@
                && final(self).cache.view() == Some(fetched.unwrap()@),
            fetched.is_err() ==> r.unwrap_err() == fetched.unwrap_err()
                && final(self).cache == old(self).cache,
            final(self).uuid == old(self).uuid,
            final(self).properties == old(self).properties,
            old(self).wf() ==> final(self).wf(),
            final(self).subscription == old(self).subscription,
    {
        match fetched {
            Ok(bytes) => {
                self.cache.store(bytes.as_slice());
                Ok(bytes)
            },
            Err(e) => Err(e),
        }
    }

    /// The request that writes `value` without asking for a response.
    pub fn write(&self, value: &[u8]) -> (r: WriteRequest)
        ensures
            r.bytes@ == value@,
            !r.with_response,
    {
        WriteRequest { bytes: copy_bytes(value), with_response: false }
    }

    /// The request that writes `value` and asks the peer to confirm it.
    pub fn write_with_response(&self, value: &[u8]) -> (r: WriteRequest)
        ensures
            r.bytes@ == value@,
            r.with_response,
    {
        WriteRequest { bytes: copy_bytes(value), with_response: true }
    }

    /// A new subscriber asks for updates. Without notify or indicate in the
    /// properties it fails with `NotSupported` and nothing changes, so no write
    /// to the peer is asked for; otherwise the subscription state machine takes
    /// the subscriber.
    pub fn notify(&mut self) -> (r: Result<NotifyAction, Error>)
        requires
            old(self).subscription.subscribers < u64::MAX,
        ensures
            enabling_value(old(self).properties).is_none() ==> r.is_err()
                && r.unwrap_err().kind == ErrorKind::NotSupported && *final(self) == *old(self),
            enabling_value(old(self).properties).is_some() ==> ({
                let (s, a) = step(
                    old(self).subscription,
                    NotifyEvent::Subscribe(enabling_value(old(self).properties).unwrap()),
                );
                r == Ok::<NotifyAction, Error>(a) && final(self).subscription == s
            }),
            final(self).uuid == old(self).uuid,
            final(self).properties == old(self).properties,
            old(self).wf() ==> final(self).wf(),
            final(self).cache == old(self).cache,
    {
        match notify_value(self.properties) {
            Ok(v) => Ok(self.subscription.subscribe(v)),
            Err(e) => Err(e),
        }
    }

    /// A value arrives from the peer. While updates are on it is cached, as a
    /// read would cache it, and `true` says it goes to the subscribers;
    /// otherwise it is dropped.
    pub fn deliver(&mut self, bytes: &[u8]) -> (r: bool)
        ensures
            r == (old(self).subscription.phase == NotifyPhase::Active),
            r ==> final(self).cache.view() == Some(bytes@),
            !r ==> final(self).cache == old(self).cache,
            final(self).uuid == old(self).uuid,
            final(self).properties == old(self).properties,
            old(self).wf() ==> final(self).wf(),
            final(self).subscription == old(self).subscription,
    {
        if self.subscription.phase == NotifyPhase::Active {
            self.cache.store(bytes);
            true
        } else {
            false
        }
    }
}

/// Before any read or notification the cached value is `NotReady`; once a
/// read has completed with `bytes`, the cached value is `bytes`.
pub proof fn lemma_value_after_read(fresh: Characteristic, after_read: Characteristic, bytes: Seq<u8>)
    requires
        fresh.cache.view().is_none(),
        after_read.cache.view() == Some(bytes),
    ensures
        fresh.cache.cached() == Err::<Seq<u8>, ErrorKind>(ErrorKind::NotReady),
        after_read.cache.cached() == Ok::<Seq<u8>, ErrorKind>(bytes),
{
}

} // verus!
