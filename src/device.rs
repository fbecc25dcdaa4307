use vstd::prelude::*;
use crate::adapter::{ConnectionEvent, Device};
use crate::error::{Error, ErrorKind};
use crate::ids::Uuid;

verus! {

/// A handle to a GATT service, valid for the generation of the device's
/// service table it was discovered in.
#[derive(Clone, Copy, Debug, PartialEq, Eq, Structural)]
pub struct Service {
    pub uuid: Uuid,
    pub generation: u64,
}

/// What is known of a remote peer: its connection state and its service table.
#[derive(Clone, Debug)]
pub struct DeviceState {
    pub device: Device,
    pub connected: bool,
    /// Counts the service-changed indications received so far.
    pub generation: u64,
    /// The service types found by the last discovery, if one ran since the
    /// table last changed.
    pub discovered: Option<Vec<Uuid>>,
}

/// The outcome of an operation through `s` on a peer in the given state.
pub open spec fn service_status(connected: bool, generation: u64, s: Service) -> Result<(), ErrorKind> {
    if !connected {
        Err(ErrorKind::NotConnected)
    } else if s.generation != generation {
        Err(ErrorKind::ServiceChanged)
    } else {
        Ok(())
    }
}

/// Whether `handles` are the service handles of generation `g` for `found`.
pub open spec fn handles_for(handles: Seq<Service>, found: Seq<Uuid>, g: u64) -> bool {
    &&& handles.len() == found.len()
    &&& forall|i: int| 0 <= i < handles.len() ==> #[trigger] handles[i] == (Service { uuid: found[i], generation: g })
}

impl DeviceState {
    /// A disconnected peer whose services were never discovered.
    pub fn new(device: Device) -> (r: DeviceState)
        ensures
            r.device == device,
            !r.connected,
            r.generation == 0,
            r.discovered.is_none(),
    {
        DeviceState { device, connected: false, generation: 0, discovered: None }
    }

    /// Follows a connection change reported by the platform.
    pub fn apply(&mut self, ev: ConnectionEvent)
        ensures
            final(self).connected == (ev == ConnectionEvent::Connected),
            final(self).device == old(self).device,
            final(self).generation == old(self).generation,
            final(self).discovered == old(self).discovered,
    {
        self.connected = match ev {
            ConnectionEvent::Connected => true,
            ConnectionEvent::Disconnected => false,
        };
    }

    /// Records a fresh discovery that found `found` and hands out their
    /// handles; `NotConnected`, with nothing changed, without a connection.
    pub fn discover_services(&mut self, found: &Vec<Uuid>) -> (r: Result<Vec<Service>, Error>)
        ensures
            !old(self).connected ==> r.is_err() && r.unwrap_err().kind == ErrorKind::NotConnected
                && final(self).discovered == old(self).discovered,
            old(self).connected ==> r.is_ok() && handles_for(r.unwrap()@, found@, old(self).generation)
                && final(self).discovered.is_some() && final(self).discovered.unwrap()@ == found@,
            final(self).device == old(self).device,
            final(self).connected == old(self).connected,
            final(self).generation == old(self).generation,
    {
        if !self.connected {
            return Err(Error::from_kind(ErrorKind::NotConnected));
        }
        let mut handles: Vec<Service> = Vec::new();
        let mut kept: Vec<Uuid> = Vec::new();
        let mut i: usize = 0;
        while i < found.len()
            invariant
                i <= found.len(),
                handles_for(handles@, found@.subrange(0, i as int), self.generation),
                kept@ == found@.subrange(0, i as int),
            decreases found.len() - i,
        {
            handles.push(Service { uuid: found[i], generation: self.generation });
            kept.push(found[i]);
            i += 1;
        }
        assert(found@.subrange(0, found.len() as int) == found@);
        self.discovered = Some(kept);
        Ok(handles)
    }

    /// The handles of the services found by the last discovery; `None` when
    /// discovery has not run since the table last changed, so that an empty
    /// table is never reported for a peer that was never asked.
    pub fn services(&self) -> (r: Option<Vec<Service>>)
        ensures
            r.is_some() == self.discovered.is_some(),
            r.is_some() ==> handles_for(r.unwrap()@, self.discovered.unwrap()@, self.generation),
    {
        match &self.discovered {
            None => None,
            Some(found) => {
                let mut handles: Vec<Service> = Vec::new();
                let mut i: usize = 0;
                while i < found.len()
                    invariant
                        i <= found.len(),
                        handles_for(handles@, found@.subrange(0, i as int), self.generation),
                    decreases found.len() - i,
                {
                    handles.push(Service { uuid: found[i], generation: self.generation });
                    i += 1;
                }
                assert(found@.subrange(0, found.len() as int) == found@);
                Some(handles)
            },
        }
    }

    /// The peer indicated that its service table changed: every handle given
    /// out so far goes stale and the table must be discovered again.
    pub fn service_changed(&mut self)
        requires
            old(self).generation < u64::MAX,
        ensures
            final(self).generation == old(self).generation + 1,
            final(self).discovered.is_none(),
            final(self).device == old(self).device,
            final(self).connected == old(self).connected,
    {
        self.generation = self.generation + 1;
        self.discovered = None;
    }

    /// Whether an operation may go through `s`: `NotConnected` without a
    /// connection, `ServiceChanged` when `s` predates the current table.
    pub fn check_service(&self, s: &Service) -> (r: Result<(), Error>)
        ensures
            match service_status(self.connected, self.generation, *s) {
                Ok(()) => r.is_ok(),
                Err(k) => r.is_err() && r.unwrap_err().kind == k,
            },
    {
        if !self.connected {
            Err(Error::from_kind(ErrorKind::NotConnected))
        } else if s.generation != self.generation {
            Err(Error::from_kind(ErrorKind::ServiceChanged))
        } else {
            Ok(())
        }
    }
}

/// A handle from a discovery stays usable while the connection and the table
/// last; once the table changed, every operation through it fails with
/// `ServiceChanged` for as long as the peer stays connected.
pub proof fn lemma_stale_handle(handles: Seq<Service>, found: Seq<Uuid>, g: u64, later: u64, i: int)
    requires
        handles_for(handles, found, g),
        0 <= i < handles.len(),
        later > g,
    ensures
        service_status(true, g, handles[i]) == Ok::<(), ErrorKind>(()),
        service_status(true, later, handles[i]) == Err::<(), ErrorKind>(ErrorKind::ServiceChanged),
        service_status(false, g, handles[i]) == Err::<(), ErrorKind>(ErrorKind::NotConnected),
{
}

} // verus!
