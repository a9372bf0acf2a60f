//! Device discovery: building presence announcements and keeping the table
//! of devices seen on the network.
//!
//! The embedding application broadcasts and receives the packets over UDP;
//! every decision about them is made here.  A packet announcing this device
//! itself is suppressed; any other packet upserts the sender into the table
//! and is handed back for delivery to the discovery callback, once per
//! packet received.

use vstd::prelude::*;
use crate::errors::Error;
use crate::text::str_eq;
use crate::types::{Config, DeviceInfo, DiscoveryPacket, PairingStatus};

verus! {

/// The UDP port presence announcements are broadcast to.
pub const DISCOVERY_BROADCAST_PORT: u16 = 45678;

/// The UDP port the listening socket binds.
pub const DISCOVERY_LISTEN_PORT: u16 = 45679;

/// Whether `d` is the device record a discovery packet denotes, as it is
/// first added to the table: online, unpaired and untrusted.
pub open spec fn device_from_packet(d: DeviceInfo, p: DiscoveryPacket) -> bool {
    &&& d.id@ == p.device_id@
    &&& d.name@ == p.device_name@
    &&& d.device_type == p.device_type
    &&& d.public_key@ == p.public_key@
    &&& d.online == true
    &&& d.ip_address == p.ip_address
    &&& d.system_version == p.system_version
    &&& d.app_version == p.app_version
    &&& d.capabilities == p.capabilities
    &&& d.last_seen == Some(p.timestamp)
    &&& d.pairing_status == PairingStatus::Unpaired
    &&& d.description is None
    &&& d.trusted == false
}

/// Whether `new_d` is `old_d` refreshed by a packet: identity, public key,
/// pairing state and trust are kept; name, kind, capabilities, online flag
/// and last sighting are overwritten; reachability and versions only where
/// the packet carries them.
pub open spec fn device_refreshed(old_d: DeviceInfo, new_d: DeviceInfo, p: DiscoveryPacket) -> bool {
    &&& new_d.id == old_d.id
    &&& new_d.public_key == old_d.public_key
    &&& new_d.pairing_status == old_d.pairing_status
    &&& new_d.trusted == old_d.trusted
    &&& new_d.description == old_d.description
    &&& new_d.name == p.device_name
    &&& new_d.device_type == p.device_type
    &&& new_d.online == true
    &&& new_d.capabilities == p.capabilities
    &&& new_d.last_seen == Some(p.timestamp)
    &&& new_d.ip_address == (if p.ip_address is Some {
        p.ip_address
    } else {
        old_d.ip_address
    })
    &&& new_d.system_version == (if p.system_version is Some {
        p.system_version
    } else {
        old_d.system_version
    })
    &&& new_d.app_version == (if p.app_version is Some {
        p.app_version
    } else {
        old_d.app_version
    })
}

/// One table row changed: the first row whose id matches, every other row
/// untouched.
pub open spec fn table_changed_first(
    olds: Seq<DeviceInfo>,
    news: Seq<DeviceInfo>,
    id: Seq<char>,
    i: int,
) -> bool {
    &&& 0 <= i < olds.len()
    &&& olds[i].id@ == id
    &&& (forall|j: int| 0 <= j < i ==> olds[j].id@ != id)
    &&& news.len() == olds.len()
    &&& (forall|j: int| 0 <= j < olds.len() && j != i ==> news[j] == olds[j])
}

/// The first row with the packet's id was refreshed by the packet, and `d`
/// is that refreshed row.
pub open spec fn table_refreshed_first(
    olds: Seq<DeviceInfo>,
    news: Seq<DeviceInfo>,
    p: DiscoveryPacket,
    d: DeviceInfo,
) -> bool {
    exists|i: int|
        {
            &&& #[trigger] table_changed_first(olds, news, p.device_id@, i)
            &&& news[i] == d
            &&& device_refreshed(olds[i], d, p)
        }
}

/// The device-discovery service: the local device's identity, the table of
/// devices seen so far, and the ports the transport uses.
pub struct DeviceDiscovery {
    local_device: DeviceInfo,
    devices: Vec<DeviceInfo>,
    broadcast_port: u16,
    listen_port: u16,
}

impl DeviceDiscovery {
    /// The local device record, for contracts.
    pub closed spec fn local(self) -> DeviceInfo {
        self.local_device
    }

    /// The table of seen devices, for contracts.
    pub closed spec fn devices_view(self) -> Seq<DeviceInfo> {
        self.devices@
    }

    /// The broadcast port, for contracts.
    pub closed spec fn spec_broadcast_port(self) -> u16 {
        self.broadcast_port
    }

    /// Whether the table holds a row with the id.
    pub open spec fn has_device(self, id: Seq<char>) -> bool {
        exists|i: int|
            0 <= i < self.devices_view().len() && (#[trigger] self.devices_view()[i]).id@ == id
    }

    /// Fresh service for the configured device, with an empty table and the
    /// fixed discovery ports.  The public key placeholder is replaced once
    /// the cryptographic engine hands out the real one.
    pub fn new(config: &Config) -> (r: Result<Self, Error>)
        ensures
            r matches Ok(d) && {
                &&& d.local().name@ == config.device_name@
                &&& d.local().device_type == config.device_type
                &&& d.devices_view().len() == 0
                &&& d.spec_broadcast_port() == DISCOVERY_BROADCAST_PORT
            },
    {
        let local_device = DeviceInfo::new(
            config.device_name.as_str(),
            config.device_type,
            "dummy_public_key_base64_encoded",
        );
        Ok(
            DeviceDiscovery {
                local_device,
                devices: Vec::new(),
                broadcast_port: DISCOVERY_BROADCAST_PORT,
                listen_port: DISCOVERY_LISTEN_PORT,
            },
        )
    }

    /// The presence announcement for this device at the given time.  The
    /// application version is the caller's to supply.
    pub fn build_discovery_packet(&self, timestamp: u64, app_version: Option<String>) -> (r:
        DiscoveryPacket)
        ensures
            r.packet_type@ == "discovery"@,
            r.device_id == self.local().id,
            r.device_name == self.local().name,
            r.public_key == self.local().public_key,
            r.timestamp == timestamp,
            r.device_type == self.local().device_type,
            r.port == self.spec_broadcast_port(),
            r.ip_address is None,
            r.capabilities == self.local().capabilities,
            r.app_version == app_version,
            r.system_version is None,
            r.protocol_version@ == "1.0"@,
    {
        DiscoveryPacket {
            packet_type: "discovery".to_owned(),
            device_id: self.local_device.id.clone(),
            device_name: self.local_device.name.clone(),
            public_key: self.local_device.public_key.clone(),
            timestamp,
            device_type: self.local_device.device_type,
            port: self.broadcast_port,
            ip_address: None,
            capabilities: self.local_device.capabilities,
            app_version,
            system_version: None,
            protocol_version: "1.0".to_owned(),
        }
    }

    /// Index of the first table row with the id, if any.
    fn index_of_device(&self, id: &str) -> (r: Option<usize>)
        ensures
            (match r {
                Some(i) => {
                    &&& i < self.devices_view().len()
                    &&& self.devices_view()[i as int].id@ == id@
                    &&& (forall|j: int| 0 <= j < i ==> self.devices_view()[j].id@ != id@)
                },
                None => forall|j: int|
                    0 <= j < self.devices_view().len() ==> (#[trigger] self.devices_view()[j]).id@
                        != id@,
            }),
    {
        let n = self.devices.len();
        let mut i: usize = 0;
        while i < n
            invariant
                n == self.devices@.len(),
                i <= n,
                forall|j: int| 0 <= j < i ==> (#[trigger] self.devices@[j]).id@ != id@,
            decreases n - i,
        {
            if str_eq(self.devices[i].id.as_str(), id) {
                return Some(i);
            }
            i = i + 1;
        }
        None
    }

    /// Handles one received presence announcement.  A packet carrying the
    /// local device's own id is never delivered: it leaves the table alone
    /// and yields nothing.  Any other packet upserts its sender into the
    /// table — a new device is appended, a known one refreshed in place,
    /// keeping its pairing state and trust — and the stored record is
    /// yielded for the discovery callback, once per packet.
    pub fn handle_discovery_packet(&mut self, packet: &DiscoveryPacket) -> (r: Option<DeviceInfo>)
        ensures
            (r is None) <==> packet.device_id@ == old(self).local().id@,
            r is None ==> *final(self) == *old(self),
            final(self).local() == old(self).local(),
            final(self).spec_broadcast_port() == old(self).spec_broadcast_port(),
            r matches Some(d) ==> {
                &&& (!old(self).has_device(packet.device_id@) ==> final(self).devices_view()
                    == old(self).devices_view().push(d) && device_from_packet(d, *packet))
                &&& (old(self).has_device(packet.device_id@) ==> table_refreshed_first(
                    old(self).devices_view(),
                    final(self).devices_view(),
                    *packet,
                    d,
                ))
            },
    {
        if str_eq(packet.device_id.as_str(), self.local_device.id.as_str()) {
            return None;
        }
        let incoming = DeviceInfo {
            id: packet.device_id.clone(),
            name: packet.device_name.clone(),
            device_type: packet.device_type,
            public_key: packet.public_key.clone(),
            online: true,
            ip_address: crate::text::clone_opt_string(&packet.ip_address),
            system_version: crate::text::clone_opt_string(&packet.system_version),
            app_version: crate::text::clone_opt_string(&packet.app_version),
            capabilities: packet.capabilities,
            last_seen: Some(packet.timestamp),
            pairing_status: PairingStatus::Unpaired,
            description: None,
            trusted: false,
        };
        match self.index_of_device(packet.device_id.as_str()) {
            Some(i) => {
                let ghost olds = self.devices@;
                let mut e = self.devices.remove(i);
                proof {
                    assert(e == olds[i as int]);
                }
                e.update_from(&incoming);
                let out = e.clone();
                let ghost e2 = e;
                self.devices.insert(i, e);
                proof {
                    vstd::seq_lib::lemma_update_is_remove_insert(olds, i as int, e2);
                    assert(self.devices@ =~= olds.update(i as int, e2));
                    assert(self.devices@[i as int] == e2);
                    assert(table_changed_first(olds, self.devices@, packet.device_id@, i as int));
                    assert(table_refreshed_first(olds, self.devices@, *packet, out));
                }
                Some(out)
            },
            None => {
                let out = incoming.clone();
                self.devices.push(incoming);
                Some(out)
            },
        }
    }

    /// Every device seen so far, as copies.
    pub fn get_devices(&self) -> (r: Vec<DeviceInfo>)
        ensures
            r@ == self.devices_view(),
    {
        let n = self.devices.len();
        let mut out: Vec<DeviceInfo> = Vec::new();
        let mut i: usize = 0;
        while i < n
            invariant
                n == self.devices@.len(),
                i <= n,
                out@.len() == i,
                forall|j: int| 0 <= j < i ==> out@[j] == self.devices@[j],
            decreases n - i,
        {
            out.push(self.devices[i].clone());
            i = i + 1;
        }
        proof {
            assert(out@ =~= self.devices@);
        }
        out
    }

    /// A copy of the first device with the id, if any.
    pub fn get_device_by_id(&self, device_id: &str) -> (r: Option<DeviceInfo>)
        ensures
            (match r {
                Some(d) => exists|i: int|
                    {
                        &&& 0 <= i < self.devices_view().len()
                        &&& (#[trigger] self.devices_view()[i]).id@ == device_id@
                        &&& (forall|j: int|
                            0 <= j < i ==> self.devices_view()[j].id@ != device_id@)
                        &&& d == self.devices_view()[i]
                    },
                None => !self.has_device(device_id@),
            }),
    {
        match self.index_of_device(device_id) {
            Some(i) => Some(self.devices[i].clone()),
            None => None,
        }
    }
}

} // verus!
