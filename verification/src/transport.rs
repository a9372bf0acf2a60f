//! The plain data channel between paired devices: one length-prefixed
//! content packet per connection.
//!
//! The embedding application owns the sockets; the framing it writes and
//! the framing it expects back are the library's, in `wire`.

use vstd::prelude::*;
use crate::errors::Error;
use crate::types::{ContentPacket, DeviceCapabilities, DeviceInfo, DeviceType, PairingStatus};
use crate::wire;

verus! {

/// The TCP port the data listener binds.
pub const TRANSPORT_PORT: u16 = 45680;

/// The data-transport service: the local device's identity and the port
/// its listener binds.  Open sockets stay with the embedding application.
pub struct TransportService {
    /// The local device record.
    pub local_device: DeviceInfo,
    /// The port the listener binds.
    pub listen_port: u16,
}

impl TransportService {
    /// Fresh service on the fixed transport port.
    pub fn new(local_device: DeviceInfo) -> (r: Self)
        ensures
            r.local_device == local_device,
            r.listen_port == TRANSPORT_PORT,
    {
        TransportService { local_device, listen_port: TRANSPORT_PORT }
    }

    /// The bytes to write for one outbound payload: its four-byte
    /// big-endian length, then the payload.
    pub fn frame_outgoing(&self, data: &[u8]) -> (r: Result<Vec<u8>, Error>)
        requires
            data@.len() + 4 <= usize::MAX,
        ensures
            data@.len() <= u32::MAX ==> (r matches Ok(v) && wire::is_framed(v@, data@)),
            data@.len() > u32::MAX ==> (r matches Err(e) && e matches Error::Serialization(_)),
    {
        wire::frame_payload(data)
    }

    /// The device record handed to the content callback for an inbound
    /// packet.  Until a session ties the connection to a known device, only
    /// the sender's id is certain: the rest is a placeholder, online and
    /// stamped with the given time, unpaired and untrusted.
    pub fn device_for_content_packet(&self, packet: &ContentPacket, now: u64) -> (r: DeviceInfo)
        ensures
            r.id == packet.device_id,
            r.name@ == "远程设备"@,
            r.device_type == DeviceType::Unknown,
            r.public_key@ == Seq::<char>::empty(),
            r.online == true,
            r.ip_address is None,
            r.system_version is None,
            r.app_version is None,
            r.capabilities == crate::types::spec_default_capabilities(),
            r.last_seen == Some(now),
            r.pairing_status == PairingStatus::Unpaired,
            r.description is None,
            r.trusted == false,
    {
        DeviceInfo {
            id: packet.device_id.clone(),
            name: "远程设备".to_owned(),
            device_type: DeviceType::Unknown,
            public_key: String::new(),
            online: true,
            ip_address: None,
            system_version: None,
            app_version: None,
            capabilities: DeviceCapabilities::default(),
            last_seen: Some(now),
            pairing_status: PairingStatus::Unpaired,
            description: None,
            trusted: false,
        }
    }
}

} // verus!
