//! Core data model: devices, configuration, wire packets, pairing and
//! transfer state, messages and notifications.
//!
//! Every type is made of plain values, so each contract can pin down exactly
//! how a constructor fills the fields and how a mutation relates the new
//! value to the old one.

use vstd::prelude::*;
use crate::support;

verus! {

/// Kind of device a peer runs on.
#[derive(Debug, Clone, Copy, PartialEq, Eq, Structural)]
pub enum DeviceType {
    /// A desktop machine.
    Desktop,
    /// A mobile device.
    Mobile,
    /// Unknown kind.
    Unknown,
}

impl Default for DeviceType {
    fn default() -> (r: Self)
        ensures
            r == DeviceType::Unknown,
    {
        DeviceType::Unknown
    }
}

/// Kind of content carried by a transfer, with its metadata.
#[derive(Debug, Clone, PartialEq, Eq)]
pub enum ContentType {
    /// Plain text.
    Text(String),
    /// A file.
    File {
        /// File name.
        name: String,
        /// MIME type.
        mime_type: String,
        /// File size in bytes.
        size: u64,
    },
    /// An image.
    Image {
        /// Image format.
        format: String,
        /// Width in pixels.
        width: u32,
        /// Height in pixels.
        height: u32,
        /// Size in bytes.
        size: u64,
    },
}

/// Capability flags a device announces.
#[derive(Debug, Clone, Copy, PartialEq, Eq, Structural)]
pub struct DeviceCapabilities {
    /// Supports file transfer.
    pub supports_files: bool,
    /// Supports image transfer.
    pub supports_images: bool,
    /// Supports discovery over BLE.
    pub supports_ble: bool,
    /// Supports direct Wi-Fi connections.
    pub supports_wifi_direct: bool,
    /// Supports NFC.
    pub supports_nfc: bool,
    /// Supports running in the background.
    pub supports_background: bool,
    /// Largest supported file size, in megabytes.
    pub max_file_size: u32,
}

/// The capability flags a device carries when nothing else was configured.
pub open spec fn spec_default_capabilities() -> DeviceCapabilities {
    DeviceCapabilities {
        supports_files: true,
        supports_images: true,
        supports_ble: false,
        supports_wifi_direct: true,
        supports_nfc: false,
        supports_background: true,
        max_file_size: 1024,
    }
}

impl Default for DeviceCapabilities {
    fn default() -> (r: Self)
        ensures
            r == spec_default_capabilities(),
    {
        DeviceCapabilities {
            supports_files: true,
            supports_images: true,
            supports_ble: false,
            supports_wifi_direct: true,
            supports_nfc: false,
            supports_background: true,
            max_file_size: 1024,
        }
    }
}

/// Pairing state of a remote device, as seen locally.
#[derive(Debug, Clone, Copy, PartialEq, Eq, Structural)]
pub enum PairingStatus {
    /// No pairing exists.
    Unpaired,
    /// A pairing request was sent to the device.
    RequestSent,
    /// A pairing request was received from the device.
    RequestReceived,
    /// The device is paired.
    Paired,
}

impl Default for PairingStatus {
    fn default() -> (r: Self)
        ensures
            r == PairingStatus::Unpaired,
    {
        PairingStatus::Unpaired
    }
}

/// Connection state of a remote device.
#[derive(Debug, Clone, Copy, PartialEq, Eq, Structural)]
pub enum ConnectionStatus {
    /// Not connected.
    Disconnected,
    /// Connection in progress.
    Connecting,
    /// Connected.
    Connected,
}

/// Everything known about one device, local or remote.
#[derive(Debug)]
pub struct DeviceInfo {
    /// Stable identifier.
    pub id: String,
    /// Human-readable name.
    pub name: String,
    /// Kind of device.
    pub device_type: DeviceType,
    /// Public encryption key, base64-encoded.
    pub public_key: String,
    /// Whether the device was recently seen.
    pub online: bool,
    /// Network address, when known.
    pub ip_address: Option<String>,
    /// Operating-system version, when announced.
    pub system_version: Option<String>,
    /// Application version, when announced.
    pub app_version: Option<String>,
    /// Announced capability flags.
    pub capabilities: DeviceCapabilities,
    /// Timestamp of the last sighting, seconds since the epoch.
    pub last_seen: Option<u64>,
    /// Pairing state.
    pub pairing_status: PairingStatus,
    /// Free-form description.
    pub description: Option<String>,
    /// Whether the device was marked trusted by a completed pairing.
    pub trusted: bool,
}

impl Clone for DeviceInfo {
    fn clone(&self) -> (r: Self)
        ensures
            r == *self,
    {
        DeviceInfo {
            id: self.id.clone(),
            name: self.name.clone(),
            device_type: self.device_type,
            public_key: self.public_key.clone(),
            online: self.online,
            ip_address: crate::text::clone_opt_string(&self.ip_address),
            system_version: crate::text::clone_opt_string(&self.system_version),
            app_version: crate::text::clone_opt_string(&self.app_version),
            capabilities: self.capabilities,
            last_seen: self.last_seen,
            pairing_status: self.pairing_status,
            description: crate::text::clone_opt_string(&self.description),
            trusted: self.trusted,
        }
    }
}

impl DeviceInfo {
    /// Fresh device record with a random identifier: online, unpaired,
    /// untrusted, with default capabilities.
    pub fn new(name: &str, device_type: DeviceType, public_key: &str) -> (r: Self)
        ensures
            r.id@.len() == 36,
            r.name@ == name@,
            r.device_type == device_type,
            r.public_key@ == public_key@,
            r.online == true,
            r.ip_address is None,
            r.system_version is None,
            r.app_version is None,
            r.capabilities == spec_default_capabilities(),
            r.last_seen is Some,
            r.pairing_status == PairingStatus::Unpaired,
            r.description is None,
            r.trusted == false,
    {
        DeviceInfo {
            id: support::new_uuid_string(),
            name: name.to_owned(),
            device_type,
            public_key: public_key.to_owned(),
            online: true,
            ip_address: None,
            system_version: None,
            app_version: None,
            capabilities: DeviceCapabilities::default(),
            last_seen: Some(support::now_unix_seconds()),
            pairing_status: PairingStatus::Unpaired,
            description: None,
            trusted: false,
        }
    }

    /// Fresh device record with reachability and capability detail filled in.
    pub fn with_details(
        name: &str,
        device_type: DeviceType,
        public_key: &str,
        ip_address: Option<String>,
        system_version: Option<String>,
        app_version: Option<String>,
        capabilities: DeviceCapabilities,
    ) -> (r: Self)
        ensures
            r.id@.len() == 36,
            r.name@ == name@,
            r.device_type == device_type,
            r.public_key@ == public_key@,
            r.online == true,
            r.ip_address == ip_address,
            r.system_version == system_version,
            r.app_version == app_version,
            r.capabilities == capabilities,
            r.last_seen is Some,
            r.pairing_status == PairingStatus::Unpaired,
            r.description is None,
            r.trusted == false,
    {
        DeviceInfo {
            id: support::new_uuid_string(),
            name: name.to_owned(),
            device_type,
            public_key: public_key.to_owned(),
            online: true,
            ip_address,
            system_version,
            app_version,
            capabilities,
            last_seen: Some(support::now_unix_seconds()),
            pairing_status: PairingStatus::Unpaired,
            description: None,
            trusted: false,
        }
    }

    /// Sets the online flag; going online also refreshes the last sighting.
    pub fn set_online(&mut self, online: bool)
        ensures
            final(self).online == online,
            online ==> final(self).last_seen is Some,
            !online ==> final(self).last_seen == old(self).last_seen,
            final(self).id == old(self).id,
            final(self).name == old(self).name,
            final(self).device_type == old(self).device_type,
            final(self).public_key == old(self).public_key,
            final(self).ip_address == old(self).ip_address,
            final(self).system_version == old(self).system_version,
            final(self).app_version == old(self).app_version,
            final(self).capabilities == old(self).capabilities,
            final(self).pairing_status == old(self).pairing_status,
            final(self).description == old(self).description,
            final(self).trusted == old(self).trusted,
    {
        self.online = online;
        if online {
            self.last_seen = Some(support::now_unix_seconds());
        }
    }

    /// Takes the mutable fields of `other` over into `self`: name, kind,
    /// online flag and capabilities always; reachability, versions, last
    /// sighting and description only where `other` has them.  Identity,
    /// public key, pairing state and trust are never touched.
    pub fn update_from(&mut self, other: &DeviceInfo)
        ensures
            final(self).id == old(self).id,
            final(self).public_key == old(self).public_key,
            final(self).pairing_status == old(self).pairing_status,
            final(self).trusted == old(self).trusted,
            final(self).name == other.name,
            final(self).device_type == other.device_type,
            final(self).online == other.online,
            final(self).capabilities == other.capabilities,
            final(self).ip_address == (if other.ip_address is Some {
                other.ip_address
            } else {
                old(self).ip_address
            }),
            final(self).system_version == (if other.system_version is Some {
                other.system_version
            } else {
                old(self).system_version
            }),
            final(self).app_version == (if other.app_version is Some {
                other.app_version
            } else {
                old(self).app_version
            }),
            final(self).last_seen == (if other.last_seen is Some {
                other.last_seen
            } else {
                old(self).last_seen
            }),
            final(self).description == (if other.description is Some {
                other.description
            } else {
                old(self).description
            }),
    {
        self.name = other.name.clone();
        self.device_type = other.device_type;
        self.online = other.online;
        if let Some(ip) = &other.ip_address {
            self.ip_address = Some(ip.clone());
        }
        if let Some(sv) = &other.system_version {
            self.system_version = Some(sv.clone());
        }
        if let Some(av) = &other.app_version {
            self.app_version = Some(av.clone());
        }
        self.capabilities = other.capabilities;
        if let Some(ls) = other.last_seen {
            self.last_seen = Some(ls);
        }
        if let Some(desc) = &other.description {
            self.description = Some(desc.clone());
        }
    }
}

/// How inbound requests are treated before the user answered.
#[derive(Debug, Clone, Copy, PartialEq, Eq, Structural)]
pub enum SecurityPolicy {
    /// Accept every request.
    AutoAcceptAll,
    /// Accept only already-paired devices.
    AcceptPairedOnly,
    /// Always ask the user.
    AlwaysAsk,
}

impl Default for SecurityPolicy {
    fn default() -> (r: Self)
        ensures
            r == SecurityPolicy::AlwaysAsk,
    {
        SecurityPolicy::AlwaysAsk
    }
}

/// Optional configuration switches.
#[derive(Debug, Clone)]
pub struct ConfigOptions {
    /// How inbound requests are treated.
    pub security_policy: SecurityPolicy,
    /// Days after which history is cleared automatically.
    pub auto_clear_history_days: Option<u32>,
    /// Default directory for received files.
    pub default_download_dir: Option<String>,
    /// Whether notifications are shown.
    pub enable_notifications: bool,
    /// Whether the service starts automatically.
    pub auto_start: bool,
    /// Whether the service starts on boot.
    pub start_on_boot: bool,
}

impl Default for ConfigOptions {
    fn default() -> (r: Self)
        ensures
            r.security_policy == SecurityPolicy::AlwaysAsk,
            r.auto_clear_history_days is None,
            r.default_download_dir is None,
            r.enable_notifications == true,
            r.auto_start == true,
            r.start_on_boot == false,
    {
        ConfigOptions {
            security_policy: SecurityPolicy::AlwaysAsk,
            auto_clear_history_days: None,
            default_download_dir: None,
            enable_notifications: true,
            auto_start: true,
            start_on_boot: false,
        }
    }
}

/// The default TCP port the pairing listener binds.
pub fn default_listen_port() -> (r: u16)
    ensures
        r == 45680,
{
    45680
}

/// The default UDP port presence announcements use.
pub fn default_discovery_port() -> (r: u16)
    ensures
        r == 45678,
{
    45678
}

/// Configuration handed in by the embedding application.
#[derive(Debug, Clone)]
pub struct Config {
    /// Name this device announces.
    pub device_name: String,
    /// Kind of this device.
    pub device_type: DeviceType,
    /// Path of the storage collaborator's database.
    pub storage_path: String,
    /// Capability flags this device announces.
    pub capabilities: DeviceCapabilities,
    /// TCP port the pairing listener binds.
    pub listen_port: u16,
    /// UDP port presence announcements use.
    pub discovery_port: u16,
    /// Stable identifier of this device.
    pub device_id: String,
    /// Optional switches.
    pub options: ConfigOptions,
}

impl Default for Config {
    fn default() -> (r: Self)
        ensures
            r.device_name@ == "未命名设备"@,
            r.device_type == DeviceType::Unknown,
            r.storage_path@ == "pasteall.db"@,
            r.capabilities == spec_default_capabilities(),
            r.listen_port == 45680,
            r.discovery_port == 45678,
            r.device_id@.len() == 36,
            r.options.security_policy == SecurityPolicy::AlwaysAsk,
            r.options.auto_clear_history_days is None,
            r.options.default_download_dir is None,
            r.options.enable_notifications == true,
            r.options.auto_start == true,
            r.options.start_on_boot == false,
    {
        Config {
            device_name: "未命名设备".to_owned(),
            device_type: DeviceType::Unknown,
            storage_path: "pasteall.db".to_owned(),
            capabilities: DeviceCapabilities::default(),
            listen_port: default_listen_port(),
            discovery_port: default_discovery_port(),
            device_id: support::new_uuid_string(),
            options: ConfigOptions::default(),
        }
    }
}

/// Presence announcement, broadcast periodically over UDP.
#[derive(Debug, Clone)]
pub struct DiscoveryPacket {
    /// Packet kind tag.
    pub packet_type: String,
    /// Identifier of the announcing device.
    pub device_id: String,
    /// Name of the announcing device.
    pub device_name: String,
    /// Public encryption key of the announcing device, base64-encoded.
    pub public_key: String,
    /// Seconds since the epoch when the packet was built.
    pub timestamp: u64,
    /// Kind of the announcing device.
    pub device_type: DeviceType,
    /// Port the announcing device listens on.
    pub port: u16,
    /// Address of the announcing device, when known.
    pub ip_address: Option<String>,
    /// Capability flags of the announcing device.
    pub capabilities: DeviceCapabilities,
    /// Application version, when announced.
    pub app_version: Option<String>,
    /// Operating-system version, when announced.
    pub system_version: Option<String>,
    /// Version of the discovery protocol.
    pub protocol_version: String,
}

/// Signed pairing request, sent length-prefixed over TCP.
#[derive(Debug, Clone)]
pub struct AuthRequestPacket {
    /// Packet kind tag.
    pub packet_type: String,
    /// Identifier of the requesting device.
    pub device_id: String,
    /// Single-use random value against replay.
    pub nonce: String,
    /// Signature over the requesting device's identifier, base64-encoded.
    pub signature: String,
}

/// Metadata describing transferred content.
#[derive(Debug, Clone)]
pub struct ContentMetadata {
    /// File name, when the content is a file.
    pub filename: Option<String>,
    /// Content size in bytes.
    pub size: u64,
    /// MIME type.
    pub mime_type: String,
}

/// One piece of content on the wire.
#[derive(Debug, Clone)]
pub struct ContentPacket {
    /// Packet kind tag.
    pub packet_type: String,
    /// Identifier of the sending device.
    pub device_id: String,
    /// Kind of the content.
    pub content_type: String,
    /// Content bytes, base64-encoded.
    pub content: String,
    /// Metadata of the content.
    pub metadata: ContentMetadata,
    /// Seconds since the epoch when the packet was built.
    pub timestamp: u64,
}

/// State of one transfer.
#[derive(Debug, Clone, Copy, PartialEq, Eq, Structural)]
pub enum TransferStatus {
    /// The transfer was created but no bytes moved yet.
    Initializing,
    /// Bytes are moving.
    InProgress,
    /// All bytes arrived.
    Completed,
    /// The transfer was aborted by an error.
    Failed,
    /// The transfer was canceled.
    Canceled,
}

/// Progress of one transfer, as reported to the embedding application.
#[derive(Debug)]
pub struct TransferProgress {
    /// Identifier of the transfer.
    pub id: String,
    /// Bytes moved so far.
    pub bytes_transferred: u64,
    /// Total bytes of the transfer.
    pub total_bytes: u64,
    /// State of the transfer.
    pub status: TransferStatus,
    /// Identifier of the peer device.
    pub device_id: String,
}

impl Clone for TransferProgress {
    fn clone(&self) -> (r: Self)
        ensures
            r == *self,
    {
        TransferProgress {
            id: self.id.clone(),
            bytes_transferred: self.bytes_transferred,
            total_bytes: self.total_bytes,
            status: self.status,
            device_id: self.device_id.clone(),
        }
    }
}

/// Connection bookkeeping for one remote device.
#[derive(Debug, Clone)]
pub struct ConnectionInfo {
    /// Identifier of the remote device.
    pub device_id: String,
    /// Connection state.
    pub status: ConnectionStatus,
    /// Address of the remote device, when known.
    pub ip_address: Option<String>,
    /// Port of the remote device, when known.
    pub port: Option<u16>,
    /// BLE identifier, when connected over BLE.
    pub ble_identifier: Option<String>,
    /// Seconds since the epoch when the connection was made.
    pub connected_at: Option<u64>,
    /// Seconds since the epoch of the last activity.
    pub last_active: Option<u64>,
}

/// Kind and payload of one protocol message.
#[derive(Debug, Clone, PartialEq, Eq)]
pub enum MessageType {
    /// A pairing request.
    PairingRequest,
    /// Answer to a pairing request.
    PairingResponse {
        /// Whether the request was accepted.
        accepted: bool,
    },
    /// A text payload.
    TextTransfer {
        /// The text.
        text: String,
    },
    /// Start of a file transfer.
    FileTransferStart {
        /// Identifier of the file.
        file_id: String,
        /// Name of the file.
        filename: String,
        /// Size in bytes.
        size: u64,
        /// MIME type.
        mime_type: String,
    },
    /// One block of a file transfer.
    FileTransferChunk {
        /// Identifier of the file.
        file_id: String,
        /// Index of the block.
        chunk_index: u32,
        /// Block contents.
        data: Vec<u8>,
    },
    /// End of a file transfer.
    FileTransferComplete {
        /// Identifier of the file.
        file_id: String,
        /// Checksum of the file.
        checksum: String,
    },
    /// Periodic device status.
    StatusUpdate {
        /// Whether the device is online.
        online: bool,
        /// Battery charge in percent, when known.
        battery_level: Option<u8>,
        /// Whether the device is charging, when known.
        is_charging: Option<bool>,
    },
    /// Cancels a transfer.
    TransferCancel {
        /// Identifier of the transfer.
        transfer_id: String,
    },
    /// Keep-alive.
    Heartbeat,
    /// An error report.
    Error {
        /// Error code.
        code: u16,
        /// Error description.
        message: String,
    },
}

/// Envelope around one protocol message.
#[derive(Debug, Clone)]
pub struct Message {
    /// Identifier of the message.
    pub id: String,
    /// Kind and payload.
    pub message_type: MessageType,
    /// Identifier of the sender.
    pub sender_id: String,
    /// Identifier of the receiver, when addressed.
    pub receiver_id: Option<String>,
    /// Seconds since the epoch when the message was built.
    pub timestamp: u64,
    /// Whether the receiver must acknowledge.
    pub require_ack: bool,
    /// Identifier of the message this one answers, when it answers one.
    pub related_message_id: Option<String>,
    /// Expiry as seconds since the epoch; zero means no expiry.
    pub expires_at: u64,
}

impl Message {
    /// Fresh message with a random identifier, stamped with the current
    /// time, without expiry.
    pub fn new(
        sender_id: &str,
        message_type: MessageType,
        require_ack: bool,
        receiver_id: Option<&str>,
    ) -> (r: Self)
        ensures
            r.id@.len() == 36,
            r.message_type == message_type,
            r.sender_id@ == sender_id@,
            (match (r.receiver_id, receiver_id) {
                (Some(a), Some(b)) => a@ == b@,
                (None, None) => true,
                _ => false,
            }),
            r.require_ack == require_ack,
            r.related_message_id is None,
            r.expires_at == 0,
    {
        let rcv: Option<String> = match receiver_id {
            Some(s) => Some(s.to_owned()),
            None => None,
        };
        Message {
            id: support::new_uuid_string(),
            message_type,
            sender_id: sender_id.to_owned(),
            receiver_id: rcv,
            timestamp: support::now_unix_seconds(),
            require_ack,
            related_message_id: None,
            expires_at: 0,
        }
    }

    /// Gives the message an expiry so many seconds after its timestamp;
    /// zero leaves it without expiry.
    pub fn with_expiry(self, seconds_from_now: u64) -> (r: Self)
        requires
            self.timestamp + seconds_from_now <= u64::MAX,
        ensures
            seconds_from_now > 0 ==> r.expires_at == self.timestamp + seconds_from_now,
            seconds_from_now == 0 ==> r.expires_at == self.expires_at,
            r.id == self.id,
            r.message_type == self.message_type,
            r.sender_id == self.sender_id,
            r.receiver_id == self.receiver_id,
            r.timestamp == self.timestamp,
            r.require_ack == self.require_ack,
            r.related_message_id == self.related_message_id,
    {
        let mut m = self;
        if seconds_from_now > 0 {
            m.expires_at = m.timestamp + seconds_from_now;
        }
        m
    }

    /// Fresh response to this message: addressed back to the sender, related
    /// to this message's identifier, needing no acknowledgement.
    pub fn create_response(&self, message_type: MessageType) -> (r: Self)
        ensures
            r.id@.len() == 36,
            r.message_type == message_type,
            (match self.receiver_id {
                Some(ref rid) => r.sender_id@ == rid@,
                None => r.sender_id@ == "unknown"@,
            }),
            r.receiver_id matches Some(rcv) && rcv == self.sender_id,
            r.require_ack == false,
            r.related_message_id matches Some(rel) && rel == self.id,
            r.expires_at == 0,
    {
        let sender: String = match &self.receiver_id {
            Some(rid) => rid.clone(),
            None => "unknown".to_owned(),
        };
        Message {
            id: support::new_uuid_string(),
            message_type,
            sender_id: sender,
            receiver_id: Some(self.sender_id.clone()),
            timestamp: support::now_unix_seconds(),
            require_ack: false,
            related_message_id: Some(self.id.clone()),
            expires_at: 0,
        }
    }

    /// Whether the message counts as expired at time `now`.
    pub fn is_expired_at(&self, now: u64) -> (r: bool)
        ensures
            r == (self.expires_at != 0 && self.expires_at < now),
    {
        if self.expires_at == 0 {
            return false;
        }
        self.expires_at < now
    }

    /// Whether the message counts as expired at the current time.  A message
    /// without expiry is never expired.
    pub fn is_expired(&self) -> (r: bool)
        ensures
            self.expires_at == 0 ==> r == false,
    {
        let now = support::now_unix_seconds();
        self.is_expired_at(now)
    }
}

/// Number of blocks a payload of `size` bytes splits into at `chunk_size`
/// bytes each, rounded upward.
pub open spec fn spec_chunk_count(size: u64, chunk_size: u32) -> int {
    if size == 0 {
        0
    } else {
        (size - 1) as int / (chunk_size as int) + 1
    }
}

/// Bookkeeping for one chunked file transfer.
#[derive(Debug, Clone)]
pub struct FileTransfer {
    /// Identifier of the transfer.
    pub id: String,
    /// Name of the file.
    pub filename: String,
    /// Size of the file in bytes.
    pub size: u64,
    /// MIME type of the file.
    pub mime_type: String,
    /// Identifier of the sending device.
    pub sender_id: String,
    /// Identifier of the receiving device.
    pub receiver_id: String,
    /// Seconds since the epoch when the transfer began.
    pub start_time: u64,
    /// Seconds since the epoch when the transfer ended, once it has.
    pub end_time: Option<u64>,
    /// State of the transfer.
    pub status: TransferStatus,
    /// Bytes per block.
    pub chunk_size: u32,
    /// Total number of blocks.
    pub total_chunks: u32,
    /// Blocks already moved.
    pub completed_chunks: u32,
    /// Checksum of the file, once computed.
    pub checksum: Option<String>,
    /// Where the file is stored, once known.
    pub storage_path: Option<String>,
}

impl FileTransfer {
    /// Whether the record is well-formed: an end time never precedes the
    /// start time.
    pub open spec fn wf(self) -> bool {
        self.end_time matches Some(e) ==> e >= self.start_time
    }

    /// Fresh transfer record with a random identifier: initializing, with
    /// the block count rounded upward from the size.
    pub fn new(
        filename: &str,
        size: u64,
        mime_type: &str,
        sender_id: &str,
        receiver_id: &str,
        chunk_size: u32,
    ) -> (r: Self)
        requires
            chunk_size > 0,
            spec_chunk_count(size, chunk_size) <= u32::MAX,
        ensures
            r.id@.len() == 36,
            r.filename@ == filename@,
            r.size == size,
            r.mime_type@ == mime_type@,
            r.sender_id@ == sender_id@,
            r.receiver_id@ == receiver_id@,
            r.end_time is None,
            r.status == TransferStatus::Initializing,
            r.chunk_size == chunk_size,
            r.total_chunks == spec_chunk_count(size, chunk_size),
            r.completed_chunks == 0,
            r.checksum is None,
            r.storage_path is None,
            r.wf(),
    {
        let total_chunks: u32 = if size == 0 {
            0
        } else {
            (((size - 1) / (chunk_size as u64)) + 1) as u32
        };
        FileTransfer {
            id: support::new_uuid_string(),
            filename: filename.to_owned(),
            size,
            mime_type: mime_type.to_owned(),
            sender_id: sender_id.to_owned(),
            receiver_id: receiver_id.to_owned(),
            start_time: support::now_unix_seconds(),
            end_time: None,
            status: TransferStatus::Initializing,
            chunk_size,
            total_chunks,
            completed_chunks: 0,
            checksum: None,
            storage_path: None,
        }
    }

    /// Reads the clock and clamps it so it never precedes the start time.
    fn end_stamp(&self) -> (r: u64)
        ensures
            r >= self.start_time,
    {
        let t = support::now_unix_seconds();
        if t < self.start_time {
            self.start_time
        } else {
            t
        }
    }

    /// The progress record reported for the current state.
    fn progress_snapshot(&self) -> (r: TransferProgress)
        ensures
            r.id == self.id,
            r.bytes_transferred == (self.completed_chunks as u64) * (self.chunk_size as u64),
            r.total_bytes == self.size,
            r.status == self.status,
            r.device_id == self.receiver_id,
    {
        proof {
            assert((self.completed_chunks as u64) * (self.chunk_size as u64) <= u64::MAX)
                by (nonlinear_arith);
        }
        TransferProgress {
            id: self.id.clone(),
            bytes_transferred: (self.completed_chunks as u64) * (self.chunk_size as u64),
            total_bytes: self.size,
            status: self.status,
            device_id: self.receiver_id.clone(),
        }
    }

    /// Records that `completed_chunks` blocks have moved.  Reaching the
    /// total completes the transfer and stamps its end; the first progress
    /// on an initializing transfer moves it to in-progress.  Returns the
    /// progress record for the new state.
    pub fn update_progress(&mut self, completed_chunks: u32) -> (r: TransferProgress)
        ensures
            final(self).completed_chunks == completed_chunks,
            completed_chunks >= old(self).total_chunks ==> {
                &&& final(self).status == TransferStatus::Completed
                &&& final(self).end_time matches Some(e) && e >= old(self).start_time
            },
            completed_chunks < old(self).total_chunks ==> final(self).end_time == old(
                self,
            ).end_time,
            completed_chunks < old(self).total_chunks && old(self).status
                == TransferStatus::Initializing ==> final(self).status
                == TransferStatus::InProgress,
            completed_chunks < old(self).total_chunks && old(self).status
                != TransferStatus::Initializing ==> final(self).status == old(self).status,
            final(self).id == old(self).id,
            final(self).filename == old(self).filename,
            final(self).size == old(self).size,
            final(self).mime_type == old(self).mime_type,
            final(self).sender_id == old(self).sender_id,
            final(self).receiver_id == old(self).receiver_id,
            final(self).start_time == old(self).start_time,
            final(self).chunk_size == old(self).chunk_size,
            final(self).total_chunks == old(self).total_chunks,
            final(self).checksum == old(self).checksum,
            final(self).storage_path == old(self).storage_path,
            old(self).wf() ==> final(self).wf(),
            r.id == old(self).id,
            r.bytes_transferred == (completed_chunks as u64) * (old(self).chunk_size as u64),
            r.total_bytes == old(self).size,
            r.status == final(self).status,
            r.device_id == old(self).receiver_id,
    {
        self.completed_chunks = completed_chunks;
        if self.completed_chunks >= self.total_chunks {
            self.status = TransferStatus::Completed;
            self.end_time = Some(self.end_stamp());
        } else if self.status == TransferStatus::Initializing {
            self.status = TransferStatus::InProgress;
        }
        self.progress_snapshot()
    }

    /// Marks the transfer failed and stamps its end.  Returns the progress
    /// record for the new state.
    pub fn mark_failed(&mut self) -> (r: TransferProgress)
        ensures
            final(self).status == TransferStatus::Failed,
            final(self).end_time matches Some(e) && e >= old(self).start_time,
            final(self).completed_chunks == old(self).completed_chunks,
            final(self).id == old(self).id,
            final(self).filename == old(self).filename,
            final(self).size == old(self).size,
            final(self).mime_type == old(self).mime_type,
            final(self).sender_id == old(self).sender_id,
            final(self).receiver_id == old(self).receiver_id,
            final(self).start_time == old(self).start_time,
            final(self).chunk_size == old(self).chunk_size,
            final(self).total_chunks == old(self).total_chunks,
            final(self).checksum == old(self).checksum,
            final(self).storage_path == old(self).storage_path,
            final(self).wf(),
            r.id == old(self).id,
            r.bytes_transferred == (old(self).completed_chunks as u64) * (old(
                self,
            ).chunk_size as u64),
            r.total_bytes == old(self).size,
            r.status == TransferStatus::Failed,
            r.device_id == old(self).receiver_id,
    {
        self.status = TransferStatus::Failed;
        self.end_time = Some(self.end_stamp());
        self.progress_snapshot()
    }

    /// Marks the transfer canceled and stamps its end.  Returns the progress
    /// record for the new state.
    pub fn mark_canceled(&mut self) -> (r: TransferProgress)
        ensures
            final(self).status == TransferStatus::Canceled,
            final(self).end_time matches Some(e) && e >= old(self).start_time,
            final(self).completed_chunks == old(self).completed_chunks,
            final(self).id == old(self).id,
            final(self).filename == old(self).filename,
            final(self).size == old(self).size,
            final(self).mime_type == old(self).mime_type,
            final(self).sender_id == old(self).sender_id,
            final(self).receiver_id == old(self).receiver_id,
            final(self).start_time == old(self).start_time,
            final(self).chunk_size == old(self).chunk_size,
            final(self).total_chunks == old(self).total_chunks,
            final(self).checksum == old(self).checksum,
            final(self).storage_path == old(self).storage_path,
            final(self).wf(),
            r.id == old(self).id,
            r.bytes_transferred == (old(self).completed_chunks as u64) * (old(
                self,
            ).chunk_size as u64),
            r.total_bytes == old(self).size,
            r.status == TransferStatus::Canceled,
            r.device_id == old(self).receiver_id,
    {
        self.status = TransferStatus::Canceled;
        self.end_time = Some(self.end_stamp());
        self.progress_snapshot()
    }

    /// Seconds the transfer took, once it ended.
    pub fn transfer_duration(&self) -> (r: Option<u64>)
        requires
            self.wf(),
        ensures
            r == (match self.end_time {
                Some(e) => Some((e - self.start_time) as u64),
                None => None,
            }),
    {
        match self.end_time {
            Some(end) => Some(end - self.start_time),
            None => None,
        }
    }
}

/// Urgency of a notification.
#[derive(Debug, Clone, Copy, PartialEq, Eq, Structural)]
pub enum NotificationPriority {
    /// Low urgency.
    Low,
    /// Normal urgency.
    Normal,
    /// High urgency.
    High,
    /// Urgent.
    Urgent,
}

/// What a notification reports.
#[derive(Debug, Clone, Copy, PartialEq, Eq, Structural)]
pub enum NotificationType {
    /// A device was discovered.
    DeviceDiscovered,
    /// A pairing request arrived.
    PairingRequest,
    /// Pairing succeeded.
    PairingSuccess,
    /// Pairing failed.
    PairingFailure,
    /// Text content arrived.
    TextReceived,
    /// A file transfer was requested.
    FileTransferRequest,
    /// A file transfer began.
    FileTransferStarted,
    /// A file transfer completed.
    FileTransferCompleted,
    /// A file transfer failed.
    FileTransferFailed,
    /// A connection changed state.
    ConnectionChanged,
    /// An error occurred.
    Error,
    /// A system event.
    System,
}

/// What the user may do from a notification.
#[derive(Debug, Clone, PartialEq, Eq)]
pub enum NotificationActionType {
    /// Accept the request.
    Accept,
    /// Reject the request.
    Reject,
    /// Open a file.
    OpenFile {
        /// Path of the file.
        path: String,
    },
    /// Open a URL.
    OpenUrl {
        /// The URL.
        url: String,
    },
    /// Show details.
    ViewDetails {
        /// Kind of the detailed object.
        details_type: String,
        /// Identifier of the detailed object.
        id: String,
    },
    /// Run a custom command.
    Custom {
        /// The command.
        command: String,
        /// Its parameters.
        params: String,
    },
}

/// One action offered on a notification.
#[derive(Debug, Clone)]
pub struct NotificationAction {
    /// Identifier of the action.
    pub id: String,
    /// Label shown to the user.
    pub label: String,
    /// What the action does.
    pub action_type: NotificationActionType,
}

impl NotificationAction {
    /// Action that accepts a request.
    pub fn accept(label: &str) -> (r: Self)
        ensures
            r.id@.len() == 36,
            r.label@ == label@,
            r.action_type == NotificationActionType::Accept,
    {
        NotificationAction {
            id: support::new_uuid_string(),
            label: label.to_owned(),
            action_type: NotificationActionType::Accept,
        }
    }

    /// Action that rejects a request.
    pub fn reject(label: &str) -> (r: Self)
        ensures
            r.id@.len() == 36,
            r.label@ == label@,
            r.action_type == NotificationActionType::Reject,
    {
        NotificationAction {
            id: support::new_uuid_string(),
            label: label.to_owned(),
            action_type: NotificationActionType::Reject,
        }
    }

    /// Action that opens a file.
    pub fn open_file(label: &str, path: &str) -> (r: Self)
        ensures
            r.id@.len() == 36,
            r.label@ == label@,
            r.action_type matches NotificationActionType::OpenFile { path: p } && p@ == path@,
    {
        NotificationAction {
            id: support::new_uuid_string(),
            label: label.to_owned(),
            action_type: NotificationActionType::OpenFile { path: path.to_owned() },
        }
    }

    /// Action that opens a URL.
    pub fn open_url(label: &str, url: &str) -> (r: Self)
        ensures
            r.id@.len() == 36,
            r.label@ == label@,
            r.action_type matches NotificationActionType::OpenUrl { url: u } && u@ == url@,
    {
        NotificationAction {
            id: support::new_uuid_string(),
            label: label.to_owned(),
            action_type: NotificationActionType::OpenUrl { url: url.to_owned() },
        }
    }

    /// Action that shows details of an object.
    pub fn view_details(label: &str, details_type: &str, id: &str) -> (r: Self)
        ensures
            r.id@.len() == 36,
            r.label@ == label@,
            r.action_type matches NotificationActionType::ViewDetails {
                details_type: d,
                id: i,
            } && d@ == details_type@ && i@ == id@,
    {
        NotificationAction {
            id: support::new_uuid_string(),
            label: label.to_owned(),
            action_type: NotificationActionType::ViewDetails {
                details_type: details_type.to_owned(),
                id: id.to_owned(),
            },
        }
    }

    /// Action that runs a custom command.
    pub fn custom(label: &str, command: &str, params: &str) -> (r: Self)
        ensures
            r.id@.len() == 36,
            r.label@ == label@,
            r.action_type matches NotificationActionType::Custom {
                command: c,
                params: p,
            } && c@ == command@ && p@ == params@,
    {
        NotificationAction {
            id: support::new_uuid_string(),
            label: label.to_owned(),
            action_type: NotificationActionType::Custom {
                command: command.to_owned(),
                params: params.to_owned(),
            },
        }
    }
}

/// One notification shown to the user.
#[derive(Debug, Clone)]
pub struct Notification {
    /// Identifier of the notification.
    pub id: String,
    /// What it reports.
    pub notification_type: NotificationType,
    /// Title shown to the user.
    pub title: String,
    /// Body shown to the user.
    pub content: String,
    /// Urgency.
    pub priority: NotificationPriority,
    /// Seconds since the epoch when it was created.
    pub timestamp: u64,
    /// Identifier of the device it concerns, when any.
    pub device_id: Option<String>,
    /// Identifier of the transfer it concerns, when any.
    pub transfer_id: Option<String>,
    /// Whether the user has read it.
    pub is_read: bool,
    /// Actions offered on it.
    pub actions: Vec<NotificationAction>,
}

impl Notification {
    /// Fresh unread notification with a random identifier and no actions.
    pub fn new(
        notification_type: NotificationType,
        title: &str,
        content: &str,
        priority: NotificationPriority,
    ) -> (r: Self)
        ensures
            r.id@.len() == 36,
            r.notification_type == notification_type,
            r.title@ == title@,
            r.content@ == content@,
            r.priority == priority,
            r.device_id is None,
            r.transfer_id is None,
            r.is_read == false,
            r.actions@.len() == 0,
    {
        Notification {
            id: support::new_uuid_string(),
            notification_type,
            title: title.to_owned(),
            content: content.to_owned(),
            priority,
            timestamp: support::now_unix_seconds(),
            device_id: None,
            transfer_id: None,
            is_read: false,
            actions: Vec::new(),
        }
    }

    /// Associates the notification with a device.
    pub fn with_device_id(self, device_id: &str) -> (r: Self)
        ensures
            r.device_id matches Some(d) && d@ == device_id@,
            r.id == self.id,
            r.notification_type == self.notification_type,
            r.title == self.title,
            r.content == self.content,
            r.priority == self.priority,
            r.timestamp == self.timestamp,
            r.transfer_id == self.transfer_id,
            r.is_read == self.is_read,
            r.actions == self.actions,
    {
        let mut n = self;
        n.device_id = Some(device_id.to_owned());
        n
    }

    /// Associates the notification with a transfer.
    pub fn with_transfer_id(self, transfer_id: &str) -> (r: Self)
        ensures
            r.transfer_id matches Some(t) && t@ == transfer_id@,
            r.id == self.id,
            r.notification_type == self.notification_type,
            r.title == self.title,
            r.content == self.content,
            r.priority == self.priority,
            r.timestamp == self.timestamp,
            r.device_id == self.device_id,
            r.is_read == self.is_read,
            r.actions == self.actions,
    {
        let mut n = self;
        n.transfer_id = Some(transfer_id.to_owned());
        n
    }

    /// Appends one action to the notification.
    pub fn with_action(self, action: NotificationAction) -> (r: Self)
        ensures
            r.actions@ == self.actions@.push(action),
            r.id == self.id,
            r.notification_type == self.notification_type,
            r.title == self.title,
            r.content == self.content,
            r.priority == self.priority,
            r.timestamp == self.timestamp,
            r.device_id == self.device_id,
            r.transfer_id == self.transfer_id,
            r.is_read == self.is_read,
    {
        let mut n = self;
        n.actions.push(action);
        n
    }

    /// Marks the notification read.
    pub fn mark_as_read(&mut self)
        ensures
            final(self).is_read == true,
            final(self).id == old(self).id,
            final(self).notification_type == old(self).notification_type,
            final(self).title == old(self).title,
            final(self).content == old(self).content,
            final(self).priority == old(self).priority,
            final(self).timestamp == old(self).timestamp,
            final(self).device_id == old(self).device_id,
            final(self).transfer_id == old(self).transfer_id,
            final(self).actions == old(self).actions,
    {
        self.is_read = true;
    }
}

} // verus!
