use pasteall_core::crypto::CryptoManager;
use pasteall_core::discovery::DeviceDiscovery;
use pasteall_core::errors::{from_str, Error};
use pasteall_core::pairing::{PairingManager, PairingResponse};
use pasteall_core::transfer::{TransferTask, WiFiTransport};
use pasteall_core::transport::TransportService;
use pasteall_core::types::{
    AuthRequestPacket, Config, ConfigOptions, ContentMetadata, ContentPacket, DeviceCapabilities,
    DeviceInfo, DeviceType, DiscoveryPacket, PairingStatus, TransferStatus,
};
use pasteall_core::wire;

fn test_config() -> Config {
    Config {
        device_name: "Test Device".to_string(),
        device_type: DeviceType::Desktop,
        storage_path: ":memory:".to_string(),
        device_id: "test_id".to_string(),
        discovery_port: 8888,
        capabilities: DeviceCapabilities::default(),
        listen_port: 8889,
        options: ConfigOptions::default(),
    }
}

fn packet_from(discovery: &DeviceDiscovery, device_id: &str, name: &str) -> DiscoveryPacket {
    let mut packet = discovery.build_discovery_packet(1700000000, None);
    packet.device_id = device_id.to_string();
    packet.device_name = name.to_string();
    packet
}

#[test]
fn test_error_from_str() {
    let err = from_str("测试错误", "clipboard");
    assert!(matches!(err, Error::Clipboard(_)));

    let err = from_str("测试错误", "unknown_type");
    assert!(matches!(err, Error::Unknown(_)));
}

#[test]
fn test_device_discovery_creation() {
    let config = test_config();
    let discovery = DeviceDiscovery::new(&config);
    assert!(discovery.is_ok());
}

#[test]
fn test_transport_service_creation() {
    let device = DeviceInfo::new("Test Device", DeviceType::Desktop, "test_public_key");

    let transport = TransportService::new(device);
    assert_eq!(transport.listen_port, 45680);
}

#[test]
fn test_wifi_transport_creation() {
    let device = DeviceInfo::new("Test Device", DeviceType::Desktop, "dummy_key");
    let transport = WiFiTransport::new(device, 45681);

    assert_eq!(transport.port(), 45681);
}

#[test]
fn test_discovery_suppresses_own_packets() {
    let mut discovery = DeviceDiscovery::new(&test_config()).unwrap();
    let own_id = discovery.build_discovery_packet(0, None).device_id.clone();

    let own_packet = packet_from(&discovery, &own_id, "myself");
    assert!(discovery.handle_discovery_packet(&own_packet).is_none());
    assert_eq!(discovery.get_devices().len(), 0);

    // Packets from distinct ids are each delivered, once per packet.
    let other = packet_from(&discovery, "peer-a", "Peer A");
    assert!(discovery.handle_discovery_packet(&other).is_some());
    assert!(discovery.handle_discovery_packet(&other).is_some());
    let third = packet_from(&discovery, "peer-b", "Peer B");
    assert!(discovery.handle_discovery_packet(&third).is_some());
    assert_eq!(discovery.get_devices().len(), 2);
}

#[test]
fn test_discovery_upsert_preserves_trust() {
    let mut discovery = DeviceDiscovery::new(&test_config()).unwrap();
    let first = packet_from(&discovery, "peer-a", "First Name");
    discovery.handle_discovery_packet(&first).unwrap();

    // Pairing marks the stored device trusted out of band; the table copy
    // here stands in for that via a second announcement only.
    let mut second = packet_from(&discovery, "peer-a", "Second Name");
    second.capabilities.max_file_size = 5;
    let delivered = discovery.handle_discovery_packet(&second).unwrap();

    assert_eq!(discovery.get_devices().len(), 1);
    assert_eq!(delivered.name, "Second Name");
    assert_eq!(delivered.capabilities.max_file_size, 5);
    let stored = discovery.get_device_by_id("peer-a").unwrap();
    assert_eq!(stored.name, "Second Name");
    assert_eq!(stored.id, "peer-a");
}

#[test]
fn test_pairing_pin_mismatch_rejected() {
    let local = DeviceInfo::new("Local", DeviceType::Desktop, "local_key");
    let crypto = CryptoManager::new();
    let mut manager = PairingManager::new(local);

    let mut peer = DeviceInfo::new("Peer", DeviceType::Mobile, "peer_key");
    peer.ip_address = Some("127.0.0.1".to_string());

    let (packet, pin) = manager.begin_pairing(&peer, &crypto).unwrap();
    assert_eq!(packet.packet_type, "pairing_request");
    assert_eq!(pin.len(), 6);

    // The peer answers with a different PIN: hard pairing error, and the
    // device does not enter the paired set.
    let wrong_pin = if pin == "000001" { "000002" } else { "000001" };
    let response = PairingResponse { accepted: true, pin: wrong_pin.to_string() };
    let err = manager.complete_pairing(&peer, &pin, &response).unwrap_err();
    assert!(matches!(err, Error::Pairing(_)));
    assert_eq!(manager.get_paired_devices().len(), 0);

    // A rejection is also a pairing error.
    let rejection = PairingResponse { accepted: false, pin: String::new() };
    let err = manager.complete_pairing(&peer, &pin, &rejection).unwrap_err();
    assert!(matches!(err, Error::Pairing(_)));
    assert_eq!(manager.get_paired_devices().len(), 0);
}

#[test]
fn test_pairing_success_and_idempotent_repairing() {
    let local = DeviceInfo::new("Local", DeviceType::Desktop, "local_key");
    let crypto = CryptoManager::new();
    let mut manager = PairingManager::new(local);

    let mut peer = DeviceInfo::new("Peer", DeviceType::Mobile, "peer_key");
    peer.ip_address = Some("127.0.0.1".to_string());

    let (_packet, pin) = manager.begin_pairing(&peer, &crypto).unwrap();
    let response = PairingResponse { accepted: true, pin: pin.clone() };
    let paired = manager.complete_pairing(&peer, &pin, &response).unwrap();
    assert_eq!(paired.id, peer.id);
    assert_eq!(paired.pairing_status, PairingStatus::Paired);
    assert!(paired.trusted);
    assert_eq!(manager.get_paired_devices().len(), 1);

    // Pairing again with the same id is refused up front...
    let err = manager.begin_pairing(&peer, &crypto).unwrap_err();
    assert!(matches!(err, Error::Pairing(_)));

    // ...and an inbound request from the already-paired id is accepted
    // idempotently: no duplicate entry, status stays paired.
    let request = AuthRequestPacket {
        packet_type: "pairing_request".to_string(),
        device_id: peer.id.clone(),
        nonce: "nonce-1".to_string(),
        signature: String::new(),
    };
    let (response, event) = manager.handle_pairing_request(&request);
    assert!(response.accepted);
    assert!(event.is_none());
    assert_eq!(manager.get_paired_devices().len(), 1);
    assert_eq!(
        manager.get_paired_devices()[0].pairing_status,
        PairingStatus::Paired
    );
}

#[test]
fn test_inbound_pairing_request_paths() {
    let local = DeviceInfo::new("Local", DeviceType::Desktop, "local_key");
    let crypto = CryptoManager::new();
    let mut manager = PairingManager::new(local);

    // Unknown device, nothing awaited: rejected.
    let request = AuthRequestPacket {
        packet_type: "pairing_request".to_string(),
        device_id: "stranger".to_string(),
        nonce: "n".to_string(),
        signature: String::new(),
    };
    let (response, event) = manager.handle_pairing_request(&request);
    assert!(!response.accepted);
    assert!(response.pin.is_empty());
    assert!(event.is_none());

    // A device this side is awaiting: accepted with the recorded PIN.
    let mut peer = DeviceInfo::new("Peer", DeviceType::Mobile, "peer_key");
    peer.ip_address = Some("127.0.0.1".to_string());
    let (_packet, pin) = manager.begin_pairing(&peer, &crypto).unwrap();
    let request = AuthRequestPacket {
        packet_type: "pairing_request".to_string(),
        device_id: peer.id.clone(),
        nonce: "n".to_string(),
        signature: String::new(),
    };
    let (response, event) = manager.handle_pairing_request(&request);
    assert!(response.accepted);
    assert_eq!(response.pin, pin);
    let stored = event.unwrap();
    assert_eq!(stored.id, peer.id);
    assert_eq!(stored.pairing_status, PairingStatus::Paired);
    assert!(stored.trusted);
    assert_eq!(manager.get_paired_devices().len(), 1);
}

#[test]
fn test_pairing_generate_pin_format() {
    for _ in 0..50 {
        let pin = PairingManager::generate_pin();
        assert_eq!(pin.len(), 6);
        assert!(pin.chars().all(|c| c.is_ascii_digit()));
    }
}

#[test]
fn test_wire_framing_round_trip() {
    let framed = wire::frame_payload(b"hello wire").unwrap();
    assert_eq!(framed.len(), 10 + 4);
    assert_eq!(&framed[..4], &[0, 0, 0, 10]);
    assert_eq!(&framed[4..], b"hello wire");

    let announced = wire::parse_frame_header(&framed[..4]);
    assert_eq!(announced as usize, framed.len() - 4);

    let bytes = wire::u32_to_be_bytes(0x0102_0304);
    assert_eq!(bytes, vec![1, 2, 3, 4]);
    assert_eq!(wire::be_bytes_to_u32(&bytes), 0x0102_0304);
}

#[test]
fn test_transport_frames_outgoing() {
    let device = DeviceInfo::new("Test Device", DeviceType::Desktop, "key");
    let transport = TransportService::new(device);
    let framed = transport.frame_outgoing(&[7, 8, 9]).unwrap();
    assert_eq!(framed, vec![0, 0, 0, 3, 7, 8, 9]);
}

#[test]
fn test_transport_device_for_content_packet() {
    let device = DeviceInfo::new("Test Device", DeviceType::Desktop, "key");
    let transport = TransportService::new(device);
    let packet = ContentPacket {
        packet_type: "content".to_string(),
        device_id: "sender-7".to_string(),
        content_type: "text".to_string(),
        content: "aGVsbG8=".to_string(),
        metadata: ContentMetadata {
            filename: None,
            size: 5,
            mime_type: "text/plain".to_string(),
        },
        timestamp: 1700000000,
    };
    let sender = transport.device_for_content_packet(&packet, 1700000001);
    assert_eq!(sender.id, "sender-7");
    assert_eq!(sender.device_type, DeviceType::Unknown);
    assert_eq!(sender.last_seen, Some(1700000001));
    assert!(!sender.trusted);
    assert_eq!(sender.pairing_status, PairingStatus::Unpaired);
}

#[test]
fn test_transfer_task_completion() {
    let mut task = TransferTask::start("t-1".to_string(), 1_000_000);
    let mut moved: u64 = 0;
    while moved < 1_000_000 {
        let n = std::cmp::min(262144, 1_000_000 - moved);
        task.record_chunk(n as usize);
        moved += n;
        assert_eq!(task.transferred, moved);
        assert_eq!(task.status, TransferStatus::InProgress);
    }
    task.complete();
    let progress = task.snapshot(&"peer".to_string());
    assert_eq!(progress.bytes_transferred, 1_000_000);
    assert_eq!(progress.status, TransferStatus::Completed);
}

#[test]
fn test_transfer_task_interruption() {
    let mut task = TransferTask::start("t-2".to_string(), 1_000_000);
    task.record_chunk(262144);
    task.fail();
    let progress = task.snapshot(&"peer".to_string());
    assert_eq!(progress.status, TransferStatus::Failed);
    assert_eq!(progress.bytes_transferred, 262144);
    assert!(progress.bytes_transferred < progress.total_bytes);
}

#[test]
fn test_progress_table_isolation() {
    let device = DeviceInfo::new("Local", DeviceType::Desktop, "key");
    let mut transport = WiFiTransport::new(device, 45681);

    let (id_a, header_a) = transport.begin_send("peer-a", "a.bin", 100);
    assert_eq!(header_a.file_name, "a.bin");
    assert_eq!(header_a.file_size, 100);
    let (id_b, _header_b) = transport.begin_send("peer-b", "b.bin", 200);

    transport
        .update_progress(&id_a, 100, TransferStatus::Completed)
        .unwrap();
    transport
        .update_progress(&id_b, 50, TransferStatus::Failed)
        .unwrap();

    // One transfer's failure does not affect the other.
    let a = transport.get_progress(&id_a).unwrap();
    assert_eq!(a.status, TransferStatus::Completed);
    assert_eq!(a.bytes_transferred, 100);
    let b = transport.get_progress(&id_b).unwrap();
    assert_eq!(b.status, TransferStatus::Failed);
    assert_eq!(b.bytes_transferred, 50);

    assert!(transport.update_progress("missing", 1, TransferStatus::InProgress).is_none());
    assert!(transport.get_progress("missing").is_none());
}

#[test]
fn test_error_kinds_cover_names() {
    assert!(matches!(from_str("m", "network"), Error::Network(_)));
    assert!(matches!(from_str("m", "crypto"), Error::Crypto(_)));
    assert!(matches!(from_str("m", "storage"), Error::Storage(_)));
    assert!(matches!(from_str("m", "discovery"), Error::Discovery(_)));
    assert!(matches!(from_str("m", "pairing"), Error::Pairing(_)));
    assert!(matches!(from_str("m", "transfer"), Error::Transfer(_)));
    assert!(matches!(from_str("m", "authentication"), Error::Authentication(_)));
    assert!(matches!(from_str("m", "permission"), Error::Permission(_)));
    assert!(matches!(from_str("m", "initialization"), Error::Initialization(_)));
    assert!(matches!(from_str("m", "configuration"), Error::Configuration(_)));
    assert!(matches!(from_str("m", "invalid_argument"), Error::InvalidArgument(_)));
    assert!(matches!(from_str("m", "connection"), Error::Connection(_)));
    assert!(matches!(from_str("m", "file"), Error::File(_)));
    assert!(matches!(from_str("m", "notification"), Error::Notification(_)));
    assert!(matches!(from_str("m", "timeout"), Error::Timeout(_)));
    assert_eq!(from_str("m", "pairing").message(), "m");
}

#[test]
fn test_begin_pairing_without_address() {
    let local = DeviceInfo::new("Local", DeviceType::Desktop, "local_key");
    let crypto = CryptoManager::new();
    let mut manager = PairingManager::new(local);

    let peer = DeviceInfo::new("Peer", DeviceType::Mobile, "peer_key");
    assert!(peer.ip_address.is_none());
    let err = manager.begin_pairing(&peer, &crypto).unwrap_err();
    assert!(matches!(err, Error::Pairing(_)));
}
