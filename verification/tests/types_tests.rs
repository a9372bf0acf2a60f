use pasteall_core::types::{
    Config, ConfigOptions, DeviceCapabilities, DeviceInfo, DeviceType, FileTransfer, Message,
    MessageType, Notification, NotificationAction, NotificationActionType, NotificationPriority,
    NotificationType, PairingStatus, SecurityPolicy, TransferProgress, TransferStatus,
};
use pasteall_core::PasteAll;

#[test]
fn test_device_info_creation() {
    let device = DeviceInfo::new("测试设备", DeviceType::Desktop, "base64_encoded_public_key");

    assert_eq!(device.name, "测试设备");
    assert_eq!(device.device_type, DeviceType::Desktop);
    assert_eq!(device.public_key, "base64_encoded_public_key");
    assert!(device.online);
}

#[test]
fn test_config_default() {
    let config = Config::default();
    assert_eq!(config.device_name, "未命名设备");
    assert_eq!(config.device_type, DeviceType::Unknown);
}

#[test]
fn test_transfer_progress() {
    let progress = TransferProgress {
        id: "test_id".to_string(),
        bytes_transferred: 50,
        total_bytes: 100,
        status: TransferStatus::InProgress,
        device_id: "device1".to_string(),
    };

    let percentage = (progress.bytes_transferred as f32 / progress.total_bytes as f32) * 100.0;
    assert_eq!(percentage, 50.0);
}

#[test]
fn test_device_capabilities() {
    let caps = DeviceCapabilities::default();
    assert!(caps.supports_files);
    assert!(caps.supports_images);
}

#[test]
fn types_test_device_capabilities() {
    let caps = DeviceCapabilities::default();
    assert!(caps.supports_files);
    assert!(caps.supports_wifi_direct);
    assert_eq!(caps.max_file_size, 1024);

    // Test security policy default
    let policy = SecurityPolicy::default();
    assert_eq!(policy, SecurityPolicy::AlwaysAsk);
}

#[test]
fn test_file_transfer() {
    let mut transfer =
        FileTransfer::new("test.txt", 1000, "text/plain", "sender1", "receiver1", 100);

    assert_eq!(transfer.filename, "test.txt");
    assert_eq!(transfer.size, 1000);
    assert_eq!(transfer.total_chunks, 10);
    assert_eq!(transfer.status, TransferStatus::Initializing);

    // Update progress
    let progress = transfer.update_progress(5);
    assert_eq!(transfer.status, TransferStatus::InProgress);
    assert_eq!(progress.bytes_transferred, 500);
    let percentage = (progress.bytes_transferred as f32 / progress.total_bytes as f32) * 100.0;
    assert_eq!(percentage, 50.0);

    // Complete transfer
    let _progress = transfer.update_progress(10);
    assert_eq!(transfer.status, TransferStatus::Completed);
    assert!(transfer.end_time.is_some());

    // Transfer duration should be available
    assert!(transfer.transfer_duration().is_some());
}

#[test]
fn test_notification_creation() {
    let notification = Notification::new(
        NotificationType::TextReceived,
        "新消息",
        "您收到了一条新消息",
        NotificationPriority::Normal,
    )
    .with_device_id("device1")
    .with_action(NotificationAction::accept("接受"))
    .with_action(NotificationAction::reject("拒绝"));

    assert_eq!(
        notification.notification_type,
        NotificationType::TextReceived
    );
    assert_eq!(notification.title, "新消息");
    assert_eq!(notification.device_id, Some("device1".to_string()));
    assert_eq!(notification.actions.len(), 2);
    assert!(!notification.is_read);

    // Test action creation
    let open_action = NotificationAction::open_file("打开文件", "/tmp/file.txt");
    assert!(matches!(
        open_action.action_type,
        NotificationActionType::OpenFile { .. }
    ));
}

#[test]
fn test_create_pasteall_instance() {
    let config = Config {
        device_name: "Test Device".to_string(),
        device_type: DeviceType::Desktop,
        storage_path: ":memory:".to_string(),
        discovery_port: 5678,
        listen_port: 5679,
        device_id: "instance-test-device".to_string(),
        capabilities: DeviceCapabilities::default(),
        options: ConfigOptions::default(),
    };

    let pasteall = PasteAll::new(config);
    assert_eq!(pasteall.config.device_name, "Test Device");
}

#[test]
fn test_message_expiry_at_times() {
    let msg = Message::new(
        "sender1",
        MessageType::TextTransfer {
            text: "Hello".to_string(),
        },
        true,
        Some("receiver1"),
    );

    assert_eq!(msg.sender_id, "sender1");
    assert!(matches!(msg.message_type, MessageType::TextTransfer { .. }));
    assert_eq!(msg.receiver_id, Some("receiver1".to_string()));
    assert!(msg.require_ack);
    assert_eq!(msg.expires_at, 0);
    assert!(!msg.is_expired());

    let stamped = msg.timestamp;
    let with_expiry = msg.with_expiry(1);
    assert_eq!(with_expiry.expires_at, stamped + 1);
    assert!(!with_expiry.is_expired_at(stamped));
    assert!(!with_expiry.is_expired_at(stamped + 1));
    assert!(with_expiry.is_expired_at(stamped + 2));

    // Test response message
    let response = with_expiry.create_response(MessageType::PairingResponse { accepted: true });
    assert_eq!(response.sender_id, "receiver1");
    assert_eq!(response.receiver_id, Some("sender1".to_string()));
    assert_eq!(response.related_message_id, Some(with_expiry.id.clone()));
}

#[test]
fn test_device_info_update_preserves_identity_and_trust() {
    let mut first = DeviceInfo::new("Alpha", DeviceType::Desktop, "key_a");
    first.pairing_status = PairingStatus::Paired;
    first.trusted = true;
    let original_id = first.id.clone();

    let mut second = DeviceInfo::new("Beta", DeviceType::Mobile, "key_b");
    second.capabilities.supports_files = false;
    second.capabilities.max_file_size = 7;

    first.update_from(&second);

    assert_eq!(first.id, original_id);
    assert_eq!(first.name, "Beta");
    assert_eq!(first.device_type, DeviceType::Mobile);
    assert!(!first.capabilities.supports_files);
    assert_eq!(first.capabilities.max_file_size, 7);
    assert_eq!(first.pairing_status, PairingStatus::Paired);
    assert!(first.trusted);
    assert_eq!(first.public_key, "key_a");
}

#[test]
fn test_transfer_failure_keeps_partial_account() {
    let mut transfer = FileTransfer::new("f.bin", 1000, "application/octet-stream", "s", "r", 100);
    let _ = transfer.update_progress(4);
    let progress = transfer.mark_failed();
    assert_eq!(progress.status, TransferStatus::Failed);
    assert_eq!(progress.bytes_transferred, 400);
    assert!(progress.bytes_transferred < progress.total_bytes);
    assert!(transfer.transfer_duration().is_some());

    let mut canceled = FileTransfer::new("g.bin", 1000, "application/octet-stream", "s", "r", 100);
    let progress = canceled.mark_canceled();
    assert_eq!(progress.status, TransferStatus::Canceled);
    assert_eq!(progress.bytes_transferred, 0);
}
