use pasteall_core::clipboard::{
    content_changed, ClipboardContent, ClipboardHistory, HistoryEntry, MockClipboard,
};

#[test]
fn test_history_entry() {
    let content = ClipboardContent::Text("测试文本".to_string());
    let mut entry = HistoryEntry::new(content);

    // 测试添加标签
    entry.add_tag("工作");
    entry.add_tag("重要");
    assert_eq!(entry.tags.len(), 2);
    assert!(entry.tags.contains(&"工作".to_string()));

    // 测试重复添加标签
    entry.add_tag("工作");
    assert_eq!(entry.tags.len(), 2);

    // 测试移除标签
    entry.remove_tag("工作");
    assert_eq!(entry.tags.len(), 1);
    assert!(!entry.tags.contains(&"工作".to_string()));

    // 测试切换收藏
    assert!(!entry.is_favorite);
    entry.toggle_favorite();
    assert!(entry.is_favorite);
    entry.toggle_favorite();
    assert!(!entry.is_favorite);
}

#[test]
fn test_clipboard_history_in_memory() {
    // 创建不启用持久化的历史记录管理器
    let mut history = ClipboardHistory::new(3, false);

    // 添加记录
    history.add(ClipboardContent::Text("第一条".to_string())).unwrap();
    history.add(ClipboardContent::Text("第二条".to_string())).unwrap();
    history.add(ClipboardContent::Text("第三条".to_string())).unwrap();

    // 测试获取所有记录
    let entries = history.get_all().unwrap();
    assert_eq!(entries.len(), 3);

    // 测试限制条数
    history.add(ClipboardContent::Text("第四条".to_string())).unwrap();
    let entries = history.get_all().unwrap();
    assert_eq!(entries.len(), 3);

    // 第一条应该被移除了
    let texts: Vec<String> = entries
        .iter()
        .filter_map(|e| {
            if let ClipboardContent::Text(text) = &e.content {
                Some(text.clone())
            } else {
                None
            }
        })
        .collect();
    assert!(!texts.contains(&"第一条".to_string()));
    assert!(texts.contains(&"第二条".to_string()));
    assert!(texts.contains(&"第三条".to_string()));
    assert!(texts.contains(&"第四条".to_string()));

    // 测试标记收藏
    let id = entries[0].id.clone();
    history.toggle_favorite(&id).unwrap();
    let favorites = history.get_favorites().unwrap();
    assert_eq!(favorites.len(), 1);

    // 测试添加标签
    history.add_tag(&id, "重要").unwrap();
    let tagged = history.get_by_tag("重要").unwrap();
    assert_eq!(tagged.len(), 1);
    assert_eq!(tagged[0].id, id);

    // 测试移除记录
    history.remove(&id).unwrap();
    let entries = history.get_all().unwrap();
    assert_eq!(entries.len(), 2);

    // 测试清空
    history.clear().unwrap();
    let entries = history.get_all().unwrap();
    assert_eq!(entries.len(), 0);
}

#[test]
fn test_mock_clipboard() {
    let mut clipboard = MockClipboard::new();

    // 初始应该为空
    assert!(clipboard.get_mock_clipboard().unwrap().is_none());

    // 设置文本内容
    let text = "测试文本".to_string();
    clipboard
        .set_mock_clipboard(ClipboardContent::Text(text.clone()))
        .unwrap();

    // 验证内容
    if let Some(ClipboardContent::Text(content)) = clipboard.get_mock_clipboard().unwrap() {
        assert_eq!(content, text);
    } else {
        panic!("剪贴板内容类型不匹配");
    }

    // 清除并验证
    clipboard.clear_mock_clipboard().unwrap();
    assert!(clipboard.get_mock_clipboard().unwrap().is_none());
}

#[test]
fn test_content_change_detection() {
    let text_a = ClipboardContent::Text("a".to_string());
    let text_a_again = ClipboardContent::Text("a".to_string());
    let text_b = ClipboardContent::Text("b".to_string());
    let image = ClipboardContent::Image(vec![1, 2, 3]);
    let files = ClipboardContent::Files(vec!["/tmp/x".to_string()]);

    // Nothing seen before: everything counts as changed.
    assert!(content_changed(&None, &text_a));
    // Identical payloads do not count as changed.
    assert!(!content_changed(&Some(text_a_again), &text_a));
    assert!(!content_changed(&Some(ClipboardContent::Empty), &ClipboardContent::Empty));
    // Different payload or kind counts as changed.
    assert!(content_changed(&Some(text_b), &text_a));
    assert!(content_changed(&Some(image), &files));
}

#[test]
fn test_history_ignores_empty_and_duplicates() {
    let mut history = ClipboardHistory::new(10, false);
    history.add(ClipboardContent::Empty).unwrap();
    assert_eq!(history.get_all().unwrap().len(), 0);

    history.add(ClipboardContent::Text("once".to_string())).unwrap();
    history.add(ClipboardContent::Text("once".to_string())).unwrap();
    assert_eq!(history.get_all().unwrap().len(), 1);

    history.add(ClipboardContent::Image(vec![9, 9])).unwrap();
    let entries = history.get_all().unwrap();
    assert_eq!(entries.len(), 2);
    // Newest first.
    assert!(matches!(entries[0].content, ClipboardContent::Image(_)));
}

#[test]
fn test_history_find_and_remove_tag() {
    let mut history = ClipboardHistory::new(10, false);
    history.add(ClipboardContent::Text("entry".to_string())).unwrap();
    let id = history.get_all().unwrap()[0].id.clone();

    assert!(history.find_by_id(&id).unwrap().is_some());
    assert!(history.find_by_id("missing").unwrap().is_none());

    history.add_tag(&id, "keep").unwrap();
    history.add_tag(&id, "drop").unwrap();
    history.remove_tag(&id, "drop").unwrap();
    let entry = history.find_by_id(&id).unwrap().unwrap();
    assert_eq!(entry.tags, vec!["keep".to_string()]);

    assert!(!history.remove("missing").unwrap());
    assert!(history.remove(&id).unwrap());
    assert_eq!(history.get_all().unwrap().len(), 0);
}
