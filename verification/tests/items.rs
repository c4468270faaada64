use easi_startup::item::{create_startup_item, has_admin_startup_items, StartupItem};
use easi_startup::settings::{default_app_settings, with_reminder_flags, AppSettings};
use easi_startup::store::{
    file_name, loaded_items, loaded_settings, store_error, Store, StoreFault, DATA_DIRECTORY,
    ITEMS_FILE, SETTINGS_FILE,
};
use easi_startup::error::StartupError;

fn stored_item(enabled: bool, run_as_admin: bool) -> StartupItem {
    let mut item = create_startup_item();
    item.enabled = enabled;
    item.run_as_admin = run_as_admin;
    item
}

#[test]
fn default_settings_values() {
    let settings = default_app_settings();
    assert_eq!(
        settings,
        AppSettings {
            auto_startup_enabled: false,
            auto_startup_as_admin: false,
            minimize_to_tray: true,
            start_minimized: false,
            check_updates: true,
            hide_startup_reminder: false,
            hide_admin_startup_reminder: false,
            exit_after_startup: false,
        }
    );
}

#[test]
fn reminder_flags_are_the_only_change() {
    let mut settings = default_app_settings();
    settings.auto_startup_enabled = true;
    settings.exit_after_startup = true;
    let updated = with_reminder_flags(settings, true, false);
    assert!(updated.hide_startup_reminder);
    assert!(!updated.hide_admin_startup_reminder);
    let mut expected = settings;
    expected.hide_startup_reminder = true;
    assert_eq!(updated, expected);
    let again = with_reminder_flags(updated, false, true);
    assert!(!again.hide_startup_reminder);
    assert!(again.hide_admin_startup_reminder);
    assert!(again.auto_startup_enabled && again.exit_after_startup);
}

#[test]
fn new_item_defaults() {
    let item = create_startup_item();
    assert_eq!(item.name, "");
    assert_eq!(item.mode, "normal");
    assert_eq!(item.executable_path, "");
    assert_eq!(item.display_name, "");
    assert_eq!(item.icon, "");
    assert_eq!(item.arguments, "");
    assert_eq!(item.command, "");
    assert!(!item.run_as_admin);
    assert!(item.enabled);
    assert!(!item.delay_enabled);
    assert_eq!(item.delay_seconds, 5);
}

#[test]
fn new_item_identifier_shape() {
    let mut round = 0;
    while round < 200 {
        let id: Vec<char> = create_startup_item().id.chars().collect();
        assert_eq!(id.len(), 36);
        for (i, c) in id.iter().enumerate() {
            if i == 8 || i == 13 || i == 18 || i == 23 {
                assert_eq!(*c, '-');
            } else {
                assert!(matches!(*c, '0'..='9' | 'a'..='f'), "{:?} at {}", c, i);
            }
        }
        assert_eq!(id[14], '4');
        assert!(matches!(id[19], '8' | '9' | 'a' | 'b'));
        round += 1;
    }
}

#[test]
fn new_item_identifiers_differ() {
    let first = create_startup_item();
    let second = create_startup_item();
    assert_ne!(first.id, second.id);
}

#[test]
fn admin_items_are_found() {
    assert!(!has_admin_startup_items(&Vec::new()));
    assert!(!has_admin_startup_items(&vec![stored_item(true, false), stored_item(false, true)]));
    assert!(has_admin_startup_items(&vec![stored_item(true, false), stored_item(true, true)]));
    assert!(has_admin_startup_items(&vec![stored_item(true, true)]));
    assert!(!has_admin_startup_items(&vec![stored_item(false, false)]));
}

#[test]
fn store_files() {
    assert_eq!(DATA_DIRECTORY, "data");
    assert_eq!(ITEMS_FILE, "startup_items.json");
    assert_eq!(SETTINGS_FILE, "app_settings.json");
    assert_eq!(file_name(Store::Items), "startup_items.json");
    assert_eq!(file_name(Store::Settings), "app_settings.json");
}

#[test]
fn missing_files_give_defaults() {
    assert_eq!(loaded_settings(None), default_app_settings());
    assert_eq!(loaded_items(None), Vec::<StartupItem>::new());
}

#[test]
fn saved_values_are_loaded_as_saved() {
    let mut settings = default_app_settings();
    settings.auto_startup_enabled = true;
    settings.hide_admin_startup_reminder = true;
    assert_eq!(loaded_settings(Some(settings)), settings);
    let items = vec![stored_item(true, true), stored_item(false, false)];
    assert_eq!(loaded_items(Some(items.clone())), items);
    assert_eq!(loaded_items(Some(Vec::new())), Vec::<StartupItem>::new());
}

#[test]
fn saving_what_was_loaded_changes_nothing() {
    let first = loaded_settings(None);
    assert_eq!(loaded_settings(Some(first)), first);
    let list = loaded_items(None);
    assert_eq!(loaded_items(Some(list.clone())), list);
    let items = vec![stored_item(true, false)];
    let loaded = loaded_items(Some(items.clone()));
    assert_eq!(loaded_items(Some(loaded.clone())), loaded);
}

#[test]
fn store_faults_by_kind() {
    assert_eq!(
        store_error(Store::Items, StoreFault::Read, "denied"),
        StartupError::Io("Failed to read startup items file: denied".to_string())
    );
    assert_eq!(
        store_error(Store::Items, StoreFault::Parse, "expected value at line 1 column 1"),
        StartupError::Format("Failed to parse startup items: expected value at line 1 column 1".to_string())
    );
    assert_eq!(
        store_error(Store::Items, StoreFault::Encode, "e"),
        StartupError::Format("Failed to serialize startup items: e".to_string())
    );
    assert_eq!(
        store_error(Store::Items, StoreFault::Write, "e"),
        StartupError::Io("Failed to write startup items file: e".to_string())
    );
    assert_eq!(
        store_error(Store::Items, StoreFault::CreateDirectory, "e"),
        StartupError::Io("Failed to create data directory: e".to_string())
    );
    assert_eq!(
        store_error(Store::Items, StoreFault::Locate, "e"),
        StartupError::Io("Failed to get executable path: e".to_string())
    );
    assert_eq!(
        store_error(Store::Settings, StoreFault::Locate, "e"),
        StartupError::Io("Failed to get executable path: e".to_string())
    );
    assert_eq!(
        store_error(Store::Settings, StoreFault::CreateDirectory, "e"),
        StartupError::Io("创建设置目录失败: e".to_string())
    );
    assert_eq!(
        store_error(Store::Settings, StoreFault::Read, "e"),
        StartupError::Io("读取设置文件失败: e".to_string())
    );
    assert_eq!(
        store_error(Store::Settings, StoreFault::Parse, "e"),
        StartupError::Format("解析设置文件失败: e".to_string())
    );
    assert_eq!(
        store_error(Store::Settings, StoreFault::Encode, "e"),
        StartupError::Format("序列化设置失败: e".to_string())
    );
    assert_eq!(
        store_error(Store::Settings, StoreFault::Write, "e"),
        StartupError::Io("写入设置文件失败: e".to_string())
    );
}

#[test]
fn error_messages() {
    assert_eq!(StartupError::Io("a".to_string()).message(), "a");
    assert_eq!(StartupError::Format("b".to_string()).message(), "b");
    assert_eq!(StartupError::PrivilegeRequired.message(), "需要管理员权限来设置管理员自启动");
    assert_eq!(StartupError::EmptyTarget.message(), "可执行文件路径为空");
    assert_eq!(StartupError::EmptyCommand.message(), "命令为空");
    assert_eq!(StartupError::UnknownMode("batch".to_string()).message(), "未知的启动项模式: batch");
    assert_eq!(StartupError::Spawn("c".to_string()).message(), "c");
    let error = StartupError::UnknownMode("x".to_string());
    assert_eq!(error.duplicate(), error);
}
