use counter_tui::app::{AppError, EditingState};
use counter_tui::counter::Phase;
use counter_tui::debugging::DebugKey;
use counter_tui::input::{
    Event, EventType, HandlerMode, Key, MODIFIER_CONTROL, MODIFIER_NONE, ThreadError,
};
use counter_tui::settings::events::{SettingsAction, default_action};
use counter_tui::settings::ui::WindowState;
use counter_tui::settings::{ContentKey, KeyMap, key_in};
use counter_tui::ui::{UiWidth, format_duration, format_paragraph, width_class};

#[test]
fn test_phase() {
    let phase = Phase::new("Phase 1".to_string(), 12, 3500);
    assert_eq!(phase.get_name(), "Phase 1");
    assert_eq!(phase.get_count(), 12);
    assert_eq!(phase.get_time(), 3500);
}

#[test]
fn test_debug_key_message() {
    assert_eq!(DebugKey::Debug("testing".to_string()).message(), "[DEBUG] testing");
    assert_eq!(DebugKey::Info("hello".to_string()).message(), "[INFO] hello");
    assert_eq!(DebugKey::Warning("careful".to_string()).message(), "[WARN] careful");
    assert_eq!(DebugKey::Fatal("gone".to_string()).message(), "[FATAL] gone");
}

#[test]
fn test_app_error_from_thread_error() {
    let err = AppError::from(ThreadError::EventStreamLock);
    assert_eq!(err, AppError::ThreadError(ThreadError::EventStreamLock));
    assert_ne!(err, AppError::ThreadError(ThreadError::ThreadStateLock));
    assert_ne!(AppError::GetPhaseError, AppError::SettingNotFound);
}

#[test]
fn test_editing_states_distinct() {
    assert_ne!(EditingState::Rename, EditingState::ChCount);
    assert_ne!(EditingState::ChCount, EditingState::ChTime);
}

#[test]
fn test_keymap_default() {
    let map = KeyMap::default();
    assert_eq!(map.key_increase_counter, vec![Key::Char('+'), Key::Char('=')]);
    assert_eq!(map.key_decrease_counter, vec![Key::Char('-')]);
    assert_eq!(map.key_toggle_keylogger, vec![Key::Char('*')]);
}

#[test]
fn test_key_in() {
    let map = KeyMap::default();
    assert!(key_in(&map.key_increase_counter, Key::Char('+')));
    assert!(key_in(&map.key_increase_counter, Key::Char('=')));
    assert!(!key_in(&map.key_increase_counter, Key::Char('-')));
    assert!(!key_in(&map.key_decrease_counter, Key::Enter));
}

fn key_event(key: Key, modifiers: u8) -> Event {
    Event { type_: EventType::KeyEvent(key), modifiers, time: 0, source: HandlerMode::Terminal }
}

#[test]
fn test_settings_default_actions() {
    assert_eq!(default_action(&key_event(Key::Up, MODIFIER_NONE)), SettingsAction::SelectPrev);
    assert_eq!(
        default_action(&key_event(Key::Char('k'), MODIFIER_NONE)),
        SettingsAction::SelectPrev
    );
    assert_eq!(default_action(&key_event(Key::Down, MODIFIER_NONE)), SettingsAction::SelectNext);
    assert_eq!(
        default_action(&key_event(Key::Char('j'), MODIFIER_NONE)),
        SettingsAction::SelectNext
    );
    assert_eq!(default_action(&key_event(Key::Enter, MODIFIER_NONE)), SettingsAction::OpenSelected);
    assert_eq!(
        default_action(&key_event(Key::Char('q'), MODIFIER_NONE)),
        SettingsAction::CloseSettings
    );
    assert_eq!(default_action(&key_event(Key::Esc, MODIFIER_NONE)), SettingsAction::CloseSettings);
    assert_eq!(
        default_action(&key_event(Key::Char('s'), MODIFIER_CONTROL)),
        SettingsAction::CloseSettings
    );
    assert_eq!(default_action(&key_event(Key::Char('s'), MODIFIER_NONE)), SettingsAction::Nothing);
    assert_eq!(
        default_action(&key_event(Key::Char('k'), MODIFIER_CONTROL)),
        SettingsAction::Nothing
    );
    let mouse = Event {
        type_: EventType::MouseEvent((1, 2)),
        modifiers: MODIFIER_NONE,
        time: 0,
        source: HandlerMode::Terminal,
    };
    assert_eq!(default_action(&mouse), SettingsAction::Nothing);
}

#[test]
fn test_window_states() {
    assert_eq!(WindowState::SubMenu(ContentKey::TickRate), WindowState::SubMenu(ContentKey::TickRate));
    assert_ne!(WindowState::Default, WindowState::SubMenu(ContentKey::ShowMillis));
    assert_ne!(ContentKey::TickRate, ContentKey::ActKeyboard);
}

#[test]
fn test_format_duration() {
    assert_eq!(format_duration(0, true), "00:00:00,000");
    assert_eq!(format_duration(3_723_456, true), "01:02:03,456");
    assert_eq!(format_duration(3_723_456, false), "01:02:03,***");
    assert_eq!(format_duration(59_999, true), "00:00:59,999");
    assert_eq!(format_duration(60_000, true), "00:01:00,000");
    // Hours are padded to two digits but not truncated.
    assert_eq!(format_duration(360_000_000, true), "100:00:00,000");
}

#[test]
fn test_format_paragraph() {
    assert_eq!(format_paragraph("counted"), "\ncounted");
    assert_eq!(format_paragraph(""), "\n");
}

#[test]
fn test_width_class() {
    assert_eq!(width_class(0), UiWidth::Small);
    assert_eq!(width_class(27), UiWidth::Small);
    assert_eq!(width_class(28), UiWidth::Medium);
    assert_eq!(width_class(60), UiWidth::Medium);
    assert_eq!(width_class(61), UiWidth::Big);
    assert_eq!(width_class(u16::MAX), UiWidth::Big);
}
