use rearview_mirror::display::TrayOption;
use rearview_mirror::menu::{parse_menu_id, same_text, MenuCommand};

#[test]
fn menu_ids_map_to_commands() {
    assert_eq!(parse_menu_id("toggle"), Some(MenuCommand::Toggle));
    assert_eq!(parse_menu_id("mirrored"), Some(MenuCommand::Flip(TrayOption::Mirrored)));
    assert_eq!(parse_menu_id("grayscale"), Some(MenuCommand::Flip(TrayOption::Grayscale)));
    assert_eq!(parse_menu_id("move"), Some(MenuCommand::Flip(TrayOption::MoveEnabled)));
    assert_eq!(parse_menu_id("toggle-mode"), Some(MenuCommand::Flip(TrayOption::ToggleMode)));
    assert_eq!(parse_menu_id("settings"), Some(MenuCommand::Settings));
    assert_eq!(parse_menu_id("quit"), Some(MenuCommand::Quit));
}

#[test]
fn unknown_menu_ids() {
    assert_eq!(parse_menu_id(""), None);
    assert_eq!(parse_menu_id("toggle-"), None);
    assert_eq!(parse_menu_id("Quit"), None);
    assert_eq!(parse_menu_id("表示を切り替え"), None);
}

#[test]
fn text_comparison() {
    assert!(same_text("ミラー", "ミラー"));
    assert!(!same_text("ミラー", "ミラ"));
    assert!(!same_text("abc", "abd"));
    assert!(same_text("", ""));
}
