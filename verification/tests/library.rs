use win32utils::registry::exists_outcome;
use win32utils::registry::value_exists;
use win32utils::registry::v16_to_v8;
use win32utils::registry::write_outcome;
use win32utils::registry::write_string;
use win32utils::registry::RegError;
use win32utils::registry::SettingsStore;
use win32utils::registry::HKEY;
use win32utils::shell::build_notification_record;
use win32utils::shell::build_quit_menu;
use win32utils::shell::confirm_body;
use win32utils::shell::confirm_title;
use win32utils::shell::icon_registration_outcome;
use win32utils::shell::on_confirm_answer;
use win32utils::shell::tooltip_from_name;
use win32utils::shell::tray_guid;
use win32utils::shell::window_proc;
use win32utils::shell::RegisterOutcome;
use win32utils::shell::TrayAction;
use win32utils::shell::TrayData;
use win32utils::shell::QUIT_COMMAND_ID;
use win32utils::shell::TOOLTIP_LEN;
use win32utils::shell::WM_APP;
use win32utils::shell::WM_COMMAND;
use win32utils::shell::WM_DESTROY;
use win32utils::shell::WM_LBUTTONUP;
use win32utils::shell::WM_NCCREATE;
use win32utils::shell::WM_QUIT;
use win32utils::shell::WM_RBUTTONUP;
use win32utils::dialog_style;
use win32utils::to_utf16;
use win32utils::DialogButtons;
use win32utils::DialogIcon;
use win32utils::DialogResult;
use win32utils::IDNO;
use win32utils::IDOK;
use win32utils::IDYES;

fn utf16_of(s: &str) -> Vec<u16> {
    let mut v: Vec<u16> = s.encode_utf16().collect();
    v.push(0);
    v
}

#[test]
fn style_codes_cover_every_combination() {
    assert_eq!(dialog_style(DialogIcon::Info, DialogButtons::OkOnly), 0x40);
    assert_eq!(dialog_style(DialogIcon::Question, DialogButtons::OkOnly), 0x20);
    assert_eq!(dialog_style(DialogIcon::Warning, DialogButtons::OkOnly), 0x30);
    assert_eq!(dialog_style(DialogIcon::Error, DialogButtons::OkOnly), 0x10);
    assert_eq!(dialog_style(DialogIcon::Info, DialogButtons::YesNo), 0x44);
    assert_eq!(dialog_style(DialogIcon::Question, DialogButtons::YesNo), 0x24);
    assert_eq!(dialog_style(DialogIcon::Warning, DialogButtons::YesNo), 0x34);
    assert_eq!(dialog_style(DialogIcon::Error, DialogButtons::YesNo), 0x14);
}

#[test]
fn outcomes_stay_in_their_button_set() {
    // Every result code, under both button sets: the recognized outcomes
    // are exactly the ones the set can produce.
    for code in -1..10 {
        match DialogResult::from_code(DialogButtons::OkOnly, code) {
            Some(outcome) => {
                assert_eq!(code, IDOK);
                assert_eq!(outcome, DialogResult::Okay);
            }
            None => assert_ne!(code, IDOK),
        }
        match DialogResult::from_code(DialogButtons::YesNo, code) {
            Some(outcome) => {
                assert!(code == IDYES || code == IDNO);
                assert!(outcome == DialogResult::Yes || outcome == DialogResult::No);
            }
            None => assert!(code != IDYES && code != IDNO),
        }
    }
}

#[test]
fn result_code_mapping_is_exact() {
    assert_eq!(
        DialogResult::from_code(DialogButtons::OkOnly, IDOK),
        Some(DialogResult::Okay)
    );
    assert_eq!(
        DialogResult::from_code(DialogButtons::YesNo, IDYES),
        Some(DialogResult::Yes)
    );
    assert_eq!(
        DialogResult::from_code(DialogButtons::YesNo, IDNO),
        Some(DialogResult::No)
    );
    assert_eq!(DialogResult::from_code(DialogButtons::YesNo, IDOK), None);
    assert_eq!(DialogResult::from_code(DialogButtons::OkOnly, IDYES), None);
}

#[test]
fn utf16_encoding_matches_std() {
    assert_eq!(to_utf16("hello"), utf16_of("hello"));
    assert_eq!(to_utf16(""), vec![0u16]);
    assert_eq!(to_utf16("Quit"), vec![0x51, 0x75, 0x69, 0x74, 0]);
    // A character beyond the basic plane becomes a surrogate pair.
    assert_eq!(to_utf16("\u{1F600}"), vec![0xD83D, 0xDE00, 0]);
    assert_eq!(to_utf16("a\u{1F600}b"), utf16_of("a\u{1F600}b"));
}

#[test]
fn wide_bytes_are_little_endian_pairs() {
    assert_eq!(v16_to_v8(&[0x0041, 0x1234]), vec![0x41, 0x00, 0x34, 0x12]);
    assert_eq!(v16_to_v8(&[]), Vec::<u8>::new());
    assert_eq!(v16_to_v8(&[0xFFFF]), vec![0xFF, 0xFF]);
}

#[test]
fn absent_value_and_unopenable_subpath_are_distinguishable() {
    let mut store = SettingsStore::new();
    // Nothing was ever created: the subpath cannot be opened at all.
    assert_eq!(
        value_exists(&store, HKEY::CurrentUser, "Software\\App", "Theme"),
        Err(RegError::OpenFailed)
    );
    // Create the subpath by writing one value under it; another name is
    // then a successful negative answer, not an error.
    assert_eq!(
        write_string(&mut store, HKEY::CurrentUser, "Software\\App", "Theme", "dark"),
        Ok(())
    );
    assert_eq!(
        value_exists(&store, HKEY::CurrentUser, "Software\\App", "Other"),
        Ok(false)
    );
    assert_eq!(
        value_exists(&store, HKEY::CurrentUser, "Software\\Missing", "Theme"),
        Err(RegError::OpenFailed)
    );
}

#[test]
fn write_then_exists_is_consistent() {
    let mut store = SettingsStore::new();
    assert_eq!(
        write_string(&mut store, HKEY::CurrentUser, "Software\\App", "Theme", "dark"),
        Ok(())
    );
    assert_eq!(
        value_exists(&store, HKEY::CurrentUser, "Software\\App", "Theme"),
        Ok(true)
    );
    // Overwriting keeps the value present.
    assert_eq!(
        write_string(&mut store, HKEY::CurrentUser, "Software\\App", "Theme", "light"),
        Ok(())
    );
    assert_eq!(
        value_exists(&store, HKEY::CurrentUser, "Software\\App", "Theme"),
        Ok(true)
    );
}

#[test]
fn raw_status_classification_covers_every_error() {
    assert_eq!(exists_outcome(5, 0, 0), Err(RegError::OpenFailed));
    assert_eq!(exists_outcome(0, 2, 0), Ok(false));
    assert_eq!(exists_outcome(0, 13, 0), Err(RegError::QueryFailed));
    assert_eq!(exists_outcome(0, 0, 6), Err(RegError::CloseFailed));
    assert_eq!(exists_outcome(0, 0, 0), Ok(true));
    assert_eq!(write_outcome(5, 0, 0), Err(RegError::CreateFailed));
    assert_eq!(write_outcome(0, 5, 0), Err(RegError::WriteFailed));
    assert_eq!(write_outcome(0, 0, 6), Err(RegError::CloseFailed));
    assert_eq!(write_outcome(0, 0, 0), Ok(()));
}

#[test]
fn error_messages_name_the_failed_step() {
    assert_eq!(RegError::OpenFailed.message(), "Failed to open registry key");
    assert_eq!(RegError::QueryFailed.message(), "Failed to query registry key");
    assert_eq!(RegError::CreateFailed.message(), "Failed to create registry key");
    assert_eq!(RegError::WriteFailed.message(), "Failed to set registry key");
    assert_eq!(RegError::CloseFailed.message(), "Failed to close registry key");
}

#[test]
fn registration_recovers_from_stale_identity() {
    // A prior unclean exit leaves the GUID registered: add fails, the
    // modify fallback succeeds, and registration succeeds as a whole.
    assert_eq!(icon_registration_outcome(false, true), RegisterOutcome::Modified);
    assert_ne!(icon_registration_outcome(false, true), RegisterOutcome::Failed);
    assert_eq!(icon_registration_outcome(true, false), RegisterOutcome::Added);
    assert_eq!(icon_registration_outcome(true, true), RegisterOutcome::Added);
    assert_eq!(icon_registration_outcome(false, false), RegisterOutcome::Failed);
}

#[test]
fn left_click_answer_decides_quit() {
    assert_eq!(window_proc(WM_APP, 0, WM_LBUTTONUP), TrayAction::ConfirmQuit);
    // "No" leaves the tray running: nothing is posted, nothing removed.
    assert_eq!(on_confirm_answer(DialogResult::No), TrayAction::Delegate);
    // "Yes" posts the quit message, whose handling removes the icon and exits.
    assert_eq!(on_confirm_answer(DialogResult::Yes), TrayAction::PostQuit);
    assert_eq!(window_proc(WM_QUIT, 0, 0), TrayAction::RemoveIconAndExit);
}

#[test]
fn menu_quit_skips_the_dialog() {
    let menu_action = window_proc(WM_COMMAND, QUIT_COMMAND_ID, 0);
    assert_eq!(menu_action, on_confirm_answer(DialogResult::Yes));
    assert_ne!(menu_action, TrayAction::ConfirmQuit);
    // Other command identifiers do nothing.
    assert_eq!(window_proc(WM_COMMAND, 999, 0), TrayAction::Delegate);
}

#[test]
fn confirmed_quit_posts_exactly_once() {
    // Simulated "Yes" click on the confirmation for the app named "App".
    let title = confirm_title("App");
    let body = confirm_body("App");
    assert_eq!(title, utf16_of("Quit App"));
    assert_eq!(body, utf16_of("Would you like to quit App?"));
    let answer = DialogResult::from_code(DialogButtons::YesNo, IDYES);
    assert_eq!(answer, Some(DialogResult::Yes));
    // One answer produces one action, and it is the single quit posting.
    let action = on_confirm_answer(answer.unwrap());
    assert_eq!(action, TrayAction::PostQuit);
}

#[test]
fn remaining_messages_take_default_handling() {
    assert_eq!(window_proc(WM_NCCREATE, 0, 0), TrayAction::BindState);
    assert_eq!(window_proc(WM_DESTROY, 0, 0), TrayAction::PostQuit);
    assert_eq!(window_proc(WM_APP, 0, WM_RBUTTONUP), TrayAction::ShowMenu);
    assert_eq!(window_proc(WM_APP, 0, 0x0200), TrayAction::Delegate);
    assert_eq!(window_proc(0x0005, 0, 0), TrayAction::Delegate);
}

#[test]
fn tooltip_is_fixed_length() {
    let short = tooltip_from_name("App");
    assert_eq!(short.len(), TOOLTIP_LEN);
    assert_eq!(&short[..4], &utf16_of("App")[..]);
    assert!(short[4..].iter().all(|&u| u == 0));

    let long_name = "x".repeat(200);
    let long = tooltip_from_name(&long_name);
    assert_eq!(long.len(), TOOLTIP_LEN);
    assert!(long.iter().all(|&u| u == 'x' as u16));
}

#[test]
fn notification_record_is_fully_populated() {
    let nid = build_notification_record("App", 7, 9);
    assert_eq!(nid.hwnd, 7);
    assert_eq!(nid.hicon, 9);
    assert_eq!(nid.flags, 0x27);
    assert_eq!(nid.callback_message, WM_APP);
    assert_eq!(nid.tooltip, tooltip_from_name("App"));
    assert_eq!(nid.guid, tray_guid());
    assert_eq!(nid.version, 4);
}

#[test]
fn tray_guid_is_the_fixed_identity() {
    let g = tray_guid();
    assert_eq!(g.data1, 0x5b8729e5);
    assert_eq!(g.data2, 0x191d);
    assert_eq!(g.data3, 0x48e1);
    assert_eq!(g.data4, (0x94, 0x2f, 0xd3, 0x5d, 0x61, 0x96, 0x28, 0x94));
}

#[test]
fn menu_is_a_single_quit_entry() {
    let menu = build_quit_menu();
    assert_eq!(menu.len(), 1);
    assert_eq!(menu[0].id, QUIT_COMMAND_ID);
    assert_eq!(menu[0].label, utf16_of("Quit"));
}

#[test]
fn tray_state_is_assembled_for_its_window() {
    let data = TrayData::new("My App", 11, 13);
    assert_eq!(data.app_name, "My App");
    assert_eq!(data.nid.hwnd, 11);
    assert_eq!(data.nid.hicon, 13);
    assert_eq!(data.menu.len(), 1);
    assert_eq!(data.nid.tooltip, tooltip_from_name("My App"));
}
