use sanup::app::focus::SanupFocus;
use sanup::app::sanup::Sanup;
use sanup::app::settings::Settings;
use sanup::app::tabs::SanupTabs;
use sanup::input::value::Value;
use sanup::key::Key;
use sanup::sanup::state::SanupState;
use sanup::sanup::tabs::SanupTabs as EarlierTabs;

#[test]
fn tabs_cycle_and_index() {
    let mut t = SanupTabs::Main;
    assert_eq!(t.into_idx(), 1);
    t.next();
    assert_eq!(t, SanupTabs::Processes);
    t.next();
    assert_eq!(t, SanupTabs::Backups);
    t.next();
    assert_eq!(t, SanupTabs::Settings);
    t.prev();
    assert_eq!(t, SanupTabs::Backups);
    assert!(t.is_backups());
    assert_eq!(t.into_idx(), 3);
    assert_eq!(
        SanupTabs::into_vec_str(),
        vec!["Settings", "Main", "Processes", "Backups"]
    );
}

#[test]
fn focus_moves_and_queries() {
    let mut f = SanupFocus::Tabs;
    assert!(f.is_tabs());
    assert_eq!(f.into_idx(), 0);
    f.to_body();
    assert!(f.is_body());
    f.to_inputform();
    assert!(f.is_inputform());
    f.to_tabs();
    assert!(f.is_tabs());
}

#[test]
fn earlier_state_machine_cycles() {
    let mut s = SanupState::Settings;
    s.next();
    assert_eq!(s.to_string(), "Main");
    s.next();
    assert_eq!(s.to_string(), "Backups");
    s.prev();
    assert_eq!(s.to_string(), "Main");
    assert_eq!(SanupState::Backups.into_idx(), 2);
    assert_eq!(
        SanupState::into_vec_str(),
        vec!["Settings", "Main", "Backups", "Processes"]
    );
}

#[test]
fn earlier_tab_bar_has_its_own_order() {
    let mut t = EarlierTabs::Main;
    t.next();
    assert_eq!(t.to_string(), "Backups");
    t.next();
    assert_eq!(t.to_string(), "Processes");
    assert_eq!(EarlierTabs::Processes.into_idx(), 3);
    assert_eq!(EarlierTabs::Backups.into_idx(), 2);
}

#[test]
fn default_settings_record() {
    let s = Settings::default_with_home(Some(String::from("/home/someone")));
    assert_eq!(s.default_backup_dir, "/home/someone/Backups");
    assert_eq!(s.compression_enable, false);
    assert_eq!(s.min_free_space_gb, 10);
    assert_eq!(s.check_free_space_before_backup, true);
    assert_eq!(s.verify_after_backup, true);
    assert_eq!(s.show_hidden_files, true);
    assert_eq!(s.log_to_file, false);
    assert_eq!(s.log_file_dir, None);
    assert!(s.watched_disk.is_empty());
    let s = Settings::default_with_home(None);
    assert_eq!(s.default_backup_dir, "./Backups");
}

#[test]
fn settings_render_as_fields() {
    let mut s = Settings::default_with_home(Some(String::from("/h")));
    s.compression_kind = sanup::app::compression_kind::CompressionKind::Zip;
    s.log_file_dir = Some(String::from("/var/log"));
    s.min_free_space_gb = 25;
    let fields = s.into_fields();
    let values = fields.values();
    assert_eq!(values.len(), 13);
    assert_eq!(
        *values.get(2),
        Value::Enum(String::from("compression_kind"), String::from("Zip"))
    );
    assert_eq!(
        *values.get(3),
        Value::Enum(String::from("compression_level"), String::from("Default"))
    );
    assert_eq!(
        *values.get(5),
        Value::Integer(String::from("min_free_space_gb"), 25)
    );
    assert_eq!(
        *values.get(8),
        Value::Enum(String::from("theme"), String::from("Dark"))
    );
    assert_eq!(
        *values.get(12),
        Value::String(String::from("log_file_dir"), String::from("/var/log"))
    );
    // The first two fields render the default record, not the given one.
    assert_eq!(
        *values.get(1),
        Value::Bool(String::from("compression_enable"), false)
    );
}

#[test]
fn controller_moves_between_tabs_and_body() {
    let mut app = Sanup::default();
    assert_eq!(app.tabs, SanupTabs::Main);
    app.on_key(Key::Char('l'));
    assert_eq!(app.tabs, SanupTabs::Processes);
    app.on_key(Key::Char('h'));
    assert_eq!(app.tabs, SanupTabs::Main);
    app.on_key(Key::Char('j'));
    assert!(app.focus.is_body());
    app.on_key(Key::Char('k'));
    assert!(app.focus.is_tabs());
}

#[test]
fn controller_opens_form_from_backups_tab() {
    let mut app = Sanup::default();
    // 'c' does nothing away from the backups tab.
    app.on_key(Key::Char('c'));
    assert!(app.focus.is_tabs());
    assert!(!app.input_form.is_active());
    app.on_key(Key::Char('l'));
    app.on_key(Key::Char('l'));
    assert!(app.tabs.is_backups());
    app.on_key(Key::Char('c'));
    assert!(app.focus.is_inputform());
    assert!(app.input_form.is_active());
    assert_eq!(app.input_form.values().len(), 5);
}

#[test]
fn controller_returns_focus_after_submit() {
    let mut app = Sanup::default();
    app.on_key(Key::Char('l'));
    app.on_key(Key::Char('l'));
    app.on_key(Key::Char('c'));
    // Toggle the boolean field, then confirm the form.
    app.on_key(Key::Char('k'));
    app.on_key(Key::Enter);
    assert!(app.input_form.is_submitted());
    assert!(app.focus.is_inputform());
    // The next key finds the form terminal and hands focus to the body.
    app.on_key(Key::Other);
    assert!(app.focus.is_body());
    let values = app.input_form.values();
    assert_eq!(*values.get(0), Value::Bool(String::from("BOOL"), true));
}

#[test]
fn controller_returns_focus_after_cancel() {
    let mut app = Sanup::default();
    app.on_key(Key::Char('l'));
    app.on_key(Key::Char('l'));
    app.on_key(Key::Char('c'));
    app.on_key(Key::Esc);
    assert!(app.input_form.is_cancelled());
    app.on_key(Key::Other);
    assert!(app.focus.is_body());
}
