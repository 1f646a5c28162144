use sanup::app::compression_kind::CompressionKind;
use sanup::app::compression_level::CompressionLevel;
use sanup::app::hash_algorithm::HashAlgorithm;
use sanup::app::log_level::LogLevel;
use sanup::app::theme::Theme;
use sanup::input::enumfield::EnumField;
use sanup::input::enumfield::EnumFieldState;
use sanup::input::enumvariants::EmptyEnum;
use sanup::input::enumvariants::EnumVariants;
use sanup::input::inputfieldtype::InputType;
use sanup::key::Key;

#[test]
fn theme_labels_and_default() {
    assert_eq!(
        Theme::Dark.variants(),
        vec!["Dark", "Kanagawa", "Nord", "Dracula", "TokyoNight"]
    );
    assert_eq!(Theme::Nord.to_string(), "Nord");
    assert_eq!(Theme::Nord.default(), Theme::Dark);
    assert_eq!(Theme::Dark.longest(), "TokyoNight");
}

#[test]
fn theme_resolution_round_trips() {
    // Every variant's own label resolves back to that variant.
    for v in [
        Theme::Dark,
        Theme::Kanagawa,
        Theme::Nord,
        Theme::Dracula,
        Theme::TokyoNight,
    ] {
        assert_eq!(v.from_string(v.to_string()), v);
    }
}

#[test]
fn theme_resolution_is_total() {
    // An unrecognised label resolves to the default, never an error.
    assert_eq!(Theme::Nord.from_string(String::from("dark")), Theme::Dark);
    assert_eq!(Theme::Nord.from_string(String::new()), Theme::Dark);
    assert_eq!(
        Theme::Nord.from_string(String::from("anything else")),
        Theme::Dark
    );
}

#[test]
fn compression_kind_capability() {
    assert_eq!(CompressionKind::NoCompression.variants(), vec!["None", "Zip"]);
    assert_eq!(CompressionKind::NoCompression.to_string(), "None");
    assert_eq!(CompressionKind::Zip.to_string(), "Zip");
    assert_eq!(
        CompressionKind::Zip.from_string(String::from("Zip")),
        CompressionKind::Zip
    );
    assert_eq!(
        CompressionKind::Zip.from_string(String::from("gzip")),
        CompressionKind::NoCompression
    );
}

#[test]
fn compression_level_capability() {
    assert_eq!(CompressionLevel::Standard.variants(), vec!["Default", "Best"]);
    assert_eq!(CompressionLevel::Standard.to_string(), "Default");
    assert_eq!(
        CompressionLevel::Standard.from_string(String::from("Best")),
        CompressionLevel::Best
    );
    assert_eq!(
        CompressionLevel::Best.from_string(String::from("Default")),
        CompressionLevel::Standard
    );
    assert_eq!(
        CompressionLevel::Best.from_string(String::from("fastest")),
        CompressionLevel::Standard
    );
}

#[test]
fn hash_algorithm_capability() {
    assert_eq!(HashAlgorithm::Sha256.variants(), vec!["Sha256"]);
    assert_eq!(
        HashAlgorithm::Sha256.from_string(String::from("Md5")),
        HashAlgorithm::Sha256
    );
}

#[test]
fn log_level_capability() {
    assert_eq!(
        LogLevel::Info.variants(),
        vec!["Error", "Warn", "Info", "Debug", "Trace"]
    );
    assert_eq!(LogLevel::Trace.default(), LogLevel::Info);
    assert_eq!(LogLevel::Info.from_string(String::from("Trace")), LogLevel::Trace);
    assert_eq!(LogLevel::Info.from_string(String::from("verbose")), LogLevel::Info);
    assert_eq!(LogLevel::Error.longest(), "Error");
}

#[test]
fn empty_enum_has_no_variants() {
    assert_eq!(EmptyEnum::Empty.variants(), Vec::<String>::new());
    assert_eq!(EmptyEnum::Empty.to_string(), "");
    assert_eq!(EmptyEnum::Empty.from_string(String::from("x")), EmptyEnum::Empty);
}

#[test]
fn enum_cell_selection_scenario() {
    // An enum field over ["None", "Zip"] starting at "None": activate,
    // move down, confirm yields current label "Zip".
    let mut e = EnumField::from_capability(&CompressionKind::NoCompression);
    assert_eq!(e.to_string(), "None");
    assert_eq!(e.state(), EnumFieldState::Hidden);
    e.on_key(Key::Char('a'));
    assert_eq!(e.state(), EnumFieldState::Active);
    e.on_key(Key::Char('j'));
    e.on_key(Key::Enter);
    assert_eq!(e.state(), EnumFieldState::Hidden);
    assert_eq!(e.to_string(), "Zip");
}

#[test]
fn enum_cell_cancel_resets_to_default() {
    let mut e = EnumField::from_capability(&Theme::Nord);
    assert_eq!(e.to_string(), "Nord");
    e.on_key(Key::Char('a'));
    e.on_key(Key::Esc);
    assert_eq!(e.state(), EnumFieldState::Hidden);
    assert_eq!(e.to_string(), "Dark");
}

#[test]
fn enum_cell_selection_wraps_both_ways() {
    let mut e = EnumField::from_capability(&CompressionKind::NoCompression);
    e.on_key(Key::Char('a'));
    // Selection starts at "None"; moving up wraps to the last label.
    e.on_key(Key::Char('k'));
    e.on_key(Key::Enter);
    assert_eq!(e.to_string(), "Zip");
    e.on_key(Key::Char('a'));
    // Selection re-derives from "Zip"; moving down wraps to the first.
    e.on_key(Key::Char('j'));
    e.on_key(Key::Enter);
    assert_eq!(e.to_string(), "None");
}

#[test]
fn enum_cell_reactivation_rederives_selection() {
    // Cancelling resets the value to the default label; expanding again
    // re-derives the selection cursor from that current label, not from
    // the stale position.
    let mut e = EnumField::from_capability(&Theme::Nord);
    e.on_key(Key::Char('a'));
    e.on_key(Key::Esc);
    assert_eq!(e.to_string(), "Dark");
    e.on_key(Key::Char('a'));
    e.on_key(Key::Char('j'));
    e.on_key(Key::Enter);
    assert_eq!(e.to_string(), "Kanagawa");
}

#[test]
fn enum_cell_collapsed_ignores_other_keys() {
    let mut e = EnumField::from_capability(&Theme::Dracula);
    e.on_key(Key::Char('j'));
    e.on_key(Key::Enter);
    assert_eq!(e.state(), EnumFieldState::Hidden);
    assert_eq!(e.to_string(), "Dracula");
}

#[test]
fn enum_cell_over_empty_capability_stays_put() {
    let mut e = EnumField::from_capability(&EmptyEnum::Empty);
    e.on_key(Key::Char('a'));
    e.on_key(Key::Char('j'));
    e.on_key(Key::Char('k'));
    e.on_key(Key::Enter);
    assert_eq!(e.to_string(), "");
    assert_eq!(e.state(), EnumFieldState::Hidden);
}

#[test]
fn enum_cell_value_matches_label() {
    let e = EnumField::from_capability(&Theme::Kanagawa);
    assert_eq!(e.value(), "Kanagawa");
    assert_eq!(InputType::value(&e), "Kanagawa");
}
