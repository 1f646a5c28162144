use sanup::app::compression_kind::CompressionKind;
use sanup::input::boolfield::BoolField;
use sanup::input::enumfield::EnumField;
use sanup::input::enumfield::EnumFieldState;
use sanup::input::field::Field;
use sanup::input::field::Fields;
use sanup::input::inputfield::InputField;
use sanup::input::inputform::InputForm;
use sanup::input::inputlist::InputList;
use sanup::input::integerfield::IntegerField;
use sanup::input::stringfield::StringField;
use sanup::input::value::Value;
use sanup::key::Key;

fn bool_form() -> InputForm {
    let fields = Fields::new(vec![Field::Bool(InputField::<BoolField>::new("flag"))]);
    InputForm::new("test", fields)
}

fn mixed_fields() -> Fields {
    Fields::new(vec![
        Field::Bool(InputField::<BoolField>::new("flag")),
        Field::Integer(InputField::<IntegerField>::new("count")),
        Field::String(InputField::<StringField>::new("name")),
        Field::Enum(InputField::new_with_value(
            "mode",
            EnumField::from_capability(&CompressionKind::NoCompression),
        )),
    ])
}

#[test]
fn toggle_then_confirm_submits_true() {
    // A form with one boolean field defaulting to false: toggle then
    // confirm yields [("flag", true)] and a submitted lifecycle.
    let mut form = bool_form();
    form.on_key(Key::Char('k'));
    form.on_key(Key::Enter);
    assert!(form.is_submitted());
    let values = form.values();
    assert_eq!(values.0, vec![Value::Bool(String::from("flag"), true)]);
}

#[test]
fn cancel_always_cancels_active_form() {
    // Escape from any active state yields a cancelled lifecycle,
    // whatever the field contents.
    let mut form = InputForm::new("test", mixed_fields());
    form.on_key(Key::Char('9'));
    form.on_key(Key::Tab);
    form.on_key(Key::Char('x'));
    form.on_key(Key::Esc);
    assert!(form.is_cancelled());
    assert!(!form.is_active());
    let _ = form.values();
}

#[test]
fn popup_confirm_does_not_submit() {
    // With the focused field an enum field in its expanded state, confirm
    // collapses the popup and selects the highlighted variant; the form
    // stays active.
    let mut form = InputForm::new("test", Fields::new(vec![Field::Enum(
        InputField::new_with_value(
            "mode",
            EnumField::from_capability(&CompressionKind::NoCompression),
        ),
    )]));
    form.on_key(Key::Char('a'));
    form.on_key(Key::Char('j'));
    form.on_key(Key::Enter);
    assert!(form.is_active());
    assert!(!form.is_submitted());
    let values = form.values();
    assert_eq!(values.0, vec![Value::Enum(String::from("mode"), String::from("Zip"))]);
    // A second confirm, with the popup now collapsed, submits.
    form.on_key(Key::Enter);
    assert!(form.is_submitted());
}

#[test]
fn popup_swallows_lifecycle_keys() {
    let mut form = InputForm::new("test", Fields::new(vec![Field::Enum(
        InputField::new_with_value(
            "mode",
            EnumField::from_capability(&CompressionKind::NoCompression),
        ),
    )]));
    form.on_key(Key::Char('a'));
    // Escape while expanded collapses the popup instead of cancelling.
    form.on_key(Key::Esc);
    assert!(form.is_active());
    assert!(!form.is_cancelled());
}

#[test]
fn tab_advances_focus_cyclically() {
    let mut form = InputForm::new("test", mixed_fields());
    // Typing lands in the first (boolean) field: '5' is ignored there.
    form.on_key(Key::Tab);
    form.on_key(Key::Char('5'));
    form.on_key(Key::Tab);
    form.on_key(Key::Char('h'));
    form.on_key(Key::Char('i'));
    form.on_key(Key::Tab);
    form.on_key(Key::Tab);
    // Focus wrapped back to the boolean field.
    form.on_key(Key::Char('k'));
    form.on_key(Key::Enter);
    assert!(form.is_submitted());
    let values = form.values();
    assert_eq!(
        values.0,
        vec![
            Value::Bool(String::from("flag"), true),
            Value::Integer(String::from("count"), 5),
            Value::String(String::from("name"), String::from("hi")),
            Value::Enum(String::from("mode"), String::from("None")),
        ]
    );
}

#[test]
fn hidden_form_ignores_keys() {
    let mut form = InputForm::empty();
    form.on_key(Key::Esc);
    assert!(!form.is_cancelled());
    form.on_key(Key::Enter);
    assert!(!form.is_submitted());
}

#[test]
fn terminal_form_ignores_keys() {
    let mut form = bool_form();
    form.on_key(Key::Enter);
    assert!(form.is_submitted());
    form.on_key(Key::Esc);
    assert!(form.is_submitted());
    assert!(!form.is_cancelled());
}

#[test]
fn values_extracts_all_kinds_in_order() {
    let fields = mixed_fields();
    let values = fields.values();
    assert_eq!(values.len(), 4);
    assert_eq!(*values.get(0), Value::Bool(String::from("flag"), false));
    assert_eq!(*values.get(1), Value::Integer(String::from("count"), 0));
    assert_eq!(*values.get(2), Value::String(String::from("name"), String::new()));
    assert_eq!(*values.get(3), Value::Enum(String::from("mode"), String::from("None")));
}

#[test]
fn cursor_offset_tracks_display_text() {
    // The caret parks past the title, the ": " separator, and the value.
    let field = InputField::new_with_value("count", IntegerField::from_value(42));
    assert_eq!(field.cursor_offset(), 5 + 2 + 2);
    let field = InputField::new_with_value("flag", BoolField::from_value(false));
    assert_eq!(field.cursor_offset(), 4 + 5 + 2);
    // An enum field's caret parks at the popup toggle instead.
    let field = InputField::new_with_value(
        "mode",
        EnumField::from_capability(&CompressionKind::Zip),
    );
    assert_eq!(field.cursor_offset(), 4 + 1);
}

#[test]
fn form_cursor_offset_follows_focus() {
    let mut form = InputForm::new("test", mixed_fields());
    assert_eq!(form.cursor_offset(), 4 + 5 + 2);
    form.on_key(Key::Tab);
    form.on_key(Key::Char('7'));
    assert_eq!(form.cursor_offset(), 5 + 1 + 2);
}

#[test]
fn enum_field_accessors() {
    let mut e = EnumField::from_capability(&CompressionKind::Zip);
    assert!(!e.is_active());
    e.set_state(EnumFieldState::Active);
    assert!(e.is_active());
    assert_eq!(e.state(), EnumFieldState::Active);
    e.set_state(EnumFieldState::Hidden);
    assert_eq!(e.value(), "Zip");
}

#[test]
fn input_list_edits_fields_in_place() {
    let mut list = InputList::new(Some("settings"), true, mixed_fields());
    assert!(!list.is_active());
    assert!(!list.is_changed());
    assert!(!list.is_save_or_reset());
    list.on_key(Key::Tab);
    list.on_key(Key::Char('3'));
    // Escape and enter do nothing to a list.
    list.on_key(Key::Esc);
    list.on_key(Key::Enter);
    let values = list.values();
    assert_eq!(*values.get(1), Value::Integer(String::from("count"), 3));
}

#[test]
fn empty_list_survives_keys() {
    let mut list = InputList::default();
    list.on_key(Key::Tab);
    list.on_key(Key::Char('x'));
    assert_eq!(list.values().len(), 0);
}
