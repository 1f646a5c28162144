//! The application controller: routes keys between the tab bar, the body,
//! and the input form overlay.

use vstd::prelude::*;

use crate::app::focus::SanupFocus;
use crate::app::settings::spec_default_settings;
use crate::app::settings::Settings;
use crate::app::settings::SettingsView;
use crate::app::tabs::spec_tabs_next;
use crate::app::tabs::spec_tabs_prev;
use crate::app::tabs::SanupTabs;
use crate::app::theme::Theme;
use crate::input::boolfield::BoolField;
use crate::input::enumfield::spec_enum_cell;
use crate::input::enumvariants::EnumVariants;
use crate::input::enumfield::EnumField;
use crate::input::field::spec_field_wf;
use crate::input::field::spec_fields_set_focus;
use crate::input::field::Field;
use crate::input::field::FieldView;
use crate::input::field::Fields;
use crate::input::floatfield::FloatField;
use crate::input::inputfield::InputField;
use crate::input::inputfield::InputFieldKind;
use crate::input::inputfield::InputFieldView;
use crate::input::inputfieldtype::InputType;
use crate::input::inputform::spec_form_on_key;
use crate::input::inputform::spec_form_wf;
use crate::input::inputform::InputForm;
use crate::input::inputform::InputFormState;
use crate::input::inputform::InputFormView;
use crate::input::inputlist::spec_list_wf;
use crate::input::inputlist::InputList;
use crate::input::inputlist::InputListView;
use crate::input::integerfield::IntegerField;
use crate::input::stringfield::StringField;
use crate::key::Key;
use vstd::string::StringExecFns;

verus! {

/// The application: its title, focus, selected tab, settings, and the two
/// editable widgets.
#[derive(Debug)]
pub struct Sanup {
    pub title: String,
    pub focus: SanupFocus,
    pub tabs: SanupTabs,
    pub settings: Settings,
    pub input_form: InputForm,
    pub input_list: InputList,
}

/// The mathematical view of the application.
pub struct SanupView {
    pub title: Seq<char>,
    pub focus: SanupFocus,
    pub tabs: SanupTabs,
    pub settings: SettingsView,
    pub input_form: InputFormView,
    pub input_list: InputListView,
}

impl View for Sanup {
    type V = SanupView;

    open spec fn view(&self) -> SanupView {
        SanupView {
            title: self.title@,
            focus: self.focus,
            tabs: self.tabs,
            settings: self.settings@,
            input_form: self.input_form@,
            input_list: self.input_list@,
        }
    }
}

/// Well-formedness of the application: its form and list are well-formed.
pub open spec fn spec_sanup_wf(v: SanupView) -> bool {
    &&& spec_form_wf(v.input_form)
    &&& spec_list_wf(v.input_list)
}

/// The fields of the demonstration form opened from the backups tab: one
/// field of every kind, the enum field over the colour themes.
pub open spec fn spec_demo_form_fields() -> Seq<FieldView> {
    seq![
        FieldView::Bool(
            InputFieldView {
                title: "BOOL"@,
                kind: InputFieldKind::Bool,
                value: BoolField::spec_default(),
            },
        ),
        FieldView::Integer(
            InputFieldView {
                title: "INTEGER"@,
                kind: InputFieldKind::Integer,
                value: IntegerField::spec_default(),
            },
        ),
        FieldView::Float(
            InputFieldView {
                title: "FLOAT"@,
                kind: InputFieldKind::Float,
                value: FloatField::spec_default(),
            },
        ),
        FieldView::String(
            InputFieldView {
                title: "STRING"@,
                kind: InputFieldKind::String,
                value: StringField::spec_default(),
            },
        ),
        FieldView::Enum(
            InputFieldView {
                title: "ENUM"@,
                kind: InputFieldKind::Enum,
                value: spec_enum_cell::<Theme>(Theme::Dark),
            },
        ),
    ]
}

/// The demonstration form as constructed: active, focused on its first
/// field.
pub open spec fn spec_demo_form() -> InputFormView {
    InputFormView {
        state: InputFormState::Active,
        title: "TEST INPUTFORM"@,
        focus_idx: 0,
        fields: spec_fields_set_focus(spec_demo_form_fields(), 0),
    }
}

/// The application after one key event.
///
/// With focus on the tab bar: `l` and `h` move between tabs, `j` drops
/// focus into the body, and `c` on the backups tab opens the demonstration
/// form.  With focus on the body, `k` returns to the tab bar.  With focus
/// on the form: a form already submitted or cancelled hands focus back to
/// the body, and the key then goes to the form itself.
pub open spec fn spec_sanup_on_key(s: SanupView, key: Key) -> SanupView {
    match s.focus {
        SanupFocus::Tabs => match key {
            Key::Char(c) => {
                if c == 'l' {
                    SanupView { tabs: spec_tabs_next(s.tabs), ..s }
                } else if c == 'h' {
                    SanupView { tabs: spec_tabs_prev(s.tabs), ..s }
                } else if c == 'j' {
                    SanupView { focus: SanupFocus::Body, ..s }
                } else if c == 'c' {
                    if s.tabs == SanupTabs::Backups {
                        SanupView { input_form: spec_demo_form(), focus: SanupFocus::InputForm, ..s }
                    } else {
                        s
                    }
                } else {
                    s
                }
            },
            _ => s,
        },
        SanupFocus::Body => {
            if key == Key::Char('k') {
                SanupView { focus: SanupFocus::Tabs, ..s }
            } else {
                s
            }
        },
        SanupFocus::InputForm => {
            let focus = if s.input_form.state == InputFormState::Submitted || s.input_form.state
                == InputFormState::Cancelled {
                SanupFocus::Body
            } else {
                s.focus
            };
            SanupView { focus, input_form: spec_form_on_key(s.input_form, key), ..s }
        },
    }
}

impl Sanup {
    fn demo_form() -> (r: InputForm)
        ensures
            r@ == spec_demo_form(),
            spec_form_wf(r@),
    {
        let mut v: Vec<Field> = Vec::new();
        v.push(Field::Bool(InputField::new("BOOL")));
        v.push(Field::Integer(InputField::new("INTEGER")));
        v.push(Field::Float(InputField::new("FLOAT")));
        v.push(Field::String(InputField::new("STRING")));
        v.push(
            Field::Enum(
                InputField::new_with_value("ENUM", EnumField::from_capability(&Theme::Dark)),
            ),
        );
        let fields = Fields::new(v);
        proof {
            assert(fields@ =~= spec_demo_form_fields());
            assert forall|i: int| 0 <= i < fields@.len() implies spec_field_wf(
                #[trigger] fields@[i],
            ) by {
                crate::input::enumfield::lemma_position_or_zero_in_range(
                    Theme::spec_variant_labels(),
                    Theme::Dark.spec_label(),
                );
            }
        }
        InputForm::new("TEST INPUTFORM", fields)
    }

    /// Reacts to one key event, as `spec_sanup_on_key` describes.
    pub fn on_key(&mut self, key: Key)
        requires
            spec_sanup_wf(old(self)@),
        ensures
            final(self)@ == spec_sanup_on_key(old(self)@, key),
            spec_sanup_wf(final(self)@),
    {
        match self.focus {
            SanupFocus::Tabs => {
                if let Key::Char(c) = key {
                    if c == 'l' {
                        self.tabs.next();
                    } else if c == 'h' {
                        self.tabs.prev();
                    } else if c == 'j' {
                        if self.focus.is_tabs() {
                            self.focus.to_body();
                        }
                    } else if c == 'c' {
                        if self.tabs.is_backups() {
                            self.input_form = Self::demo_form();
                            self.focus.to_inputform();
                        }
                    }
                }
            },
            SanupFocus::Body => {
                if let Key::Char(c) = key {
                    if c == 'k' {
                        self.focus.to_tabs();
                    }
                }
            },
            SanupFocus::InputForm => {
                if self.input_form.is_submitted() {
                    self.focus.to_body();
                } else if self.input_form.is_cancelled() {
                    self.focus.to_body();
                }
                self.input_form.on_key(key);
            },
        }
    }
}

impl Default for Sanup {
    /// The fresh application: focus on the tab bar, the main tab selected,
    /// default settings, and empty form and list placeholders.
    fn default() -> (r: Self)
        ensures
            r@.title == "Sanup"@,
            r@.focus == SanupFocus::Tabs,
            r@.tabs == SanupTabs::Main,
            exists|home: Option<Seq<char>>| r@.settings == spec_default_settings(home),
            r@.input_form == InputForm::spec_empty(),
            r@.input_list == InputList::spec_empty(),
            spec_sanup_wf(r@),
    {
        Sanup {
            title: String::from_str("Sanup"),
            focus: SanupFocus::Tabs,
            tabs: SanupTabs::Main,
            settings: Settings::default(),
            input_form: InputForm::default(),
            input_list: InputList::default(),
        }
    }
}

} // verus!
