//! The persisted settings record and its rendering as a field collection.
//!
//! Paths and identifiers are held as plain text, so the whole record is
//! visible to verification; the surrounding application converts them to
//! its own path and identifier types at the boundary.

use vstd::prelude::*;
use vstd::string::StringExecFns;

use crate::app::compression_kind::CompressionKind;
use crate::app::compression_level::CompressionLevel;
use crate::app::hash_algorithm::HashAlgorithm;
use crate::app::log_level::LogLevel;
use crate::app::theme::Theme;
use crate::input::boolfield::BoolField;
use crate::input::enumfield::spec_enum_cell;
use crate::input::enumfield::EnumField;
use crate::input::field::Field;
use crate::input::field::FieldView;
use crate::input::field::Fields;
use crate::input::inputfield::InputField;
use crate::input::inputfield::InputFieldKind;
use crate::input::inputfield::InputFieldView;
use crate::input::integerfield::IntegerField;
use crate::input::stringfield::StringField;
use crate::input::stringfield::StringFieldView;

verus! {

/// A disk the application watches for backups.
#[derive(Clone, Debug, PartialEq)]
pub struct WatchedDisk {
    pub id: String,
    pub label: Option<String>,
    pub mount_path: String,
    pub backup_profile: Option<String>,
}

/// The mathematical view of a watched disk.
pub struct WatchedDiskView {
    pub id: Seq<char>,
    pub label: Option<Seq<char>>,
    pub mount_path: Seq<char>,
    pub backup_profile: Option<Seq<char>>,
}

impl View for WatchedDisk {
    type V = WatchedDiskView;

    open spec fn view(&self) -> WatchedDiskView {
        WatchedDiskView {
            id: self.id@,
            label: spec_opt_text(self.label),
            mount_path: self.mount_path@,
            backup_profile: spec_opt_text(self.backup_profile),
        }
    }
}

/// The view of an optional text value.
pub open spec fn spec_opt_text(o: Option<String>) -> Option<Seq<char>> {
    match o {
        Some(s) => Some(s@),
        None => None,
    }
}

/// The application's persisted settings.
#[derive(Clone, Debug, PartialEq)]
pub struct Settings {
    pub default_backup_dir: String,
    pub compression_enable: bool,
    pub compression_kind: CompressionKind,
    pub compression_level: CompressionLevel,
    pub check_free_space_before_backup: bool,
    pub min_free_space_gb: u64,
    pub verify_after_backup: bool,
    pub hash_algorithm: HashAlgorithm,
    pub theme: Theme,
    pub show_hidden_files: bool,
    pub log_level: LogLevel,
    pub log_to_file: bool,
    pub log_file_dir: Option<String>,
    pub watched_disk: Vec<WatchedDisk>,
}

/// The mathematical view of a settings record.
pub struct SettingsView {
    pub default_backup_dir: Seq<char>,
    pub compression_enable: bool,
    pub compression_kind: CompressionKind,
    pub compression_level: CompressionLevel,
    pub check_free_space_before_backup: bool,
    pub min_free_space_gb: u64,
    pub verify_after_backup: bool,
    pub hash_algorithm: HashAlgorithm,
    pub theme: Theme,
    pub show_hidden_files: bool,
    pub log_level: LogLevel,
    pub log_to_file: bool,
    pub log_file_dir: Option<Seq<char>>,
    pub watched_disk: Seq<WatchedDiskView>,
}

impl View for Settings {
    type V = SettingsView;

    open spec fn view(&self) -> SettingsView {
        SettingsView {
            default_backup_dir: self.default_backup_dir@,
            compression_enable: self.compression_enable,
            compression_kind: self.compression_kind,
            compression_level: self.compression_level,
            check_free_space_before_backup: self.check_free_space_before_backup,
            min_free_space_gb: self.min_free_space_gb,
            verify_after_backup: self.verify_after_backup,
            hash_algorithm: self.hash_algorithm,
            theme: self.theme,
            show_hidden_files: self.show_hidden_files,
            log_level: self.log_level,
            log_to_file: self.log_to_file,
            log_file_dir: spec_opt_text(self.log_file_dir),
            watched_disk: self.watched_disk@.map_values(|d: WatchedDisk| d@),
        }
    }
}

/// The default backup directory: a `Backups` folder under the home
/// directory, or a relative one when no home directory is known.
pub open spec fn spec_default_backup_dir(home: Option<Seq<char>>) -> Seq<char> {
    match home {
        Some(h) => h + "/Backups"@,
        None => "./Backups"@,
    }
}

/// The default settings record, given the home directory the platform
/// reported.
pub open spec fn spec_default_settings(home: Option<Seq<char>>) -> SettingsView {
    SettingsView {
        default_backup_dir: spec_default_backup_dir(home),
        compression_enable: false,
        compression_kind: CompressionKind::NoCompression,
        compression_level: CompressionLevel::Standard,
        check_free_space_before_backup: true,
        min_free_space_gb: 10,
        verify_after_backup: true,
        hash_algorithm: HashAlgorithm::Sha256,
        theme: Theme::Dark,
        show_hidden_files: true,
        log_level: LogLevel::Info,
        log_to_file: false,
        log_file_dir: None,
        watched_disk: Seq::empty(),
    }
}

/// Relies on `dirs::home_dir`: the user's home directory as the platform
/// reports it, if any.  The result depends on the environment, so nothing
/// is promised of it.
#[verifier::external_body]
fn home_dir_text() -> Option<String> {
    dirs::home_dir().and_then(|p| p.to_str().map(|s| s.to_string()))
}

/// The field collection a settings record renders as.  The first two
/// fields show the default record's directory and compression switch;
/// every other field shows the record itself.
pub open spec fn spec_settings_fields(s: SettingsView, def: SettingsView) -> Seq<FieldView> {
    seq![
        FieldView::String(
            InputFieldView {
                title: "default_backup_dir"@,
                kind: InputFieldKind::String,
                value: StringFieldView { focus: false, text: def.default_backup_dir },
            },
        ),
        FieldView::Bool(
            InputFieldView {
                title: "compression_enable"@,
                kind: InputFieldKind::Bool,
                value: BoolField { focus: false, value: def.compression_enable },
            },
        ),
        FieldView::Enum(
            InputFieldView {
                title: "compression_kind"@,
                kind: InputFieldKind::Enum,
                value: spec_enum_cell::<CompressionKind>(s.compression_kind),
            },
        ),
        FieldView::Enum(
            InputFieldView {
                title: "compression_level"@,
                kind: InputFieldKind::Enum,
                value: spec_enum_cell::<CompressionLevel>(s.compression_level),
            },
        ),
        FieldView::Bool(
            InputFieldView {
                title: "check_free_space_before_backup"@,
                kind: InputFieldKind::Bool,
                value: BoolField { focus: false, value: s.check_free_space_before_backup },
            },
        ),
        FieldView::Integer(
            InputFieldView {
                title: "min_free_space_gb"@,
                kind: InputFieldKind::Integer,
                value: IntegerField { focus: false, value: s.min_free_space_gb as i64 },
            },
        ),
        FieldView::Bool(
            InputFieldView {
                title: "verify_after_backup"@,
                kind: InputFieldKind::Bool,
                value: BoolField { focus: false, value: s.verify_after_backup },
            },
        ),
        FieldView::Enum(
            InputFieldView {
                title: "hash_algorithm"@,
                kind: InputFieldKind::Enum,
                value: spec_enum_cell::<HashAlgorithm>(s.hash_algorithm),
            },
        ),
        FieldView::Enum(
            InputFieldView {
                title: "theme"@,
                kind: InputFieldKind::Enum,
                value: spec_enum_cell::<Theme>(s.theme),
            },
        ),
        FieldView::Bool(
            InputFieldView {
                title: "show_hidden_files"@,
                kind: InputFieldKind::Bool,
                value: BoolField { focus: false, value: s.show_hidden_files },
            },
        ),
        FieldView::Enum(
            InputFieldView {
                title: "log_level"@,
                kind: InputFieldKind::Enum,
                value: spec_enum_cell::<LogLevel>(s.log_level),
            },
        ),
        FieldView::Bool(
            InputFieldView {
                title: "log_to_file"@,
                kind: InputFieldKind::Bool,
                value: BoolField { focus: false, value: s.log_to_file },
            },
        ),
        FieldView::String(
            InputFieldView {
                title: "log_file_dir"@,
                kind: InputFieldKind::String,
                value: StringFieldView {
                    focus: false,
                    text: match s.log_file_dir {
                        Some(d) => d,
                        None => Seq::empty(),
                    },
                },
            },
        ),
    ]
}

impl Settings {
    /// The default record, given the home directory text the platform
    /// reported.
    pub fn default_with_home(home: Option<String>) -> (r: Self)
        ensures
            r@ == spec_default_settings(spec_opt_text(home)),
    {
        let dir: String = match home {
            Some(h) => {
                let mut d = h;
                d.append("/Backups");
                d
            },
            None => String::from_str("./Backups"),
        };
        let r = Settings {
            default_backup_dir: dir,
            compression_enable: false,
            compression_kind: CompressionKind::NoCompression,
            compression_level: CompressionLevel::Standard,
            check_free_space_before_backup: true,
            min_free_space_gb: 10,
            verify_after_backup: true,
            hash_algorithm: HashAlgorithm::Sha256,
            theme: Theme::Dark,
            show_hidden_files: true,
            log_level: LogLevel::Info,
            log_to_file: false,
            log_file_dir: None,
            watched_disk: Vec::new(),
        };
        proof {
            assert(r.watched_disk@.map_values(|d: WatchedDisk| d@) =~= Seq::<
                WatchedDiskView,
            >::empty());
        }
        r
    }

    /// Renders the record as an editable field collection, one field per
    /// setting shown in the settings screen.
    pub fn into_fields(self) -> (r: Fields)
        ensures
            exists|home: Option<Seq<char>>|
                r@ == spec_settings_fields(self@, spec_default_settings(home)),
    {
        let def = Settings::default();
        let ghost home = choose|home: Option<Seq<char>>| def@ == spec_default_settings(home);
        let mut v: Vec<Field> = Vec::new();
        v.push(
            Field::String(
                InputField::new_with_value(
                    "default_backup_dir",
                    StringField::from_text(def.default_backup_dir.as_str()),
                ),
            ),
        );
        v.push(
            Field::Bool(
                InputField::new_with_value(
                    "compression_enable",
                    BoolField::from_value(def.compression_enable),
                ),
            ),
        );
        v.push(
            Field::Enum(
                InputField::new_with_value(
                    "compression_kind",
                    EnumField::from_capability(&self.compression_kind),
                ),
            ),
        );
        v.push(
            Field::Enum(
                InputField::new_with_value(
                    "compression_level",
                    EnumField::from_capability(&self.compression_level),
                ),
            ),
        );
        v.push(
            Field::Bool(
                InputField::new_with_value(
                    "check_free_space_before_backup",
                    BoolField::from_value(self.check_free_space_before_backup),
                ),
            ),
        );
        v.push(
            Field::Integer(
                InputField::new_with_value(
                    "min_free_space_gb",
                    IntegerField::from_value(#[verifier::truncate] (self.min_free_space_gb as i64)),
                ),
            ),
        );
        v.push(
            Field::Bool(
                InputField::new_with_value(
                    "verify_after_backup",
                    BoolField::from_value(self.verify_after_backup),
                ),
            ),
        );
        v.push(
            Field::Enum(
                InputField::new_with_value(
                    "hash_algorithm",
                    EnumField::from_capability(&self.hash_algorithm),
                ),
            ),
        );
        v.push(
            Field::Enum(InputField::new_with_value("theme", EnumField::from_capability(&self.theme))),
        );
        v.push(
            Field::Bool(
                InputField::new_with_value(
                    "show_hidden_files",
                    BoolField::from_value(self.show_hidden_files),
                ),
            ),
        );
        v.push(
            Field::Enum(
                InputField::new_with_value("log_level", EnumField::from_capability(&self.log_level)),
            ),
        );
        v.push(
            Field::Bool(
                InputField::new_with_value("log_to_file", BoolField::from_value(self.log_to_file)),
            ),
        );
        let dir_text: String = match &self.log_file_dir {
            Some(d) => d.clone(),
            None => String::new(),
        };
        v.push(
            Field::String(
                InputField::new_with_value("log_file_dir", StringField::from_text(dir_text.as_str())),
            ),
        );
        let r = Fields::new(v);
        proof {
            assert(r@ =~= spec_settings_fields(self@, spec_default_settings(home)));
        }
        r
    }
}

impl Default for Settings {
    /// The default record: the platform's home directory decides the
    /// backup directory; every other field has a fixed default.
    fn default() -> (r: Self)
        ensures
            exists|home: Option<Seq<char>>| r@ == spec_default_settings(home),
    {
        let home = home_dir_text();
        let r = Settings::default_with_home(home);
        proof {
            assert(exists|h: Option<Seq<char>>| r@ == spec_default_settings(h)) by {
                assert(r@ == spec_default_settings(spec_opt_text(home)));
            }
        }
        r
    }
}

} // verus!
