//! The settings of the sleep log: the default times of day that the prompts
//! offer, where the store lives, and the optional spreadsheet export.

use crate::clock::time_in;
use crate::clock::TimeFormatError;
use crate::clock::TimeOfDay;
use crate::text::same_text;
use std::path::Path;
use vstd::prelude::*;
use vstd::string::StringExecFns;

verus! {

/// The settings, as they are kept on disk.
#[derive(Clone, Debug)]
pub struct Config {
    pub start_time_default: String,
    pub end_time_default: String,
    pub db_file_path: String,
    pub google_sheets_id: Option<String>,
    pub google_credentials_path: Option<String>,
}

/// What a `Config` holds, as plain text.
pub struct ConfigView {
    pub start_time_default: Seq<char>,
    pub end_time_default: Seq<char>,
    pub db_file_path: Seq<char>,
    pub google_sheets_id: Option<Seq<char>>,
    pub google_credentials_path: Option<Seq<char>>,
}

/// The text of an optional string.
pub open spec fn optional_text(value: Option<String>) -> Option<Seq<char>> {
    match value {
        Some(text) => Some(text@),
        None => None,
    }
}

impl View for Config {
    type V = ConfigView;

    open spec fn view(&self) -> ConfigView {
        ConfigView {
            start_time_default: self.start_time_default@,
            end_time_default: self.end_time_default@,
            db_file_path: self.db_file_path@,
            google_sheets_id: optional_text(self.google_sheets_id),
            google_credentials_path: optional_text(self.google_credentials_path),
        }
    }
}

impl TimeFormatError {
    /// The message that tells a user what is wrong with the time they typed.
    pub open spec fn text(self) -> Seq<char> {
        match self {
            TimeFormatError::Shape => "Time must be in HH:MM format"@,
            TimeFormatError::Hours => "Hours must be a valid number"@,
            TimeFormatError::Minutes => "Minutes must be a valid number"@,
            TimeFormatError::HoursRange => "Hours must be between 0 and 23"@,
            TimeFormatError::MinutesRange => "Minutes must be between 0 and 59"@,
        }
    }

    /// The message that tells a user what is wrong with the time they typed.
    pub fn message(&self) -> (message: String)
        ensures
            message@ == self.text(),
    {
        match self {
            TimeFormatError::Shape => String::from_str("Time must be in HH:MM format"),
            TimeFormatError::Hours => String::from_str("Hours must be a valid number"),
            TimeFormatError::Minutes => String::from_str("Minutes must be a valid number"),
            TimeFormatError::HoursRange => String::from_str("Hours must be between 0 and 23"),
            TimeFormatError::MinutesRange => String::from_str("Minutes must be between 0 and 59"),
        }
    }
}

/// The message for a setting that does not exist.
pub open spec fn unknown_field_text(field: Seq<char>) -> Seq<char> {
    "Unknown field: "@ + field
}

/// How a setting that may have no value is shown.
pub open spec fn shown(value: Option<Seq<char>>) -> Seq<char> {
    match value {
        Some(text) => text,
        None => "Not set"@,
    }
}

impl ConfigView {
    /// The settings after `field` has been set to `value`, or the message
    /// that says why it cannot be: the two default times take a time of day
    /// only, and a name that is none of the five settings is refused.
    pub open spec fn update(self, field: Seq<char>, value: Seq<char>) -> Result<
        ConfigView,
        Seq<char>,
    > {
        if field == "start_time_default"@ {
            match time_in(value) {
                Ok(_) => Ok(ConfigView { start_time_default: value, ..self }),
                Err(error) => Err(error.text()),
            }
        } else if field == "end_time_default"@ {
            match time_in(value) {
                Ok(_) => Ok(ConfigView { end_time_default: value, ..self }),
                Err(error) => Err(error.text()),
            }
        } else if field == "db_file_path"@ {
            Ok(ConfigView { db_file_path: value, ..self })
        } else if field == "google_sheets_id"@ {
            Ok(ConfigView { google_sheets_id: Some(value), ..self })
        } else if field == "google_credentials_path"@ {
            Ok(ConfigView { google_credentials_path: Some(value), ..self })
        } else {
            Err(unknown_field_text(field))
        }
    }

    /// The lines that show the settings, kept in the file `config_file`, to
    /// the user. A setting that has no value is shown as `Not set`.
    pub open spec fn lines(self, config_file: Seq<char>) -> Seq<Seq<char>> {
        seq![
            "Current configuration:"@,
            "  Config file: "@ + config_file,
            "  start_time_default: "@ + self.start_time_default,
            "  end_time_default: "@ + self.end_time_default,
            "  db_file_path: "@ + self.db_file_path,
            "  google_sheets_id: "@ + shown(self.google_sheets_id),
            "  google_credentials_path: "@ + shown(self.google_credentials_path),
        ]
    }

    /// Whether both default times are times of day.
    pub open spec fn wf(self) -> bool {
        time_in(self.start_time_default) is Ok && time_in(self.end_time_default) is Ok
    }

    /// The settings of a fresh installation whose store is the file
    /// `db_file_path`.
    pub open spec fn initial(db_file_path: Seq<char>) -> ConfigView {
        ConfigView {
            start_time_default: "21:30"@,
            end_time_default: "05:30"@,
            db_file_path,
            google_sheets_id: None,
            google_credentials_path: None,
        }
    }
}

impl Config {
    /// The settings of a fresh installation whose store is the file
    /// `db_file_path`: to bed at 21:30, up at 05:30, no export.
    pub fn with_db_file(db_file_path: String) -> (config: Config)
        ensures
            config@ == ConfigView::initial(db_file_path@),
    {
        Config {
            start_time_default: String::from_str("21:30"),
            end_time_default: String::from_str("05:30"),
            db_file_path,
            google_sheets_id: None,
            google_credentials_path: None,
        }
    }

    /// The settings of a fresh installation for the user who runs the
    /// program, with the store under their home directory. Returns `None`
    /// where no home directory can be found. Whatever directory is found,
    /// the settings are those of `for_home` for it.
    pub fn for_current_user() -> (config: Option<Config>)
        ensures
            config matches Some(c) ==> exists|home: Seq<char>|
                c@ == ConfigView::initial(#[trigger] default_db_file(home)),
    {
        let home = home_dir();
        let ghost found = home;
        let config = Config::for_home(home);
        proof {
            if config is Some {
                assert(config->Some_0@ == ConfigView::initial(default_db_file(found->Some_0@)));
            }
        }
        config
    }

    /// The settings of a fresh installation for a user whose home directory
    /// was looked up as `home`: the usual defaults, with the store in the
    /// file `slog.db` under `.local`, `share`, `slog` in that directory.
    /// Returns `None` exactly where no home directory was found.
    pub fn for_home(home: Option<String>) -> (config: Option<Config>)
        ensures
            config is Some <==> home is Some,
            config matches Some(c) ==> c@ == ConfigView::initial(
                default_db_file(home->Some_0@),
            ),
    {
        match home {
            Some(home) => {
                let local = join_path(home.as_str(), ".local");
                let share = join_path(local.as_str(), "share");
                let slog = join_path(share.as_str(), "slog");
                let db_file = join_path(slog.as_str(), "slog.db");
                Some(Config::with_db_file(db_file))
            },
            None => None,
        }
    }

    /// Sets the setting named `field` to `value`. The two default times are
    /// set only to a time of day; any other text leaves the settings as they
    /// were and gives the message that says what is wrong with it, as does a
    /// name that is none of the five settings.
    pub fn update_field(&mut self, field: &str, value: String) -> (result: Result<(), String>)
        ensures
            match old(self)@.update(field@, value@) {
                Ok(updated) => result is Ok && final(self)@ == updated,
                Err(text) => (result matches Err(message) && message@ == text) && final(self)@
                    == old(self)@,
            },
    {
        if same_text(field, "start_time_default") {
            match Config::validate_time_format(value.as_str()) {
                Ok(()) => {
                    self.start_time_default = value;
                    Ok(())
                },
                Err(message) => Err(message),
            }
        } else if same_text(field, "end_time_default") {
            match Config::validate_time_format(value.as_str()) {
                Ok(()) => {
                    self.end_time_default = value;
                    Ok(())
                },
                Err(message) => Err(message),
            }
        } else if same_text(field, "db_file_path") {
            self.db_file_path = value;
            Ok(())
        } else if same_text(field, "google_sheets_id") {
            self.google_sheets_id = Some(value);
            Ok(())
        } else if same_text(field, "google_credentials_path") {
            self.google_credentials_path = Some(value);
            Ok(())
        } else {
            Err(String::from_str("Unknown field: ").concat(field))
        }
    }

    /// The lines that show the settings to the user, with the path of the
    /// file that holds them.
    pub fn report_lines(&self, config_file: &str) -> (lines: Vec<String>)
        ensures
            lines.deep_view() == self@.lines(config_file@),
    {
        let mut lines: Vec<String> = Vec::new();
        lines.push(String::from_str("Current configuration:"));
        lines.push(String::from_str("  Config file: ").concat(config_file));
        lines.push(
            String::from_str("  start_time_default: ").concat(self.start_time_default.as_str()),
        );
        lines.push(
            String::from_str("  end_time_default: ").concat(self.end_time_default.as_str()),
        );
        lines.push(String::from_str("  db_file_path: ").concat(self.db_file_path.as_str()));
        lines.push(
            String::from_str("  google_sheets_id: ").concat(
                match &self.google_sheets_id {
                    Some(id) => id.as_str(),
                    None => "Not set",
                },
            ),
        );
        lines.push(
            String::from_str("  google_credentials_path: ").concat(
                match &self.google_credentials_path {
                    Some(path) => path.as_str(),
                    None => "Not set",
                },
            ),
        );
        assert(lines.deep_view() =~= self@.lines(config_file@));
        lines
    }

    /// The address of the store: `sqlite:` followed by the path of its file.
    pub fn get_db_url(&self) -> (url: String)
        ensures
            url@ == "sqlite:"@ + self@.db_file_path,
    {
        String::from_str("sqlite:").concat(self.db_file_path.as_str())
    }

    /// Accepts `input` if it is a time of day, and otherwise says what is
    /// wrong with it.
    pub fn validate_time_format(input: &str) -> (result: Result<(), String>)
        ensures
            match time_in(input@) {
                Ok(_) => result is Ok,
                Err(error) => result matches Err(message) && message@ == error.text(),
            },
    {
        match TimeOfDay::parse(input) {
            Ok(_) => Ok(()),
            Err(error) => Err(error.message()),
        }
    }
}

/// Calls `dirs::home_dir`, which asks the operating system for the home
/// directory of the current user. Nothing is claimed of the result.
#[verifier::external_body]
fn home_dir() -> Option<String> {
    dirs::home_dir().map(|path| path.to_string_lossy().into_owned())
}

/// The path that `std::path::Path::join` makes of the path `base` and the
/// part `part`, as the platform the library is built for writes paths.
pub uninterp spec fn joined_path(base: Seq<char>, part: Seq<char>) -> Seq<char>;

/// The file that holds the store of a fresh installation, for a user whose
/// home directory is `home`: `slog.db` under `.local`, `share`, `slog`.
pub open spec fn default_db_file(home: Seq<char>) -> Seq<char> {
    joined_path(
        joined_path(joined_path(joined_path(home, ".local"@), "share"@), "slog"@),
        "slog.db"@,
    )
}

/// Calls `std::path::Path::join`, which appends `part` to the path `base` as
/// the platform writes paths. Trusted: the result depends on the two texts
/// alone. What it is on given texts is not said.
#[verifier::external_body]
fn join_path(base: &str, part: &str) -> (joined: String)
    ensures
        joined@ == joined_path(base@, part@),
{
    Path::new(base).join(part).to_string_lossy().into_owned()
}

/// Setting a field on settings whose default times are times of day leaves
/// them so, whether the update is accepted or refused.
pub proof fn lemma_update_keeps_times_valid(config: ConfigView, field: Seq<char>, value: Seq<char>)
    requires
        config.wf(),
    ensures
        config.update(field, value) matches Ok(updated) ==> updated.wf(),
{
}

} // verus!
