//! The fixed names, limits and formats of the program.

use vstd::prelude::*;

verus! {

/// The directory of the configuration, below the user's configuration directory.
pub const CONFIG_DIR_NAME: &'static str = "rust-kanban";

/// The configuration file.
pub const CONFIG_FILE_NAME: &'static str = "config.json";

/// The directory of the save files, below the directory for temporary files.
pub const SAVE_DIR_NAME: &'static str = "rust_kanban";

/// The pattern of the names of save files.
pub const SAVE_FILE_REGEX: &'static str = "^kanban_\\d{2}-\\d{2}-\\d{4}_v\\d+.json";

/// The notation of the date in the name of a save file.
pub const SAVE_FILE_DATE_FORMAT: &'static str = "%d-%m-%Y";

/// The notation of the time at which a cloud save was made, without fractions of a second.
pub const CLOUD_TIMESTAMP_FORMAT: &'static str = "%Y-%m-%dT%H:%M:%S";

/// The file that holds the user's encryption key.
pub const ENCRYPTION_KEY_FILE_NAME: &'static str = "kanban_encryption_key";

/// The file that holds the access token between two runs.
pub const ACCESS_TOKEN_FILE_NAME: &'static str = "kanban_access_token";

/// What stands between the parts of the access token file.
pub const ACCESS_TOKEN_SEPARATOR: &'static str = "<<<>>>";

/// The least number of bytes of a password.
pub const MIN_PASSWORD_LENGTH: usize = 8;

/// The greatest number of bytes of a password.
pub const MAX_PASSWORD_LENGTH: usize = 32;

/// The seconds that must pass between two mails with a link to reset the password.
pub const MIN_TIME_BETWEEN_SENDING_RESET_LINK: u64 = 60;

} // verus!
