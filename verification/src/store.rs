//! The settings store: what loading and saving come to, given what the file
//! system reported.

use vstd::prelude::*;

use crate::error::{ErrorModel, IoStep, SettingsError};
use crate::json::{
    decode, decoded, encode, encoded, parsed_object, settings_result, text_result,
};
use crate::location::{locate, located, path_result, platform_config_dir, ConfigPath};
use crate::settings::{default_settings, ProxySettings, SettingsModel};

verus! {

/// What became of the attempt to read the settings file.
#[derive(Debug, PartialEq, Eq)]
pub enum FileRead {
    /// No file lies at the path.
    Missing,
    /// The file is there and could not be read; the cause, described.
    Unreadable(String),
    /// The whole of the file, as text.
    Content(String),
}

/// The mathematical value of a [`FileRead`].
pub ghost enum FileModel {
    Missing,
    Unreadable(Seq<char>),
    Content(Seq<char>),
}

impl View for FileRead {
    type V = FileModel;

    open spec fn view(&self) -> FileModel {
        match *self {
            FileRead::Missing => FileModel::Missing,
            FileRead::Unreadable(cause) => FileModel::Unreadable(cause@),
            FileRead::Content(text) => FileModel::Content(text@),
        }
    }
}

/// The value of the outcome of a file operation that hands nothing back.
pub open spec fn io_outcome(outcome: Result<(), String>) -> Result<(), Seq<char>> {
    match outcome {
        Ok(()) => Ok(()),
        Err(cause) => Err(cause@),
    }
}

/// The value of a result that holds nothing but success.
pub open spec fn unit_result(outcome: Result<(), SettingsError>) -> Result<(), ErrorModel> {
    match outcome {
        Ok(()) => Ok(()),
        Err(error) => Err(error@),
    }
}

/// What a load gives for a file: the default where there is none, a read
/// error where it could not be read, else what its content decodes to.
pub open spec fn loaded(file: FileModel) -> Result<SettingsModel, ErrorModel> {
    match file {
        FileModel::Missing => Ok(default_settings()),
        FileModel::Unreadable(cause) => Err(ErrorModel::Io { step: IoStep::Read, cause }),
        FileModel::Content(text) => decoded(text),
    }
}

/// What a save hands over for writing, given the outcome of creating the
/// file's directory: nothing is encoded once that has failed.
pub open spec fn content_to_write(
    settings: SettingsModel,
    directory: Result<(), Seq<char>>,
) -> Result<Seq<char>, ErrorModel> {
    match directory {
        Ok(()) => encoded(settings),
        Err(cause) => Err(ErrorModel::Io { step: IoStep::CreateDir, cause }),
    }
}

/// What a save comes to, given the outcome of the write.
pub open spec fn write_confirmed(written: Result<(), Seq<char>>) -> Result<(), ErrorModel> {
    match written {
        Ok(()) => Ok(()),
        Err(cause) => Err(ErrorModel::Io { step: IoStep::Write, cause }),
    }
}

/// The settings store. It holds nothing between calls: every call starts
/// from the path and from what the file system reports.
#[derive(Debug, Clone, Copy, PartialEq, Eq)]
pub struct ProxyManager;

impl ProxyManager {
    /// The place of the settings file on this machine.
    ///
    /// Whether the platform names a configuration directory is not known
    /// before the call; the outcome is that of [`locate`] for what it
    /// named.
    pub fn get_config_path() -> (outcome: Result<ConfigPath, SettingsError>)
        ensures
            match outcome {
                Ok(path) => path_result(outcome) == located(Some(path.root)),
                Err(_) => path_result(outcome) == located(None),
            },
    {
        locate(platform_config_dir())
    }

    /// The settings in force, given what reading the file gave.
    ///
    /// A missing file is no error: it stands for the default settings. A
    /// file that is there and does not decode is an error, never the
    /// default.
    pub fn load(file: FileRead) -> (outcome: Result<ProxySettings, SettingsError>)
        ensures
            settings_result(outcome) == loaded(file@),
    {
        match file {
            FileRead::Missing => Ok(ProxySettings::default()),
            FileRead::Unreadable(cause) => Err(SettingsError::Io { step: IoStep::Read, cause }),
            FileRead::Content(text) => decode(text.as_str()),
        }
    }

    /// The text to write to the settings file, given the outcome of
    /// creating the directory that holds it. The text replaces whatever the
    /// file held.
    pub fn save(settings: &ProxySettings, directory: Result<(), String>) -> (outcome: Result<
        String,
        SettingsError,
    >)
        ensures
            text_result(outcome) == content_to_write(settings@, io_outcome(directory)),
    {
        match directory {
            Ok(()) => encode(settings),
            Err(cause) => Err(SettingsError::Io { step: IoStep::CreateDir, cause }),
        }
    }

    /// The result of a save, given the outcome of writing the file.
    pub fn confirm_write(written: Result<(), String>) -> (outcome: Result<(), SettingsError>)
        ensures
            unit_result(outcome) == write_confirmed(io_outcome(written)),
    {
        match written {
            Ok(()) => Ok(()),
            Err(cause) => Err(SettingsError::Io { step: IoStep::Write, cause }),
        }
    }
}

/// The file as a save leaves it once its directory is there and the write
/// has gone through: it holds the encoded settings and nothing of what it
/// held before. Where the settings do not encode, nothing is written.
pub open spec fn file_after_save(before: FileModel, settings: SettingsModel) -> FileModel {
    match content_to_write(settings, Ok(())) {
        Ok(text) => FileModel::Content(text),
        Err(_) => before,
    }
}

/// A missing file loads as the default settings: the proxy off, the URL
/// that of the local port 7890.
pub proof fn lemma_missing_file_loads_default()
    ensures
        loaded(FileModel::Missing) == Ok::<SettingsModel, ErrorModel>(
            SettingsModel { enabled: false, url: "http://127.0.0.1:7890"@ },
        ),
{
}

/// A file that is there loads as what its content decodes to. Where the
/// content does not parse, that is a parse error with the parser's
/// description, and never the default settings.
pub proof fn lemma_unparsable_file_is_parse_error(text: Seq<char>)
    ensures
        loaded(FileModel::Content(text)) == decoded(text),
        parsed_object(text) matches Err(cause) ==> loaded(FileModel::Content(text)) == Err::<
            SettingsModel,
            ErrorModel,
        >(ErrorModel::Parse { cause }),
{
}

/// Saving the same settings twice leaves the file as saving them once
/// does, whatever it held before, and a load that follows gives the same
/// either way.
pub proof fn lemma_save_is_idempotent(before: FileModel, settings: SettingsModel)
    ensures
        file_after_save(file_after_save(before, settings), settings) == file_after_save(
            before,
            settings,
        ),
        loaded(file_after_save(file_after_save(before, settings), settings)) == loaded(
            file_after_save(before, settings),
        ),
{
}

/// A load that follows a save decodes the text that the save encoded: the
/// store puts nothing of its own between the two, and nothing of what the
/// file held before is left.
pub proof fn lemma_load_after_save_decodes_saved_text(before: FileModel, settings: SettingsModel)
    ensures
        encoded(settings) matches Ok(text) ==> loaded(file_after_save(before, settings))
            == decoded(text),
{
}

} // verus!
