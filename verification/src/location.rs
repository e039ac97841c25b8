//! Where the settings file lies.

use vstd::prelude::*;

use crate::error::{ErrorModel, SettingsError};

verus! {

/// `std::path::PathBuf`, carried from the platform to the caller that
/// opens the file. Nothing inside it is seen here.
#[verifier::external_type_specification]
#[verifier::external_body]
pub struct ExPathBuf(std::path::PathBuf);

/// The place of the settings file: a directory named after the application,
/// below the user's configuration directory, and the file's name in it.
///
/// The configuration directory is carried as the platform gave it; the two
/// segments below it are plain text.
#[derive(Debug, PartialEq, Eq)]
pub struct ConfigPath {
    pub root: std::path::PathBuf,
    pub namespace: String,
    pub file_name: String,
}

/// The mathematical value of a [`ConfigPath`].
pub ghost struct ConfigPathModel {
    pub root: std::path::PathBuf,
    pub namespace: Seq<char>,
    pub file_name: Seq<char>,
}

impl View for ConfigPath {
    type V = ConfigPathModel;

    open spec fn view(&self) -> ConfigPathModel {
        ConfigPathModel {
            root: self.root,
            namespace: self.namespace@,
            file_name: self.file_name@,
        }
    }
}

/// The value of a result that holds a path.
pub open spec fn path_result(outcome: Result<ConfigPath, SettingsError>) -> Result<
    ConfigPathModel,
    ErrorModel,
> {
    match outcome {
        Ok(path) => Ok(path@),
        Err(error) => Err(error@),
    }
}

/// The settings file below a configuration directory, or the error that
/// stands for a platform without one.
pub open spec fn located(config_dir: Option<std::path::PathBuf>) -> Result<
    ConfigPathModel,
    ErrorModel,
> {
    match config_dir {
        Some(root) => Ok(
            ConfigPathModel {
                root,
                namespace: "ai.verdent.account-manager"@,
                file_name: "proxy_settings.json"@,
            },
        ),
        None => Err(ErrorModel::ConfigDirUnavailable),
    }
}

/// `dirs::config_dir`: the user's configuration directory as the platform
/// and the environment give it, if they give one. Nothing is claimed of the
/// outcome.
#[verifier::external_body]
pub(crate) fn platform_config_dir() -> Option<std::path::PathBuf> {
    dirs::config_dir()
}

/// Places the settings file below the given configuration directory.
pub fn locate(config_dir: Option<std::path::PathBuf>) -> (outcome: Result<
    ConfigPath,
    SettingsError,
>)
    ensures
        path_result(outcome) == located(config_dir),
{
    match config_dir {
        Some(root) => Ok(
            ConfigPath {
                root,
                namespace: String::from_str("ai.verdent.account-manager"),
                file_name: String::from_str("proxy_settings.json"),
            },
        ),
        None => Err(SettingsError::ConfigDirUnavailable),
    }
}

} // verus!
