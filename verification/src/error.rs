//! What can go wrong while the settings are loaded or saved.

use vstd::prelude::*;
use vstd::string::StringExecFns;

verus! {

/// The file operation that failed.
#[derive(Debug, Clone, Copy, PartialEq, Eq)]
pub enum IoStep {
    /// Reading the settings file.
    Read,
    /// Creating the directory that holds the settings file.
    CreateDir,
    /// Writing the settings file.
    Write,
}

/// A failure of the settings store. Each variant but the first carries the
/// description of the underlying cause.
#[derive(Debug, Clone, PartialEq, Eq)]
pub enum SettingsError {
    /// The platform names no per-user configuration directory.
    ConfigDirUnavailable,
    /// A file operation failed.
    Io { step: IoStep, cause: String },
    /// The file's content is not the JSON encoding of a settings record.
    Parse { cause: String },
    /// The settings could not be encoded.
    Serialize { cause: String },
}

/// The mathematical value of a [`SettingsError`].
pub ghost enum ErrorModel {
    ConfigDirUnavailable,
    Io { step: IoStep, cause: Seq<char> },
    Parse { cause: Seq<char> },
    Serialize { cause: Seq<char> },
}

impl View for SettingsError {
    type V = ErrorModel;

    open spec fn view(&self) -> ErrorModel {
        match *self {
            SettingsError::ConfigDirUnavailable => ErrorModel::ConfigDirUnavailable,
            SettingsError::Io { step, cause } => ErrorModel::Io { step, cause: cause@ },
            SettingsError::Parse { cause } => ErrorModel::Parse { cause: cause@ },
            SettingsError::Serialize { cause } => ErrorModel::Serialize { cause: cause@ },
        }
    }
}

/// The words that open the message of an error with a cause.
pub open spec fn message_prefix(error: ErrorModel) -> Seq<char> {
    match error {
        ErrorModel::ConfigDirUnavailable => Seq::empty(),
        ErrorModel::Io { step: IoStep::Read, .. } => "读取代理设置失败: "@,
        ErrorModel::Io { step: IoStep::CreateDir, .. } => "创建配置目录失败: "@,
        ErrorModel::Io { step: IoStep::Write, .. } => "保存代理设置失败: "@,
        ErrorModel::Parse { .. } => "解析代理设置失败: "@,
        ErrorModel::Serialize { .. } => "序列化代理设置失败: "@,
    }
}

/// The message of an error: what failed, then the cause.
pub open spec fn message_text(error: ErrorModel) -> Seq<char> {
    match error {
        ErrorModel::ConfigDirUnavailable => "无法获取配置目录"@,
        ErrorModel::Io { cause, .. } => message_prefix(error) + cause,
        ErrorModel::Parse { cause } => message_prefix(error) + cause,
        ErrorModel::Serialize { cause } => message_prefix(error) + cause,
    }
}

impl SettingsError {
    /// The message shown to the user.
    pub fn message(&self) -> (text: String)
        ensures
            text@ == message_text(self@),
    {
        match self {
            SettingsError::ConfigDirUnavailable => String::from_str("无法获取配置目录"),
            SettingsError::Io { step, cause } => {
                let prefix = match step {
                    IoStep::Read => String::from_str("读取代理设置失败: "),
                    IoStep::CreateDir => String::from_str("创建配置目录失败: "),
                    IoStep::Write => String::from_str("保存代理设置失败: "),
                };
                prefix.concat(cause.as_str())
            },
            SettingsError::Parse { cause } => {
                String::from_str("解析代理设置失败: ").concat(cause.as_str())
            },
            SettingsError::Serialize { cause } => {
                String::from_str("序列化代理设置失败: ").concat(cause.as_str())
            },
        }
    }
}

} // verus!
