//! Error values surfaced by the state core.

use vstd::prelude::*;

verus! {

/// The application's error taxonomy. Storage failures never reach this type:
/// they degrade silently by design. Configuration failures (an empty broker
/// endpoint list) surface as `MqttServerNoConfig`.
#[derive(Debug, Clone)]
pub enum AppError {
    /// A message carried over from a collaborating component.
    Error(String),
    /// The broker service was started with no configured endpoints.
    MqttServerNoConfig,
    /// A failure nothing more specific describes.
    Unknown,
}

impl AppError {
    /// The human-readable description of this error.
    pub open spec fn spec_message(&self) -> Seq<char> {
        match self {
            AppError::Error(msg) => msg@,
            AppError::MqttServerNoConfig => "Mqtt服务未配置"@,
            AppError::Unknown => "未知错误, 请联系开发人员."@,
        }
    }

    /// Renders the error for display.
    pub fn message(&self) -> (r: String)
        ensures
            r@ == self.spec_message(),
    {
        match self {
            AppError::Error(msg) => msg.clone(),
            AppError::MqttServerNoConfig => "Mqtt服务未配置".to_owned(),
            AppError::Unknown => "未知错误, 请联系开发人员.".to_owned(),
        }
    }
}

impl PartialEq for AppError {
    fn eq(&self, other: &Self) -> (r: bool) {
        match (self, other) {
            (AppError::Error(a), AppError::Error(b)) => *a == *b,
            (AppError::MqttServerNoConfig, AppError::MqttServerNoConfig) => true,
            (AppError::Unknown, AppError::Unknown) => true,
            _ => false,
        }
    }
}

impl vstd::std_specs::cmp::PartialEqSpecImpl for AppError {
    open spec fn obeys_eq_spec() -> bool {
        true
    }

    open spec fn eq_spec(&self, other: &Self) -> bool {
        match (self, other) {
            (AppError::Error(a), AppError::Error(b)) => a@ == b@,
            (AppError::MqttServerNoConfig, AppError::MqttServerNoConfig) => true,
            (AppError::Unknown, AppError::Unknown) => true,
            _ => false,
        }
    }
}

impl From<String> for AppError {
    fn from(e: String) -> (r: Self) {
        AppError::Error(e)
    }
}

impl vstd::std_specs::convert::FromSpecImpl<String> for AppError {
    open spec fn obeys_from_spec() -> bool {
        true
    }

    open spec fn from_spec(e: String) -> Self {
        AppError::Error(e)
    }
}

} // verus!
