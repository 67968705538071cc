//! The errors of the adapter.
use vstd::prelude::*;
use vstd::string::StringExecFns;

verus! {

broadcast use vstd::string::group_string_axioms;

pub type AppResult<T> = Result<T, AppError>;

/// What went wrong, each with a description. The last four carry the words of the file
/// system, the HTTP client, the MQTT client and the JSON reader.
#[derive(Debug)]
pub enum AppError {
    InvalidConfig(String),
    InvalidState(String),
    MqttDisconnected(String),
    QcoreApi(String),
    Io(String),
    Http(String),
    MqttClient(String),
    Json(String),
}

/// An error by the characters of its description.
pub enum Fault {
    InvalidConfig(Seq<char>),
    InvalidState(Seq<char>),
    MqttDisconnected(Seq<char>),
    QcoreApi(Seq<char>),
    Io(Seq<char>),
    Http(Seq<char>),
    MqttClient(Seq<char>),
    Json(Seq<char>),
}

impl View for AppError {
    type V = Fault;

    open spec fn view(&self) -> Fault {
        match self {
            AppError::InvalidConfig(text) => Fault::InvalidConfig(text@),
            AppError::InvalidState(text) => Fault::InvalidState(text@),
            AppError::MqttDisconnected(text) => Fault::MqttDisconnected(text@),
            AppError::QcoreApi(text) => Fault::QcoreApi(text@),
            AppError::Io(text) => Fault::Io(text@),
            AppError::Http(text) => Fault::Http(text@),
            AppError::MqttClient(text) => Fault::MqttClient(text@),
            AppError::Json(text) => Fault::Json(text@),
        }
    }
}

impl Fault {
    /// The error in words.
    pub open spec fn message(self) -> Seq<char> {
        match self {
            Fault::InvalidConfig(text) => "invalid configuration: "@ + text,
            Fault::InvalidState(text) => "invalid state: "@ + text,
            Fault::MqttDisconnected(text) => "mqtt disconnected: "@ + text,
            Fault::QcoreApi(text) => "qendercore api error: "@ + text,
            Fault::Io(text) => "i/o error: "@ + text,
            Fault::Http(text) => "http error: "@ + text,
            Fault::MqttClient(text) => "mqtt client error: "@ + text,
            Fault::Json(text) => "json error: "@ + text,
        }
    }
}

impl AppError {
    /// The error in words.
    pub fn message(&self) -> (message: String)
        ensures
            message@ == self@.message(),
    {
        match self {
            AppError::InvalidConfig(text) => "invalid configuration: ".to_string().concat(text),
            AppError::InvalidState(text) => "invalid state: ".to_string().concat(text),
            AppError::MqttDisconnected(text) => "mqtt disconnected: ".to_string().concat(text),
            AppError::QcoreApi(text) => "qendercore api error: ".to_string().concat(text),
            AppError::Io(text) => "i/o error: ".to_string().concat(text),
            AppError::Http(text) => "http error: ".to_string().concat(text),
            AppError::MqttClient(text) => "mqtt client error: ".to_string().concat(text),
            AppError::Json(text) => "json error: ".to_string().concat(text),
        }
    }
}

}
