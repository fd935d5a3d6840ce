//! Errors of the session operations.
use vstd::prelude::*;
use vstd::string::*;

verus! {

#[verifier::external_type_specification]
#[verifier::external_body]
pub struct ExDeviceError(mozdevice::DeviceError);

#[verifier::external_type_specification]
#[verifier::external_body]
pub struct ExIoError(std::io::Error);

#[verifier::external_type_specification]
#[verifier::external_body]
pub struct ExYamlError(serde_yaml::Error);

/// Why a session operation failed.
#[derive(Debug)]
pub enum AndroidError {
    /// No launchable activity could be resolved for the package.
    ActivityNotFound(String),
    /// The device transport failed.
    Device(mozdevice::DeviceError),
    /// A local file operation failed.
    IO(std::io::Error),
    /// The operation needs a connected process and there is none.
    NotConnected,
    /// The configuration document could not be serialised.
    Serde(serde_yaml::Error),
}

/// Relies on the `Display` of mozdevice::DeviceError for its message.
#[verifier::external_body]
fn device_error_text(e: &mozdevice::DeviceError) -> String {
    e.to_string()
}

/// Relies on the `Display` of std::io::Error for its message.
#[verifier::external_body]
fn io_error_text(e: &std::io::Error) -> String {
    e.to_string()
}

/// Relies on the `Display` of serde_yaml::Error for its message.
#[verifier::external_body]
fn yaml_error_text(e: &serde_yaml::Error) -> String {
    e.to_string()
}

impl AndroidError {
    /// A message for users. Errors of the transport, of local files and of
    /// serialisation carry their cause's own message.
    pub fn message(&self) -> (r: String)
        ensures
            self matches AndroidError::ActivityNotFound(p) ==> r@ == "Activity not found for package '"@
                + p@ + "'"@,
            self is NotConnected ==> r@ == "Not connected to any Android device"@,
    {
        match self {
            AndroidError::ActivityNotFound(package) => {
                crate::paths::surround("Activity not found for package '", package.as_str(), "'")
            },
            AndroidError::Device(e) => device_error_text(e),
            AndroidError::IO(e) => io_error_text(e),
            AndroidError::NotConnected => String::from_str("Not connected to any Android device"),
            AndroidError::Serde(e) => yaml_error_text(e),
        }
    }
}

impl From<mozdevice::DeviceError> for AndroidError {
    fn from(value: mozdevice::DeviceError) -> (r: AndroidError)
        ensures
            r == AndroidError::Device(value),
    {
        AndroidError::Device(value)
    }
}

impl vstd::std_specs::convert::FromSpecImpl<mozdevice::DeviceError> for AndroidError {
    open spec fn obeys_from_spec() -> bool {
        true
    }

    open spec fn from_spec(v: mozdevice::DeviceError) -> AndroidError {
        AndroidError::Device(v)
    }
}

impl From<std::io::Error> for AndroidError {
    fn from(value: std::io::Error) -> (r: AndroidError)
        ensures
            r == AndroidError::IO(value),
    {
        AndroidError::IO(value)
    }
}

impl vstd::std_specs::convert::FromSpecImpl<std::io::Error> for AndroidError {
    open spec fn obeys_from_spec() -> bool {
        true
    }

    open spec fn from_spec(v: std::io::Error) -> AndroidError {
        AndroidError::IO(v)
    }
}

impl From<serde_yaml::Error> for AndroidError {
    fn from(value: serde_yaml::Error) -> (r: AndroidError)
        ensures
            r == AndroidError::Serde(value),
    {
        AndroidError::Serde(value)
    }
}

impl vstd::std_specs::convert::FromSpecImpl<serde_yaml::Error> for AndroidError {
    open spec fn obeys_from_spec() -> bool {
        true
    }

    open spec fn from_spec(v: serde_yaml::Error) -> AndroidError {
        AndroidError::Serde(v)
    }
}

} // verus!
