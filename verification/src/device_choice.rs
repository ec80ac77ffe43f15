//! The device that a user asks for through the environment.

use crate::pci_id::{law_identifiers_fit_in_sixteen_bits, law_shown_identifiers_read_back};
use crate::pci_id::{parse_pci_id, pci_id, shown_id, PciIdError};
use vstd::prelude::*;

verus! {

/// The state of the environment variable that names a device.
pub enum DeviceIdVariable {
    Absent,
    NotUnicode,
    Present(String),
}

/// What is wrong with the environment variable that names a device.
#[derive(Clone, Copy, Debug, PartialEq, Eq)]
pub enum DeviceIdProblem {
    /// Its value could not be read.
    Unreadable,
    /// Its value is not a PCI identifier.
    Unparsable(PciIdError),
}

impl DeviceIdProblem {
    /// What could not be done.
    pub fn message(&self) -> (text: &'static str)
        ensures
            text@ == match *self {
                DeviceIdProblem::Unreadable =>
                    "Failed to read value of `ZED_DEVICE_ID` environment variable"@,
                DeviceIdProblem::Unparsable(_) =>
                    "Failed to parse device ID from `ZED_DEVICE_ID` environment variable"@,
            },
    {
        match self {
            DeviceIdProblem::Unreadable =>
                "Failed to read value of `ZED_DEVICE_ID` environment variable",
            DeviceIdProblem::Unparsable(_) =>
                "Failed to parse device ID from `ZED_DEVICE_ID` environment variable",
        }
    }
}

/// The device that a user asked for, and what is wrong with the way they asked.
/// A value that cannot be read or parsed counts as none.
pub fn device_id_filter(variable: &DeviceIdVariable) -> (r: (
    Option<u32>,
    Option<DeviceIdProblem>,
))
    ensures
        match *variable {
            DeviceIdVariable::Absent => r.0 is None && r.1 is None,
            DeviceIdVariable::NotUnicode => r.0 is None && r.1 == Some(DeviceIdProblem::Unreadable),
            DeviceIdVariable::Present(value) => match pci_id(value@) {
                Some(id) => r.0 is Some && r.0->0 as nat == id && r.1 is None,
                None => r.0 is None && r.1 == Some(
                    DeviceIdProblem::Unparsable(PciIdError::NotFourHexDigits),
                ),
            },
        },
{
    match variable {
        DeviceIdVariable::Absent => (None, None),
        DeviceIdVariable::NotUnicode => (None, Some(DeviceIdProblem::Unreadable)),
        DeviceIdVariable::Present(value) => match parse_pci_id(value.as_str()) {
            Ok(id) => (Some(id), None),
            Err(error) => (None, Some(DeviceIdProblem::Unparsable(error))),
        },
    }
}

/// A device is asked for exactly if the variable is set to a PCI identifier, and
/// there is a problem exactly if it is set to anything else. How an identifier is
/// shown is one way to ask for it.
pub proof fn law_device_or_problem(
    variable: DeviceIdVariable,
    r: (Option<u32>, Option<DeviceIdProblem>),
    id: u32,
)
    requires
        call_ensures(device_id_filter, (&variable,), r),
    ensures
        variable is Absent <==> r.0 is None && r.1 is None,
        variable is NotUnicode <==> r.1 == Some(DeviceIdProblem::Unreadable),
        r.0 is None || r.1 is None,
        r.0 is Some ==> variable is Present && r.0->0 <= 0xffff,
        r.1 matches Some(DeviceIdProblem::Unparsable(_)) ==> variable is Present,
        variable matches DeviceIdVariable::Present(value) && value@ == shown_id(id as nat) && id
            <= 0xffff ==> r.0 == Some(id),
{
    if let DeviceIdVariable::Present(value) = variable {
        law_identifiers_fit_in_sixteen_bits(value@);
        if id <= 0xffff {
            law_shown_identifiers_read_back(id as nat);
        }
    }
}

/// A device is asked for exactly as the value of the variable reads.
pub proof fn law_device_is_what_the_value_reads(
    value: String,
    text: &str,
    r: (Option<u32>, Option<DeviceIdProblem>),
    read: Result<u32, PciIdError>,
)
    requires
        value@ == text@,
        call_ensures(device_id_filter, (&DeviceIdVariable::Present(value),), r),
        call_ensures(parse_pci_id, (text,), read),
    ensures
        r.0 == read.ok(),
        r.1 is Some <==> read is Err,
{
}

} // verus!
