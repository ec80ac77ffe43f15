use gpu_context::device_choice::{device_id_filter, DeviceIdProblem, DeviceIdVariable};
use gpu_context::pci_id::PciIdError;

#[test]
fn variable_with_an_identifier() {
    let variable = DeviceIdVariable::Present(String::from(" 0x2684 "));
    assert_eq!(device_id_filter(&variable), (Some(0x2684), None));
}

#[test]
fn absent_variable() {
    assert_eq!(device_id_filter(&DeviceIdVariable::Absent), (None, None));
}

#[test]
fn variable_without_an_identifier() {
    let variable = DeviceIdVariable::Present(String::from("discrete"));
    let problem = DeviceIdProblem::Unparsable(PciIdError::NotFourHexDigits);
    assert_eq!(device_id_filter(&variable), (None, Some(problem)));
    assert_eq!(
        problem.message(),
        "Failed to parse device ID from `ZED_DEVICE_ID` environment variable",
    );
}

#[test]
fn variable_that_is_not_unicode() {
    let problem = DeviceIdProblem::Unreadable;
    assert_eq!(
        device_id_filter(&DeviceIdVariable::NotUnicode),
        (None, Some(problem)),
    );
    assert_eq!(
        problem.message(),
        "Failed to read value of `ZED_DEVICE_ID` environment variable",
    );
}
