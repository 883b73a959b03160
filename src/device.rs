use vstd::prelude::*;
use crate::text::{decimal, decimal_text};

verus! {

/// The operation succeeded.
pub const CODE_OK: i32 = 0;
/// `init` found the device already initialized; treated as success.
pub const CODE_ALREADY_INITIALIZED: i32 = 1;
/// The device is not initialized.
pub const CODE_NOT_INITIALIZED: i32 = -1;
/// No device answered.
pub const CODE_NO_DEVICE: i32 = -2;

pub const DRIVER_MISSING_TEXT: &'static str = "fingerprint reader driver is not installed: install the driver, restart the computer and reconnect the reader; init reported no device";
pub const DEVICE_NOT_FOUND_TEXT: &'static str = "the driver is installed but the fingerprint reader was not detected: reconnect the reader, preferably on another USB port; init reported no device";
pub const NOT_INITIALIZED_TEXT: &'static str = "capture found the device not initialized again after reinitializing it; check that the reader is connected";
pub const CODE_OPEN: &'static str = " (code ";
pub const CODE_CLOSE: &'static str = ")";
pub const EMPTY_RESULT_TEXT: &'static str = "capture reported success but the device returned no template";
pub const COMPARISON_FAILED_TEXT: &'static str = "template comparison failed with code ";
pub const GENERIC_ERROR_TEXT: &'static str = "fingerprint device error, code ";

/// Why a device operation failed.
#[derive(Clone, Copy, Debug, PartialEq, Eq, Structural)]
pub enum DeviceError {
    /// `init` found no device and the vendor driver is not installed.
    DriverMissing,
    /// `init` found no device although the driver is installed.
    DeviceNotFound,
    /// A capture found the device not initialized, also after reinitializing it.
    DeviceBusyOrNotInitialized,
    /// A capture reported success without a template.
    CaptureEmptyResult,
    /// Comparing two templates failed with this code.
    ComparisonFailed(i32),
    /// Any other failure, with the device's code.
    GenericDeviceError(i32),
}

/// A cause followed by the device's code: "cause (code -2)".
pub open spec fn with_code(cause: Seq<char>, code: i32) -> Seq<char> {
    cause + CODE_OPEN@ + decimal_text(code as int) + CODE_CLOSE@
}

/// The user-facing text of an error.
pub open spec fn error_text(e: DeviceError) -> Seq<char> {
    match e {
        DeviceError::DriverMissing => with_code(DRIVER_MISSING_TEXT@, CODE_NO_DEVICE),
        DeviceError::DeviceNotFound => with_code(DEVICE_NOT_FOUND_TEXT@, CODE_NO_DEVICE),
        DeviceError::DeviceBusyOrNotInitialized => with_code(NOT_INITIALIZED_TEXT@, CODE_NOT_INITIALIZED),
        DeviceError::CaptureEmptyResult => EMPTY_RESULT_TEXT@,
        DeviceError::ComparisonFailed(c) => COMPARISON_FAILED_TEXT@ + decimal_text(c as int),
        DeviceError::GenericDeviceError(c) => GENERIC_ERROR_TEXT@ + decimal_text(c as int),
    }
}

fn coded(cause: &str, code: i32) -> (r: String)
    ensures
        r@ == with_code(cause@, code),
{
    let mut s = String::from_str(cause);
    s.append(CODE_OPEN);
    let d = decimal(code as i64);
    s.append(d.as_str());
    s.append(CODE_CLOSE);
    s
}

impl DeviceError {
    /// The text shown to the user, with the remedy where one is known.
    pub fn message(&self) -> (r: String)
        ensures
            r@ == error_text(*self),
    {
        match self {
            DeviceError::DriverMissing => coded(DRIVER_MISSING_TEXT, CODE_NO_DEVICE),
            DeviceError::DeviceNotFound => coded(DEVICE_NOT_FOUND_TEXT, CODE_NO_DEVICE),
            DeviceError::DeviceBusyOrNotInitialized => coded(NOT_INITIALIZED_TEXT, CODE_NOT_INITIALIZED),

            DeviceError::CaptureEmptyResult => String::from_str(EMPTY_RESULT_TEXT),
            DeviceError::ComparisonFailed(c) => {
                let mut s = String::from_str(COMPARISON_FAILED_TEXT);
                let d = decimal(*c as i64);
                s.append(d.as_str());
                s
            },
            DeviceError::GenericDeviceError(c) => {
                let mut s = String::from_str(GENERIC_ERROR_TEXT);
                let d = decimal(*c as i64);
                s.append(d.as_str());
                s
            },
        }
    }
}

/// The device's reply to `init`, read.
#[derive(Clone, Copy, Debug, PartialEq, Eq, Structural)]
pub enum InitStatus {
    /// Initialized now.
    Ready,
    /// Was initialized already; as good as `Ready`.
    AlreadyInitialized,
    /// No device answered: whether the driver is installed tells which error it is.
    NoDevice,
    /// Failed for another reason.
    Failed(DeviceError),
}

pub open spec fn init_status(code: i32) -> InitStatus {
    if code == CODE_OK {
        InitStatus::Ready
    } else if code == CODE_ALREADY_INITIALIZED {
        InitStatus::AlreadyInitialized
    } else if code == CODE_NO_DEVICE {
        InitStatus::NoDevice
    } else {
        InitStatus::Failed(DeviceError::GenericDeviceError(code))
    }
}

/// Reads the code that the device's `init` returned.
pub fn init_sdk(code: i32) -> (r: InitStatus)
    ensures
        r == init_status(code),
{
    if code == CODE_OK {
        InitStatus::Ready
    } else if code == CODE_ALREADY_INITIALIZED {
        InitStatus::AlreadyInitialized
    } else if code == CODE_NO_DEVICE {
        InitStatus::NoDevice
    } else {
        InitStatus::Failed(DeviceError::GenericDeviceError(code))
    }
}

pub open spec fn no_device_error_spec(driver_installed: bool) -> DeviceError {
    if driver_installed {
        DeviceError::DeviceNotFound
    } else {
        DeviceError::DriverMissing
    }
}

/// The error for an `init` that found no device, told apart by whether the
/// vendor driver is installed.
pub fn no_device_error(driver_installed: bool) -> (r: DeviceError)
    ensures
        r == no_device_error_spec(driver_installed),
{
    if driver_installed {
        DeviceError::DeviceNotFound
    } else {
        DeviceError::DriverMissing
    }
}

/// The two ways of finding no device are reported with different texts,
/// and both texts cite the device's code.
pub proof fn lemma_no_device_errors_differ()
    ensures
        no_device_error_spec(true) != no_device_error_spec(false),
        error_text(no_device_error_spec(true)) != error_text(no_device_error_spec(false)),
        error_text(no_device_error_spec(true)) == with_code(DEVICE_NOT_FOUND_TEXT@, CODE_NO_DEVICE),
        error_text(no_device_error_spec(false)) == with_code(DRIVER_MISSING_TEXT@, CODE_NO_DEVICE),
        decimal_text(CODE_NO_DEVICE as int) == seq!['-', '2'],
        decimal_text(CODE_NOT_INITIALIZED as int) == seq!['-', '1'],
{
    reveal_strlit("fingerprint reader driver is not installed: install the driver, restart the computer and reconnect the reader; init reported no device");
    reveal_strlit("the driver is installed but the fingerprint reader was not detected: reconnect the reader, preferably on another USB port; init reported no device");
    assert(error_text(no_device_error_spec(true))[0] != error_text(no_device_error_spec(false))[0]);
    assert(decimal_text(CODE_NO_DEVICE as int) =~= seq!['-', '2']);
    assert(decimal_text(CODE_NOT_INITIALIZED as int) =~= seq!['-', '1']);
}

} // verus!
