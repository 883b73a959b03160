use vstd::prelude::*;
use crate::text::{contains_text, occurs_in};

verus! {

pub const DLL_MISSING_TEXT: &'static str = "SDK library libcidbio.dll not found";
pub const DRIVER_ABSENT_TEXT: &'static str = "iDBio driver not installed";
pub const SEPARATOR: &'static str = "; ";

pub const DRIVER_MARK_VENDOR: &'static str = "Control iD";
pub const DRIVER_MARK_PRODUCT: &'static str = "iDBio";
pub const DRIVER_MARK_PACKAGE: &'static str = "controlidbio";

/// Whether the vendor SDK can be used, and what is missing when it cannot.
#[derive(Clone)]
pub struct SdkStatus {
    pub dll_found: bool,
    pub dll_path: Option<String>,
    pub driver_installed: bool,
    pub sdk_ready: bool,
    pub error_message: Option<String>,
}

/// What is missing, each part once, joined by "; "; nothing when ready.
pub open spec fn status_error(dll_found: bool, driver_installed: bool) -> Option<Seq<char>> {
    if dll_found && driver_installed {
        None
    } else if !dll_found && !driver_installed {
        Some(DLL_MISSING_TEXT@ + SEPARATOR@ + DRIVER_ABSENT_TEXT@)
    } else if !dll_found {
        Some(DLL_MISSING_TEXT@)
    } else {
        Some(DRIVER_ABSENT_TEXT@)
    }
}

/// The status from what was found: ready when both the library and the
/// driver are there.
pub fn get_sdk_status(dll_found: bool, dll_path: Option<String>, driver_installed: bool) -> (r:
    SdkStatus)
    ensures
        r.dll_found == dll_found,
        r.dll_path == dll_path,
        r.driver_installed == driver_installed,
        r.sdk_ready == (dll_found && driver_installed),
        match r.error_message {
            Some(m) => status_error(dll_found, driver_installed) == Some(m@),
            None => status_error(dll_found, driver_installed) is None,
        },
{
    let error_message = if dll_found && driver_installed {
        None
    } else if !dll_found && !driver_installed {
        let mut m = String::from_str(DLL_MISSING_TEXT);
        m.append(SEPARATOR);
        m.append(DRIVER_ABSENT_TEXT);
        Some(m)
    } else if !dll_found {
        Some(String::from_str(DLL_MISSING_TEXT))
    } else {
        Some(String::from_str(DRIVER_ABSENT_TEXT))
    };
    SdkStatus {
        dll_found,
        dll_path,
        driver_installed,
        sdk_ready: dll_found && driver_installed,
        error_message,
    }
}

/// Whether the driver store listing names the vendor's driver.
pub open spec fn lists_driver(listing: Seq<char>) -> bool {
    ||| occurs_in(DRIVER_MARK_VENDOR@, listing)
    ||| occurs_in(DRIVER_MARK_PRODUCT@, listing)
    ||| occurs_in(DRIVER_MARK_PACKAGE@, listing)
}

pub fn driver_listed(listing: &str) -> (r: bool)
    ensures
        r == lists_driver(listing@),
{
    contains_text(listing, DRIVER_MARK_VENDOR) || contains_text(listing, DRIVER_MARK_PRODUCT)
        || contains_text(listing, DRIVER_MARK_PACKAGE)
}

} // verus!
