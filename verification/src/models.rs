//! Plain result shapes handed to callers of the public API bridge.

use vstd::prelude::*;

use crate::busylight::DeviceInfo;
use crate::busylight::opt_string_view;

verus! {

/// The outcome of checking a user-entered location string.
#[derive(Clone, Debug)]
pub struct LocationValidationResult {
    pub valid: bool,
    pub name: Option<String>,
    pub error: Option<String>,
}

/// The connected device's descriptor as handed to callers.
#[derive(Clone, Debug)]
pub struct DeviceInfoResult {
    pub product: Option<String>,
    pub path: Option<String>,
    pub vendor_id: u16,
    pub product_id: u16,
}

/// Repackages the session's device descriptor for a caller, field for
/// field.
pub fn device_info_result(info: &DeviceInfo) -> (r: DeviceInfoResult)
    ensures
        opt_string_view(r.product) == info@.product,
        opt_string_view(r.path) == info@.path,
        r.vendor_id == info.vendor_id,
        r.product_id == info.product_id,
{
    let copy = info.clone();
    DeviceInfoResult {
        product: copy.product,
        path: copy.path,
        vendor_id: copy.vendor_id,
        product_id: copy.product_id,
    }
}

/// Builds the validation outcome for a geocoding result: a resolved
/// display name validates the location; no match yields the fixed
/// not-found error.
pub fn location_validation(resolved_name: Option<String>) -> (r: LocationValidationResult)
    ensures
        r.valid <==> resolved_name is Some,
        opt_string_view(r.name) == opt_string_view(resolved_name),
        resolved_name is Some ==> r.error is None,
        resolved_name is None ==> (r.error matches Some(e) && e@ == "Location not found"@),
{
    match resolved_name {
        Some(name) => LocationValidationResult { valid: true, name: Some(name), error: None },
        None => LocationValidationResult {
            valid: false,
            name: None,
            error: Some("Location not found".to_owned()),
        },
    }
}

} // verus!
