//! The single error kind of the driver: a non-success status code reported
//! by the transmission peripheral.

use vstd::prelude::*;

verus! {

/// The peripheral's success status code.
pub const ESP_OK: i32 = 0;

/// The peripheral's status code for a rejected argument. The driver reuses
/// it to reject calls that the protocol gives no meaning, such as a fade
/// over zero steps.
pub const ESP_ERR_INVALID_ARG: i32 = 258;

/// A non-success status code returned by the transmission peripheral.
#[derive(Clone, Copy, Debug, PartialEq, Eq, Structural)]
pub struct EspError {
    pub code: i32,
}

impl EspError {
    /// Wraps a raw status code.
    pub fn new(code: i32) -> (e: EspError)
        ensures
            e.code == code,
    {
        EspError { code }
    }
}

/// Maps a raw peripheral status code to a result: the zero (success) code
/// becomes `Ok`, every other code is wrapped in an `EspError`.
pub fn esp_res(err_code: i32) -> (r: Result<(), EspError>)
    ensures
        err_code == ESP_OK <==> r is Ok,
        err_code != ESP_OK ==> (r == Err::<(), EspError>((EspError { code: err_code }))),
{
    if err_code == ESP_OK {
        Ok(())
    } else {
        Err(EspError { code: err_code })
    }
}

} // verus!
