use crate::error::ErrorKind;
use crate::text::{chars_of, ends_with, has_suffix};
use vstd::prelude::*;

verus! {

/// An HTTP status that reports success.
pub open spec fn is_success(status: u16) -> bool {
    200 <= status < 300
}

/// The checks that stand before a download.
pub struct Validate;

impl Validate {
    /// Judges the status that a probe of a URL came back with: anything but
    /// a success is a validation failure.
    pub fn check_url_status(status: u16) -> (r: Result<(), ErrorKind>)
        ensures
            r is Ok <==> is_success(status),
            r is Err ==> r == Err::<(), ErrorKind>(ErrorKind::Validation),
    {
        if 200 <= status && status < 300 {
            Ok(())
        } else {
            Err(ErrorKind::Validation)
        }
    }

    /// Checks that `name` ends with the extension `ext`. A failure is for the
    /// caller to report; it holds no download back.
    pub fn validate_file_type(name: &str, ext: &str) -> (r: Result<(), ErrorKind>)
        ensures
            r is Ok <==> has_suffix(name@, ext@),
            r is Err ==> r == Err::<(), ErrorKind>(ErrorKind::Validation),
    {
        if ends_with(&chars_of(name), &chars_of(ext)) {
            Ok(())
        } else {
            Err(ErrorKind::Validation)
        }
    }
}

} // verus!
