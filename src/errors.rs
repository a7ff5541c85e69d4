use vstd::prelude::*;

verus! {

/// Why an enumeration failed.
#[derive(Debug)]
pub enum EnumerateError {
    StringDecodingError(std::string::FromUtf16Error),
    StringTerminationDecodingError,
    Win32Error(u32),
}

} // verus!
