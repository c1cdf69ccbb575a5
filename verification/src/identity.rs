use vstd::prelude::*;

verus! {

/// The degenerate host function table, for guests that never need
/// pool-backed formatting: every primitive is a pure no-op returning zero
/// or empty, and the format primitive always reports "no change". At the
/// protocol level this is indistinguishable from a real table that always
/// decides "no change", so guest code never has to special-case it.
pub struct IdentityImportObject {
}

impl IdentityImportObject {
    pub fn new() -> IdentityImportObject {
        IdentityImportObject {  }
    }

    /// No buffer exists; declaring a capacity does nothing.
    pub fn clear_bytes(&self, _length: u32) {
    }

    /// Nothing is staged; reading guest memory does nothing.
    pub fn read_buffer(&self, _pointer: u32, _length: u32) {
    }

    /// Nothing is staged; writing guest memory does nothing.
    pub fn write_buffer(&self, _pointer: u32, _offset: u32, _length: u32) {
    }

    /// No slot exists; taking the override configuration does nothing.
    pub fn take_override_config(&self) {
    }

    /// No slot exists; taking the file path does nothing.
    pub fn take_file_path(&self) {
    }

    /// Always reports status 0: the text is taken to be already formatted.
    pub fn format(&self) -> (r: u32)
        ensures
            r == 0,
    {
        0
    }

    /// The formatted-result slot is forever empty: length zero.
    pub fn get_formatted_text(&self) -> (r: u32)
        ensures
            r == 0,
    {
        0
    }

    /// The error-text slot is forever empty: length zero.
    pub fn get_error_text(&self) -> (r: u32)
        ensures
            r == 0,
    {
        0
    }
}

} // verus!
