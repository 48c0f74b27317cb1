//! The formatter facade: a value that holds the options to format with.

use crate::config::FormatOptions;
use crate::config::apply::is_default;
use vstd::prelude::*;

verus! {

/// A formatter and the options it formats with.
#[derive(Debug, Clone, PartialEq, Eq)]
pub struct Formatter {
    options: FormatOptions,
}

impl Formatter {
    /// The options this formatter formats with.
    pub closed spec fn settings(&self) -> FormatOptions {
        self.options
    }

    /// A formatter with the default options.
    pub fn new() -> (r: Self)
        ensures
            is_default(r.settings()),
    {
        Self { options: FormatOptions::default() }
    }

    /// A formatter with the given options.
    pub fn with_options(options: FormatOptions) -> (r: Self)
        ensures
            r.settings() == options,
    {
        Self { options }
    }

    /// The options this formatter formats with.
    pub fn options(&self) -> (r: &FormatOptions)
        ensures
            *r == self.settings(),
    {
        &self.options
    }

    /// The options this formatter formats with, to be changed in place.
    pub fn options_mut(&mut self) -> (r: &mut FormatOptions)
        ensures
            *r == old(self).settings(),
            final(self).settings() == *final(r),
    {
        &mut self.options
    }
}

impl Default for Formatter {
    fn default() -> (r: Self)
        ensures
            is_default(r.settings()),
    {
        Self::new()
    }
}

} // verus!
