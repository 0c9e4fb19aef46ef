//! The read-only knowledge a completion request draws on.
use vstd::prelude::*;

verus! {

/// Facts about the LaTeX language that are loaded once and then only read,
/// such as the names of the predefined colors.
pub struct LanguageData {
    pub colors: Vec<String>,
}

impl LanguageData {
    pub fn new(colors: Vec<String>) -> (r: LanguageData)
        ensures
            r.colors@ == colors@,
    {
        LanguageData { colors }
    }
}

} // verus!
