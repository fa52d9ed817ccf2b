//! Validation of a page number entered by the user.

use vstd::prelude::*;

use crate::digits::{dec_value, parse_usize, parseable};

verus! {

/// Why a submitted page number was refused: either it does not lie in the
/// half-open range it was checked against (whose bounds are carried along),
/// or it is not a decimal numeral at all.
#[derive(Clone, Copy, PartialEq, Eq, Structural, Debug)]
pub enum PageNumberError {
    OutOfRange { min: usize, max: usize },
    ParseError,
}

/// The raw numeric submission of the jump sub-flow.
pub struct Page {
    pub page_number: String,
}

impl Page {
    /// Read the submission as a decimal page number and check it against
    /// the half-open range `[min, max)`.
    ///
    /// Succeeds exactly when the text is a numeral whose value fits the
    /// machine and lies in the range; a malformed numeral is `ParseError`
    /// and a well-formed one outside the range is `OutOfRange` carrying
    /// the checked bounds.
    pub fn page_number(&self, min: usize, max: usize) -> (r: Result<usize, PageNumberError>)
        ensures
            ({
                let s = self.page_number@;
                match r {
                    Ok(n) => parseable(s) && n as nat == dec_value(s) && min <= n < max,
                    Err(PageNumberError::ParseError) => !parseable(s),
                    Err(PageNumberError::OutOfRange { min: lo, max: hi }) => {
                        &&& parseable(s)
                        &&& lo == min
                        &&& hi == max
                        &&& !(min <= dec_value(s) < max)
                    },
                }
            }),
    {
        let parsed = parse_usize(self.page_number.as_str());
        match parsed {
            Some(n) => {
                if min <= n && n < max {
                    Ok(n)
                } else {
                    Err(PageNumberError::OutOfRange { min, max })
                }
            },
            None => Err(PageNumberError::ParseError),
        }
    }
}

} // verus!
