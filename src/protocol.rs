//! Checks on the request envelope that come before any evaluation.

use vstd::prelude::*;
use vstd::string::StringSliceAdditionalSpecFns;

verus! {

/// The only media type that an admission review may be sent as.
pub const JSON_MEDIA_TYPE: &'static str = "application/json";

/// A request may be evaluated only when it declares its content type as
/// exactly `application/json` (compared byte for byte). A request without a
/// content type is refused, as is any other type.
pub fn content_type_accepted(header: Option<&[u8]>) -> (r: bool)
    ensures
        r == match header {
            None => false,
            Some(h) => h@ == JSON_MEDIA_TYPE.spec_bytes(),
        },
{
    match header {
        None => false,
        Some(h) => {
            let expected = JSON_MEDIA_TYPE.as_bytes();
            if h.len() != expected.len() {
                return false;
            }
            let mut i: usize = 0;
            while i < h.len()
                invariant
                    header == Some(h),
                    h@.len() == expected@.len(),
                    expected@ == JSON_MEDIA_TYPE.spec_bytes(),
                    i <= h@.len(),
                    forall|j: int| 0 <= j < i ==> h@[j] == expected@[j],
                decreases h.len() - i,
            {
                if h[i] != expected[i] {
                    assert(h@[i as int] != JSON_MEDIA_TYPE.spec_bytes()[i as int]);
                    return false;
                }
                i = i + 1;
            }
            assert(h@ =~= expected@);
            true
        },
    }
}

} // verus!
