//! The form fields of the one outbound request.
//!
//! The request the tool sends is fixed: the submitted text, the Spanish
//! language code, and the flag asking for all rule categories instead of
//! only the default-enabled ones. The transport that carries these fields
//! lives outside the library.

use vstd::prelude::*;

verus! {

/// The form fields for checking `text`: the text itself, the fixed
/// language code, and `enabledOnly` switched off.
pub fn check_request_params(text: &str) -> (r: Vec<(String, String)>)
    ensures
        r@.len() == 3,
        r@[0].0@ == "text"@ && r@[0].1@ == text@,
        r@[1].0@ == "language"@ && r@[1].1@ == "es"@,
        r@[2].0@ == "enabledOnly"@ && r@[2].1@ == "false"@,
{
    let mut r: Vec<(String, String)> = Vec::new();
    r.push((String::from_str("text"), String::from_str(text)));
    r.push((String::from_str("language"), String::from_str("es")));
    r.push((String::from_str("enabledOnly"), String::from_str("false")));
    r
}

} // verus!
