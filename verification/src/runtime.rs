//! What concerns the library as a whole.

use vstd::prelude::*;

use crate::error::{code_bits, unsigned_code};
use crate::text::{number_text, push_number, push_str};

verus! {

/// The initialization of COM found the thread in another mode, which does.
pub const CHANGED_MODE: u32 = 0x8001_0106;

/// Whether COM can be used after an initialization that ended with this code.
pub open spec fn com_usable(hr: i32) -> bool {
    let code = code_bits(hr);
    code == 0 || code == 1 || code == CHANGED_MODE
}

/// The line to print about an initialization of COM, if there is anything to say.
pub fn com_report(hr: i32) -> (line: Option<String>)
    ensures
        match line {
            Some(text) => !com_usable(hr) && text@ == "wincap: CoInitializeEx failed: 0x"@
                + number_text(code_bits(hr), 16, 8, true),
            None => com_usable(hr),
        },
{
    let code: u32 = unsigned_code(hr);
    if code == 0 || code == 1 || code == CHANGED_MODE {
        return None;
    }
    let mut line = String::new();
    push_str(&mut line, "wincap: CoInitializeEx failed: 0x");
    push_number(&mut line, code as u64, 16, 8, true);
    Some(line)
}

/// The version of the library.
pub fn version() -> (v: String)
    ensures
        v@ == "0.3.1"@,
{
    "0.3.1".to_owned()
}

/// COM can be used exactly if its initialization succeeded, had been done already, or
/// found the thread in another mode.
pub proof fn law_com_is_usable_after(hr: i32)
    ensures
        com_usable(hr) <==> hr == 0 || hr == 1 || hr == -0x7ffe_fefa,
{
}

} // verus!
