//! The status-flag registry: the names of the flags, the bit that each one
//! occupies in the status byte, and the bit operations on that byte.
use vstd::prelude::*;
use vstd::string::StrSliceExecFns;

use super::fault::Fault;

verus! {

pub const CARRY: u8 = 0b0000_0001;

pub const ZERO: u8 = 0b0000_0010;

pub const INTERRUPT_DISABLE: u8 = 0b0000_0100;

pub const DECIMAL_MODE: u8 = 0b0000_1000;

pub const BREAK: u8 = 0b0001_0000;

pub const BREAK2: u8 = 0b0010_0000;

pub const OVERFLOW: u8 = 0b0100_0000;

pub const NEGATIVE: u8 = 0b1000_0000;

/// The registry as a mathematical function: the mask of the flag called
/// `name`, and `None` for a name that is not a flag's.
pub open spec fn flag_mask(name: Seq<char>) -> Option<u8> {
    if name == "CARRY"@ {
        Some(CARRY)
    } else if name == "ZERO"@ {
        Some(ZERO)
    } else if name == "INTERRUPT_DISABLE"@ {
        Some(INTERRUPT_DISABLE)
    } else if name == "DECIMAL_MODE"@ {
        Some(DECIMAL_MODE)
    } else if name == "BREAK"@ {
        Some(BREAK)
    } else if name == "BREAK2"@ {
        Some(BREAK2)
    } else if name == "OVERFLOW"@ {
        Some(OVERFLOW)
    } else if name == "NEGATIVE"@ {
        Some(NEGATIVE)
    } else {
        None
    }
}

/// The names of the flags, in the order of their bits.
pub open spec fn flag_names() -> Seq<Seq<char>> {
    seq![
        "CARRY"@,
        "ZERO"@,
        "INTERRUPT_DISABLE"@,
        "DECIMAL_MODE"@,
        "BREAK"@,
        "BREAK2"@,
        "OVERFLOW"@,
        "NEGATIVE"@,
    ]
}

/// What the registry answers for `flag`: its mask, or the fault that names
/// the unrecognised flag.
pub open spec fn mask_result(flag: &'static str) -> Result<u8, Fault> {
    match flag_mask(flag@) {
        Some(mask) => Ok(mask),
        None => Err(Fault::ConfigurationError(flag)),
    }
}

/// Whether any bit of `mask` is set in `status`.
pub open spec fn flag_is_set(status: u8, mask: u8) -> bool {
    status & mask != 0
}

/// `status` with the bits of `mask` set.
pub open spec fn with_flag_set(status: u8, mask: u8) -> u8 {
    status | mask
}

/// `status` with the bits of `mask` cleared.
pub open spec fn with_flag_clear(status: u8, mask: u8) -> u8 {
    status & !mask
}

/// `status` with the bits of `mask` set where `on` holds and cleared where it
/// does not.
pub open spec fn with_flag(status: u8, mask: u8, on: bool) -> u8 {
    if on {
        with_flag_set(status, mask)
    } else {
        with_flag_clear(status, mask)
    }
}

/// Whether two strings hold the same characters.
fn same_text(a: &str, b: &str) -> (same: bool)
    ensures
        same == (a@ == b@),
{
    let n: usize = a.unicode_len();
    if n != b.unicode_len() {
        return false;
    }
    let mut i: usize = 0;
    while i < n
        invariant
            n == a@.len(),
            n == b@.len(),
            i <= n,
            forall|j: int| 0 <= j < i ==> a@[j] == b@[j],
        decreases n - i,
    {
        if a.get_char(i) != b.get_char(i) {
            return false;
        }
        i += 1;
    }
    proof {
        assert(a@ =~= b@);
    }
    true
}

/// The names of the status flags, in the order of their bits.
pub fn status_flag_names() -> (names: [&'static str; 8])
    ensures
        names@.map_values(|name: &'static str| name@) == flag_names(),
{
    let names: [&'static str; 8] = [
        "CARRY",
        "ZERO",
        "INTERRUPT_DISABLE",
        "DECIMAL_MODE",
        "BREAK",
        "BREAK2",
        "OVERFLOW",
        "NEGATIVE",
    ];
    proof {
        assert(names@.map_values(|name: &'static str| name@) =~= flag_names());
    }
    names
}

/// The bit mask of the status flag called `flag`.
pub fn status_flag_mask(flag: &'static str) -> (r: Result<u8, Fault>)
    ensures
        r == mask_result(flag),
{
    if same_text(flag, "CARRY") {
        Ok(CARRY)
    } else if same_text(flag, "ZERO") {
        Ok(ZERO)
    } else if same_text(flag, "INTERRUPT_DISABLE") {
        Ok(INTERRUPT_DISABLE)
    } else if same_text(flag, "DECIMAL_MODE") {
        Ok(DECIMAL_MODE)
    } else if same_text(flag, "BREAK") {
        Ok(BREAK)
    } else if same_text(flag, "BREAK2") {
        Ok(BREAK2)
    } else if same_text(flag, "OVERFLOW") {
        Ok(OVERFLOW)
    } else if same_text(flag, "NEGATIVE") {
        Ok(NEGATIVE)
    } else {
        Err(Fault::ConfigurationError(flag))
    }
}

} // verus!
