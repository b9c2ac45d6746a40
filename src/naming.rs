use vstd::prelude::*;
use vstd::string::StrSliceExecFns;

verus! {

/// Fewest characters a brand name may have.
pub const MIN_NAME_LEN: usize = 4;

/// Most characters a brand name may have.
pub const MAX_NAME_LEN: usize = 20;

/// Why a brand name was refused.
#[derive(Clone, Copy, Debug, PartialEq, Eq, Structural)]
pub enum NameError {
    Empty,
    TooShort,
    TooLong,
}

/// A brand name is acceptable when it has between four and twenty characters.
pub open spec fn valid_name(name: Seq<char>) -> bool {
    MIN_NAME_LEN <= name.len() <= MAX_NAME_LEN
}

/// The verdict on a name: emptiness is reported before shortness, shortness
/// before length.
pub open spec fn name_verdict(name: Seq<char>) -> Result<(), NameError> {
    if name.len() == 0 {
        Err(NameError::Empty)
    } else if name.len() < MIN_NAME_LEN {
        Err(NameError::TooShort)
    } else if name.len() > MAX_NAME_LEN {
        Err(NameError::TooLong)
    } else {
        Ok(())
    }
}

/// Checks a proposed brand name.
pub fn check_name(name: &str) -> (r: Result<(), NameError>)
    ensures
        r == name_verdict(name@),
        r is Ok <==> valid_name(name@),
{
    let n: usize = name.unicode_len();
    if n == 0 {
        Err(NameError::Empty)
    } else if n < MIN_NAME_LEN {
        Err(NameError::TooShort)
    } else if n > MAX_NAME_LEN {
        Err(NameError::TooLong)
    } else {
        Ok(())
    }
}

} // verus!
