//! The command line of the guest, as the C string that the guest reads.

use crate::error::Error;
use vstd::prelude::*;
use vstd::string::StringSliceAdditionalSpecFns;

verus! {

/// Whether `position` is where the first NUL byte of `bytes` stands.
pub open spec fn first_nul(bytes: Seq<u8>, position: int) -> bool {
    &&& 0 <= position < bytes.len()
    &&& bytes[position] == 0
    &&& forall|i: int| 0 <= i < position ==> bytes[i] != 0
}

/// Whether `bytes` holds no NUL byte.
pub open spec fn nul_free(bytes: Seq<u8>) -> bool {
    forall|i: int| 0 <= i < bytes.len() ==> bytes[i] != 0
}

/// The command line as a C string: its bytes, ended by a NUL byte. A command
/// line that holds a NUL byte itself is refused.
pub fn command_line_bytes(cmdline: &str) -> (result: Result<Vec<u8>, Error>)
    ensures
        match result {
            Ok(bytes) => nul_free(cmdline.spec_bytes()) && bytes@ == cmdline.spec_bytes().push(0),
            Err(error) => error matches Error::InvalidCommandLine { nul_position } && first_nul(
                cmdline.spec_bytes(),
                nul_position as int,
            ),
        },
{
    let text = cmdline.as_bytes();
    let mut bytes: Vec<u8> = Vec::new();
    let mut i: usize = 0;
    while i < text.len()
        invariant
            i <= text.len(),
            text@ == cmdline.spec_bytes(),
            bytes@ == text@.take(i as int),
            forall|j: int| 0 <= j < i ==> text@[j] != 0,
        decreases text.len() - i,
    {
        if text[i] == 0 {
            assert(first_nul(text@, i as int));
            return Err(Error::InvalidCommandLine { nul_position: i });
        }
        bytes.push(text[i]);
        i = i + 1;
    }
    assert(text@.take(i as int) =~= text@);
    bytes.push(0);
    Ok(bytes)
}

} // verus!
