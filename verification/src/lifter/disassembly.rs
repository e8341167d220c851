//! What there is to disassemble.

use vstd::prelude::*;

verus! {

/// Why an instruction could not be lifted.
#[derive(Debug)]
pub enum LifterError {
    Disassembly(String),
}

/// The bytes to disassemble at an address, which are an error if the address is
/// not mapped.
pub fn mapped_bytes<'a>(view: Option<&'a [u8]>) -> (bytes: Result<&'a [u8], LifterError>)
    ensures
        match view {
            Some(found) => bytes == Ok::<&'a [u8], LifterError>(found),
            None => bytes matches Err(LifterError::Disassembly(message)) && message@
                == "unmapped address"@,
        },
{
    match view {
        Some(found) => Ok(found),
        None => Err(LifterError::Disassembly("unmapped address".to_owned())),
    }
}

} // verus!
