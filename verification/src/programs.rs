//! The programs of the host ledger that the escrow relies on.

use crate::address::Address;
use vstd::prelude::*;

verus! {

/// The system program, which creates accounts and owns wallets.
pub const SYSTEM_PROGRAM_ID: [u8; 32] = [
    0, 0, 0, 0, 0, 0, 0, 0, 0, 0, 0, 0, 0, 0, 0, 0,
    0, 0, 0, 0, 0, 0, 0, 0, 0, 0, 0, 0, 0, 0, 0, 0,
];

/// The token program.
pub const TOKEN_PROGRAM_ID: [u8; 32] = [
    6, 221, 246, 225, 215, 101, 161, 147, 217, 203, 225, 70, 206, 235, 121, 172,
    28, 180, 133, 237, 95, 91, 55, 145, 58, 140, 245, 133, 126, 255, 0, 169,
];

/// The token program with extensions.
pub const TOKEN_2022_PROGRAM_ID: [u8; 32] = [
    6, 221, 246, 225, 238, 117, 143, 222, 24, 66, 93, 188, 228, 108, 205, 218,
    182, 26, 252, 77, 131, 185, 13, 39, 254, 189, 249, 40, 216, 161, 139, 252,
];

/// The program that creates token accounts at the address derived for an
/// owner and a mint.
pub const ASSOCIATED_TOKEN_PROGRAM_ID: [u8; 32] = [
    140, 151, 37, 143, 78, 36, 137, 241, 187, 61, 16, 41, 20, 142, 13, 131,
    11, 90, 19, 153, 218, 255, 16, 132, 4, 142, 123, 216, 219, 233, 248, 89,
];

/// Whether `program` implements the token interface: it is one of the two
/// token programs.
pub open spec fn spec_is_token_program(program: Address) -> bool {
    program.bytes == TOKEN_PROGRAM_ID || program.bytes == TOKEN_2022_PROGRAM_ID
}

/// Whether `program` implements the token interface.
#[verifier::when_used_as_spec(spec_is_token_program)]
pub fn is_token_program(program: Address) -> (r: bool)
    ensures
        r == spec_is_token_program(program),
{
    program == Address::new(TOKEN_PROGRAM_ID) || program == Address::new(TOKEN_2022_PROGRAM_ID)
}

/// Whether `program` is the associated token program.
pub open spec fn spec_is_associated_token_program(program: Address) -> bool {
    program.bytes == ASSOCIATED_TOKEN_PROGRAM_ID
}

/// Whether `program` is the associated token program.
#[verifier::when_used_as_spec(spec_is_associated_token_program)]
pub fn is_associated_token_program(program: Address) -> (r: bool)
    ensures
        r == spec_is_associated_token_program(program),
{
    program == Address::new(ASSOCIATED_TOKEN_PROGRAM_ID)
}

/// Whether `program` is the system program.
pub open spec fn spec_is_system_program(program: Address) -> bool {
    program.bytes == SYSTEM_PROGRAM_ID
}

/// Whether `program` is the system program.
#[verifier::when_used_as_spec(spec_is_system_program)]
pub fn is_system_program(program: Address) -> (r: bool)
    ensures
        r == spec_is_system_program(program),
{
    program == Address::new(SYSTEM_PROGRAM_ID)
}

} // verus!
