use vstd::prelude::*;

verus! {

/// File written by the assembler when no output name is given.
pub const DEFAULT_OUTPUT_FILENAME: &'static str = "output.bin";

/// Regular expression of a whole operand that is a number of up to 16 bits, in any base;
/// its group `number` holds the numeral.
pub const NUM_UP_TO_16_BIT_PATTERN: &'static str = "^(?P<number>(\\$|0x)[0-9A-Fa-f]{2}|(\\$|0x)[0-9A-Fa-f]{4}|(%|0b)[01]{8}|(%|0b)[01]{16}|(@|0o)[0-7]{1,3}|(@|0o)[0-7]{1,5}|25[0-5]|2[0-4][0-9]|1?[0-9]{1,2}|6553[0-5]|655[0-2][0-9]|65[0-4][0-9]{2}|[0-5]?[0-9]{1,4})$";

} // verus!
