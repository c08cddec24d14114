//! Authentication type constants.

use vstd::prelude::*;

verus! {

/// AuthenticationOk.
pub const OK: i32 = 0;

/// AuthenticationCleartextPassword.
pub const CLEARTEXT_PASSWORD: i32 = 3;

/// AuthenticationMD5Password; a 4-byte salt follows.
pub const MD5_PASSWORD: i32 = 5;

/// AuthenticationSASL; the mechanism names follow.
pub const SASL: i32 = 10;

/// AuthenticationSASLContinue.
pub const SASL_CONTINUE: i32 = 11;

/// AuthenticationSASLFinal.
pub const SASL_FINAL: i32 = 12;

} // verus!
