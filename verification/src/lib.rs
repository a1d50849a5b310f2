//! One-time password codes for two-factor authentication: HOTP (counter
//! based, RFC 4226) and TOTP (time based, RFC 6238), together with the token
//! record that supplies a secret and a digit count to the generator.

use vstd::prelude::*;

pub mod otp;

verus! {

/// Token used to generate OTP codes: a named secret with a digit count.
pub struct Token {
    /// Unique identifier to retrieve the token
    pub id: String,
    /// Name of the token
    pub name: String,
    /// Logo URL
    pub logo: Option<String>,
    /// Secret used to generate OTP codes
    pub secret: Vec<u8>,
    /// Length of the OTP codes to generate
    pub digit: u8,
}

} // verus!
