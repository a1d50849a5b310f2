//! HOTP (RFC 4226) and TOTP (RFC 6238) code generation.
//!
//! The HOTP code for a key, a counter and a digit count is the RFC 4226
//! dynamic truncation of `HMAC-SHA1(key, counter as 8 big-endian bytes)`,
//! reduced modulo `10^digits`. The TOTP code is the HOTP code at the counter
//! `timestamp / 30`.

use vstd::arithmetic::div_mod::lemma_fundamental_div_mod_converse;
use vstd::prelude::*;

verus! {

/// Error returned when a parameter is outside the range the algorithm
/// supports.
#[derive(Clone, Copy, Debug, PartialEq, Eq, Structural)]
pub enum OtpError {
    /// The digit count asks for a power of ten that overflows the 31-bit
    /// truncated value.
    InvalidParameter,
}

/// Length of a TOTP time window, in seconds.
pub const TIME_STEP: u64 = 30;

/// The largest digit count the generator accepts: `10^9` still fits in a
/// `u32`, `10^10` does not.
pub const MAX_DIGITS: u8 = 9;

/// 10 raised to the power `d`.
pub open spec fn pow10(d: nat) -> nat
    decreases d,
{
    if d == 0 {
        1
    } else {
        10 * pow10((d - 1) as nat)
    }
}

proof fn lemma_pow10_pos(d: nat)
    ensures
        pow10(d) >= 1,
    decreases d,
{
    if d > 0 {
        lemma_pow10_pos((d - 1) as nat);
    }
}

proof fn lemma_pow10_mono(a: nat, b: nat)
    requires
        a <= b,
    ensures
        pow10(a) <= pow10(b),
    decreases b,
{
    if a < b {
        lemma_pow10_mono(a, (b - 1) as nat);
    }
}

/// 10^d, as a machine integer, for every digit count the generator accepts.
pub fn pow10_u32(d: u8) -> (r: u32)
    requires
        d <= MAX_DIGITS,
    ensures
        r == pow10(d as nat),
{
    let mut r: u32 = 1;
    let mut i: u8 = 0;
    while i < d
        invariant
            i <= d <= MAX_DIGITS,
            r == pow10(i as nat),
        decreases d - i,
    {
        proof {
            lemma_pow10_mono(i as nat, 8);
            reveal_with_fuel(pow10, 10);
            assert(pow10(8) == 100000000);
        }
        r = r * 10;
        i = i + 1;
    }
    r
}

/// The eight bytes of `c`, most significant first.
pub open spec fn be_bytes_of(c: u64) -> Seq<u8> {
    seq![
        (c >> 56) as u8,
        (c >> 48) as u8,
        (c >> 40) as u8,
        (c >> 32) as u8,
        (c >> 24) as u8,
        (c >> 16) as u8,
        (c >> 8) as u8,
        c as u8,
    ]
}

/// Serialize a counter as an 8-byte big-endian unsigned integer.
pub fn counter_bytes(c: u64) -> (r: Vec<u8>)
    ensures
        r@ == be_bytes_of(c),
{
    let mut r: Vec<u8> = Vec::new();
    r.push((c >> 56) as u8);
    r.push((c >> 48) as u8);
    r.push((c >> 40) as u8);
    r.push((c >> 32) as u8);
    r.push((c >> 24) as u8);
    r.push((c >> 16) as u8);
    r.push((c >> 8) as u8);
    r.push(c as u8);
    proof {
        assert(r@ =~= be_bytes_of(c));
    }
    r
}

/// What HMAC-SHA1 returns for a key and a message: the digest is a function
/// of the two byte sequences alone.
pub uninterp spec fn hmac_sha1_of(key: Seq<u8>, msg: Seq<u8>) -> Seq<u8>;

/// Relies on crypto's `Hmac::new(Sha1::new(), key)` with `Mac::input` and
/// `Mac::result`: the digest depends on the key and the message alone, and
/// is 20 bytes long, since SHA-1 outputs 160 bits.
#[verifier::external_body]
fn hmac_sha1(key: &[u8], msg: &[u8]) -> (r: Vec<u8>)
    ensures
        r@ == hmac_sha1_of(key@, msg@),
        r@.len() == 20,
{
    let mut hmac = crypto::hmac::Hmac::new(crypto::sha1::Sha1::new(), key);
    crypto::mac::Mac::input(&mut hmac, msg);
    let hmac_res = crypto::mac::Mac::result(&mut hmac);
    hmac_res.code().to_vec()
}

/// The offset that dynamic truncation takes from a 20-byte digest: the low
/// four bits of its last byte.
pub open spec fn dt_offset(hs: Seq<u8>) -> int {
    (hs[19] & 0x0f) as int
}

/// The 31-bit value that RFC 4226 dynamic truncation extracts from a 20-byte
/// digest: the four bytes starting at the offset, big-endian, with the top
/// bit of the first byte cleared.
pub open spec fn dt_value(hs: Seq<u8>) -> nat {
    ((hs[dt_offset(hs)] & 0x7f) as nat) * 0x1000000
        + (hs[dt_offset(hs) + 1] as nat) * 0x10000
        + (hs[dt_offset(hs) + 2] as nat) * 0x100
        + (hs[dt_offset(hs) + 3] as nat)
}

/// The HOTP code for a key, a counter and a digit count.
pub open spec fn hotp_value(key: Seq<u8>, counter: u64, digit: u8) -> nat {
    dt_value(hmac_sha1_of(key, be_bytes_of(counter))) % pow10(digit as nat)
}

/// The counter a timestamp falls in: the number of whole time steps since
/// the Unix epoch.
pub open spec fn totp_counter(timestamp: u64) -> u64 {
    timestamp / TIME_STEP
}

/// The TOTP code for a key, a timestamp and a digit count.
pub open spec fn totp_value(key: Seq<u8>, timestamp: u64, digit: u8) -> nat {
    hotp_value(key, totp_counter(timestamp), digit)
}

/// Dynamic truncation (RFC 4226 section 5.3, steps 2 and 3): extract a
/// 31-bit value from a 20-byte digest and reduce it modulo 10^digit.
pub fn truncate_code(hs: &[u8], digit: u8) -> (r: u32)
    requires
        hs@.len() == 20,
        digit <= MAX_DIGITS,
    ensures
        r == dt_value(hs@) % pow10(digit as nat),
{
    let last = hs[19];
    let offset = (last & 0x0f) as usize;
    assert(last & 0x0f < 16) by (bit_vector);
    let b0 = hs[offset] & 0x7f;
    let b1 = hs[offset + 1];
    let b2 = hs[offset + 2];
    let b3 = hs[offset + 3];
    let snum: u32 = ((b0 as u32) << 24) | ((b1 as u32) << 16) | ((b2 as u32) << 8) | (b3 as u32);
    assert(snum == (b0 as u32) * 0x1000000 + (b1 as u32) * 0x10000 + (b2 as u32) * 0x100 + (b3
        as u32)) by (bit_vector)
        requires
            snum == ((b0 as u32) << 24) | ((b1 as u32) << 16) | ((b2 as u32) << 8) | (b3 as u32),
    ;
    assert(snum == dt_value(hs@));
    let p = pow10_u32(digit);
    proof {
        lemma_pow10_pos(digit as nat);
    }
    snum % p
}

/// hotp generates a 2FA code using the HMAC based one time password
/// algorithm: the dynamic truncation of HMAC-SHA1 over the big-endian
/// counter, reduced modulo 10^digit. Digit counts above nine are rejected,
/// since their power of ten overflows the truncated range.
pub fn hotp(key: &[u8], counter: u64, digit: u8) -> (r: Result<u32, OtpError>)
    ensures
        digit <= MAX_DIGITS ==> r is Ok && r->Ok_0 == hotp_value(key@, counter, digit),
        digit > MAX_DIGITS ==> r == Err::<u32, OtpError>(OtpError::InvalidParameter),
        r is Ok ==> r->Ok_0 < pow10(digit as nat),
{
    if digit > MAX_DIGITS {
        return Err(OtpError::InvalidParameter);
    }
    let msg = counter_bytes(counter);
    let hs = hmac_sha1(key, msg.as_slice());
    let code = truncate_code(hs.as_slice(), digit);
    proof {
        lemma_pow10_pos(digit as nat);
    }
    Ok(code)
}

/// totp generates a 2FA code using the time based one time password
/// algorithm: the HOTP code at the counter `timestamp / 30`, where the
/// timestamp counts seconds since the Unix epoch, in UTC.
pub fn totp(key: &[u8], timestamp: u64, digit: u8) -> (r: Result<u32, OtpError>)
    ensures
        digit <= MAX_DIGITS ==> r is Ok && r->Ok_0 == totp_value(key@, timestamp, digit),
        digit > MAX_DIGITS ==> r == Err::<u32, OtpError>(OtpError::InvalidParameter),
        r is Ok ==> r->Ok_0 < pow10(digit as nat),
{
    hotp(key, timestamp / TIME_STEP, digit)
}

/// Determinism: the HOTP code is a function of the key, the counter and the
/// digit count alone, so any two codes computed from the same inputs are
/// equal.
pub proof fn lemma_hotp_deterministic(key: Seq<u8>, counter: u64, digit: u8, r1: nat, r2: nat)
    requires
        r1 == hotp_value(key, counter, digit),
        r2 == hotp_value(key, counter, digit),
    ensures
        r1 == r2,
{
}

/// Range invariant: every HOTP code lies in `[0, 10^digit)`.
pub proof fn lemma_hotp_range(key: Seq<u8>, counter: u64, digit: u8)
    ensures
        hotp_value(key, counter, digit) < pow10(digit as nat),
{
    lemma_pow10_pos(digit as nat);
}

/// Window stability: two timestamps whose quotients by the time step agree
/// give the same TOTP code.
pub proof fn lemma_totp_window_stable(key: Seq<u8>, t1: u64, t2: u64, digit: u8)
    requires
        t1 / TIME_STEP == t2 / TIME_STEP,
    ensures
        totp_value(key, t1, digit) == totp_value(key, t2, digit),
{
}

/// Window change: one whole time step later, the TOTP code is the HOTP code
/// at the incremented counter.
pub proof fn lemma_totp_window_increment(key: Seq<u8>, t: u64, digit: u8)
    requires
        t + TIME_STEP <= u64::MAX,
    ensures
        totp_counter((t + TIME_STEP) as u64) == totp_counter(t) + 1,
        totp_value(key, (t + TIME_STEP) as u64, digit) == hotp_value(
            key,
            (totp_counter(t) + 1) as u64,
            digit,
        ),
{
    lemma_fundamental_div_mod_converse(
        t + TIME_STEP,
        TIME_STEP as int,
        t as int / TIME_STEP as int + 1,
        t as int % TIME_STEP as int,
    );
}

/// TOTP equivalence: every second within window `i`, that is in
/// `[30 * i, 30 * i + 29]`, gives the HOTP code for counter `i`.
pub proof fn lemma_totp_matches_hotp(key: Seq<u8>, t: u64, i: u64, digit: u8)
    requires
        TIME_STEP * i <= t,
        t <= TIME_STEP * i + (TIME_STEP - 1),
    ensures
        totp_value(key, t, digit) == hotp_value(key, i, digit),
{
    lemma_fundamental_div_mod_converse(
        t as int,
        TIME_STEP as int,
        i as int,
        t - TIME_STEP * i,
    );
}

} // verus!
