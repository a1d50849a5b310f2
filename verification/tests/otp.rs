use boat::otp::{hotp, totp, OtpError};
use chrono::{DateTime, NaiveDateTime};

// These values are taken from RFC 4226:
// https://tools.ietf.org/html/rfc4226#page-32
const SECRET: &str = "12345678901234567890";
const EXPECT: &[u32] = &[
    755224, 287082, 359152, 969429, 338314, 254676, 287922, 162583, 399871, 520489,
];

#[test]
fn test_hotp() {
    for (i, e) in EXPECT.iter().enumerate() {
        let result = hotp(SECRET.as_bytes(), i as u64, 6).unwrap();
        assert_eq!(*e, result);
    }
}

#[test]
fn test_totp() {
    for (i, e) in EXPECT.iter().enumerate() {
        for j in 0..30 {
            let time: NaiveDateTime = DateTime::from_timestamp(i as i64 * 30 + j, 0)
                .unwrap()
                .naive_utc();
            let result = totp(SECRET.as_bytes(), time.and_utc().timestamp() as u64, 6).unwrap();
            assert_eq!(*e, result);
        }
    }
}

#[test]
fn test_hotp_rejects_wide_digit_counts() {
    assert_eq!(
        hotp(SECRET.as_bytes(), 0, 10),
        Err(OtpError::InvalidParameter)
    );
    assert_eq!(
        hotp(SECRET.as_bytes(), 7, 255),
        Err(OtpError::InvalidParameter)
    );
}

#[test]
fn test_totp_rejects_wide_digit_counts() {
    assert_eq!(
        totp(SECRET.as_bytes(), 59, 10),
        Err(OtpError::InvalidParameter)
    );
    assert_eq!(
        totp(SECRET.as_bytes(), 0, 11),
        Err(OtpError::InvalidParameter)
    );
}

#[test]
fn test_hotp_repeated_calls_agree() {
    let first = hotp(SECRET.as_bytes(), 4, 6).unwrap();
    let second = hotp(SECRET.as_bytes(), 4, 6).unwrap();
    assert_eq!(first, second);

    // HMAC accepts any key length, an empty one included.
    let first = hotp(b"", 12345, 8).unwrap();
    let second = hotp(b"", 12345, 8).unwrap();
    assert_eq!(first, second);
}

#[test]
fn test_hotp_codes_stay_in_range() {
    let mut bound: u32 = 1;
    for digit in 0..=9u8 {
        for counter in 0..10u64 {
            let code = hotp(SECRET.as_bytes(), counter, digit).unwrap();
            assert!(code < bound);
        }
        if digit < 9 {
            bound *= 10;
        }
    }
}

#[test]
fn test_hotp_wider_digit_counts() {
    // RFC 4226 gives 0x4c93cf18 = 1284755224 as the truncated value for
    // counter 0; narrower codes keep its low decimal digits.
    assert_eq!(hotp(SECRET.as_bytes(), 0, 9).unwrap(), 284755224);
    assert_eq!(hotp(SECRET.as_bytes(), 0, 8).unwrap(), 84755224);
    assert_eq!(hotp(SECRET.as_bytes(), 0, 1).unwrap(), 4);
    assert_eq!(hotp(SECRET.as_bytes(), 0, 0).unwrap(), 0);
}

#[test]
fn test_totp_window_boundaries() {
    // The code holds for a whole 30-second window and changes with it.
    assert_eq!(totp(SECRET.as_bytes(), 0, 6).unwrap(), EXPECT[0]);
    assert_eq!(totp(SECRET.as_bytes(), 29, 6).unwrap(), EXPECT[0]);
    assert_eq!(totp(SECRET.as_bytes(), 30, 6).unwrap(), EXPECT[1]);
    assert_eq!(totp(SECRET.as_bytes(), 59, 6).unwrap(), EXPECT[1]);
    assert_eq!(totp(SECRET.as_bytes(), 60, 6).unwrap(), EXPECT[2]);
}
