//! Signing primitives shared by the KuCoin clients: the HMAC-SHA256 tag of
//! `ring`, the standard Base64 encoding of `base64`, the decimal rendering of
//! integers, the header-value check of `http`, and the wall clock.

use vstd::prelude::*;
use vstd::utf8::*;

verus! {

/// Character limit on any text that is signed: it keeps the UTF-8 encoding
/// of a signed message far below the input limit of SHA-256.
pub open spec fn max_signed_text_len() -> nat {
    0x0200_0000_0000_0000
}

/// Byte limit on each input of HMAC-SHA256 (SHA-256 counts its input in a
/// 64-bit number of bits).
pub open spec fn hmac_input_limit() -> nat {
    0x1000_0000_0000_0000
}

/// The HMAC-SHA256 tag of `message` under `key` (RFC 2104 with SHA-256).
pub uninterp spec fn hmac_sha256(key: Seq<u8>, message: Seq<u8>) -> Seq<u8>;

/// Computes HMAC-SHA256 with `ring::hmac::Key::new(HMAC_SHA256, key)` and
/// `ring::hmac::sign`. Claimed: the tag is `hmac_sha256(key, message)` and is
/// 32 bytes long (the SHA-256 output length). ring panics when an input is
/// too long to be counted in bits by SHA-256; `requires` leaves those out.
#[verifier::external_body]
fn hmac_sha256_tag(key: &[u8], message: &[u8]) -> (tag: Vec<u8>)
    requires
        key@.len() < hmac_input_limit(),
        message@.len() < hmac_input_limit(),
    ensures
        tag@ == hmac_sha256(key@, message@),
        tag@.len() == 32,
{
    let signing_key = ring::hmac::Key::new(ring::hmac::HMAC_SHA256, key);
    ring::hmac::sign(&signing_key, message).as_ref().to_vec()
}

/// The character of the standard Base64 alphabet for a 6-bit value.
pub open spec fn base64_char(v: int) -> char {
    if v < 26 {
        (v + 65) as char
    } else if v < 52 {
        (v + 71) as char
    } else if v < 62 {
        (v - 4) as char
    } else if v == 62 {
        '+'
    } else {
        '/'
    }
}

/// Standard Base64 (RFC 4648, section 4) with `=` padding: each group of
/// three bytes becomes four characters, and a final group of one or two
/// bytes is padded to four characters.
pub open spec fn base64_spec(bytes: Seq<u8>) -> Seq<char>
    decreases bytes.len(),
{
    if bytes.len() == 0 {
        seq![]
    } else if bytes.len() == 1 {
        let b0 = bytes[0] as int;
        seq![base64_char(b0 / 4), base64_char((b0 % 4) * 16), '=', '=']
    } else if bytes.len() == 2 {
        let b0 = bytes[0] as int;
        let b1 = bytes[1] as int;
        seq![
            base64_char(b0 / 4),
            base64_char((b0 % 4) * 16 + b1 / 16),
            base64_char((b1 % 16) * 4),
            '=',
        ]
    } else {
        let b0 = bytes[0] as int;
        let b1 = bytes[1] as int;
        let b2 = bytes[2] as int;
        seq![
            base64_char(b0 / 4),
            base64_char((b0 % 4) * 16 + b1 / 16),
            base64_char((b1 % 16) * 4 + b2 / 64),
            base64_char(b2 % 64),
        ] + base64_spec(bytes.subrange(3, bytes.len() as int))
    }
}

/// A character of the standard Base64 alphabet or its `=` padding.
pub open spec fn is_base64_char(c: char) -> bool {
    ||| 'A' <= c <= 'Z'
    ||| 'a' <= c <= 'z'
    ||| '0' <= c <= '9'
    ||| c == '+'
    ||| c == '/'
    ||| c == '='
}

/// The Base64 text of `n` bytes has `4 * ceil(n / 3)` characters.
pub proof fn lemma_base64_len(bytes: Seq<u8>)
    ensures
        base64_spec(bytes).len() == 4 * ((bytes.len() + 2) / 3),
    decreases bytes.len(),
{
    if bytes.len() >= 3 {
        lemma_base64_len(bytes.subrange(3, bytes.len() as int));
    }
}

/// Every character of a Base64 text is in the alphabet or is padding.
pub proof fn lemma_base64_alphabet(bytes: Seq<u8>)
    ensures
        forall|i: int|
            0 <= i < base64_spec(bytes).len() ==> is_base64_char(#[trigger] base64_spec(bytes)[i]),
    decreases bytes.len(),
{
    assert forall|v: int| 0 <= v < 64 implies is_base64_char(#[trigger] base64_char(v)) by {}
    if bytes.len() >= 3 {
        let rest = bytes.subrange(3, bytes.len() as int);
        lemma_base64_alphabet(rest);
        let b0 = bytes[0] as int;
        let b1 = bytes[1] as int;
        let b2 = bytes[2] as int;
        let head = seq![
            base64_char(b0 / 4),
            base64_char((b0 % 4) * 16 + b1 / 16),
            base64_char((b1 % 16) * 4 + b2 / 64),
            base64_char(b2 % 64),
        ];
        assert(base64_spec(bytes) == head + base64_spec(rest));
        assert forall|i: int| 0 <= i < base64_spec(bytes).len() implies is_base64_char(
            #[trigger] base64_spec(bytes)[i],
        ) by {
            if i >= 4 {
                assert(base64_spec(bytes)[i] == base64_spec(rest)[i - 4]);
            }
        }
    }
}

/// The Base64 text of a 32-byte tag: 44 characters, the first 43 from the
/// alphabet and the last one a single `=` of padding.
pub open spec fn is_signature_text(text: Seq<char>) -> bool {
    &&& text.len() == 44
    &&& forall|i: int| 0 <= i < 43 ==> is_base64_char(#[trigger] text[i]) && text[i] != '='
    &&& text[43] == '='
}

/// When the byte count leaves a remainder of two, the Base64 text ends in
/// exactly one `=` and has no padding before it.
pub proof fn lemma_base64_single_padding(bytes: Seq<u8>)
    requires
        bytes.len() % 3 == 2,
    ensures
        base64_spec(bytes)[base64_spec(bytes).len() - 1] == '=',
        forall|i: int|
            0 <= i < base64_spec(bytes).len() - 1 ==> is_base64_char(#[trigger] base64_spec(bytes)[i])
                && base64_spec(bytes)[i] != '=',
    decreases bytes.len(),
{
    lemma_base64_len(bytes);
    assert forall|v: int| 0 <= v < 64 implies is_base64_char(#[trigger] base64_char(v)) && base64_char(v)
        != '=' by {}
    if bytes.len() >= 3 {
        let rest = bytes.subrange(3, bytes.len() as int);
        lemma_base64_single_padding(rest);
        lemma_base64_len(rest);
        let b0 = bytes[0] as int;
        let b1 = bytes[1] as int;
        let b2 = bytes[2] as int;
        let head = seq![
            base64_char(b0 / 4),
            base64_char((b0 % 4) * 16 + b1 / 16),
            base64_char((b1 % 16) * 4 + b2 / 64),
            base64_char(b2 % 64),
        ];
        assert(base64_spec(bytes) == head + base64_spec(rest));
        assert forall|i: int| 0 <= i < base64_spec(bytes).len() - 1 implies is_base64_char(
            #[trigger] base64_spec(bytes)[i],
        ) && base64_spec(bytes)[i] != '=' by {
            if i >= 4 {
                assert(base64_spec(bytes)[i] == base64_spec(rest)[i - 4]);
            }
        }
        assert(base64_spec(bytes)[base64_spec(bytes).len() - 1] == base64_spec(rest)[base64_spec(
            rest,
        ).len() - 1]);
    }
}

/// The UTF-8 bytes of a text over the Base64 alphabet form a valid header
/// value: Base64 characters are visible ASCII.
pub proof fn lemma_base64_text_is_header_value(text: Seq<char>)
    requires
        forall|i: int| 0 <= i < text.len() ==> is_base64_char(#[trigger] text[i]),
    ensures
        is_valid_header_value(encode_utf8(text)),
{
    assert(is_ascii_chars(text));
    is_ascii_chars_encode_utf8(text);
    assert forall|i: int| 0 <= i < encode_utf8(text).len() implies ((#[trigger] encode_utf8(text)[i] >= 32
        && encode_utf8(text)[i] != 127) || encode_utf8(text)[i] == 9) by {
        assert(text[i] as u8 == encode_utf8(text)[i]);
        assert(is_base64_char(text[i]));
    }
}

/// Encodes with `base64::encode`, which uses the `STANDARD` configuration
/// (standard alphabet, padding on). Claimed: the result is `base64_spec` of
/// the input. The crate panics when the encoded length overflows `usize`;
/// `requires` leaves that out.
#[verifier::external_body]
fn base64_encode(bytes: &[u8]) -> (encoded: String)
    requires
        (bytes@.len() / 3 + 1) * 4 <= usize::MAX,
    ensures
        encoded@ == base64_spec(bytes@),
{
    base64::encode(bytes)
}


/// The ASCII digit for a value in 0..10.
pub open spec fn digit_char(d: int) -> char {
    (d + 48) as char
}

/// Decimal digits of a natural number, most significant first, no leading zeros.
pub open spec fn nat_decimal(n: nat) -> Seq<char>
    decreases n,
{
    if n < 10 {
        seq![digit_char(n as int)]
    } else {
        nat_decimal(n / 10).push(digit_char((n % 10) as int))
    }
}

/// Decimal rendering of an integer, with a leading `-` for negatives.
pub open spec fn int_decimal(i: int) -> Seq<char> {
    if i < 0 {
        seq!['-'] + nat_decimal((-i) as nat)
    } else {
        nat_decimal(i as nat)
    }
}

/// `10^k`.
pub open spec fn pow10(k: nat) -> nat
    decreases k,
{
    if k == 0 {
        1
    } else {
        10 * pow10((k - 1) as nat)
    }
}

/// A number below `10^k` has at most `k` decimal digits.
pub proof fn lemma_nat_decimal_len(n: nat, k: nat)
    requires
        1 <= k,
        n < pow10(k),
    ensures
        nat_decimal(n).len() <= k,
    decreases k,
{
    if n >= 10 {
        if k == 1 {
            assert(pow10(1) == 10) by {
                reveal_with_fuel(pow10, 2);
            }
        } else {
            let p = pow10((k - 1) as nat);
            assert(n / 10 < p) by (nonlinear_arith)
                requires
                    n < 10 * p,
            ;
            lemma_nat_decimal_len(n / 10, (k - 1) as nat);
        }
    }
}

/// The decimal rendering of an `i64` has at most 20 characters.
pub proof fn lemma_i64_decimal_len(value: i64)
    ensures
        int_decimal(value as int).len() <= 20,
{
    assert(pow10(19) == 10000000000000000000) by {
        reveal_with_fuel(pow10, 20);
    }
    if value < 0 {
        lemma_nat_decimal_len((-(value as int)) as nat, 19);
    } else {
        lemma_nat_decimal_len(value as nat, 19);
    }
}

/// A decimal rendering is never empty, and it has more than one digit from 10 on.
pub proof fn lemma_nat_decimal_nonempty(n: nat)
    ensures
        nat_decimal(n).len() >= 1,
        n >= 10 ==> nat_decimal(n).len() >= 2,
    decreases n,
{
    if n >= 10 {
        lemma_nat_decimal_nonempty(n / 10);
    }
}

/// Different numbers have different decimal renderings.
pub proof fn lemma_nat_decimal_injective(a: nat, b: nat)
    requires
        nat_decimal(a) == nat_decimal(b),
    ensures
        a == b,
    decreases a,
{
    lemma_nat_decimal_nonempty(a);
    lemma_nat_decimal_nonempty(b);
    if a >= 10 && b >= 10 {
        let da = nat_decimal(a);
        let db = nat_decimal(b);
        assert(da.last() == digit_char((a % 10) as int));
        assert(db.last() == digit_char((b % 10) as int));
        assert(a % 10 == b % 10);
        assert(nat_decimal(a / 10) == da.drop_last());
        assert(nat_decimal(b / 10) == db.drop_last());
        lemma_nat_decimal_injective(a / 10, b / 10);
    } else if a < 10 && b < 10 {
        assert(nat_decimal(a)[0] == digit_char(a as int));
        assert(nat_decimal(b)[0] == digit_char(b as int));
    }
}

/// Renders an `i64` with its `Display` impl (through `ToString`), which
/// writes the decimal digits with a leading `-` for negatives.
#[verifier::external_body]
pub(crate) fn i64_to_decimal(value: i64) -> (text: String)
    ensures
        text@ == int_decimal(value as int),
{
    value.to_string()
}

/// Renders a `u8` with its `Display` impl (through `ToString`): its decimal digits.
#[verifier::external_body]
pub(crate) fn u8_to_decimal(value: u8) -> (text: String)
    ensures
        text@ == nat_decimal(value as nat),
{
    value.to_string()
}

/// Reads the wall clock with `chrono::Utc::now().timestamp_millis()`: the
/// milliseconds since the Unix epoch. Claimed: the count is not negative
/// (`Utc::now` measures the time since the epoch). Not stated: which value
/// comes back, which depends on the time. chrono panics when the system clock
/// reads a time before the epoch; nothing in the arguments excludes that.
#[verifier::external_body]
pub(crate) fn current_timestamp_millis() -> (millis: i64)
    ensures
        millis >= 0,
{
    chrono::Utc::now().timestamp_millis()
}

/// One reading of the wall clock, in milliseconds since the Unix epoch, as
/// its view. Only [`read_clock`] makes one and it cannot be copied, so a
/// reading held by a call's result was taken by that call.
#[derive(Debug)]
pub struct ClockReading {
    millis: i64,
}

/// A clock reading kept after its use. Only [`ClockReading::record`] makes one.
#[derive(Debug, Clone, Copy)]
pub struct ClockRecord {
    millis: i64,
}

impl View for ClockReading {
    type V = int;

    closed spec fn view(&self) -> int {
        self.millis as int
    }
}

impl View for ClockRecord {
    type V = int;

    closed spec fn view(&self) -> int {
        self.millis as int
    }
}

impl ClockReading {
    /// The milliseconds read.
    pub fn millis(&self) -> (millis: i64)
        ensures
            millis == self@,
    {
        self.millis
    }

    /// Keeps the reading after its use.
    pub fn record(self) -> (record: ClockRecord)
        ensures
            record@ == self@,
    {
        ClockRecord { millis: self.millis }
    }
}

impl ClockRecord {
    /// The milliseconds that were read.
    pub fn millis(&self) -> (millis: i64)
        ensures
            millis == self@,
    {
        self.millis
    }
}

/// Reads the wall clock.
pub fn read_clock() -> (reading: ClockReading)
    ensures
        reading@ >= 0,
{
    ClockReading { millis: current_timestamp_millis() }
}

/// `InvalidHeaderValue` of the `http` crate, as re-exported by `reqwest`.
#[verifier::external_type_specification]
#[verifier::external_body]
pub struct ExInvalidHeaderValue(reqwest::header::InvalidHeaderValue);

/// A byte string that `http` accepts as a header value: every byte is a
/// tab or at least 32 and not DEL (127).
pub open spec fn is_valid_header_value(bytes: Seq<u8>) -> bool {
    forall|i: int|
        0 <= i < bytes.len() ==> ((#[trigger] bytes[i] >= 32 && bytes[i] != 127) || bytes[i] == 9)
}

/// Checks a header value with `reqwest::header::HeaderValue::from_str`.
/// Claimed: it succeeds exactly when every byte of the UTF-8 text is a tab
/// or at least 32 and not 127 (its `is_valid` byte test).
#[verifier::external_body]
pub(crate) fn check_header_value(value: &str) -> (res: Result<(), reqwest::header::InvalidHeaderValue>)
    ensures
        res is Ok <==> is_valid_header_value(encode_utf8(value@)),
{
    match reqwest::header::HeaderValue::from_str(value) {
        Ok(_) => Ok(()),
        Err(e) => Err(e),
    }
}

/// The KuCoin signature of `message` under `secret`: the Base64 text of the
/// HMAC-SHA256 tag, key and message taken as UTF-8 bytes.
pub open spec fn signature_of(secret: Seq<char>, message: Seq<char>) -> Seq<char> {
    base64_spec(hmac_sha256(encode_utf8(secret), encode_utf8(message)))
}

/// Each character takes at most four bytes in UTF-8.
pub proof fn lemma_encode_utf8_len(a: Seq<char>)
    ensures
        encode_utf8(a).len() <= 4 * a.len(),
    decreases a.len(),
{
    if a.len() > 0 {
        lemma_encode_utf8_len(a.drop_first());
        assert(encode_scalar(a[0] as u32).len() <= 4);
    }
}

/// Signs `message` with `secret` as KuCoin's API expects: HMAC-SHA256 over
/// the UTF-8 bytes, then standard Base64.
pub fn sign_message(secret: &str, message: &str) -> (signature: String)
    requires
        secret@.len() < max_signed_text_len(),
        message@.len() < max_signed_text_len(),
    ensures
        signature@ == signature_of(secret@, message@),
        is_signature_text(signature@),
        is_valid_header_value(encode_utf8(signature@)),
{
    proof {
        lemma_encode_utf8_len(secret@);
        lemma_encode_utf8_len(message@);
    }
    let tag = hmac_sha256_tag(secret.as_bytes(), message.as_bytes());
    let signature = base64_encode(tag.as_slice());
    proof {
        lemma_base64_len(tag@);
        lemma_base64_single_padding(tag@);
        lemma_base64_alphabet(tag@);
        lemma_base64_text_is_header_value(signature@);
    }
    signature
}

} // verus!
