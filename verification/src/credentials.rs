//! Passwords and session tokens: what a registration must look like, how a
//! password is hashed, and how a fresh token is made.
use vstd::prelude::*;
use vstd::utf8::encode_utf8;
use vstd::utf8::is_ascii_chars;
use crate::status::Status;

verus! {

/// The MD5 digest of `data`, as `md5::compute` gives it.
pub uninterp spec fn md5_digest(data: Seq<u8>) -> Seq<u8>;

/// Whether `c` is alphanumeric, as `char::is_alphanumeric` decides it.
pub uninterp spec fn is_alphanumeric_char(c: char) -> bool;

/// `md5::compute` on the bytes: the contract names its result and claims
/// nothing more of it (the digest's length of 16 is its type's).
#[verifier::external_body]
fn md5_compute(data: &[u8]) -> (digest: [u8; 16])
    ensures
        digest@ == md5_digest(data@),
{
    md5::compute(data).0
}

/// `rand::random` for a block of 16 bytes. The bytes are left to chance;
/// the contract claims nothing of them.
#[verifier::external_body]
fn random_block() -> (block: [u8; 16]) {
    rand::random::<[u8; 16]>()
}

/// `char::is_alphanumeric`: the contract names its result, which rests on
/// Unicode's tables, and claims nothing more of it.
#[verifier::external_body]
fn char_is_alphanumeric(c: char) -> (res: bool)
    ensures
        res == is_alphanumeric_char(c),
{
    c.is_alphanumeric()
}

/// `String::push`: appends the character to the string.
#[verifier::external_body]
fn push_char(s: &mut String, c: char)
    ensures
        final(s)@ == old(s)@.push(c),
{
    s.push(c);
}

/// The lower-case hexadecimal digit of `d`, for `0 <= d < 16`.
pub open spec fn hex_digit(d: u8) -> char {
    if d < 10 {
        ('0' as int + d) as char
    } else {
        ('a' as int + d - 10) as char
    }
}

/// The lower-case hexadecimal text of the bytes, two digits per byte, high
/// half first.
pub open spec fn lower_hex(bytes: Seq<u8>) -> Seq<char>
    decreases bytes.len(),
{
    if bytes.len() == 0 {
        Seq::empty()
    } else {
        seq![hex_digit(bytes[0] / 16), hex_digit(bytes[0] % 16)] + lower_hex(bytes.drop_first())
    }
}

/// The stored form of a password: the hex text of the MD5 digest of its
/// UTF-8 bytes.
pub open spec fn password_hash(password: Seq<char>) -> Seq<char> {
    lower_hex(md5_digest(encode_utf8(password)))
}

/// A session token: the hex text of the MD5 digest of some 16 bytes.
pub open spec fn is_token(token: Seq<char>) -> bool {
    exists|block: Seq<u8>| block.len() == 16 && token == #[trigger] lower_hex(md5_digest(block))
}

/// Every character is a lower-case hexadecimal digit.
pub open spec fn is_lower_hex_text(s: Seq<char>) -> bool {
    forall|i: int|
        0 <= i < s.len() ==> ('0' <= #[trigger] s[i] <= '9' || 'a' <= s[i] <= 'f')
}

/// The hex text has two digits per byte, and only hex digits.
pub proof fn lemma_lower_hex_shape(bytes: Seq<u8>)
    ensures
        lower_hex(bytes).len() == 2 * bytes.len(),
        is_lower_hex_text(lower_hex(bytes)),
    decreases bytes.len(),
{
    if bytes.len() > 0 {
        lemma_lower_hex_shape(bytes.drop_first());
        let h = lower_hex(bytes);
        let rest = lower_hex(bytes.drop_first());
        let d0 = hex_digit(bytes[0] / 16);
        let d1 = hex_digit(bytes[0] % 16);
        assert(h == seq![d0, d1] + rest);
        assert('0' <= d0 <= '9' || 'a' <= d0 <= 'f');
        assert('0' <= d1 <= '9' || 'a' <= d1 <= 'f');
        assert forall|i: int| 0 <= i < h.len() implies ('0' <= #[trigger] h[i] <= '9' || 'a'
            <= h[i] <= 'f') by {
            if i >= 2 {
                assert(h[i] == rest[i - 2]);
            }
        }
    }
}

/// The lower-case hexadecimal digit of a value below 16.
fn hex_digit_char(d: u8) -> (c: char)
    requires
        d < 16,
    ensures
        c == hex_digit(d),
{
    if d < 10 {
        (48u8 + d) as char
    } else {
        (87u8 + d) as char
    }
}

/// The lower-case hexadecimal text of the bytes, as `{:x}` prints an MD5
/// digest.
pub fn to_lower_hex(bytes: &[u8]) -> (res: String)
    ensures
        res@ == lower_hex(bytes@),
{
    let mut res = String::new();
    let n = bytes.len();
    let mut i: usize = 0;
    assert(bytes@.skip(0) =~= bytes@);
    while i < n
        invariant
            n == bytes@.len(),
            i <= n,
            lower_hex(bytes@) == res@ + lower_hex(bytes@.skip(i as int)),
        decreases n - i,
    {
        let b = bytes[i];
        let hi = hex_digit_char(b / 16);
        let lo = hex_digit_char(b % 16);
        let ghost before = res@;
        push_char(&mut res, hi);
        push_char(&mut res, lo);
        proof {
            let rest = bytes@.skip(i as int);
            assert(rest[0] == b);
            assert(rest.drop_first() =~= bytes@.skip(i + 1));
            assert(lower_hex(rest) == seq![hi, lo] + lower_hex(bytes@.skip(i + 1)));
            assert(res@ =~= before + seq![hi, lo]);
            assert(before + lower_hex(rest) =~= res@ + lower_hex(bytes@.skip(i + 1)));
        }
        i = i + 1;
    }
    proof {
        assert(bytes@.skip(n as int) =~= Seq::<u8>::empty());
        assert(res@ + Seq::<char>::empty() =~= res@);
    }
    res
}

/// The stored form of a password: hex text of the MD5 digest of its bytes.
pub fn hash_password(password: &str) -> (res: String)
    ensures
        res@ == password_hash(password@),
{
    let digest = md5_compute(password.as_bytes());
    to_lower_hex(digest.as_slice())
}

/// The token made from a block of 16 bytes: the hex text of its MD5 digest,
/// 32 hex digits long.
pub fn token_from_block(block: &[u8; 16]) -> (res: String)
    ensures
        res@ == lower_hex(md5_digest(block@)),
        is_token(res@),
        res@.len() == 32,
        is_lower_hex_text(res@),
{
    let digest = md5_compute(block.as_slice());
    let res = to_lower_hex(digest.as_slice());
    proof {
        lemma_lower_hex_shape(digest@);
        assert(block@.len() == 16);
    }
    res
}

/// A fresh session token, made from 16 random bytes.
pub fn new_token() -> (res: String)
    ensures
        is_token(res@),
        res@.len() == 32,
        is_lower_hex_text(res@),
{
    let block = random_block();
    token_from_block(&block)
}

/// Every character of `s` is alphanumeric.
pub open spec fn all_alphanumeric(s: Seq<char>) -> bool {
    forall|i: int| 0 <= i < s.len() ==> #[trigger] is_alphanumeric_char(s[i])
}

/// Whether every character of the text is alphanumeric.
pub fn is_all_alphanumeric(s: &str) -> (res: bool)
    ensures
        res == all_alphanumeric(s@),
{
    let n = s.unicode_len();
    let mut i: usize = 0;
    while i < n
        invariant
            n == s@.len(),
            i <= n,
            forall|j: int| 0 <= j < i ==> #[trigger] is_alphanumeric_char(s@[j]),
        decreases n - i,
    {
        if !char_is_alphanumeric(s.get_char(i)) {
            return false;
        }
        i = i + 1;
    }
    true
}

/// Why a registration with this name and password is refused, or `None`
/// when it is accepted. Lengths count UTF-8 bytes. A text is refused for its
/// characters only when it is both not all ASCII and not all alphanumeric.
pub open spec fn signup_refusal(name: Seq<char>, password: Seq<char>) -> Option<Status> {
    let password_len = encode_utf8(password).len();
    let name_len = encode_utf8(name).len();
    if password_len < 8 {
        Some(Status::PasswordTooShort)
    } else if password_len > 32 {
        Some(Status::PasswordTooBig)
    } else if name_len < 5 {
        Some(Status::UsernameTooShort)
    } else if name_len > 32 {
        Some(Status::UsernameTooBig)
    } else if !is_ascii_chars(password) && !all_alphanumeric(password) {
        Some(Status::PasswordNotAlphanumeric)
    } else if !is_ascii_chars(name) && !all_alphanumeric(name) {
        Some(Status::UsernameNotAlphanumeric)
    } else {
        None
    }
}

/// Why a registration with this name and password is refused, if it is.
pub fn check_signup(name: &String, password: &String) -> (res: Option<Status>)
    ensures
        res == signup_refusal(name@, password@),
{
    let password_len = password.as_str().as_bytes().len();
    let name_len = name.as_str().as_bytes().len();
    if password_len < 8 {
        return Some(Status::PasswordTooShort);
    }
    if password_len > 32 {
        return Some(Status::PasswordTooBig);
    }
    if name_len < 5 {
        return Some(Status::UsernameTooShort);
    }
    if name_len > 32 {
        return Some(Status::UsernameTooBig);
    }
    if !password.is_ascii() && !is_all_alphanumeric(password.as_str()) {
        return Some(Status::PasswordNotAlphanumeric);
    }
    if !name.is_ascii() && !is_all_alphanumeric(name.as_str()) {
        return Some(Status::UsernameNotAlphanumeric);
    }
    None
}

/// The registration rules, as what `check_signup` (and so `sqlx_signup`)
/// answers for every name and password: the password must be 8 to 32 bytes,
/// the name 5 to 32 bytes, and a text is refused for its characters only
/// when it is neither all ASCII nor all alphanumeric, so an all-ASCII name
/// or password is never refused for its characters. Each refusal names the
/// first rule broken, in that order, and none is a success.
pub proof fn lemma_signup_rules(name: Seq<char>, password: Seq<char>)
    ensures
        ({
            let pl = encode_utf8(password).len();
            let nl = encode_utf8(name).len();
            let lengths_ok = 8 <= pl <= 32 && 5 <= nl <= 32;
            let password_chars_ok = is_ascii_chars(password) || all_alphanumeric(password);
            let name_chars_ok = is_ascii_chars(name) || all_alphanumeric(name);
            let r = signup_refusal(name, password);
            &&& (r is None) <==> (lengths_ok && password_chars_ok && name_chars_ok)
            &&& (r == Some(Status::PasswordTooShort)) <==> pl < 8
            &&& (r == Some(Status::PasswordTooBig)) <==> pl > 32
            &&& (r == Some(Status::UsernameTooShort)) <==> (8 <= pl <= 32 && nl < 5)
            &&& (r == Some(Status::UsernameTooBig)) <==> (8 <= pl <= 32 && nl > 32)
            &&& (r == Some(Status::PasswordNotAlphanumeric)) <==> (lengths_ok && !is_ascii_chars(password)
                && !all_alphanumeric(password))
            &&& (r == Some(Status::UsernameNotAlphanumeric)) <==> (lengths_ok && password_chars_ok
                && !is_ascii_chars(name) && !all_alphanumeric(name))
            &&& lengths_ok && is_ascii_chars(name) && is_ascii_chars(password) ==> r is None
            &&& r matches Some(st) ==> st != Status::Success
        }),
{
}

} // verus!
