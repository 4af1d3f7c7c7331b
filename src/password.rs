use vstd::prelude::*;

use sha2::Digest;

verus! {

/// The SHA-512 digest of a byte string.
pub uninterp spec fn sha512_of(data: Seq<u8>) -> Seq<u8>;

/// The lower-case hexadecimal digit for a value below 16.
pub open spec fn hex_digit(v: u8) -> char {
    if v < 10 {
        (48 + v) as char
    } else {
        (87 + v) as char
    }
}

/// Two lower-case hexadecimal digits per byte, high nibble first.
pub open spec fn lower_hex(b: Seq<u8>) -> Seq<char>
    decreases b.len(),
{
    if b.len() == 0 {
        Seq::empty()
    } else {
        lower_hex(b.drop_last()).push(hex_digit(b.last() / 16)).push(hex_digit(b.last() % 16))
    }
}

/// The bytes that are hashed for an account: the password, a `+`, then the
/// username.
pub open spec fn salted(password: Seq<u8>, username: Seq<u8>) -> Seq<u8> {
    password + seq![43u8] + username
}

/// The stored hash of a password for a username.
pub open spec fn spec_hash_password(password: Seq<u8>, username: Seq<u8>) -> Seq<char> {
    lower_hex(sha512_of(salted(password, username)))
}

/// Relies on sha2's `Digest::digest` for `Sha512`: a 64-byte digest that
/// depends on the input bytes alone.
#[verifier::external_body]
fn sha512_digest(data: &[u8]) -> (r: Vec<u8>)
    ensures
        r@ == sha512_of(data@),
        r@.len() == 64,
{
    sha2::Sha512::digest(data).to_vec()
}

/// Relies on `hex::encode`: two lower-case digits per byte, high nibble first.
#[verifier::external_body]
fn hex_encode(data: &[u8]) -> (r: String)
    ensures
        r@ == lower_hex(data@),
{
    hex::encode(data)
}

/// The bytes that are hashed for an account: the password, a `+`, then the
/// username.
pub fn salted_bytes(password: &[u8], username: &[u8]) -> (r: Vec<u8>)
    ensures
        r@ == salted(password@, username@),
{
    let mut data: Vec<u8> = Vec::new();
    let mut i: usize = 0;
    while i < password.len()
        invariant
            0 <= i <= password@.len(),
            data@ == password@.subrange(0, i as int),
        decreases password@.len() - i,
    {
        data.push(password[i]);
        i = i + 1;
    }
    data.push(43u8);
    let mut j: usize = 0;
    while j < username.len()
        invariant
            0 <= j <= username@.len(),
            data@ == password@ + seq![43u8] + username@.subrange(0, j as int),
        decreases username@.len() - j,
    {
        data.push(username[j]);
        j = j + 1;
        assert(data@ =~= password@ + seq![43u8] + username@.subrange(0, j as int));
    }
    assert(data@ =~= salted(password@, username@));
    data
}

/// Whether a stored hash is the lower-case hexadecimal form of a digest.
pub fn hex_matches(password_hash: &str, digest: &[u8]) -> (r: bool)
    ensures
        r == (password_hash@ == lower_hex(digest@)),
{
    let expected = hex_encode(digest);
    let stored = password_hash.to_owned();
    stored == expected
}

/// The hexadecimal SHA-512 digest of the password, a `+` and the username.
pub fn hash_password(password: &[u8], username: &[u8]) -> (r: String)
    ensures
        r@ == spec_hash_password(password@, username@),
{
    let data = salted_bytes(password, username);
    let digest = sha512_digest(data.as_slice());
    hex_encode(digest.as_slice())
}

/// Whether a stored hash is the hash of the password for the username.
pub fn check_password_hash(password_hash: &str, password: &[u8], username: &[u8]) -> (r: bool)
    ensures
        r == (password_hash@ == spec_hash_password(password@, username@)),
{
    let data = salted_bytes(password, username);
    let digest = sha512_digest(data.as_slice());
    hex_matches(password_hash, digest.as_slice())
}

} // verus!
