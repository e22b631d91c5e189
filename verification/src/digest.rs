use vstd::prelude::*;
use vstd::string::StringExecFns;
use hmac::Mac;

verus! {

/// Number of bytes in an HMAC-SHA-256 digest.
pub const DIGEST_LEN: usize = 32;

/// HMAC-SHA-256 of the UTF-8 bytes of `pwd` under the library's fixed
/// signing key. The algorithm is far too large to restate here, so the
/// result only carries a name; it is a function of `pwd` alone.
pub uninterp spec fn password_digest(pwd: Seq<char>) -> Seq<u8>;

/// Relies on hmac::Hmac<sha2::Sha256> (new_from_slice, update, finalize):
/// a keyed digest of the password bytes under the fixed shared key. The
/// result depends on `pwd` alone and is 32 bytes long, the SHA-256 output
/// size; new_from_slice accepts a key of any length for an HMAC.
#[verifier::external_body]
pub(crate) fn compute_sha256(pwd: &str) -> (r: Vec<u8>)
    ensures
        r@ == password_digest(pwd@),
        r@.len() == DIGEST_LEN,
{
    let mut mac = <hmac::Hmac<sha2::Sha256> as Mac>::new_from_slice(b"jdf84h5fb#^239hdei#9furf")
        .unwrap();
    mac.update(pwd.as_bytes());
    mac.finalize().into_bytes().to_vec()
}

/// The uppercase hexadecimal digit for a nibble.
pub open spec fn hex_digit(n: u8) -> char {
    if n == 0 {
        '0'
    } else if n == 1 {
        '1'
    } else if n == 2 {
        '2'
    } else if n == 3 {
        '3'
    } else if n == 4 {
        '4'
    } else if n == 5 {
        '5'
    } else if n == 6 {
        '6'
    } else if n == 7 {
        '7'
    } else if n == 8 {
        '8'
    } else if n == 9 {
        '9'
    } else if n == 10 {
        'A'
    } else if n == 11 {
        'B'
    } else if n == 12 {
        'C'
    } else if n == 13 {
        'D'
    } else if n == 14 {
        'E'
    } else {
        'F'
    }
}

/// Uppercase hexadecimal rendering of a byte sequence: two digits per byte,
/// high nibble first.
pub open spec fn hex_upper_of(bytes: Seq<u8>) -> Seq<char>
    decreases bytes.len(),
{
    if bytes.len() == 0 {
        Seq::empty()
    } else {
        hex_upper_of(bytes.drop_last()) + seq![
            hex_digit(bytes.last() / 16),
            hex_digit(bytes.last() % 16),
        ]
    }
}

fn hex_digit_str(n: u8) -> (r: &'static str)
    requires
        n < 16,
    ensures
        r@ == seq![hex_digit(n)],
{
    proof {
        reveal_strlit("0");
        reveal_strlit("1");
        reveal_strlit("2");
        reveal_strlit("3");
        reveal_strlit("4");
        reveal_strlit("5");
        reveal_strlit("6");
        reveal_strlit("7");
        reveal_strlit("8");
        reveal_strlit("9");
        reveal_strlit("A");
        reveal_strlit("B");
        reveal_strlit("C");
        reveal_strlit("D");
        reveal_strlit("E");
        reveal_strlit("F");
    }
    match n {
        0 => "0",
        1 => "1",
        2 => "2",
        3 => "3",
        4 => "4",
        5 => "5",
        6 => "6",
        7 => "7",
        8 => "8",
        9 => "9",
        10 => "A",
        11 => "B",
        12 => "C",
        13 => "D",
        14 => "E",
        _ => "F",
    }
}

/// Renders `bytes` in uppercase hexadecimal, as tokens embed a digest.
pub fn to_hex_upper(bytes: &Vec<u8>) -> (s: String)
    ensures
        s@ == hex_upper_of(bytes@),
{
    let mut s = String::new();
    let mut i: usize = 0;
    while i < bytes.len()
        invariant
            i <= bytes@.len(),
            s@ == hex_upper_of(bytes@.take(i as int)),
        decreases bytes@.len() - i,
    {
        let b = bytes[i];
        s.append(hex_digit_str(b / 16));
        s.append(hex_digit_str(b % 16));
        proof {
            assert(bytes@.take(i + 1).drop_last() =~= bytes@.take(i as int));
            assert(bytes@.take(i + 1).last() == bytes@[i as int]);
        }
        i += 1;
    }
    proof {
        assert(bytes@.take(bytes@.len() as int) =~= bytes@);
    }
    s
}

/// Byte-exact comparison, as digests are compared at login.
pub fn bytes_eq(a: &Vec<u8>, b: &Vec<u8>) -> (r: bool)
    ensures
        r == (a@ == b@),
{
    if a.len() != b.len() {
        return false;
    }
    let mut i: usize = 0;
    while i < a.len()
        invariant
            a@.len() == b@.len(),
            i <= a@.len(),
            forall|j: int| 0 <= j < i ==> a@[j] == b@[j],
        decreases a@.len() - i,
    {
        if a[i] != b[i] {
            return false;
        }
        i += 1;
    }
    proof {
        assert(a@ =~= b@);
    }
    true
}

} // verus!
