//! The Content Hasher: a deterministic, fixed-length, lowercase-hex digest of
//! a URL's text, fit to serve both as a filesystem-safe blob key and as a
//! stable index key.

use vstd::prelude::*;

verus! {

/// The lowercase hexadecimal digit character for a value below sixteen.
pub open spec fn hex_digit(d: u8) -> char
    recommends
        d < 16,
{
    if d == 0 {
        '0'
    } else if d == 1 {
        '1'
    } else if d == 2 {
        '2'
    } else if d == 3 {
        '3'
    } else if d == 4 {
        '4'
    } else if d == 5 {
        '5'
    } else if d == 6 {
        '6'
    } else if d == 7 {
        '7'
    } else if d == 8 {
        '8'
    } else if d == 9 {
        '9'
    } else if d == 10 {
        'a'
    } else if d == 11 {
        'b'
    } else if d == 12 {
        'c'
    } else if d == 13 {
        'd'
    } else if d == 14 {
        'e'
    } else {
        'f'
    }
}

/// Lowercase hex encoding of a byte sequence: two digits per byte, high
/// nibble first.
pub open spec fn hex_of(bytes: Seq<u8>) -> Seq<char>
    decreases bytes.len(),
{
    if bytes.len() == 0 {
        Seq::empty()
    } else {
        hex_of(bytes.drop_last()) + seq![
            hex_digit((bytes.last() / 16) as u8),
            hex_digit((bytes.last() % 16) as u8),
        ]
    }
}

/// The 256-bit digest of a string's text. What the value is on given
/// characters is left to the hash function; that it is a function of the
/// characters alone is the point: it makes every digest below deterministic.
pub uninterp spec fn sha256_of(text: Seq<char>) -> Seq<u8>;

/// Relies on `sha2::Sha256::digest` over the string's UTF-8 bytes: a 32-byte
/// value determined by the character content alone.
#[verifier::external_body]
fn sha256_of_str(s: &str) -> (r: Vec<u8>)
    ensures
        r@ == sha256_of(s@),
        r@.len() == 32,
{
    <sha2::Sha256 as sha2::Digest>::digest(s.as_bytes()).to_vec()
}

/// The digest under which a URL's content is cached: lowercase hex of the
/// 256-bit hash of the URL text.
pub open spec fn url_digest(url: Seq<char>) -> Seq<char> {
    hex_of(sha256_of(url))
}

/// A character of the digest alphabet: a lowercase hexadecimal digit.
pub open spec fn is_hex_char(c: char) -> bool {
    ('0' <= c && c <= '9') || ('a' <= c && c <= 'f')
}

pub proof fn lemma_hex_of_len(bytes: Seq<u8>)
    ensures
        hex_of(bytes).len() == 2 * bytes.len(),
    decreases bytes.len(),
{
    if bytes.len() > 0 {
        lemma_hex_of_len(bytes.drop_last());
    }
}

pub proof fn lemma_hex_of_alphabet(bytes: Seq<u8>)
    ensures
        forall|i: int| 0 <= i < hex_of(bytes).len() ==> is_hex_char(#[trigger] hex_of(bytes)[i]),
    decreases bytes.len(),
{
    if bytes.len() > 0 {
        lemma_hex_of_alphabet(bytes.drop_last());
        lemma_hex_of_len(bytes.drop_last());
    }
}

/// The one hex digit of a nibble.
pub(crate) fn hex_char(d: u8) -> (c: char)
    requires
        d < 16,
    ensures
        c == hex_digit(d),
{
    match d {
        0 => '0',
        1 => '1',
        2 => '2',
        3 => '3',
        4 => '4',
        5 => '5',
        6 => '6',
        7 => '7',
        8 => '8',
        9 => '9',
        10 => 'a',
        11 => 'b',
        12 => 'c',
        13 => 'd',
        14 => 'e',
        _ => 'f',
    }
}

/// Hex-encodes bytes as a lowercase string, two digits per byte.
pub fn to_hex(bytes: &[u8]) -> (r: String)
    ensures
        r@ == hex_of(bytes@),
{
    let mut out = String::new();
    let mut i: usize = 0;
    while i < bytes.len()
        invariant
            i <= bytes@.len(),
            out@ == hex_of(bytes@.take(i as int)),
        decreases bytes@.len() - i,
    {
        let b = bytes[i];
        crate::text::push_char(&mut out, hex_char(b / 16));
        crate::text::push_char(&mut out, hex_char(b % 16));
        proof {
            let taken = bytes@.take(i as int + 1);
            assert(taken.drop_last() =~= bytes@.take(i as int));
            assert(taken.last() == bytes@[i as int]);
            assert(out@ =~= hex_of(taken));
        }
        i += 1;
    }
    proof {
        assert(bytes@.take(bytes@.len() as int) =~= bytes@);
    }
    out
}

/// The Content Hasher: pure, total, and deterministic — the digest is a
/// function of the URL text alone, sixty-four lowercase hex characters.
pub fn hash_url(url: &str) -> (r: String)
    ensures
        r@ == url_digest(url@),
        r@.len() == 64,
        forall|i: int| 0 <= i < r@.len() ==> is_hex_char(#[trigger] r@[i]),
{
    let d = sha256_of_str(url);
    proof {
        lemma_hex_of_len(d@);
        lemma_hex_of_alphabet(d@);
    }
    to_hex(d.as_slice())
}

/// Hashing is stable: any two digests computed for the same URL text are
/// equal, whichever call — or process — produced them.
pub proof fn lemma_hash_deterministic(url: Seq<char>, d1: Seq<char>, d2: Seq<char>)
    requires
        d1 == url_digest(url),
        d2 == url_digest(url),
    ensures
        d1 == d2,
{
}

} // verus!
