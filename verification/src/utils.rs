//! Node ids: the leading hex digits of the SHA-256 digest of a node's cluster address.
use vstd::prelude::*;
use vstd::string::StrSliceExecFns;
use crypto::digest::Digest;
use crypto::sha2::Sha256;

verus! {

/// The SHA-256 hasher of the `rust-crypto` crate.
#[verifier::external_type_specification]
#[verifier::external_body]
pub struct ExSha256(Sha256);

/// The bytes a hasher has absorbed so far.
pub uninterp spec fn sha256_absorbed(h: Sha256) -> Seq<u8>;

/// The SHA-256 digest of `data`.
pub uninterp spec fn sha256_digest(data: Seq<u8>) -> Seq<u8>;

/// The lower-case hexadecimal digit of a value below sixteen.
pub open spec fn hex_digit(v: int) -> char {
    if v < 10 {
        ((v + 48) as u8) as char
    } else {
        ((v + 87) as u8) as char
    }
}

/// Two lower-case hexadecimal digits per byte, most significant digit first.
pub open spec fn hex_lower(bytes: Seq<u8>) -> Seq<char>
    decreases bytes.len(),
{
    if bytes.len() == 0 {
        Seq::empty()
    } else {
        hex_lower(bytes.drop_last()).push(hex_digit(bytes.last() as int / 16)).push(
            hex_digit(bytes.last() as int % 16),
        )
    }
}

/// `Sha256::new()`: a hasher that has absorbed nothing.
#[verifier::external_body]
fn sha256_new() -> (h: Sha256)
    ensures
        sha256_absorbed(h) == Seq::<u8>::empty(),
{
    Sha256::new()
}

/// `Digest::input_str`: the hasher absorbs the UTF-8 bytes of `s`.
#[verifier::external_body]
fn sha256_input_str(h: &mut Sha256, s: &str)
    ensures
        sha256_absorbed(*final(h)) == sha256_absorbed(*old(h)) + vstd::utf8::encode_utf8(s@),
{
    h.input_str(s);
}

/// `Digest::result_str`: the 32-byte digest of what the hasher absorbed, written as
/// lower-case hexadecimal (`rustc-serialize`'s `to_hex`, two digits per byte). The hasher is
/// taken by value: once it is finished, no later input can reach it.
#[verifier::external_body]
fn sha256_result_str(h: Sha256) -> (r: String)
    ensures
        r@ == hex_lower(sha256_digest(sha256_absorbed(h))),
        r@.len() == 64,
{
    let mut h = h;
    h.result_str()
}

/// `256^n`.
pub open spec fn pow256(n: nat) -> nat
    decreases n,
{
    if n == 0 {
        1
    } else {
        256 * pow256((n - 1) as nat)
    }
}

/// The big-endian number whose bytes are the (ASCII) characters of `s`.
pub open spec fn big_endian_value(s: Seq<char>) -> nat
    decreases s.len(),
{
    if s.len() == 0 {
        0
    } else {
        big_endian_value(s.drop_last()) * 256 + (s.last() as u8) as nat
    }
}

/// The node id of a hexadecimal digest: its first eight characters, read as the bytes of a
/// big-endian `u64`.
pub open spec fn node_id_of_hex(hex: Seq<char>) -> nat {
    big_endian_value(hex.take(8))
}

/// The node id generated for a cluster address.
pub open spec fn spec_node_id(address: Seq<char>) -> nat {
    node_id_of_hex(hex_lower(sha256_digest(vstd::utf8::encode_utf8(address))))
}

proof fn lemma_pow256_step(n: nat)
    ensures
        pow256(n + 1) == 256 * pow256(n),
{
}

proof fn lemma_big_endian_bound(s: Seq<char>, v: nat, b: u8)
    requires
        v < pow256(s.len()),
    ensures
        v * 256 + (b as nat) < pow256(s.len() + 1),
{
    lemma_pow256_step(s.len());
    assert(v * 256 + (b as nat) < pow256(s.len()) * 256) by (nonlinear_arith)
        requires
            v < pow256(s.len()),
            b < 256,
    ;
}

/// Hexadecimal digits are ASCII.
proof fn lemma_hex_lower_ascii(bytes: Seq<u8>)
    ensures
        hex_lower(bytes).len() == 2 * bytes.len(),
        forall|i: int| 0 <= i < hex_lower(bytes).len() ==> '\0' <= #[trigger] hex_lower(bytes)[i] <= '\u{7f}',
    decreases bytes.len(),
{
    if bytes.len() > 0 {
        lemma_hex_lower_ascii(bytes.drop_last());
    }
}

/// The node id of a hexadecimal digest: its first eight characters, read as the bytes of a
/// big-endian `u64`.
pub fn node_id_from_digest(hex: &str) -> (r: u64)
    requires
        hex.is_ascii(),
        hex@.len() >= 8,
    ensures
        r == node_id_of_hex(hex@),
{
    let mut acc: u64 = 0;
    let mut i: usize = 0;
    while i < 8
        invariant
            hex.is_ascii(),
            hex@.len() >= 8,
            i <= 8,
            acc == big_endian_value(hex@.take(i as int)),
            acc < pow256(i as nat),
        decreases 8 - i,
    {
        let b = hex.get_ascii(i);
        proof {
            let t = hex@.take(i + 1);
            assert(t.drop_last() == hex@.take(i as int));
            assert(t.last() == hex@[i as int]);
            lemma_big_endian_bound(hex@.take(i as int), acc as nat, b);
            assert(pow256(8) == 0x1_0000_0000_0000_0000) by {
                reveal_with_fuel(pow256, 9);
            }
            if i + 1 < 8 {
                lemma_pow_mono(i as nat + 1);
            }
        }
        acc = acc * 256 + b as u64;
        i = i + 1;
    }
    acc
}

proof fn lemma_pow_mono(n: nat)
    requires
        n <= 8,
    ensures
        pow256(n) <= pow256(8),
    decreases 8 - n,
{
    if n < 8 {
        lemma_pow_mono(n + 1);
        lemma_pow256_step(n);
    }
}

/// Whether `c` is a lower-case hexadecimal digit.
pub open spec fn is_lower_hex(c: char) -> bool {
    ('0' <= c && c <= '9') || ('a' <= c && c <= 'f')
}

/// The eight hexadecimal digits whose bytes make up the node id of a cluster address.
pub open spec fn node_id_digits(address: Seq<char>) -> Seq<char> {
    hex_lower(sha256_digest(vstd::utf8::encode_utf8(address))).take(8)
}

/// The big-endian number of `n` bytes that all equal `b`.
pub open spec fn repeated_bytes(b: nat, n: nat) -> nat
    decreases n,
{
    if n == 0 {
        0
    } else {
        repeated_bytes(b, (n - 1) as nat) * 256 + b
    }
}

/// Lower-case hexadecimal digits are what `hex_lower` writes.
proof fn lemma_hex_lower_digits(bytes: Seq<u8>)
    ensures
        forall|i: int| 0 <= i < hex_lower(bytes).len() ==> is_lower_hex(#[trigger] hex_lower(bytes)[i]),
    decreases bytes.len(),
{
    lemma_hex_lower_ascii(bytes);
    if bytes.len() > 0 {
        lemma_hex_lower_digits(bytes.drop_last());
        let b = bytes.last() as int;
        assert(is_lower_hex(hex_digit(b / 16)));
        assert(is_lower_hex(hex_digit(b % 16)));
        let h = hex_lower(bytes);
        let hi = hex_lower(bytes.drop_last());
        assert(h == hi.push(hex_digit(b / 16)).push(hex_digit(b % 16)));
        assert forall|i: int| 0 <= i < h.len() implies is_lower_hex(#[trigger] h[i]) by {
            if i < hi.len() {
                assert(h[i] == hi[i]);
            }
        }
    }
}

/// A big-endian number whose bytes are all digits from `'0'` to `'f'` lies between the
/// number of all-`'0'` bytes and the number of all-`'f'` bytes.
proof fn lemma_hex_value_bounds(s: Seq<char>)
    requires
        forall|i: int| 0 <= i < s.len() ==> is_lower_hex(#[trigger] s[i]),
    ensures
        repeated_bytes(48, s.len()) <= big_endian_value(s) <= repeated_bytes(102, s.len()),
    decreases s.len(),
{
    if s.len() > 0 {
        let init = s.drop_last();
        assert forall|i: int| 0 <= i < init.len() implies is_lower_hex(#[trigger] init[i]) by {
            assert(init[i] == s[i]);
        }
        lemma_hex_value_bounds(init);
        assert(is_lower_hex(s[s.len() - 1]));
        let c = s.last();
        assert(48 <= (c as u8) as nat <= 102);
    }
}

/// Generates the node id of a cluster address: the first eight hexadecimal digits of the
/// SHA-256 digest of the address, read as the bytes of a big-endian `u64`. Every byte of the
/// id is a lower-case hexadecimal digit, so the id is never zero; equal addresses give equal
/// ids.
pub fn generate_node_id(address: &str) -> (r: u64)
    ensures
        r == spec_node_id(address@),
        node_id_digits(address@).len() == 8,
        forall|i: int| 0 <= i < 8 ==> is_lower_hex(#[trigger] node_id_digits(address@)[i]),
        r == big_endian_value(node_id_digits(address@)),
        0x3030_3030_3030_3030 <= r <= 0x6666_6666_6666_6666,
{
    let mut hasher = sha256_new();
    sha256_input_str(&mut hasher, address);
    assert(sha256_absorbed(hasher) =~= vstd::utf8::encode_utf8(address@));
    let hex = sha256_result_str(hasher);
    proof {
        let d = sha256_digest(vstd::utf8::encode_utf8(address@));
        lemma_hex_lower_ascii(d);
        lemma_hex_lower_digits(d);
        let digits = node_id_digits(address@);
        assert(digits.len() == 8);
        assert forall|i: int| 0 <= i < 8 implies is_lower_hex(#[trigger] digits[i]) by {
            assert(digits[i] == hex_lower(d)[i]);
        }
        lemma_hex_value_bounds(digits);
        assert(repeated_bytes(48, 8) == 0x3030_3030_3030_3030) by {
            reveal_with_fuel(repeated_bytes, 9);
        }
        assert(repeated_bytes(102, 8) == 0x6666_6666_6666_6666) by {
            reveal_with_fuel(repeated_bytes, 9);
        }
    }
    let hs = hex.as_str();
    assert(vstd::string::is_ascii(hs));
    node_id_from_digest(hs)
}

} // verus!
