//! Keys under which personal bests are stored.

use vstd::prelude::*;

verus! {

/// The 64-bit value that `std::collections::hash_map::DefaultHasher::new()`
/// finishes with after hashing `mode_type` and then `mode_config`.
pub uninterp spec fn default_hash_of(mode_type: Seq<char>, mode_config: Seq<char>) -> u64;

/// Hashes the two strings, in order, with a fresh
/// `std::collections::hash_map::DefaultHasher` (whose keys are fixed, not
/// seeded per process). The contract only names the result; SipHash is not
/// restated.
#[verifier::external_body]
fn default_hash_pair(mode_type: &str, mode_config: &str) -> (h: u64)
    ensures
        h == default_hash_of(mode_type@, mode_config@),
{
    let mut hasher = std::collections::hash_map::DefaultHasher::new();
    std::hash::Hash::hash(mode_type, &mut hasher);
    std::hash::Hash::hash(mode_config, &mut hasher);
    std::hash::Hasher::finish(&hasher)
}

/// A lower-case hexadecimal digit.
pub open spec fn hex_digit_char(d: int) -> char {
    if d < 10 {
        (('0' as u32) + d) as char
    } else {
        (('a' as u32) + (d - 10)) as char
    }
}

/// The last `k` hexadecimal digits of `n`, most significant first and
/// zero-padded, as `{:0k$x}` writes a value below `16^k`.
pub open spec fn hex_fixed(n: nat, k: nat) -> Seq<char>
    decreases k,
{
    if k == 0 {
        Seq::empty()
    } else {
        hex_fixed(n / 16, (k - 1) as nat).push(hex_digit_char((n % 16) as int))
    }
}

fn hex_char(d: u64) -> (c: char)
    requires
        d < 16,
    ensures
        c == hex_digit_char(d as int),
{
    if d < 10 {
        let b: u8 = (d as u8) + 48;
        b as char
    } else {
        let b: u8 = (d as u8) - 10 + 97;
        b as char
    }
}

fn hex_fixed_chars(n: u64, k: u32) -> (r: Vec<char>)
    ensures
        r@ == hex_fixed(n as nat, k as nat),
    decreases k,
{
    if k == 0 {
        Vec::new()
    } else {
        let mut r = hex_fixed_chars(n / 16, k - 1);
        r.push(hex_char(n % 16));
        r
    }
}

/// A configuration hash written as sixteen lower-case hexadecimal digits.
pub fn format_config_hash(hash: u64) -> (r: String)
    ensures
        r@ == hex_fixed(hash as nat, 16),
{
    let digits = hex_fixed_chars(hash, 16);
    crate::text::string_from_chars(digits.as_slice())
}

/// The key of a mode configuration in the personal-best table: the default
/// hash of the mode type and its configuration, in sixteen hex digits.
pub fn config_hash(mode_type: &str, mode_config: &str) -> (r: String)
    ensures
        r@ == hex_fixed(default_hash_of(mode_type@, mode_config@) as nat, 16),
{
    format_config_hash(default_hash_pair(mode_type, mode_config))
}

} // verus!
