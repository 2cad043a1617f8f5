//! The canonical written form of a token address.

use vstd::prelude::*;
use vstd::string::StrSliceExecFns;
use vstd::string::StringExecFns;

verus! {

/// Number of hex digits in a canonical address.
pub const ADDRESS_DIGITS: usize = 64;

/// `s` with one leading `0x` removed, if it has one.
pub open spec fn without_prefix(s: Seq<char>) -> Seq<char> {
    if s.len() >= 2 && s[0] == '0' && s[1] == 'x' {
        s.skip(2)
    } else {
        s
    }
}

/// `s` with zeros put in front until it has 64 characters; a longer `s` is
/// left as it is.
pub open spec fn left_padded(s: Seq<char>) -> Seq<char> {
    if s.len() >= 64 {
        s
    } else {
        Seq::new((64 - s.len()) as nat, |i: int| '0') + s
    }
}

/// The canonical form of an address: `0x`, then the digits padded to 64.
pub open spec fn standardized(s: Seq<char>) -> Seq<char> {
    seq!['0', 'x'] + left_padded(without_prefix(s))
}

/// Whether `c` is a hexadecimal digit, in either case.
pub open spec fn is_hex_digit(c: char) -> bool {
    ('0' <= c && c <= '9') || ('a' <= c && c <= 'f') || ('A' <= c && c <= 'F')
}

/// Whether `s` is `0x` followed by exactly 64 hex digits.
pub open spec fn is_canonical(s: Seq<char>) -> bool {
    &&& s.len() == 66
    &&& s[0] == '0'
    &&& s[1] == 'x'
    &&& forall|i: int| 2 <= i < 66 ==> is_hex_digit(#[trigger] s[i])
}

/// Brings an address into canonical form: a leading `0x` is dropped, the rest
/// is padded on the left with zeros to 64 characters, and `0x` is put back in
/// front. Input of more than 64 digits is kept whole.
pub fn standardize_address(handle: &str) -> (address: String)
    ensures
        address@ == standardized(handle@),
{
    let len = handle.unicode_len();
    let prefixed = len >= 2 && handle.get_char(0) == '0' && handle.get_char(1) == 'x';
    let digits: &str = if prefixed {
        handle.substring_char(2, len)
    } else {
        handle
    };
    let count = digits.unicode_len();
    let mut address = String::from_str("0x");
    proof {
        reveal_strlit("0x");
        reveal_strlit("0");
        assert(address@ =~= seq!['0', 'x']);
        assert(digits@ =~= without_prefix(handle@));
    }
    let mut filled: usize = count;
    while filled < ADDRESS_DIGITS
        invariant
            count == digits@.len(),
            count <= filled,
            count < 64 ==> filled <= 64,
            count >= 64 ==> filled == count,
            "0"@ =~= seq!['0'],
            address@ =~= seq!['0', 'x'] + Seq::new((filled - count) as nat, |i: int| '0'),
        decreases 64 - filled,
    {
        address.append("0");
        filled += 1;
    }
    let ghost zeros = Seq::new((filled - count) as nat, |i: int| '0');
    address.append(digits);
    proof {
        assert(zeros + digits@ =~= left_padded(digits@));
        assert(address@ =~= seq!['0', 'x'] + (zeros + digits@));
    }
    address
}

/// Whether `address` is in canonical form: `0x` followed by exactly 64 hex
/// digits.
pub fn is_canonical_address(address: &str) -> (canonical: bool)
    ensures
        canonical == is_canonical(address@),
{
    let len = address.unicode_len();
    if len != 66 {
        return false;
    }
    if address.get_char(0) != '0' || address.get_char(1) != 'x' {
        return false;
    }
    let mut i: usize = 2;
    while i < 66
        invariant
            2 <= i <= 66,
            address@.len() == 66,
            forall|j: int| 2 <= j < i ==> is_hex_digit(#[trigger] address@[j]),
        decreases 66 - i,
    {
        let c = address.get_char(i);
        let hex = ('0' <= c && c <= '9') || ('a' <= c && c <= 'f') || ('A' <= c && c <= 'F');
        if !hex {
            return false;
        }
        i += 1;
    }
    true
}

/// Standardizing is idempotent: a standardized address is its own canonical
/// form.
pub proof fn lemma_standardize_idempotent(s: Seq<char>)
    ensures
        standardized(standardized(s)) == standardized(s),
{
    let once = standardized(s);
    let body = left_padded(without_prefix(s));
    assert(once.len() >= 2 && once[0] == '0' && once[1] == 'x');
    assert(without_prefix(once) =~= body);
    assert(body.len() >= 64);
    assert(left_padded(body) == body);
}

/// The canonical form has 66 characters whenever the input holds at most 64
/// digits after its optional prefix, and two more than the digits otherwise.
pub proof fn lemma_standardized_length(s: Seq<char>)
    ensures
        without_prefix(s).len() <= 64 ==> standardized(s).len() == 66,
        without_prefix(s).len() > 64 ==> standardized(s).len() == without_prefix(s).len() + 2,
{
}

/// Hex digits in, canonical address out: when what follows the optional
/// prefix is at most 64 hex digits, the result is `0x` and 64 hex digits.
pub proof fn lemma_standardized_canonical(s: Seq<char>)
    requires
        without_prefix(s).len() <= 64,
        forall|i: int| 0 <= i < without_prefix(s).len() ==> is_hex_digit(#[trigger] without_prefix(s)[i]),
    ensures
        is_canonical(standardized(s)),
{
    let digits = without_prefix(s);
    let out = standardized(s);
    assert forall|i: int| 2 <= i < 66 implies is_hex_digit(#[trigger] out[i]) by {
        let pad = 64 - digits.len();
        if i - 2 < pad {
            assert(out[i] == '0');
        } else {
            assert(out[i] == digits[i - 2 - pad]);
        }
    }
}

} // verus!
