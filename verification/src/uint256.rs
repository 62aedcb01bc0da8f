//! Unsigned 256-bit integers, the width of every quantity read from the chain.
//!
//! A value is held as four 64-bit words, least significant first, which is
//! also how `web3::types::U256` holds it. Its view is the natural number the
//! words spell. Sums and order are those of `web3::types::U256`; the
//! contracts here say what its operations return in terms of the view.

use vstd::prelude::*;

verus! {

/// Two to the power 64: the weight of the second word.
pub open spec fn word_base() -> nat {
    0x1_0000_0000_0000_0000nat
}

/// Two to the power 256: the first natural number that does not fit.
pub open spec fn uint256_limit() -> nat {
    0x1_0000_0000_0000_0000_0000_0000_0000_0000_0000_0000_0000_0000_0000_0000_0000_0000nat
}

/// The natural number spelled by four 64-bit words, least significant first.
pub open spec fn words_value(w0: u64, w1: u64, w2: u64, w3: u64) -> nat {
    (w0 as nat) + (w1 as nat) * 0x1_0000_0000_0000_0000nat + (w2 as nat)
        * 0x1_0000_0000_0000_0000_0000_0000_0000_0000nat + (w3 as nat)
        * 0x1_0000_0000_0000_0000_0000_0000_0000_0000_0000_0000_0000_0000nat
}

/// An unsigned 256-bit integer.
#[derive(Clone, Copy, Debug, PartialEq, Eq, Structural)]
pub struct Uint256 {
    /// Bits 0 to 63.
    pub w0: u64,
    /// Bits 64 to 127.
    pub w1: u64,
    /// Bits 128 to 191.
    pub w2: u64,
    /// Bits 192 to 255.
    pub w3: u64,
}

impl View for Uint256 {
    type V = nat;

    open spec fn view(&self) -> nat {
        words_value(self.w0, self.w1, self.w2, self.w3)
    }
}

impl Uint256 {
    /// Zero.
    pub fn zero() -> (r: Uint256)
        ensures
            r@ == 0,
    {
        Uint256 { w0: 0, w1: 0, w2: 0, w3: 0 }
    }

    /// The value of a 64-bit integer.
    pub fn from_u64(value: u64) -> (r: Uint256)
        ensures
            r@ == value,
    {
        Uint256 { w0: value, w1: 0, w2: 0, w3: 0 }
    }

    /// Builds a value from its four words, least significant first.
    pub fn from_words(words: [u64; 4]) -> (r: Uint256)
        ensures
            r@ == words_value(words@[0], words@[1], words@[2], words@[3]),
            r.w0 == words@[0],
            r.w1 == words@[1],
            r.w2 == words@[2],
            r.w3 == words@[3],
    {
        Uint256 { w0: words[0], w1: words[1], w2: words[2], w3: words[3] }
    }

    /// The four words, least significant first.
    pub fn to_words(&self) -> (words: [u64; 4])
        ensures
            words@ == seq![self.w0, self.w1, self.w2, self.w3],
    {
        let words: [u64; 4] = [self.w0, self.w1, self.w2, self.w3];
        assert(words@ =~= seq![self.w0, self.w1, self.w2, self.w3]);
        words
    }

    /// Whether the value is zero.
    pub fn is_zero(&self) -> (r: bool)
        ensures
            r == (self@ == 0),
    {
        self.w0 == 0 && self.w1 == 0 && self.w2 == 0 && self.w3 == 0
    }

    /// Whether two values are the same number.
    pub fn equals(&self, other: &Uint256) -> (r: bool)
        ensures
            r == (self@ == other@),
            r == (*self == *other),
    {
        proof {
            lemma_view_injective(*self, *other);
        }
        *self == *other
    }

}

/// Every value is below two to the power 256.
pub proof fn lemma_view_bound(a: Uint256)
    ensures
        a@ < uint256_limit(),
{
}

/// Two values with the same view have the same words.
pub proof fn lemma_view_injective(a: Uint256, b: Uint256)
    ensures
        (a@ == b@) <==> (a == b),
{
    if a@ == b@ {
        let p = word_base();
        let a2 = (a.w2 as nat) + (a.w3 as nat) * p;
        let b2 = (b.w2 as nat) + (b.w3 as nat) * p;
        let a1 = (a.w1 as nat) + a2 * p;
        let b1 = (b.w1 as nat) + b2 * p;
        assert(a@ == (a.w0 as nat) + a1 * p) by {
            lemma_nested_words(a);
        }
        assert(b@ == (b.w0 as nat) + b1 * p) by {
            lemma_nested_words(b);
        }
        lemma_same_digits(a.w0 as nat, a1, b.w0 as nat, b1, p);
        lemma_same_digits(a.w1 as nat, a2, b.w1 as nat, b2, p);
        lemma_same_digits(a.w2 as nat, a.w3 as nat, b.w2 as nat, b.w3 as nat, p);
    }
}

/// The view written with one multiplication by the word base per word.
proof fn lemma_nested_words(a: Uint256)
    ensures
        a@ == (a.w0 as nat) + ((a.w1 as nat) + ((a.w2 as nat) + (a.w3 as nat) * word_base())
            * word_base()) * word_base(),
{
    let p = word_base();
    let w1 = a.w1 as nat;
    let w2 = a.w2 as nat;
    let w3 = a.w3 as nat;
    assert(p * p == 0x1_0000_0000_0000_0000_0000_0000_0000_0000nat) by (nonlinear_arith)
        requires
            p == 0x1_0000_0000_0000_0000nat,
    ;
    assert(p * p * p == 0x1_0000_0000_0000_0000_0000_0000_0000_0000_0000_0000_0000_0000nat)
        by (nonlinear_arith)
        requires
            p == 0x1_0000_0000_0000_0000nat,
    ;
    assert((w1 + (w2 + w3 * p) * p) * p == w1 * p + w2 * (p * p) + w3 * (p * p * p))
        by (nonlinear_arith);
}

/// A number below the base followed by higher digits determines both parts.
proof fn lemma_same_digits(x0: nat, x1: nat, y0: nat, y1: nat, base: nat)
    by (nonlinear_arith)
    requires
        x0 < base,
        y0 < base,
        x0 + x1 * base == y0 + y1 * base,
    ensures
        x0 == y0,
        x1 == y1,
{
}

/// `web3::types::U256::checked_add` on the two values. That function adds
/// word by word with carry and returns `None` exactly when a carry leaves the
/// top word, so the result is the sum when it is below two to the power 256
/// and `None` otherwise.
#[verifier::external_body]
pub(crate) fn u256_checked_add(a: Uint256, b: Uint256) -> (sum: Option<Uint256>)
    ensures
        a@ + b@ < uint256_limit() ==> sum.is_some() && sum.unwrap()@ == a@ + b@,
        a@ + b@ >= uint256_limit() ==> sum.is_none(),
{
    let x = web3::types::U256(a.to_words());
    let y = web3::types::U256(b.to_words());
    x.checked_add(y).map(|s| Uint256::from_words(s.0))
}

/// The `<` of `web3::types::U256` on the two values. That type orders its
/// values by comparing words from the most significant down, which is the
/// order of the numbers they spell.
#[verifier::external_body]
pub(crate) fn u256_less_than(a: Uint256, b: Uint256) -> (r: bool)
    ensures
        r == (a@ < b@),
{
    web3::types::U256(a.to_words()) < web3::types::U256(b.to_words())
}

} // verus!
