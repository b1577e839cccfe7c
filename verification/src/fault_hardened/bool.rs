//! A boolean stored as one of two unrelated 32-bit words.
//!
//! A single flipped bit, a negation or a shift never turns one legal word
//! into the other, so a fault that hits a stored boolean leaves a word that
//! every operation recognises as corrupt. The word-level functions of this
//! module say which words are recognised and what each operator computes;
//! [`Bool`] wraps them and stops the program where they report corruption.

use core::ops::{BitAnd, BitAndAssign, BitOr, BitOrAssign, BitXor, BitXorAssign, Not};
use vstd::pervasive::unreached;
use vstd::prelude::*;
use vstd::std_specs::cmp::PartialEqSpecImpl;
use vstd::std_specs::convert::{FromSpec, FromSpecImpl};
use vstd::std_specs::ops::{BitAndSpecImpl, BitOrSpecImpl, BitXorSpecImpl, NotSpecImpl};
use vstd::string::StringExecFns;

verus! {

/// The word that stands for `true`.
pub const TRUE: u32 = 0b0010_1010_1010_1010_1010_1110_1010_1010;

/// The word that stands for `false`.
pub const FALSE: u32 = 0b0110_0101_0101_0110_1100_0011_0101_1100;

/// Whether `word` is one of the two words a [`Bool`] may hold.
pub open spec fn is_legal(word: u32) -> bool {
    word == TRUE || word == FALSE
}

/// The word that stands for `b`.
pub open spec fn word_of(b: bool) -> u32 {
    if b {
        TRUE
    } else {
        FALSE
    }
}

/// What a stored word means: a boolean, or nothing if it is corrupt.
pub open spec fn meaning(word: u32) -> Option<bool> {
    if word == TRUE {
        Some(true)
    } else if word == FALSE {
        Some(false)
    } else {
        None
    }
}

/// The outcome of a unary operator `op` on a stored word.
pub open spec fn unary_outcome(a: u32, op: spec_fn(bool) -> bool) -> Option<u32> {
    match meaning(a) {
        Some(x) => Some(word_of(op(x))),
        None => None,
    }
}

/// The outcome of a binary operator `op` on two stored words.
pub open spec fn binary_outcome(a: u32, b: u32, op: spec_fn(bool, bool) -> bool) -> Option<u32> {
    match (meaning(a), meaning(b)) {
        (Some(x), Some(y)) => Some(word_of(op(x, y))),
        _ => None,
    }
}

/// The outcome of comparing two stored words.
pub open spec fn equality_outcome(a: u32, b: u32) -> Option<bool> {
    match (meaning(a), meaning(b)) {
        (Some(x), Some(y)) => Some(x == y),
        _ => None,
    }
}

/// Reads a stored word: `None` reports a corrupt word.
#[inline(always)]
pub fn decode(word: u32) -> (r: Option<bool>)
    ensures
        r == meaning(word),
{
    if word != TRUE && word != FALSE {
        return None;
    }
    Some(word == TRUE)
}

/// The word for the conjunction of two stored words: `None` reports that one
/// of them is corrupt.
#[inline(always)]
pub fn and_words(a: u32, b: u32) -> (r: Option<u32>)
    ensures
        r == binary_outcome(a, b, |x: bool, y: bool| x && y),
{
    if a == TRUE && b == TRUE {
        Some(TRUE)
    } else if (a == FALSE && b == FALSE) || (a == FALSE && b == TRUE)
        || (a == TRUE && b == FALSE) {
        Some(FALSE)
    } else {
        None
    }
}

/// The word for the disjunction of two stored words: `None` reports that one
/// of them is corrupt.
#[inline(always)]
pub fn or_words(a: u32, b: u32) -> (r: Option<u32>)
    ensures
        r == binary_outcome(a, b, |x: bool, y: bool| x || y),
{
    if (a == TRUE && b == TRUE) || (a == FALSE && b == TRUE) || (a == TRUE && b == FALSE) {
        Some(TRUE)
    } else if a == FALSE && b == FALSE {
        Some(FALSE)
    } else {
        None
    }
}

/// The word for the exclusive disjunction of two stored words: `None` reports
/// that one of them is corrupt.
#[inline(always)]
pub fn xor_words(a: u32, b: u32) -> (r: Option<u32>)
    ensures
        r == binary_outcome(a, b, |x: bool, y: bool| x != y),
{
    if (a == TRUE && b == TRUE) || (a == FALSE && b == FALSE) {
        Some(FALSE)
    } else if (a == TRUE && b == FALSE) || (a == FALSE && b == TRUE) {
        Some(TRUE)
    } else {
        None
    }
}

/// The word for the negation of a stored word: `None` reports that it is
/// corrupt.
#[inline(always)]
pub fn not_word(a: u32) -> (r: Option<u32>)
    ensures
        r == unary_outcome(a, |x: bool| !x),
{
    if a == TRUE {
        Some(FALSE)
    } else if a == FALSE {
        Some(TRUE)
    } else {
        None
    }
}

/// Whether two stored words mean the same boolean: `None` reports that one of
/// them is corrupt.
#[inline(always)]
pub fn eq_words(a: u32, b: u32) -> (r: Option<bool>)
    ensures
        r == equality_outcome(a, b),
{
    if (a == TRUE && b == TRUE) || (a == FALSE && b == FALSE) {
        Some(true)
    } else if (a == TRUE && b == FALSE) || (a == FALSE && b == TRUE) {
        Some(false)
    } else {
        None
    }
}

/// A fault-resistant boolean.
///
/// It is made from a native boolean only, so it always holds [`TRUE`] or
/// [`FALSE`]. Every operation still checks the words it is given: a third
/// word can only be the trace of a fault, and the operation then panics
/// instead of returning.
#[derive(Clone, Copy, Debug, Eq)]
pub struct Bool(u32);

impl View for Bool {
    type V = bool;

    open spec fn view(&self) -> bool {
        self.word() == TRUE
    }
}

impl Bool {
    #[verifier::type_invariant]
    spec fn holds_legal_word(self) -> bool {
        is_legal(self.0)
    }

    /// The stored word.
    pub closed spec fn word(self) -> u32 {
        self.0
    }

    /// The value that encodes `b`.
    pub closed spec fn encoding(b: bool) -> Bool {
        Bool(word_of(b))
    }

    /// The stored word, which is always a legal one.
    pub fn to_word(&self) -> (w: u32)
        ensures
            w == self.word(),
            is_legal(w),
            meaning(w) == Some(self@),
    {
        proof {
            use_type_invariant(self);
        }
        self.0
    }

    /// The text `true` or `false`.
    pub fn to_string(&self) -> (s: String)
        ensures
            s@ == (if self@ { "true"@ } else { "false"@ }),
    {
        if bool::from(*self) {
            String::from_str("true")
        } else {
            String::from_str("false")
        }
    }
}

impl From<bool> for Bool {
    #[inline(always)]
    fn from(source: bool) -> (r: Bool)
        ensures
            r.word() == word_of(source),
            r@ == source,
    {
        if source {
            Bool(TRUE)
        } else {
            Bool(FALSE)
        }
    }
}

impl FromSpecImpl<bool> for Bool {
    open spec fn obeys_from_spec() -> bool {
        true
    }

    open spec fn from_spec(source: bool) -> Bool {
        Bool::encoding(source)
    }
}

impl From<Bool> for bool {
    #[inline(always)]
    fn from(source: Bool) -> (r: bool)
        ensures
            r == source@,
    {
        proof {
            use_type_invariant(&source);
        }
        match decode(source.0) {
            Some(b) => b,
            None => unreached(),
        }
    }
}

impl FromSpecImpl<Bool> for bool {
    open spec fn obeys_from_spec() -> bool {
        true
    }

    open spec fn from_spec(source: Bool) -> bool {
        source@
    }
}

impl Default for Bool {
    fn default() -> (r: Bool)
        ensures
            r.word() == FALSE,
            r@ == false,
    {
        Bool(FALSE)
    }
}

impl BitAnd for Bool {
    type Output = Bool;

    #[inline(always)]
    fn bitand(self, rhs: Bool) -> (r: Bool)
        ensures
            r.word() == word_of(self@ && rhs@),
            r@ == (self@ && rhs@),
    {
        proof {
            use_type_invariant(&self);
            use_type_invariant(&rhs);
        }
        match and_words(self.0, rhs.0) {
            Some(word) => Bool(word),
            None => unreached(),
        }
    }
}

impl BitAndSpecImpl for Bool {
    open spec fn obeys_bitand_spec() -> bool {
        true
    }

    open spec fn bitand_req(self, rhs: Bool) -> bool {
        true
    }

    open spec fn bitand_spec(self, rhs: Bool) -> Bool {
        Bool::encoding(self@ && rhs@)
    }
}

impl BitAndAssign for Bool {
    #[inline(always)]
    fn bitand_assign(&mut self, rhs: Bool)
        ensures
            final(self).word() == word_of(old(self)@ && rhs@),
            final(self)@ == (old(self)@ && rhs@),
    {
        *self = *self & rhs
    }
}

impl BitOr for Bool {
    type Output = Bool;

    #[inline(always)]
    fn bitor(self, rhs: Bool) -> (r: Bool)
        ensures
            r.word() == word_of(self@ || rhs@),
            r@ == (self@ || rhs@),
    {
        proof {
            use_type_invariant(&self);
            use_type_invariant(&rhs);
        }
        match or_words(self.0, rhs.0) {
            Some(word) => Bool(word),
            None => unreached(),
        }
    }
}

impl BitOrSpecImpl for Bool {
    open spec fn obeys_bitor_spec() -> bool {
        true
    }

    open spec fn bitor_req(self, rhs: Bool) -> bool {
        true
    }

    open spec fn bitor_spec(self, rhs: Bool) -> Bool {
        Bool::encoding(self@ || rhs@)
    }
}

impl BitOrAssign for Bool {
    #[inline(always)]
    fn bitor_assign(&mut self, rhs: Bool)
        ensures
            final(self).word() == word_of(old(self)@ || rhs@),
            final(self)@ == (old(self)@ || rhs@),
    {
        *self = *self | rhs;
    }
}

impl BitXor for Bool {
    type Output = Bool;

    #[inline(always)]
    fn bitxor(self, rhs: Bool) -> (r: Bool)
        ensures
            r.word() == word_of(self@ != rhs@),
            r@ == (self@ != rhs@),
    {
        proof {
            use_type_invariant(&self);
            use_type_invariant(&rhs);
        }
        match xor_words(self.0, rhs.0) {
            Some(word) => Bool(word),
            None => unreached(),
        }
    }
}

impl BitXorSpecImpl for Bool {
    open spec fn obeys_bitxor_spec() -> bool {
        true
    }

    open spec fn bitxor_req(self, rhs: Bool) -> bool {
        true
    }

    open spec fn bitxor_spec(self, rhs: Bool) -> Bool {
        Bool::encoding(self@ != rhs@)
    }
}

impl BitXorAssign for Bool {
    #[inline(always)]
    fn bitxor_assign(&mut self, rhs: Bool)
        ensures
            final(self).word() == word_of(old(self)@ != rhs@),
            final(self)@ == (old(self)@ != rhs@),
    {
        *self = *self ^ rhs;
    }
}

impl Not for Bool {
    type Output = Bool;

    #[inline(always)]
    fn not(self) -> (r: Bool)
        ensures
            r.word() == word_of(!self@),
            r@ == !self@,
    {
        proof {
            use_type_invariant(&self);
        }
        match not_word(self.0) {
            Some(word) => Bool(word),
            None => unreached(),
        }
    }
}

impl NotSpecImpl for Bool {
    open spec fn obeys_not_spec() -> bool {
        true
    }

    open spec fn not_req(self) -> bool {
        true
    }

    open spec fn not_spec(self) -> Bool {
        Bool::encoding(!self@)
    }
}

impl PartialEq for Bool {
    #[inline(always)]
    fn eq(&self, other: &Bool) -> (r: bool)
    {
        proof {
            use_type_invariant(self);
            use_type_invariant(other);
        }
        match eq_words(self.0, other.0) {
            Some(same) => same,
            None => unreached(),
        }
    }
}

impl PartialEqSpecImpl for Bool {
    open spec fn obeys_eq_spec() -> bool {
        true
    }

    open spec fn eq_spec(&self, other: &Bool) -> bool {
        self@ == other@
    }
}

/// The encoding of a boolean holds the word that stands for it.
pub proof fn lemma_encoding(b: bool)
    ensures
        Bool::encoding(b).word() == word_of(b),
        Bool::encoding(b)@ == b,
        is_legal(Bool::encoding(b).word()),
{
}

/// Encoding a boolean and decoding it again gives the boolean back.
pub proof fn lemma_round_trip(b: bool)
    ensures
        <bool as FromSpec<Bool>>::from_spec(<Bool as FromSpec<bool>>::from_spec(b)) == b,
        meaning(word_of(b)) == Some(b),
{
}

/// A word that is neither legal word is reported as corrupt by the decoding
/// and by every operator, whichever operand it is.
pub proof fn lemma_corrupt_word_is_reported(
    corrupt: u32,
    other: u32,
    unary: spec_fn(bool) -> bool,
    binary: spec_fn(bool, bool) -> bool,
)
    requires
        corrupt != TRUE,
        corrupt != FALSE,
    ensures
        meaning(corrupt) is None,
        unary_outcome(corrupt, unary) is None,
        binary_outcome(corrupt, other, binary) is None,
        binary_outcome(other, corrupt, binary) is None,
        equality_outcome(corrupt, other) is None,
        equality_outcome(other, corrupt) is None,
{
}

/// Legal words are never reported: every operator gives the word of the
/// boolean result.
pub proof fn lemma_legal_words_are_accepted(
    x: bool,
    y: bool,
    unary: spec_fn(bool) -> bool,
    binary: spec_fn(bool, bool) -> bool,
)
    ensures
        is_legal(word_of(x)),
        meaning(word_of(x)) == Some(x),
        unary_outcome(word_of(x), unary) == Some(word_of(unary(x))),
        binary_outcome(word_of(x), word_of(y), binary) == Some(word_of(binary(x, y))),
        equality_outcome(word_of(x), word_of(y)) == Some(x == y),
{
}

/// The two legal words are not related by a cheap operation: they differ,
/// neither is the complement or the negation of the other, neither is a shift
/// of the other, flipping one bit of one never gives the other, and the first
/// and the last bit of both are zero.
pub proof fn lemma_legal_words_are_unrelated()
    ensures
        TRUE != FALSE,
        !TRUE != FALSE,
        !TRUE + 1 != FALSE,
        !FALSE + 1 != TRUE,
        forall|k: u32| 0 < k < 32 ==> #[trigger] (TRUE << k) != FALSE,
        forall|k: u32| 0 < k < 32 ==> #[trigger] (FALSE << k) != TRUE,
        forall|k: u32| 0 < k < 32 ==> #[trigger] (TRUE >> k) != FALSE,
        forall|k: u32| 0 < k < 32 ==> #[trigger] (FALSE >> k) != TRUE,
        forall|k: u32| k < 32 ==> TRUE ^ #[trigger] (1u32 << k) != FALSE,
        TRUE & 1 == 0,
        FALSE & 1 == 0,
        TRUE & 0x8000_0000 == 0,
        FALSE & 0x8000_0000 == 0,
{
    assert(!TRUE != FALSE) by (bit_vector);
    assert(!TRUE + 1 != FALSE) by (bit_vector);
    assert(!FALSE + 1 != TRUE) by (bit_vector);
    assert forall|k: u32| 0 < k < 32 implies #[trigger] (TRUE << k) != FALSE by {
        assert(0 < k < 32 ==> (TRUE << k) != FALSE) by (bit_vector);
    }
    assert forall|k: u32| 0 < k < 32 implies #[trigger] (FALSE << k) != TRUE by {
        assert(0 < k < 32 ==> (FALSE << k) != TRUE) by (bit_vector);
    }
    assert forall|k: u32| 0 < k < 32 implies #[trigger] (TRUE >> k) != FALSE by {
        assert(0 < k < 32 ==> (TRUE >> k) != FALSE) by (bit_vector);
    }
    assert forall|k: u32| 0 < k < 32 implies #[trigger] (FALSE >> k) != TRUE by {
        assert(0 < k < 32 ==> (FALSE >> k) != TRUE) by (bit_vector);
    }
    assert forall|k: u32| k < 32 implies TRUE ^ #[trigger] (1u32 << k) != FALSE by {
        assert(k < 32 ==> TRUE ^ (1u32 << k) != FALSE) by (bit_vector);
    }
    assert(TRUE & 1 == 0) by (bit_vector);
    assert(FALSE & 1 == 0) by (bit_vector);
    assert(TRUE & 0x8000_0000 == 0) by (bit_vector);
    assert(FALSE & 0x8000_0000 == 0) by (bit_vector);
}

} // verus!
