//! Fixed-capacity ASCII text, the carrier of the protocol's stream-name
//! field.
//!
//! A value stores up to `CAP` ASCII bytes. Construction from a raw `CAP`-byte
//! field truncates at the first NUL byte — the wire field treats NUL as an
//! implicit terminator — and fails if any byte of the field is non-ASCII.
//! Construction from a string fails if the string is longer than `CAP` or
//! non-ASCII. Rendering back to the fixed-size wire form right-pads with NUL
//! bytes. Two values are equal exactly when their visible (post-truncation)
//! text is equal.

use vstd::prelude::*;
use vstd::string::StringSliceAdditionalSpecFns;

verus! {

/// Why a byte sequence was rejected as fixed-capacity ASCII text.
#[derive(Debug, Clone, Copy, PartialEq, Eq, Structural)]
pub enum AsciiError {
    /// Some byte of the input is not ASCII.
    NotAscii,
    /// The input is longer than the capacity.
    CapacityExceeded,
}

/// The index of the first NUL byte of `s`, or `s.len()` if `s` has none.
pub open spec fn spec_nul_index(s: Seq<u8>) -> int
    decreases s.len(),
{
    if s.len() == 0 {
        0
    } else if s[0] == 0 {
        0
    } else {
        1 + spec_nul_index(s.skip(1))
    }
}

/// `s` truncated at its first NUL byte.
pub open spec fn spec_trunc_nul(s: Seq<u8>) -> Seq<u8> {
    s.take(spec_nul_index(s))
}

/// `s` right-padded with NUL bytes to length `n`.
pub open spec fn spec_pad_nul(s: Seq<u8>, n: int) -> Seq<u8> {
    s + Seq::new((n - s.len()) as nat, |i: int| 0u8)
}

/// `s` with its trailing NUL bytes removed.
pub open spec fn spec_strip_trailing_nuls(s: Seq<u8>) -> Seq<u8>
    decreases s.len(),
{
    if s.len() > 0 && s.last() == 0 {
        spec_strip_trailing_nuls(s.drop_last())
    } else {
        s
    }
}

/// What the first-NUL index is: in bounds, everything before it nonzero, and
/// the byte there (if any) zero.
pub proof fn lemma_nul_index(s: Seq<u8>)
    ensures
        0 <= spec_nul_index(s) <= s.len(),
        forall|j: int| 0 <= j < spec_nul_index(s) ==> s[j] != 0,
        spec_nul_index(s) < s.len() ==> s[spec_nul_index(s)] == 0,
    decreases s.len(),
{
    if s.len() == 0 || s[0] == 0 {
    } else {
        lemma_nul_index(s.skip(1));
        assert forall|j: int| 0 <= j < spec_nul_index(s) implies s[j] != 0 by {
            if j > 0 {
                assert(s.skip(1)[j - 1] != 0);
            }
        }
    }
}

/// The three properties above determine the first-NUL index uniquely.
pub proof fn lemma_nul_index_unique(s: Seq<u8>, m: int)
    requires
        0 <= m <= s.len(),
        forall|j: int| 0 <= j < m ==> s[j] != 0,
        m < s.len() ==> s[m] == 0,
    ensures
        m == spec_nul_index(s),
{
    lemma_nul_index(s);
    let n = spec_nul_index(s);
    if m < n {
        assert(s[m] != 0);
    } else if n < m {
        assert(s[n] != 0);
    }
}

/// Padding NUL-free text with NUL bytes and truncating at the first NUL gives
/// the text back.
pub proof fn lemma_trunc_of_padded(s: Seq<u8>, n: int)
    requires
        s.len() <= n,
        forall|i: int| 0 <= i < s.len() ==> s[i] != 0,
    ensures
        spec_nul_index(spec_pad_nul(s, n)) == s.len(),
        spec_trunc_nul(spec_pad_nul(s, n)) == s,
{
    let p = spec_pad_nul(s, n);
    assert(p.len() == n);
    lemma_nul_index_unique(p, s.len() as int);
    assert(spec_trunc_nul(p) =~= s);
}

/// Truncating at the first NUL is the same as stripping trailing NULs, for
/// text whose NUL bytes (if it has any) all stand at the end.
pub proof fn lemma_trunc_is_strip_when_nuls_trail(s: Seq<u8>)
    requires
        forall|i: int, j: int| 0 <= i < j < s.len() && s[i] == 0 ==> s[j] == 0,
    ensures
        spec_trunc_nul(s) == spec_strip_trailing_nuls(s),
    decreases s.len(),
{
    lemma_nul_index(s);
    let n = spec_nul_index(s);
    if s.len() == 0 {
        assert(spec_trunc_nul(s) =~= s);
    } else if s.last() != 0 {
        // no byte of s is NUL: a NUL anywhere would force the last byte to be NUL
        assert forall|i: int| 0 <= i < s.len() implies s[i] != 0 by {
            if s[i] == 0 && i < s.len() - 1 {
                assert(s[s.len() - 1] == 0);
            }
        }
        lemma_nul_index_unique(s, s.len() as int);
        assert(spec_trunc_nul(s) =~= s);
    } else {
        let t = s.drop_last();
        assert(forall|i: int, j: int| 0 <= i < j < t.len() && t[i] == 0 ==> t[j] == 0);
        lemma_trunc_is_strip_when_nuls_trail(t);
        // the first NUL of s lies within the shorter prefix as well
        assert(n < s.len());
        lemma_nul_index(t);
        lemma_nul_index_unique(t, if n <= t.len() { n } else { t.len() as int });
        assert(n <= t.len());
        assert(spec_trunc_nul(s) =~= spec_trunc_nul(t));
    }
}

/// Stack-style fixed-capacity ASCII text: at most `CAP` bytes, all ASCII and
/// none NUL (the visible text ends at the first NUL of any raw input).
#[derive(Debug, Clone)]
pub struct AsciiStackString<const CAP: usize> {
    storage: Vec<u8>,
}

impl<const CAP: usize> View for AsciiStackString<CAP> {
    type V = Seq<u8>;

    closed spec fn view(&self) -> Seq<u8> {
        self.storage@
    }
}

/// Relies on core::str::from_utf8: bytes that are valid UTF-8 — all-ASCII
/// bytes are — convert to the string slice over exactly those bytes.
#[verifier::external_body]
fn ascii_str_of(bytes: &[u8]) -> (r: &str)
    requires
        forall|i: int| 0 <= i < bytes@.len() ==> bytes@[i] < 128,
    ensures
        r.spec_bytes() == bytes@,
{
    core::str::from_utf8(bytes).unwrap_or("")
}

impl<const CAP: usize> AsciiStackString<CAP> {
    /// All stored bytes are ASCII and non-NUL, and they fit the capacity.
    pub open spec fn wf(&self) -> bool {
        self@.len() <= CAP && forall|i: int| 0 <= i < self@.len() ==> 0 < #[trigger] self@[i] < 128
    }

    /// The empty text.
    pub fn new() -> (r: Self)
        ensures
            r@ == Seq::<u8>::empty(),
            r.wf(),
    {
        AsciiStackString { storage: Vec::new() }
    }

    /// The length of the visible text, in bytes.
    pub fn len(&self) -> (r: usize)
        ensures
            r == self@.len(),
    {
        self.storage.len()
    }

    /// Builds the value from already-validated bytes, truncating at the
    /// first NUL.
    fn truncated_from(bytes: &[u8]) -> (r: Self)
        requires
            bytes@.len() <= CAP,
            forall|i: int| 0 <= i < bytes@.len() ==> bytes@[i] < 128,
        ensures
            r@ == spec_trunc_nul(bytes@),
            r.wf(),
    {
        let n = bytes.len();
        let mut end: usize = 0;
        while end < n && bytes[end] != 0
            invariant
                0 <= end <= n == bytes@.len(),
                forall|j: int| 0 <= j < end ==> bytes@[j] != 0,
            decreases n - end,
        {
            end = end + 1;
        }
        proof {
            lemma_nul_index_unique(bytes@, end as int);
        }
        let mut storage: Vec<u8> = Vec::new();
        let mut i: usize = 0;
        while i < end
            invariant
                0 <= i <= end <= bytes@.len(),
                storage@ == bytes@.take(end as int).take(i as int),
            decreases end - i,
        {
            storage.push(bytes[i]);
            proof {
                assert(storage@ =~= bytes@.take(end as int).take(i + 1));
            }
            i = i + 1;
        }
        proof {
            assert(storage@ =~= bytes@.take(end as int));
        }
        AsciiStackString { storage }
    }

    /// Reads the fixed-size wire form of the field: exactly `CAP` raw bytes,
    /// truncated at the first NUL. Fails if any of the `CAP` bytes — even one
    /// past the terminator — is non-ASCII.
    pub fn try_from_fixed(bytes: &[u8]) -> (r: Result<Self, AsciiError>)
        requires
            bytes@.len() == CAP,
        ensures
            r is Ok <==> forall|i: int| 0 <= i < bytes@.len() ==> bytes@[i] < 128,
            r matches Ok(t) ==> t@ == spec_trunc_nul(bytes@) && t.wf(),
            r matches Err(e) ==> e == AsciiError::NotAscii,
    {
        let n = bytes.len();
        let mut i: usize = 0;
        while i < n
            invariant
                0 <= i <= n == bytes@.len(),
                forall|j: int| 0 <= j < i ==> bytes@[j] < 128,
            decreases n - i,
        {
            if bytes[i] >= 128 {
                return Err(AsciiError::NotAscii);
            }
            i = i + 1;
        }
        Ok(Self::truncated_from(bytes))
    }

    /// Builds the value from a string: fails if the string holds more than
    /// `CAP` bytes or any non-ASCII character; otherwise stores the text,
    /// truncated at its first NUL character.
    pub fn try_from_str(s: &str) -> (r: Result<Self, AsciiError>)
        ensures
            r matches Err(e) && e == AsciiError::CapacityExceeded <==> s.spec_bytes().len() > CAP,
            r matches Err(e) && e == AsciiError::NotAscii <==> s.spec_bytes().len() <= CAP
                && exists|i: int| 0 <= i < s.spec_bytes().len() && s.spec_bytes()[i] >= 128,
            r is Ok <==> s.spec_bytes().len() <= CAP
                && forall|i: int| 0 <= i < s.spec_bytes().len() ==> s.spec_bytes()[i] < 128,
            r matches Ok(t) ==> t@ == spec_trunc_nul(s.spec_bytes()) && t.wf(),
    {
        let bytes = s.as_bytes();
        if bytes.len() > CAP {
            return Err(AsciiError::CapacityExceeded);
        }
        let n = bytes.len();
        let mut i: usize = 0;
        while i < n
            invariant
                0 <= i <= n == bytes@.len(),
                bytes@ == s.spec_bytes(),
                n <= CAP,
                forall|j: int| 0 <= j < i ==> bytes@[j] < 128,
            decreases n - i,
        {
            if bytes[i] >= 128 {
                return Err(AsciiError::NotAscii);
            }
            i = i + 1;
        }
        Ok(Self::truncated_from(bytes))
    }

    /// Renders the text into its fixed-size wire form: the stored bytes,
    /// right-padded with NUL bytes to exactly `CAP` bytes.
    pub fn to_fixed_bytes(&self) -> (r: Vec<u8>)
        requires
            self.wf(),
        ensures
            r@ == spec_pad_nul(self@, CAP as int),
            r@.len() == CAP,
    {
        let mut out: Vec<u8> = Vec::new();
        let n = self.storage.len();
        let mut i: usize = 0;
        while i < n
            invariant
                0 <= i <= n == self@.len() <= CAP,
                out@ == self@.take(i as int),
            decreases n - i,
        {
            out.push(self.storage[i]);
            proof {
                assert(out@ =~= self@.take(i + 1));
            }
            i = i + 1;
        }
        while out.len() < CAP
            invariant
                self@.len() <= out@.len() <= CAP,
                out@.take(self@.len() as int) == self@,
                forall|j: int| self@.len() <= j < out@.len() ==> out@[j] == 0,
            decreases CAP - out@.len(),
        {
            out.push(0);
            proof {
                assert(out@.take(self@.len() as int) =~= self@);
            }
        }
        proof {
            assert(out@ =~= spec_pad_nul(self@, CAP as int));
        }
        out
    }

    /// The visible text as a string slice.
    pub fn as_str(&self) -> (r: &str)
        requires
            self.wf(),
        ensures
            r.spec_bytes() == self@,
    {
        ascii_str_of(self.storage.as_slice())
    }
}

impl<const CAP: usize> PartialEq for AsciiStackString<CAP> {
    /// Two values are equal exactly when their visible text is equal.
    fn eq(&self, other: &Self) -> (r: bool) {
        if self.storage.len() != other.storage.len() {
            return false;
        }
        let n = self.storage.len();
        let mut i: usize = 0;
        while i < n
            invariant
                0 <= i <= n == self@.len() == other@.len(),
                forall|j: int| 0 <= j < i ==> self@[j] == other@[j],
            decreases n - i,
        {
            if self.storage[i] != other.storage[i] {
                return false;
            }
            i = i + 1;
        }
        proof {
            assert(self@ =~= other@);
        }
        true
    }
}

impl<const CAP: usize> vstd::std_specs::cmp::PartialEqSpecImpl for AsciiStackString<CAP> {
    open spec fn obeys_eq_spec() -> bool {
        true
    }

    open spec fn eq_spec(&self, other: &Self) -> bool {
        self@ == other@
    }
}

/// Building a text value from ASCII text `s` of at most `CAP` bytes whose NUL
/// bytes (if any) all trail, and rendering the visible text back, yields `s`
/// with exactly its trailing NUL bytes stripped.
pub proof fn lemma_text_round_trip(s: Seq<u8>)
    requires
        forall|i: int| 0 <= i < s.len() ==> s[i] < 128,
        forall|i: int, j: int| 0 <= i < j < s.len() && s[i] == 0 ==> s[j] == 0,
    ensures
        spec_trunc_nul(s) == spec_strip_trailing_nuls(s),
{
    lemma_trunc_is_strip_when_nuls_trail(s);
}

} // verus!
