//! A compact identifier handle: the text together with a packed 64-bit field
//! holding the text's byte length (low 32 bits) and the top bits of a fast
//! non-cryptographic hash (high 32 bits). Equality compares the packed field
//! first and touches the text only when both length and hash bits agree.

use vstd::prelude::*;
use vstd::string::StringSliceAdditionalSpecFns;
use vstd::utf8::encode_utf8;

verus! {

/// Length in bytes of the UTF-8 encoding of a character sequence.
pub open spec fn byte_len(s: Seq<char>) -> nat {
    encode_utf8(s).len()
}

/// What `rustc_hash::FxHasher` produces for a `str`: a deterministic
/// function of the characters alone.
pub uninterp spec fn fx_hash_of(s: Seq<char>) -> u64;

/// Relies on `rustc_hash::FxHasher` with its fixed default seed: hashing a
/// `str` and taking `finish` is deterministic and depends on the string's
/// bytes alone.
#[verifier::external_body]
fn fx_hash_str(s: &str) -> (r: u64)
    ensures
        r == fx_hash_of(s@),
{
    let mut hasher = rustc_hash::FxHasher::default();
    core::hash::Hash::hash(s, &mut hasher);
    core::hash::Hasher::finish(&hasher)
}

/// The packed field an identifier over text `s` carries: the byte length in
/// the low 32 bits, the top 32 bits of the hash above it.
pub closed spec fn spec_packed(s: Seq<char>) -> u64
    recommends
        byte_len(s) <= 0xFFFF_FFFF,
{
    (byte_len(s) as u64) | (fx_hash_of(s) & 0xFFFF_FFFF_0000_0000u64)
}

/// An immutable identifier handle with a precomputed length-and-hash field.
#[derive(Debug, Eq)]
pub struct Ident {
    text: String,
    len_and_hash: u64,
}

impl View for Ident {
    type V = Seq<char>;

    closed spec fn view(&self) -> Seq<char> {
        self.text@
    }
}

impl Ident {
    /// The handle is well formed: nonempty text, a byte length that fits the
    /// low half of the packed field, and the packed field derived from the
    /// text.
    pub closed spec fn wf(&self) -> bool {
        &&& self.text@.len() > 0
        &&& byte_len(self.text@) <= 0xFFFF_FFFF
        &&& self.len_and_hash == spec_packed(self.text@)
    }

    /// The packed length-and-hash field.
    pub closed spec fn packed(&self) -> u64 {
        self.len_and_hash
    }

    /// Builds a handle over `s`, computing the hash once. Zero-length
    /// identifier text is a programming error and is ruled out here.
    pub fn new(s: &str) -> (r: Ident)
        requires
            s@.len() > 0,
            s.spec_bytes().len() <= 0xFFFF_FFFF,
        ensures
            r.wf(),
            r@ == s@,
    {
        let len: usize = s.len();
        let hash: u64 = fx_hash_str(s);
        let masked: u64 = hash & 0xFFFF_FFFF_0000_0000u64;
        let len_and_hash: u64 = (len as u64) | masked;
        Ident { text: s.to_owned(), len_and_hash }
    }

    /// The byte length of the text, read from the packed field alone.
    pub fn len(&self) -> (r: usize)
        requires
            self.wf(),
        ensures
            r == byte_len(self@),
    {
        proof {
            let l: u64 = byte_len(self.text@) as u64;
            let h: u64 = fx_hash_of(self.text@);
            assert(((l | (h & 0xFFFF_FFFF_0000_0000u64)) as u32) == l) by (bit_vector)
                requires
                    l <= 0xFFFF_FFFFu64,
            ;
        }
        (self.len_and_hash as u32) as usize
    }

    /// Borrows the text.
    pub fn as_str(&self) -> (r: &str)
        ensures
            r@ == self@,
    {
        self.text.as_str()
    }

    /// A fresh owned copy of the text.
    pub fn into_atom(&self) -> (r: String)
        ensures
            r@ == self@,
    {
        String::from_str(self.text.as_str())
    }

    /// The text as an owned string, consuming the handle.
    pub fn into_compact_str(self) -> (r: String)
        ensures
            r@ == self@,
    {
        self.text
    }

    /// Two well-formed handles over the same text carry the same packed
    /// field, so a packed-field mismatch already separates the texts.
    pub proof fn lemma_packed_agrees(a: &Ident, b: &Ident)
        requires
            a.wf(),
            b.wf(),
        ensures
            a@ == b@ ==> a.packed() == b.packed(),
            a.packed() != b.packed() ==> a@ != b@,
    {
    }

    /// Handles over texts of different byte lengths differ already in the
    /// packed field: equality is decided there, without reading the text.
    pub proof fn lemma_length_short_circuit(a: &Ident, b: &Ident)
        requires
            a.wf(),
            b.wf(),
            byte_len(a@) != byte_len(b@),
        ensures
            a.packed() != b.packed(),
    {
        let la: u64 = byte_len(a.text@) as u64;
        let lb: u64 = byte_len(b.text@) as u64;
        let ha: u64 = fx_hash_of(a.text@);
        let hb: u64 = fx_hash_of(b.text@);
        assert((la | (ha & 0xFFFF_FFFF_0000_0000u64)) != (lb | (hb & 0xFFFF_FFFF_0000_0000u64)))
            by (bit_vector)
            requires
                la <= 0xFFFF_FFFFu64,
                lb <= 0xFFFF_FFFFu64,
                la != lb,
        ;
    }

    /// For well-formed handles the two-stage comparison agrees with plain
    /// text equality; in particular, equal packed fields with differing text
    /// still compare unequal after the full comparison.
    pub proof fn lemma_eq_is_text_eq(a: &Ident, b: &Ident)
        requires
            a.wf(),
            b.wf(),
        ensures
            a.eq_spec(b) <==> a@ == b@,
    {
    }

    /// What `==` on handles means: packed fields agree and the texts agree.
    pub open spec fn eq_spec(&self, other: &Ident) -> bool {
        self.packed() == other.packed() && self@ == other@
    }
}

impl PartialEq for Ident {
    fn eq(&self, other: &Ident) -> (r: bool) {
        if self.len_and_hash != other.len_and_hash {
            false
        } else {
            self.text == other.text
        }
    }
}

impl vstd::std_specs::cmp::PartialEqSpecImpl for Ident {
    open spec fn obeys_eq_spec() -> bool {
        true
    }

    open spec fn eq_spec(&self, other: &Ident) -> bool {
        Ident::eq_spec(self, other)
    }
}

} // verus!
