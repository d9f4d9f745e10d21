//! The two fingerprints of an entity and the tag text built from them.
use std::collections::hash_map::DefaultHasher;
use std::hash::Hasher;
use vstd::prelude::*;
use vstd::std_specs::hash::DefaultHasherAdditionalSpecFns;

use crate::text::{decimal, decimal_value, is_digit, lemma_decimal, push_char, push_decimal};

verus! {

/// The fingerprint of a sequence of hasher writes.
pub open spec fn fingerprint(writes: Seq<Seq<u8>>) -> u64 {
    DefaultHasher::spec_finish(writes)
}

/// The tag text: the patch fingerprint, a semicolon, the get fingerprint.
pub open spec fn tag_text(patch: u64, get: u64) -> Seq<char> {
    decimal(patch as nat) + seq![';'] + decimal(get as nat)
}

/// An entity that can be tagged.
///
/// An implementor describes, as a sequence of hasher writes, its complete observable
/// state (`full_state`) and the state of the fields that a partial update may change
/// (`patch_state`), and feeds each into a hasher. Where every field can be patched the
/// two coincide.
pub trait Taggable {
    /// The hasher writes that describe the complete observable state.
    spec fn full_state(&self) -> Seq<Seq<u8>>;

    /// The hasher writes that describe the fields a partial update may change.
    spec fn patch_state(&self) -> Seq<Seq<u8>>;

    /// Writes the complete observable state into `h`.
    fn hash_full(&self, h: &mut DefaultHasher)
        ensures
            final(h)@ == old(h)@ + self.full_state(),
    ;

    /// Writes the state of the patchable fields into `h`.
    fn hash_patch(&self, h: &mut DefaultHasher)
        ensures
            final(h)@ == old(h)@ + self.patch_state(),
    ;

    /// The fingerprint of the complete observable state.
    fn get_part(&self) -> (r: u64)
        ensures
            r == fingerprint(self.full_state()),
    {
        let mut h = DefaultHasher::new();
        self.hash_full(&mut h);
        assert(h@ =~= self.full_state());
        h.finish()
    }

    /// The fingerprint of the patchable fields.
    fn patch_part(&self) -> (r: u64)
        ensures
            r == fingerprint(self.patch_state()),
    {
        let mut h = DefaultHasher::new();
        self.hash_patch(&mut h);
        assert(h@ =~= self.patch_state());
        h.finish()
    }

    /// The tag text `"<patch_part>;<get_part>"`.
    fn etag_string(&self) -> (r: String)
        ensures
            r@ == tag_text(fingerprint(self.patch_state()), fingerprint(self.full_state())),
    {
        let patch = self.patch_part();
        let get = self.get_part();
        let mut s = String::new();
        push_decimal(&mut s, patch);
        push_char(&mut s, ';');
        push_decimal(&mut s, get);
        assert(s@ =~= tag_text(patch, get));
        s
    }
}

/// The fingerprint of the patchable fields of `e`.
pub open spec fn patch_fingerprint<T: Taggable>(e: &T) -> u64 {
    fingerprint(e.patch_state())
}

/// The fingerprint of the complete observable state of `e`.
pub open spec fn get_fingerprint<T: Taggable>(e: &T) -> u64 {
    fingerprint(e.full_state())
}

/// Fingerprints depend on the entity's state alone: entities in the same state, as
/// the same entity read twice, get the same fingerprints and the same tag.
pub proof fn lemma_tag_deterministic<T: Taggable>(a: &T, b: &T)
    requires
        a.full_state() == b.full_state(),
        a.patch_state() == b.patch_state(),
    ensures
        get_fingerprint(a) == get_fingerprint(b),
        patch_fingerprint(a) == patch_fingerprint(b),
        tag_text(patch_fingerprint(a), get_fingerprint(a)) == tag_text(
            patch_fingerprint(b),
            get_fingerprint(b),
        ),
{
}

/// Where the patchable state is the whole state, the two fingerprints agree.
pub proof fn lemma_default_coincidence<T: Taggable>(e: &T)
    requires
        e.patch_state() == e.full_state(),
    ensures
        patch_fingerprint(e) == get_fingerprint(e),
{
}

/// The tag text is a run of digits, one semicolon, and a run of digits; the first run
/// reads as the patch fingerprint and the second as the get fingerprint.
pub proof fn lemma_tag_format(patch: u64, get: u64)
    ensures
        ({
            let t = tag_text(patch, get);
            let k = decimal(patch as nat).len() as int;
            &&& 0 < k < t.len() - 1
            &&& forall|i: int| 0 <= i < t.len() ==> (#[trigger] t[i] == ';' <==> i == k)
            &&& forall|i: int| 0 <= i < t.len() && i != k ==> is_digit(#[trigger] t[i])
            &&& decimal_value(t.subrange(0, k)) == patch
            &&& decimal_value(t.subrange(k + 1, t.len() as int)) == get
        }),
{
    lemma_decimal(patch as nat);
    lemma_decimal(get as nat);
    let t = tag_text(patch, get);
    let dp = decimal(patch as nat);
    let dg = decimal(get as nat);
    let k = dp.len() as int;
    assert(t.subrange(0, k) =~= dp);
    assert(t.subrange(k + 1, t.len() as int) =~= dg);
    assert forall|i: int| 0 <= i < t.len() && i != k implies is_digit(#[trigger] t[i]) by {
        if i < k {
            assert(t[i] == dp[i]);
        } else {
            assert(t[i] == dg[i - k - 1]);
        }
    }
}

} // verus!
