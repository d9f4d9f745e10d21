//! A scored entry: an entity whose score is kept by the server and cannot be changed
//! by a partial update, so its patch fingerprint leaves the score out.
use std::collections::hash_map::DefaultHasher;
use std::hash::Hasher;
use vstd::bytes::{lemma_auto_spec_u64_to_from_le_bytes, spec_u64_to_le_bytes, u64_to_le_bytes};
use vstd::prelude::*;
use vstd::utf8::{encode_utf8, encode_utf8_decode_utf8};

use crate::tag::{get_fingerprint, patch_fingerprint, Taggable};

verus! {

/// The byte that ends a name in the hasher input, which no UTF-8 text holds.
pub const NAME_END: u8 = 0xff;

/// An entry with an identifier and a name, both patchable, and a score computed by
/// the server.
#[derive(Debug)]
pub struct Entry {
    pub id: u64,
    pub name: String,
    pub score: u64,
}

impl Entry {
    /// The hasher writes for the patchable fields: identifier, then name.
    pub open spec fn patch_writes(&self) -> Seq<Seq<u8>> {
        seq![spec_u64_to_le_bytes(self.id), encode_utf8(self.name@), seq![NAME_END]]
    }

    /// The hasher writes for the whole entry: the patchable fields, then the score.
    pub open spec fn full_writes(&self) -> Seq<Seq<u8>> {
        self.patch_writes().push(spec_u64_to_le_bytes(self.score))
    }

    /// Builds an entry.
    pub fn new(id: u64, name: String, score: u64) -> (r: Entry)
        ensures
            r.id == id,
            r.name@ == name@,
            r.score == score,
    {
        Entry { id, name, score }
    }

    /// Writes the identifier and the name into `h`.
    fn write_patchable(&self, h: &mut DefaultHasher)
        ensures
            final(h)@ == old(h)@ + self.patch_writes(),
    {
        let id_bytes = u64_to_le_bytes(self.id);
        h.write(id_bytes.as_slice());
        let name = self.name.as_str();
        assert(name@ == self.name@);
        let name_bytes = name.as_bytes();
        assert(name_bytes@ == encode_utf8(self.name@));
        h.write(name_bytes);
        let end: Vec<u8> = vec![NAME_END];
        assert(end@ == seq![NAME_END]);
        h.write(end.as_slice());
        assert(h@ =~= old(h)@ + self.patch_writes());
    }
}

impl Taggable for Entry {
    open spec fn full_state(&self) -> Seq<Seq<u8>> {
        self.full_writes()
    }

    open spec fn patch_state(&self) -> Seq<Seq<u8>> {
        self.patch_writes()
    }

    fn hash_full(&self, h: &mut DefaultHasher) {
        self.write_patchable(h);
        let score_bytes = u64_to_le_bytes(self.score);
        h.write(score_bytes.as_slice());
        assert(final(h)@ =~= old(h)@ + self.full_writes());
    }

    fn hash_patch(&self, h: &mut DefaultHasher) {
        self.write_patchable(h);
    }
}

/// Entries that differ only in their score get the same patch fingerprint.
pub proof fn lemma_score_not_patchable(a: &Entry, b: &Entry)
    requires
        a.id == b.id,
        a.name@ == b.name@,
    ensures
        patch_fingerprint(a) == patch_fingerprint(b),
{
}

/// Entries that differ in any field are hashed from different writes for the whole
/// entry, and entries that differ in a patchable field from different writes for the
/// patchable fields.
pub proof fn lemma_writes_distinguish(a: &Entry, b: &Entry)
    ensures
        (a.id, a.name@, a.score) != (b.id, b.name@, b.score) ==> a.full_state() != b.full_state(),
        (a.id, a.name@) != (b.id, b.name@) ==> a.patch_state() != b.patch_state(),
{
    lemma_auto_spec_u64_to_from_le_bytes();
    encode_utf8_decode_utf8(a.name@);
    encode_utf8_decode_utf8(b.name@);
    if a.full_state() == b.full_state() {
        assert(a.full_state()[0] == b.full_state()[0]);
        assert(a.full_state()[1] == b.full_state()[1]);
        assert(a.full_state()[3] == b.full_state()[3]);
    }
    if a.patch_state() == b.patch_state() {
        assert(a.patch_state()[0] == b.patch_state()[0]);
        assert(a.patch_state()[1] == b.patch_state()[1]);
    }
}

} // verus!
