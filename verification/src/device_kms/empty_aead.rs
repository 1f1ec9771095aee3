//! The two ciphers that encrypt nothing.
//!
//! [`EmptyAead`] hands its input back unchanged.  [`EmptyAeadWithPrefixTag`]
//! does the same behind a five-byte tag, so that a later cipher scheme can be
//! told apart from this one without breaking what was written before.

use vstd::prelude::*;
use vstd::slice::slice_subrange;
use vstd::slice::slice_to_vec;

verus! {

/// Length of the tag in front of every output of [`EmptyAeadWithPrefixTag`]:
/// one start byte, then four bytes of scheme tag.
pub const TAG_SIZE: usize = 5;

/// The start byte of every tag.  With it the output cannot be told from a
/// ciphertext that carries a Tink key id in front.
pub const TAG_START_BYTE: u8 = 1;

/// The tag that stands for scheme `tag`: the start byte, then `tag` in big
/// endian.
pub open spec fn tag_prefix(tag: u32) -> Seq<u8> {
    seq![
        TAG_START_BYTE,
        (tag / 0x100_0000) as u8,
        ((tag / 0x1_0000) % 0x100) as u8,
        ((tag / 0x100) % 0x100) as u8,
        (tag % 0x100) as u8,
    ]
}

/// What the tagging cipher with tag bytes `prefix` makes of `plaintext`.
pub open spec fn tagged(prefix: Seq<u8>, plaintext: Seq<u8>) -> Seq<u8> {
    prefix + plaintext
}

/// What the tagging cipher with tag bytes `prefix` reads out of `ciphertext`:
/// the bytes behind the tag, or nothing where the input is shorter than a tag
/// or starts with other bytes.
pub open spec fn untagged(prefix: Seq<u8>, ciphertext: Seq<u8>) -> Option<Seq<u8>> {
    if ciphertext.len() >= prefix.len() && ciphertext.subrange(0, prefix.len() as int) == prefix {
        Some(ciphertext.subrange(prefix.len() as int, ciphertext.len() as int))
    } else {
        None
    }
}

/// Whatever the tagging cipher writes, it reads back.
pub proof fn lemma_tag_round_trip(prefix: Seq<u8>, plaintext: Seq<u8>)
    ensures
        untagged(prefix, tagged(prefix, plaintext)) == Some(plaintext),
{
    let c = tagged(prefix, plaintext);
    assert(c.subrange(0, prefix.len() as int) =~= prefix);
    assert(c.subrange(prefix.len() as int, c.len() as int) =~= plaintext);
}

/// A ciphertext that the tagging cipher accepts is the one it would have
/// written for what it returns.
pub proof fn lemma_untagged_is_inverse(prefix: Seq<u8>, ciphertext: Seq<u8>)
    requires
        untagged(prefix, ciphertext) is Some,
    ensures
        tagged(prefix, untagged(prefix, ciphertext)->Some_0) == ciphertext,
{
    let p = untagged(prefix, ciphertext)->Some_0;
    assert(tagged(prefix, p) =~= ciphertext);
}

/// The pass-through cipher: both directions return the input unchanged and
/// ignore the associated data.  It offers no confidentiality and no
/// authentication.
#[derive(Clone, Copy)]
pub struct EmptyAead;

impl EmptyAead {
    pub fn new() -> (aead: EmptyAead) {
        EmptyAead
    }
}

impl tink_core::Aead for EmptyAead {
    fn encrypt(&self, plaintext: &[u8], additional_data: &[u8]) -> (r: Result<
        Vec<u8>,
        tink_core::TinkError,
    >)
        ensures
            r matches Ok(c) && c@ == plaintext@,
    {
        Ok(slice_to_vec(plaintext))
    }

    fn decrypt(&self, ciphertext: &[u8], additional_data: &[u8]) -> (r: Result<
        Vec<u8>,
        tink_core::TinkError,
    >)
        ensures
            r matches Ok(p) && p@ == ciphertext@,
    {
        Ok(slice_to_vec(ciphertext))
    }
}

/// The pass-through cipher with a tag: encryption puts the five tag bytes in
/// front of the plaintext, decryption checks them and takes them off.  The
/// associated data is ignored.
#[derive(Clone, Copy)]
pub struct EmptyAeadWithPrefixTag([u8; 5]);

impl EmptyAeadWithPrefixTag {
    /// The five tag bytes of this cipher.
    pub closed spec fn prefix(&self) -> Seq<u8> {
        self.0@
    }

    /// The cipher for scheme `tag`.
    pub fn new(tag: u32) -> (aead: EmptyAeadWithPrefixTag)
        ensures
            aead.prefix() == tag_prefix(tag),
            aead.prefix().len() == TAG_SIZE,
    {
        let b1: u8 = (tag >> 24) as u8;
        let b2: u8 = ((tag >> 16) & 0xff) as u8;
        let b3: u8 = ((tag >> 8) & 0xff) as u8;
        let b4: u8 = (tag & 0xff) as u8;
        assert(tag >> 24 == tag / 0x100_0000) by (bit_vector);
        assert((tag >> 16) & 0xff == (tag / 0x1_0000) % 0x100) by (bit_vector);
        assert((tag >> 8) & 0xff == (tag / 0x100) % 0x100) by (bit_vector);
        assert(tag & 0xff == tag % 0x100) by (bit_vector);
        let prefix: [u8; 5] = [TAG_START_BYTE, b1, b2, b3, b4];
        assert(prefix@ =~= tag_prefix(tag));
        EmptyAeadWithPrefixTag(prefix)
    }

    /// The tag bytes, for callers that have to recognise them.
    pub fn tag_bytes(&self) -> (bytes: Vec<u8>)
        ensures
            bytes@ == self.prefix(),
    {
        let mut bytes: Vec<u8> = Vec::with_capacity(TAG_SIZE);
        let mut i: usize = 0;
        while i < TAG_SIZE
            invariant
                i <= TAG_SIZE,
                bytes@ == self.0@.subrange(0, i as int),
            decreases TAG_SIZE - i,
        {
            bytes.push(self.0[i]);
            i += 1;
            assert(bytes@ =~= self.0@.subrange(0, i as int));
        }
        assert(bytes@ =~= self.0@);
        bytes
    }

    /// Whether `ciphertext` starts with the tag of this cipher.
    fn has_tag(&self, ciphertext: &[u8]) -> (b: bool)
        ensures
            b == (untagged(self.prefix(), ciphertext@) is Some),
    {
        if ciphertext.len() < TAG_SIZE {
            return false;
        }
        let mut i: usize = 0;
        while i < TAG_SIZE
            invariant
                i <= TAG_SIZE,
                ciphertext@.len() >= TAG_SIZE,
                forall|j: int| 0 <= j < i ==> ciphertext@[j] == self.0@[j],
            decreases TAG_SIZE - i,
        {
            if ciphertext[i] != self.0[i] {
                assert(ciphertext@.subrange(0, TAG_SIZE as int)[i as int] != self.0@[i as int]);
                return false;
            }
            i += 1;
        }
        assert(ciphertext@.subrange(0, TAG_SIZE as int) =~= self.0@);
        true
    }
}

impl tink_core::Aead for EmptyAeadWithPrefixTag {
    fn encrypt(&self, plaintext: &[u8], additional_data: &[u8]) -> (r: Result<
        Vec<u8>,
        tink_core::TinkError,
    >)
        ensures
            r matches Ok(c) && c@ == tagged(self.prefix(), plaintext@),
    {
        let mut ciphertext: Vec<u8> = self.tag_bytes();
        ciphertext.extend_from_slice(plaintext);
        Ok(ciphertext)
    }

    fn decrypt(&self, ciphertext: &[u8], additional_data: &[u8]) -> (r: Result<
        Vec<u8>,
        tink_core::TinkError,
    >)
        ensures
            match untagged(self.prefix(), ciphertext@) {
                Some(p) => r matches Ok(v) && v@ == p,
                None => r is Err,
            },
    {
        if !self.has_tag(ciphertext) {
            return Err(tink_core::TinkError::new("invalid ciphertext"));
        }
        Ok(slice_to_vec(slice_subrange(ciphertext, TAG_SIZE, ciphertext.len())))
    }
}

} // verus!
