//! The growable text buffer.

use vstd::prelude::*;
use vstd::slice::slice_subrange;
use vstd::string::StringSliceAdditionalSpecFns;
use vstd::utf8::*;
use crate::encoding::lemma_decode_utf8_concat;

verus! {

/// A piece of text of a length that is known only at run time, in storage
/// that this value alone owns.
///
/// `storage` is the allocated room; its first `length` bytes are the text,
/// encoded as UTF-8, and the rest is room to grow into. The storage is given
/// back when the buffer's owner goes out of scope, and at no other time.
pub struct TextBuffer {
    storage: Vec<u8>,
    length: usize,
}

/// The room that a buffer of `capacity` bytes has once `needed` bytes must
/// fit into it: what it had if that is enough; otherwise twice what it had,
/// or just `needed` where twice is too little or more than a `usize` holds.
pub open spec fn capacity_after(capacity: nat, needed: nat) -> nat {
    if needed <= capacity {
        capacity
    } else if needed < 2 * capacity <= usize::MAX {
        2 * capacity
    } else {
        needed
    }
}

impl View for TextBuffer {
    type V = Seq<char>;

    /// The text that the buffer holds.
    open spec fn view(&self) -> Seq<char> {
        decode_utf8(self.spec_bytes())
    }
}

impl TextBuffer {
    /// What every buffer satisfies: the text fits in the allocated room, and
    /// the bytes in use are valid UTF-8.
    #[verifier::type_invariant]
    pub closed spec fn wf(&self) -> bool {
        &&& self.length <= self.storage@.len()
        &&& valid_utf8(self.storage@.subrange(0, self.length as int))
    }

    /// The bytes in use: the text, encoded as UTF-8.
    pub closed spec fn spec_bytes(&self) -> Seq<u8> {
        self.storage@.subrange(0, self.length as int)
    }

    /// The number of bytes in use.
    pub open spec fn spec_len(&self) -> nat {
        self.spec_bytes().len()
    }

    /// The number of bytes allocated.
    pub closed spec fn spec_capacity(&self) -> nat {
        self.storage@.len()
    }

    /// A buffer never uses more bytes than it has allocated, and the bytes
    /// in use are valid UTF-8: the encoding of its text.
    pub proof fn lemma_length_within_capacity(&self)
        requires
            self.wf(),
        ensures
            self.spec_len() <= self.spec_capacity(),
            valid_utf8(self.spec_bytes()),
            encode_utf8(self@) == self.spec_bytes(),
    {
        decode_utf8_encode_utf8(self.spec_bytes());
    }

    /// A duplicate is independent of its original. Let `copy` be what
    /// `clone` made of `original`, and `grown` what `push_str` then made of
    /// `copy`. The appended text went to the duplicate alone: `grown` holds
    /// the original's text followed by the suffix, and `original`, which no
    /// call touched, still holds the text that the duplicate was made with,
    /// in as many bytes and in as much room as before.
    pub proof fn lemma_duplicate_is_independent(
        original: TextBuffer,
        copy: TextBuffer,
        grown: TextBuffer,
        suffix: Seq<char>,
    )
        requires
            original.wf(),
            copy.wf(),
            copy.spec_bytes() == original.spec_bytes(),
            copy.spec_capacity() == original.spec_capacity(),
            grown.wf(),
            grown.spec_bytes() == copy.spec_bytes() + encode_utf8(suffix),
        ensures
            original@ == copy@,
            original.spec_len() == copy.spec_len(),
            original.spec_capacity() == copy.spec_capacity(),
            grown@ == original@ + suffix,
            grown.spec_len() == original.spec_len() + encode_utf8(suffix).len(),
            grown@.subrange(0, original@.len() as int) == original@,
            suffix.len() > 0 ==> grown@ != original@,
    {
        original.lemma_length_within_capacity();
        encode_utf8_valid_utf8(suffix);
        encode_utf8_decode_utf8(suffix);
        lemma_decode_utf8_concat(original.spec_bytes(), encode_utf8(suffix));
    }

    /// A new buffer that holds a copy of `literal`, in storage that is exactly
    /// as large as the literal's bytes.
    pub fn from(literal: &str) -> (buffer: TextBuffer)
        ensures
            buffer.wf(),
            buffer@ == literal@,
            buffer.spec_bytes() == literal.spec_bytes(),
            buffer.spec_len() == literal.spec_bytes().len(),
            buffer.spec_capacity() == literal.spec_bytes().len(),
    {
        let bytes: &[u8] = literal.as_bytes();
        let mut storage: Vec<u8> = Vec::with_capacity(bytes.len());
        storage.extend_from_slice(bytes);
        let length: usize = storage.len();
        proof {
            assert(storage@.subrange(0, length as int) =~= literal.spec_bytes());
            encode_utf8_valid_utf8(literal@);
            encode_utf8_decode_utf8(literal@);
        }
        TextBuffer { storage, length }
    }

    /// The number of bytes in use.
    pub fn len(&self) -> (n: usize)
        ensures
            n == self.spec_len(),
            n <= self.spec_capacity(),
    {
        proof {
            use_type_invariant(self);
        }
        self.length
    }

    /// The number of bytes allocated.
    pub fn capacity(&self) -> (n: usize)
        ensures
            n == self.spec_capacity(),
            n >= self.spec_len(),
    {
        proof {
            use_type_invariant(self);
        }
        self.storage.len()
    }

    /// The bytes in use: the text, encoded as UTF-8.
    pub fn as_bytes(&self) -> (bytes: &[u8])
        ensures
            bytes@ == self.spec_bytes(),
            valid_utf8(bytes@),
            decode_utf8(bytes@) == self@,
    {
        proof {
            use_type_invariant(self);
        }
        slice_subrange(self.storage.as_slice(), 0, self.length)
    }

    /// The text.
    pub fn as_str(&self) -> (text: &str)
        ensures
            text@ == self@,
            text.spec_bytes() == self.spec_bytes(),
    {
        match text_of(self.as_bytes()) {
            Some(text) => {
                proof {
                    encode_utf8_decode_utf8(text@);
                }
                text
            },
            None => vstd::pervasive::unreached(),
        }
    }

    /// Appends `suffix` to the text, in place.
    ///
    /// Where the suffix fits into the room that is left, the storage stays as
    /// large as it was. Where it does not, the buffer moves to larger storage,
    /// of the size that [`capacity_after`] gives, and the old storage is
    /// given back. Running out of memory ends the program, as it does for
    /// every allocation.
    pub fn push_str(&mut self, suffix: &str)
        ensures
            final(self).wf(),
            final(self)@ == old(self)@ + suffix@,
            final(self).spec_bytes() == old(self).spec_bytes() + suffix.spec_bytes(),
            final(self).spec_len() == old(self).spec_len() + suffix.spec_bytes().len(),
            final(self).spec_capacity() == capacity_after(
                old(self).spec_capacity(),
                final(self).spec_len(),
            ),
            final(self).spec_capacity() >= final(self).spec_len(),
            final(self).spec_capacity() >= old(self).spec_capacity(),
    {
        proof {
            use_type_invariant(&*self);
        }
        let bytes: &[u8] = suffix.as_bytes();
        let extra: usize = bytes.len();
        let used: usize = self.length;
        let capacity: usize = self.storage.len();
        let ghost before: Seq<u8> = self.storage@.subrange(0, used as int);
        proof {
            encode_utf8_valid_utf8(suffix@);
            encode_utf8_decode_utf8(suffix@);
            lemma_decode_utf8_concat(before, bytes@);
        }
        // The storage is taken out while it is worked on; the buffer is empty
        // meanwhile, and so well-formed at every step.
        let mut storage: Vec<u8> = Vec::new();
        self.length = 0;
        core::mem::swap(&mut storage, &mut self.storage);
        if extra > capacity - used {
            // Too little room: the text moves, the suffix follows it, and the
            // rest of the new storage is room to grow into.
            storage.truncate(used);
            storage.extend_from_slice(bytes);
            let needed: usize = storage.len();
            let doubled: usize = match capacity.checked_mul(2) {
                Some(twice) => twice,
                None => needed,
            };
            if doubled > needed {
                storage.resize(doubled, 0u8);
            }
        } else {
            overwrite(&mut storage, used, bytes);
        }
        assert(storage@.subrange(0, used + extra) =~= before + bytes@);
        self.storage = storage;
        self.length = used + extra;
    }
}

impl Clone for TextBuffer {
    /// A second buffer with the same text and as much room, in storage of its
    /// own: what is done to either afterwards leaves the other as it was.
    fn clone(&self) -> (copy: TextBuffer)
        ensures
            copy.wf(),
            copy@ == self@,
            copy.spec_bytes() == self.spec_bytes(),
            copy.spec_len() == self.spec_len(),
            copy.spec_capacity() == self.spec_capacity(),
    {
        proof {
            use_type_invariant(self);
        }
        let storage: Vec<u8> = self.storage.clone();
        TextBuffer { storage, length: self.length }
    }
}

/// Writes `bytes` over the bytes of `storage` from `offset` on, and leaves
/// the bytes before and after them as they were.
fn overwrite(storage: &mut Vec<u8>, offset: usize, bytes: &[u8])
    requires
        offset + bytes@.len() <= old(storage)@.len(),
    ensures
        final(storage)@.len() == old(storage)@.len(),
        forall|i: int|
            0 <= i < final(storage)@.len() ==> final(storage)@[i] == if offset <= i < offset
                + bytes@.len() {
                bytes@[i - offset]
            } else {
                old(storage)@[i]
            },
{
    let mut copied: usize = 0;
    while copied < bytes.len()
        invariant
            copied <= bytes@.len(),
            offset + bytes@.len() <= storage.len(),
            storage@.len() == old(storage)@.len(),
            forall|i: int|
                0 <= i < storage@.len() ==> storage@[i] == if offset <= i < offset + copied {
                    bytes@[i - offset]
                } else {
                    old(storage)@[i]
                },
        decreases bytes@.len() - copied,
    {
        storage.set(offset + copied, bytes[copied]);
        copied = copied + 1;
    }
}

/// `core::str::from_utf8`, with the reason for a failure dropped. Believed,
/// not proved: the bytes are read as text exactly when they are valid UTF-8,
/// and the text that comes back is encoded by the very bytes that went in.
#[verifier::external_body]
fn text_of(bytes: &[u8]) -> (text: Option<&str>)
    ensures
        text is Some <==> valid_utf8(bytes@),
        text matches Some(read) ==> read.spec_bytes() == bytes@,
{
    core::str::from_utf8(bytes).ok()
}

} // verus!
