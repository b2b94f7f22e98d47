//! Bounded hashing of native text: a UTF-16 string is converted to UTF-8 in
//! chunks that the platform reports, every chunk is validated against the
//! string's length and a byte limit, and the SHA-256 of the UTF-8 bytes is
//! taken once the whole string was converted.

use vstd::prelude::*;
use crate::identity::Bytes32;
use crate::identity_digest::{sha256, sha256_digest};

verus! {

/// Progress of a bounded UTF-8 conversion of a string of `length` UTF-16
/// code units.
pub struct BoundedTextHash {
    length: usize,
    converted: usize,
    bytes: Vec<u8>,
    max_bytes: usize,
}

/// Whether a string of `length` code units, with `maximum` the platform's
/// UTF-8 size bound for it, may be converted under `max_bytes`. Every
/// Unicode scalar takes at least as many UTF-8 bytes as UTF-16 code units,
/// so a longer string is refused before any conversion.
pub open spec fn conversion_admissible(length: i64, maximum: i64, max_bytes: usize) -> bool {
    &&& 0 <= length
    &&& length <= max_bytes
    &&& 0 <= maximum
    &&& maximum >= length
}

impl BoundedTextHash {
    pub closed spec fn spec_length(&self) -> nat {
        self.length as nat
    }

    pub closed spec fn spec_converted(&self) -> nat {
        self.converted as nat
    }

    /// The UTF-8 bytes converted so far.
    pub closed spec fn spec_bytes(&self) -> Seq<u8> {
        self.bytes@
    }

    pub closed spec fn spec_max_bytes(&self) -> nat {
        self.max_bytes as nat
    }

    /// Conversion never passes the string's end or the byte limit.
    pub closed spec fn wf(&self) -> bool {
        &&& self.converted <= self.length
        &&& self.bytes@.len() <= self.max_bytes
    }

    /// Starts converting a string of `length` code units whose UTF-8 form
    /// the platform bounds by `maximum` bytes; `None` when it cannot fit.
    pub fn begin(length: i64, maximum: i64, max_bytes: usize) -> (started: Option<BoundedTextHash>)
        ensures
            started is Some <==> conversion_admissible(length, maximum, max_bytes),
            started matches Some(h) ==> {
                &&& h.wf()
                &&& h.spec_length() == length
                &&& h.spec_converted() == 0
                &&& h.spec_bytes() == Seq::<u8>::empty()
                &&& h.spec_max_bytes() == max_bytes
            },
    {
        if length < 0 || maximum < 0 {
            return None;
        }
        if length as u64 > max_bytes as u64 {
            return None;
        }
        if maximum < length {
            return None;
        }
        Some(BoundedTextHash { length: length as usize, converted: 0, bytes: Vec::new(), max_bytes })
    }

    /// Whether the whole string was converted.
    pub fn is_complete(&self) -> (complete: bool)
        ensures
            complete == (self.spec_converted() >= self.spec_length()),
    {
        self.converted >= self.length
    }

    /// The code-unit range still to convert: its start and its length.
    pub fn remaining_range(&self) -> (range: (usize, usize))
        requires
            self.wf(),
        ensures
            range.0 == self.spec_converted(),
            range.1 == self.spec_length() - self.spec_converted(),
    {
        (self.converted, self.length - self.converted)
    }

    /// Takes one converted chunk: the platform converted `converted` code
    /// units into the first `used` bytes of `chunk`. A chunk that converts
    /// nothing, more than remains, no bytes, more bytes than the buffer, or
    /// that would pass the byte limit is refused and changes nothing.
    pub fn accept_chunk(&mut self, converted: i64, used: i64, chunk: &[u8]) -> (accepted: bool)
        requires
            old(self).wf(),
        ensures
            final(self).wf(),
            accepted <==> {
                &&& 0 < converted <= old(self).spec_length() - old(self).spec_converted()
                &&& 0 < used <= chunk@.len()
                &&& old(self).spec_bytes().len() + used <= old(self).spec_max_bytes()
            },
            accepted ==> final(self).spec_converted() == old(self).spec_converted() + converted,
            accepted ==> final(self).spec_bytes() == old(self).spec_bytes() + chunk@.subrange(0, used as int),
            !accepted ==> final(self).spec_converted() == old(self).spec_converted() && final(self).spec_bytes()
                == old(self).spec_bytes(),
            final(self).spec_length() == old(self).spec_length(),
            final(self).spec_max_bytes() == old(self).spec_max_bytes(),
    {
        let remaining = self.length - self.converted;
        if converted <= 0 || used <= 0 {
            return false;
        }
        if converted as u64 > remaining as u64 || used as u64 > chunk.len() as u64 {
            return false;
        }
        let used = used as usize;
        if used > self.max_bytes - self.bytes.len() {
            return false;
        }
        let next = self.converted + converted as usize;
        let ghost before = self.bytes@;
        let ghost length = self.length;
        let ghost max_bytes = self.max_bytes;
        let mut i: usize = 0;
        while i < used
            invariant
                0 <= i <= used,
                used <= chunk@.len(),
                before.len() + used <= max_bytes,
                self.length == length,
                self.max_bytes == max_bytes,
                next <= length,
                self.bytes@ == before + chunk@.subrange(0, i as int),
            decreases used - i,
        {
            self.bytes.push(chunk[i]);
            assert(chunk@.subrange(0, i + 1) =~= chunk@.subrange(0, i as int).push(chunk@[i as int]));
            i = i + 1;
        }
        self.converted = next;
        true
    }

    /// The SHA-256 of the converted UTF-8 bytes.
    pub fn digest(&self) -> (digest: Bytes32)
        ensures
            digest@ == sha256(self.spec_bytes()),
    {
        sha256_digest(self.bytes.as_slice())
    }
}

} // verus!
