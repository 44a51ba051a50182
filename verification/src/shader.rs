//! Shader source caching by content hash.
//!
//! The shader's text lives in a file that may change while the program
//! runs. The caller reads the file and hands the text in; this module
//! hashes it and replaces the cached source only when the hash differs
//! from the cached one, so an unchanged file never causes a recompile.
//! The hash is a pure function of the text: equal content always gives
//! an equal hash.

use vstd::prelude::*;

verus! {

use std::collections::hash_map::DefaultHasher;
use std::hash::Hasher;
use vstd::std_specs::hash::DefaultHasherAdditionalSpecFns;
use vstd::string::StringSliceAdditionalSpecFns;

/// The hash of a text: the standard hasher's digest of the text's
/// UTF-8 bytes, written in one block. A pure function of the
/// characters: same content, same hash.
pub open spec fn content_hash(chars: Seq<char>) -> u64 {
    DefaultHasher::spec_finish(seq![vstd::utf8::encode_utf8(chars)])
}

/// Hash a file's text.
pub fn hash_file(file: &String) -> (h: u64)
    ensures
        h == content_hash(file@),
{
    let mut s = DefaultHasher::new();
    s.write(file.as_str().as_bytes());
    s.finish()
}

/// A cached shader source and the hash of the content it was built
/// from.
pub struct Shader {
    pub last_hash: u64,
    pub source: String,
}

impl Shader {
    /// Cache the given text as the current shader source.
    pub fn new(content: String) -> (s: Shader)
        ensures
            s.source@ == content@,
            s.last_hash == content_hash(content@),
    {
        let last_hash: u64 = hash_file(&content);
        Shader { last_hash, source: content }
    }

    /// Hand the current text in; the cached source is replaced, and the
    /// hash updated, only when the text's hash differs from the cached
    /// one. Returns the source to compile: the fresh text on a change,
    /// the cached source otherwise.
    pub fn get_source(&mut self, content: String) -> (src: &String)
        ensures
            content_hash(content@) != old(self).last_hash ==> final(self).source@ == content@
                && final(self).last_hash == content_hash(content@),
            content_hash(content@) == old(self).last_hash ==> *final(self) == *old(self),
            src == &final(self).source,
    {
        let hash: u64 = hash_file(&content);
        if self.last_hash != hash {
            self.source = content;
            self.last_hash = hash;
        }
        &self.source
    }
}

} // verus!
