use vstd::prelude::*;

use crate::transfer::checksum::{checksum_text, sha256_hex};

verus! {

/// Size of a chunk when none is given: one mebibyte.
pub const DEFAULT_CHUNK_SIZE: usize = 1048576;

/// Splits files into fixed-size chunks.
pub struct FileChunker {
    chunk_size: usize,
}

/// Number of chunks of `chunk_size` bytes needed to cover `file_size` bytes.
pub open spec fn chunk_count(file_size: int, chunk_size: int) -> int {
    (file_size + chunk_size - 1) / chunk_size
}

impl FileChunker {
    /// The chunk size this chunker was made with.
    pub closed spec fn spec_chunk_size(&self) -> nat {
        self.chunk_size as nat
    }

    /// A chunker with the default chunk size.
    pub fn new() -> (c: Self)
        ensures
            c.spec_chunk_size() == DEFAULT_CHUNK_SIZE,
    {
        FileChunker { chunk_size: DEFAULT_CHUNK_SIZE }
    }

    /// A chunker with the given chunk size.
    pub fn with_chunk_size(chunk_size: usize) -> (c: Self)
        ensures
            c.spec_chunk_size() == chunk_size,
    {
        FileChunker { chunk_size }
    }

    /// The chunk size in bytes.
    pub fn get_chunk_size(&self) -> (n: usize)
        ensures
            n == self.spec_chunk_size(),
    {
        self.chunk_size
    }

    /// Number of chunks needed for a file of `file_size` bytes: the size
    /// divided by the chunk size, rounded up.
    pub fn get_chunk_count(&self, file_size: u64) -> (n: u64)
        requires
            self.spec_chunk_size() > 0,
            file_size + self.spec_chunk_size() - 1 <= u64::MAX,
        ensures
            n == chunk_count(file_size as int, self.spec_chunk_size() as int),
            n * self.spec_chunk_size() >= file_size,
            n == 0 || (n - 1) * self.spec_chunk_size() < file_size,
    {
        let cs = self.chunk_size as u64;
        assert(cs == self.chunk_size);
        let n = (file_size + (cs - 1)) / cs;
        proof {
            lemma_chunk_count_bounds(file_size as int, cs as int);
        }
        n
    }

    /// The chunk a read gave back: the first `bytes_read` bytes of the
    /// buffer, or nothing where the read found the end of the file.
    pub fn chunk_from_read(&self, buffer: Vec<u8>, bytes_read: usize) -> (r: Option<Vec<u8>>)
        requires
            bytes_read <= buffer@.len(),
        ensures
            bytes_read == 0 ==> r is None,
            bytes_read > 0 ==> (r matches Some(c) && c@ == buffer@.take(bytes_read as int)),
    {
        if bytes_read == 0 {
            return None;
        }
        let mut c: Vec<u8> = Vec::new();
        let mut i: usize = 0;
        while i < bytes_read
            invariant
                bytes_read <= buffer@.len(),
                i <= bytes_read,
                c@ == buffer@.take(i as int),
            decreases bytes_read - i,
        {
            c.push(buffer[i]);
            i = i + 1;
            assert(c@ =~= buffer@.take(i as int));
        }
        Some(c)
    }

    /// The checksum of a file's contents: SHA-256 as 64 lower-case hex
    /// digits.
    pub fn calculate_checksum(&self, contents: &[u8]) -> (s: String)
        ensures
            s@ == checksum_text(contents@),
            s@.len() == 64,
    {
        sha256_hex(contents)
    }
}

impl Default for FileChunker {
    fn default() -> (c: Self)
        ensures
            c.spec_chunk_size() == DEFAULT_CHUNK_SIZE,
    {
        FileChunker::new()
    }
}

/// The rounded-up quotient covers the size, and one chunk fewer would not.
pub proof fn lemma_chunk_count_bounds(file_size: int, chunk_size: int)
    requires
        file_size >= 0,
        chunk_size > 0,
    ensures
        chunk_count(file_size, chunk_size) * chunk_size >= file_size,
        chunk_count(file_size, chunk_size) == 0 || (chunk_count(file_size, chunk_size) - 1)
            * chunk_size < file_size,
{
    let n = chunk_count(file_size, chunk_size);
    let t = file_size + chunk_size - 1;
    assert(t == n * chunk_size + t % chunk_size) by (nonlinear_arith)
        requires chunk_size > 0, n == t / chunk_size;
    assert(0 <= t % chunk_size < chunk_size) by (nonlinear_arith)
        requires chunk_size > 0;
    assert((n - 1) * chunk_size == n * chunk_size - chunk_size) by (nonlinear_arith);
}

} // verus!
