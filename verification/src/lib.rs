//! A bulk loader for newline-delimited JSON documents: configuration
//! validation, per-worker buffering and chunked bulk-body construction,
//! and the one-time index bootstrap decisions, with their contracts.

use vstd::prelude::*;
use vstd::arithmetic::div_mod::lemma_basic_div;
use vstd::arithmetic::div_mod::lemma_hoist_over_denominator;

pub mod bulk;
pub mod config;
pub mod loader;
pub mod output;

verus! {

/// Chunk size used when a buffer of `len` documents is flushed with the
/// configured `buffer_size`: the whole buffer when it fits, else `buffer_size`.
pub open spec fn spec_chunk_size(len: nat, buffer_size: nat) -> nat {
    if len <= buffer_size {
        len
    } else {
        buffer_size
    }
}

/// Number of bulk submissions a flush of `len` documents makes with the
/// configured `buffer_size`: one full chunk of `buffer_size` documents at a
/// time, with a final shorter chunk for a remainder.
pub open spec fn spec_num_chunks(len: nat, buffer_size: nat) -> nat
    decreases len,
{
    if buffer_size == 0 || len == 0 {
        0
    } else if len <= buffer_size {
        1
    } else {
        1 + spec_num_chunks((len - buffer_size) as nat, buffer_size)
    }
}

/// A flush of `len` documents makes exactly `⌈len / buffer_size⌉` bulk
/// submissions.
pub proof fn lemma_num_chunks_is_ceil(len: nat, buffer_size: nat)
    requires
        buffer_size >= 1,
    ensures
        spec_num_chunks(len, buffer_size) == (len + buffer_size - 1) / (buffer_size as int),
    decreases len,
{
    let b = buffer_size as int;
    if len == 0 {
        lemma_basic_div(b - 1, b);
    } else if len <= buffer_size {
        // (len + b - 1) = (len - 1) + 1 * b with 0 <= len - 1 < b
        lemma_hoist_over_denominator(len - 1, 1, buffer_size);
        lemma_basic_div(len - 1, b);
    } else {
        lemma_num_chunks_is_ceil((len - buffer_size) as nat, buffer_size);
        // (len + b - 1) = (len - 1) + 1 * b
        lemma_hoist_over_denominator(len - 1, 1, buffer_size);
        assert(len - buffer_size + b - 1 == len - 1);
    }
}

} // verus!
