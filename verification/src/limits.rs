use vstd::prelude::*;

verus! {

/// Fewest bytes of trimmed text that count as a usable extraction.
pub const MIN_TEXT_LEN: usize = 256;

/// Most bytes the extracted text may ever hold.
pub const MAX_TEXT_LEN: usize = 32_768;

/// Fewest bytes an input document may have.
pub const MIN_INPUT_LEN: usize = 256;

/// Most bytes an input document may have (5 MiB).
pub const MAX_INPUT_LEN: usize = 5_242_880;

/// Whether an input of `len` bytes is within the accepted size range.
pub open spec fn input_len_accepted(len: nat) -> bool {
    MIN_INPUT_LEN <= len <= MAX_INPUT_LEN
}

/// Tests the size of an input document against the accepted range.
pub fn input_len_ok(len: usize) -> (ok: bool)
    ensures
        ok == input_len_accepted(len as nat),
{
    len >= MIN_INPUT_LEN && len <= MAX_INPUT_LEN
}

} // verus!
