//! The parallelism written in a stored hash, read before the hash is handed
//! to Argon2.
//!
//! A stored hash is a PHC string; its parameter field holds `p=<number>`, the
//! degree of parallelism. Argon2 multiplies that number by eight in 32 bits
//! before it tests it, so a stored text with a number from 2^29 up must never
//! reach it. The test here looks at every `p=` in the text, not only at the
//! parameter field: no other field of a hash that Argon2 accepts holds `=`
//! after a `p`, and a text that is refused here is refused as corrupt.

use vstd::prelude::*;
use crate::text::chars_of;

verus! {

/// The first parallelism that is too large for Argon2 to take: 2^29, the
/// least number whose eightfold does not fit 32 bits.
pub const PARALLELISM_LIMIT: u64 = 0x2000_0000;

/// Whether a character is one of the ten ASCII digits.
pub open spec fn is_digit(c: char) -> bool {
    0x30 <= c as u32 <= 0x39
}

/// The number spelled by the digits that start at `from`, read after the
/// number `read`: each digit appends to it, the first other character or the
/// end of the text ends it.
pub open spec fn decimal_run(text: Seq<char>, from: int, read: int) -> int
    decreases text.len() - from,
{
    if 0 <= from < text.len() && is_digit(text[from]) {
        decimal_run(text, from + 1, read * 10 + (text[from] as u32 - 0x30))
    } else {
        read
    }
}

/// Whether a parallelism is written at `at`: the two characters `p=`.
pub open spec fn parallelism_at(text: Seq<char>, at: int) -> bool {
    0 <= at && at + 1 < text.len() && text[at] == 'p' && text[at + 1] == '='
}

/// Whether every parallelism written in a text is below the limit.
pub open spec fn parallelism_in_bounds(text: Seq<char>) -> bool {
    forall|at: int| #[trigger]
        parallelism_at(text, at) ==> decimal_run(text, at + 2, 0) < PARALLELISM_LIMIT
}

/// Reading more digits never makes the number smaller.
pub proof fn lemma_decimal_run_grows(text: Seq<char>, from: int, read: int)
    requires
        read >= 0,
    ensures
        decimal_run(text, from, read) >= read,
    decreases text.len() - from,
{
    if 0 <= from < text.len() && is_digit(text[from]) {
        lemma_decimal_run_grows(text, from + 1, read * 10 + (text[from] as u32 - 0x30));
    }
}

/// Whether the digits that start at `from` spell a number below the limit.
fn run_is_below_limit(text: &Vec<char>, from: usize) -> (below: bool)
    requires
        from <= text@.len(),
    ensures
        below == (decimal_run(text@, from as int, 0) < PARALLELISM_LIMIT),
{
    let mut at: usize = from;
    let mut read: u64 = 0;
    while at < text.len()
        invariant
            from <= at <= text@.len(),
            read < PARALLELISM_LIMIT,
            decimal_run(text@, from as int, 0) == decimal_run(text@, at as int, read as int),
        decreases text@.len() - at,
    {
        let code: u32 = text[at] as u32;
        if code < 0x30 || code > 0x39 {
            return true;
        }
        read = read * 10 + (code - 0x30) as u64;
        at += 1;
        if read >= PARALLELISM_LIMIT {
            proof {
                lemma_decimal_run_grows(text@, at as int, read as int);
            }
            return false;
        }
    }
    true
}

/// Whether every parallelism written in a stored hash is below the limit.
pub fn parallelism_is_bounded(stored_hash: &str) -> (bounded: bool)
    ensures
        bounded == parallelism_in_bounds(stored_hash@),
{
    let text = chars_of(stored_hash);
    let mut at: usize = 0;
    while at < text.len()
        invariant
            at <= text@.len(),
            text@ == stored_hash@,
            forall|k: int|
                0 <= k < at && #[trigger] parallelism_at(text@, k) ==> decimal_run(text@, k + 2, 0)
                    < PARALLELISM_LIMIT,
        decreases text@.len() - at,
    {
        if text[at] == 'p' && at + 1 < text.len() && text[at + 1] == '=' {
            if !run_is_below_limit(&text, at + 2) {
                assert(parallelism_at(text@, at as int));
                return false;
            }
        }
        at += 1;
    }
    true
}

} // verus!
