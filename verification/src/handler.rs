//! The connection handler's header-block rule.
//!
//! A request is the run of non-empty lines read from a connection: reading
//! stops at the first empty line (the header-block terminator) or at
//! stream end. The surrounding application does the reading; this module
//! holds the accumulation rule itself.

use vstd::prelude::*;

verus! {

/// How many leading lines belong to the request: the length of the
/// longest prefix that holds no empty line.
pub open spec fn spec_head_len(lines: Seq<Seq<char>>) -> int
    decreases lines.len(),
{
    if lines.len() == 0 {
        0
    } else if lines[0].len() == 0 {
        0
    } else {
        1 + spec_head_len(lines.drop_first())
    }
}

/// A prefix of all-non-empty lines that ends at the sequence's end or at
/// an empty line has exactly the length `spec_head_len` gives.
proof fn lemma_head_len_at(lines: Seq<Seq<char>>, i: int)
    requires
        0 <= i <= lines.len(),
        forall|j: int| 0 <= j < i ==> #[trigger] lines[j].len() != 0,
        i == lines.len() || lines[i].len() == 0,
    ensures
        spec_head_len(lines) == i,
    decreases i,
{
    if i == 0 {
    } else {
        assert(lines[0].len() != 0);
        lemma_head_len_at(lines.drop_first(), i - 1);
    }
}

/// The request part of a line sequence: every line before the first empty
/// one, in order.
pub fn request_head(lines: &Vec<String>) -> (r: Vec<String>)
    ensures
        r@ =~= lines@.subrange(0, spec_head_len(lines.deep_view())),
{
    let mut r: Vec<String> = Vec::new();
    let mut i: usize = 0;
    while i < lines.len() && !lines[i].as_str().is_empty()
        invariant
            i <= lines@.len(),
            r@ =~= lines@.subrange(0, i as int),
            forall|j: int| 0 <= j < i ==> #[trigger] lines.deep_view()[j].len() != 0,
        decreases lines@.len() - i,
    {
        r.push(lines[i].clone());
        i = i + 1;
    }
    proof {
        lemma_head_len_at(lines.deep_view(), i as int);
    }
    r
}

} // verus!
