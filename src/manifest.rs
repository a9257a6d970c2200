use vstd::prelude::*;

verus! {

/// The byte `{`, where the JSON payload of a manifest response begins.
pub const OPEN_BRACE: u8 = 123;

/// `i` is the index of the first `{` in `body`.
pub open spec fn is_first_brace(body: Seq<u8>, i: int) -> bool {
    &&& 0 <= i < body.len()
    &&& body[i] == OPEN_BRACE
    &&& forall|j: int| 0 <= j < i ==> body[j] != OPEN_BRACE
}

/// Where the JSON payload of a manifest response starts: at its first `{`,
/// or at its first byte where it holds none.
pub open spec fn json_start(body: Seq<u8>) -> int {
    if exists|i: int| is_first_brace(body, i) {
        choose|i: int| is_first_brace(body, i)
    } else {
        0
    }
}

/// The JSON payload of a manifest response: the body with everything before
/// its first `{` (the anti-hijacking prefix) removed.
pub open spec fn manifest_json_of(body: Seq<u8>) -> Seq<u8> {
    body.subrange(json_start(body), body.len() as int)
}

/// There is at most one first `{`.
proof fn lemma_first_brace_unique(body: Seq<u8>, i: int, j: int)
    requires
        is_first_brace(body, i),
        is_first_brace(body, j),
    ensures
        i == j,
{
}

/// Returns the index at which the JSON payload of `body` starts.
pub fn find_json_start(body: &[u8]) -> (r: usize)
    ensures
        r == json_start(body@),
        r <= body@.len(),
{
    let mut i: usize = 0;
    while i < body.len() && body[i] != OPEN_BRACE
        invariant
            i <= body@.len(),
            forall|j: int| 0 <= j < i ==> body@[j] != OPEN_BRACE,
        decreases body@.len() - i,
    {
        i = i + 1;
    }
    if i < body.len() {
        proof {
            assert(is_first_brace(body@, i as int));
            let k = choose|k: int| is_first_brace(body@, k);
            lemma_first_brace_unique(body@, i as int, k);
        }
        i
    } else {
        proof {
            assert(!exists|k: int| is_first_brace(body@, k));
        }
        0
    }
}

/// Removes the anti-hijacking prefix of a manifest response: returns the body
/// from its first `{` on, or the whole body where it holds no `{`.
pub fn manifest_json(body: Vec<u8>) -> (r: Vec<u8>)
    ensures
        r@ == manifest_json_of(body@),
{
    let start = find_json_start(body.as_slice());
    let mut body = body;
    body.split_off(start)
}

} // verus!
