use vstd::prelude::*;

verus! {

/// Number of build-tool names tried, canonical name first.
pub const TOOL_CANDIDATES: usize = 2;

pub open spec fn candidate_name(i: int) -> Seq<char> {
    if i == 0 {
        "make"@
    } else {
        "gmake"@
    }
}

/// Name of build-tool candidate `i`: `make`, then `gmake`.
pub fn candidate(i: usize) -> (r: String)
    requires
        i < TOOL_CANDIDATES,
    ensures
        r@ == candidate_name(i as int),
{
    if i == 0 {
        String::from_str("make")
    } else {
        String::from_str("gmake")
    }
}

/// The bytes of `GNU Make`, with which the required dialect's version
/// output begins.
pub open spec fn dialect_signature() -> Seq<u8> {
    seq![71u8, 78u8, 85u8, 32u8, 77u8, 97u8, 107u8, 101u8]
}

pub open spec fn has_signature(output: Seq<u8>) -> bool {
    output.len() >= dialect_signature().len()
        && output.take(dialect_signature().len() as int) == dialect_signature()
}

/// Whether a tool's version output starts with the required dialect's
/// signature.
pub fn is_required_dialect(output: &[u8]) -> (r: bool)
    ensures
        r == has_signature(output@),
{
    let signature: [u8; 8] = [71, 78, 85, 32, 77, 97, 107, 101];
    assert(signature@ =~= dialect_signature());
    if output.len() < 8 {
        return false;
    }
    let mut k: usize = 0;
    while k < 8
        invariant
            output@.len() >= 8,
            signature@ == dialect_signature(),
            k <= 8,
            forall|j: int| 0 <= j < k ==> output@[j] == dialect_signature()[j],
        decreases 8 - k,
    {
        if output[k] != signature[k] {
            assert(output@.take(8)[k as int] != dialect_signature()[k as int]);
            return false;
        }
        k = k + 1;
    }
    assert(output@.take(8) =~= dialect_signature());
    true
}

/// A build tool known to speak the required dialect.
pub struct ToolHandle {
    pub program: String,
}

} // verus!
