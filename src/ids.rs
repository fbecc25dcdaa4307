use vstd::prelude::*;

verus! {

/// A 128-bit attribute type identifier, held as its integer value.
#[derive(Clone, Copy, Debug, PartialEq, Eq, Structural, Hash)]
pub struct Uuid {
    pub bits: u128,
}

/// A stable identifier of a remote peer: its raw address or platform identifier.
#[derive(Clone, Copy, Debug, PartialEq, Eq, Structural, Hash)]
pub struct DeviceId {
    pub raw: u128,
}

/// True when some identifier occurs in both sequences.
pub open spec fn shares_any(wanted: Seq<Uuid>, offered: Seq<Uuid>) -> bool {
    exists|i: int, j: int|
        0 <= i < wanted.len() && 0 <= j < offered.len() && #[trigger] wanted[i] == #[trigger] offered[j]
}

/// Whether `offered` holds at least one identifier of `wanted`.
pub fn any_shared(wanted: &Vec<Uuid>, offered: &Vec<Uuid>) -> (r: bool)
    ensures
        r == shares_any(wanted@, offered@),
{
    let mut i: usize = 0;
    while i < wanted.len()
        invariant
            i <= wanted.len(),
            forall|a: int, b: int|
                0 <= a < i && 0 <= b < offered@.len() ==> wanted@[a] != offered@[b],
        decreases wanted.len() - i,
    {
        let mut j: usize = 0;
        while j < offered.len()
            invariant
                i < wanted.len(),
                j <= offered.len(),
                forall|b: int| 0 <= b < j ==> wanted@[i as int] != offered@[b],
            decreases offered.len() - j,
        {
            if wanted[i].bits == offered[j].bits {
                assert(wanted@[i as int] == offered@[j as int]);
                return true;
            }
            j += 1;
        }
        i += 1;
    }
    false
}

} // verus!
