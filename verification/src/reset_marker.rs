//! The reset marker: two retained words by which a reset tells the next boot
//! why it happened.

use vstd::prelude::*;

verus! {

/// The retained words. A code counts only with its inverse beside it.
#[derive(Clone, Copy, Debug, PartialEq, Eq, Structural)]
pub struct ResetMarker {
    pub code: u32,
    pub inverse: u32,
}

/// One write to the retained words.
#[derive(Clone, Copy, Debug, PartialEq, Eq, Structural)]
pub enum MarkerWrite {
    Code(u32),
    Inverse(u32),
}

impl ResetMarker {
    /// The marker after one write.
    pub open spec fn written(self, write: MarkerWrite) -> Self {
        match write {
            MarkerWrite::Code(code) => ResetMarker { code, ..self },
            MarkerWrite::Inverse(inverse) => ResetMarker { inverse, ..self },
        }
    }
}

/// The writes that leave a code: invalidate first and commit the code last.
pub open spec fn recording(code: u32) -> Seq<MarkerWrite> {
    seq![MarkerWrite::Code(0), MarkerWrite::Inverse(!code), MarkerWrite::Code(code)]
}

/// The writes that leave a code, so that an interrupted write can never be
/// mistaken for a complete marker on the next boot.
pub fn record(code: u32) -> (writes: [MarkerWrite; 3])
    ensures
        writes@ == recording(code),
{
    let writes: [MarkerWrite; 3] = [
        MarkerWrite::Code(0),
        MarkerWrite::Inverse(!code),
        MarkerWrite::Code(code),
    ];
    assert(writes@ =~= recording(code));
    writes
}

/// The write that makes a marker invalid.
pub fn clear() -> (write: MarkerWrite)
    ensures
        write == MarkerWrite::Code(0),
{
    MarkerWrite::Code(0)
}

/// The marker after the first `count` writes.
pub open spec fn after_writes(marker: ResetMarker, writes: Seq<MarkerWrite>, count: nat) -> ResetMarker
    decreases count,
{
    if count == 0 || count > writes.len() {
        marker
    } else {
        after_writes(marker, writes, (count - 1) as nat).written(writes[count - 1])
    }
}

/// Once recording has begun, the marker holds no code until the last write, and
/// then it holds the code with its inverse.
pub proof fn a_torn_marker_holds_no_code(marker: ResetMarker, code: u32)
    ensures
        after_writes(marker, recording(code), 1).code == 0,
        after_writes(marker, recording(code), 2).code == 0,
        after_writes(marker, recording(code), 3) == (ResetMarker { code, inverse: !code }),
{
    reveal_with_fuel(after_writes, 4);
}

} // verus!
