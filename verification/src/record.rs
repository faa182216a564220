//! Per-record edge adjustment.
//!
//! The external container library owns the on-disk record encoding; this
//! module works on a plain-value image of the fields the adjustment reads
//! and writes. The stream driver converts between the library's record type
//! and this one at the boundary, runs `reduce_qualities_in_read`, and hands
//! the record straight to the sink — every field except the quality array
//! comes back byte-identical.

use vstd::prelude::*;

use crate::quality::reduce_qualities_in_edges;
use crate::quality::transformed_qual;

verus! {

/// The fields of one aligned read that the adjustment touches or must keep
/// intact: the read name, the base sequence, the per-base quality array,
/// and the soft-clip lengths the aligner reported at each end.
pub struct AlignmentRecord {
    /// The read's identifying name.
    pub qname: Vec<u8>,
    /// The base sequence, one byte per base.
    pub bases: Vec<u8>,
    /// The per-base quality array, one value per base.
    pub qual: Vec<u8>,
    /// How many bases at the start of the read the aligner soft-clipped.
    pub leading_softclips: usize,
    /// How many bases at the end of the read the aligner soft-clipped.
    pub trailing_softclips: usize,
}

impl AlignmentRecord {
    /// A well-formed record carries one quality value per base.
    pub open spec fn wf(self) -> bool {
        self.qual.len() == self.bases.len()
    }
}

/// Lowers the edge qualities of one record in place. The quality array is
/// replaced by the clip-aware edge transform of its old value; the name,
/// the base sequence and the clip lengths keep their old values, so a
/// well-formed record stays well-formed.
pub fn reduce_qualities_in_read(
    record: &mut AlignmentRecord,
    num_bases: &usize,
    qual_reduction: &u8,
)
    ensures
        final(record).qual.len() == old(record).qual.len(),
        forall|i: int|
            0 <= i < old(record).qual.len() ==> final(record).qual[i] == transformed_qual(
                old(record).qual@,
                i,
                *qual_reduction,
                *num_bases as int,
                old(record).leading_softclips as int,
                old(record).trailing_softclips as int,
            ),
        final(record).qname == old(record).qname,
        final(record).bases == old(record).bases,
        final(record).leading_softclips == old(record).leading_softclips,
        final(record).trailing_softclips == old(record).trailing_softclips,
        old(record).wf() ==> final(record).wf(),
{
    let qual = record.qual.clone();
    proof {
        assert(qual@ =~= record.qual@);
    }
    let leading = record.leading_softclips;
    let trailing = record.trailing_softclips;
    let reduced = reduce_qualities_in_edges(qual, num_bases, qual_reduction, &leading, &trailing);
    record.qual = reduced;
}

} // verus!
