//! The edge quality-reduction transform.
//!
//! Given a read's quality array, the soft-clip lengths reported by the
//! aligner at each end, a count of aligned edge bases to affect, and a
//! reduction amount, this module decides which positions to lower and by how
//! much. Selection runs in two passes, a leading one and a trailing one; the
//! trailing pass never touches a position below the raw (clip-ignorant) edge
//! width, which resolves most overlaps between the two windows.

use vstd::prelude::*;

verus! {

/// One quality value lowered by `amount`, floored at zero.
pub open spec fn reduced_qual(q: u8, amount: u8) -> u8 {
    if q >= amount {
        (q - amount) as u8
    } else {
        0
    }
}

/// Reduces a single quality value by `qual_reduction`, saturating at zero.
pub fn reduce_single_qual(q: u8, qual_reduction: &u8) -> (r: u8)
    ensures
        r == reduced_qual(q, *qual_reduction),
        r <= q,
        *qual_reduction >= q ==> r == 0,
{
    let q_reduced: u8;
    if q >= *qual_reduction {
        q_reduced = q - *qual_reduction;
    } else {
        q_reduced = 0;
    }
    q_reduced
}

/// The leading pass selects every position of the first
/// `num_bases + leading_clip` slots, clamped to the array bounds.
pub open spec fn in_leading_window(i: int, len: int, num_bases: int, leading_clip: int) -> bool {
    0 <= i < len && i < num_bases + leading_clip
}

/// The trailing pass selects the last `num_bases + trailing_clip` positions,
/// clamped to the array bounds, except those below the raw edge width
/// `num_bases`: the plain (clip-ignorant) leading reservation zone is off
/// limits to the trailing pass.
pub open spec fn in_trailing_window(i: int, len: int, num_bases: int, trailing_clip: int) -> bool {
    0 <= i < len && num_bases <= i && len - (num_bases + trailing_clip) <= i
}

/// All positions that either pass selects.
pub open spec fn selected_positions(len: int, num_bases: int, leading_clip: int, trailing_clip: int) -> Set<int> {
    Set::new(
        |i: int|
            in_leading_window(i, len, num_bases, leading_clip) || in_trailing_window(
                i,
                len,
                num_bases,
                trailing_clip,
            ),
    )
}

/// The value the transform leaves at position `i`: reduced once if the
/// leading window covers `i`, then once more if the trailing window covers
/// `i` as well. A position inside both windows — possible when the clip
/// lengths are large enough for the windows to meet beyond the raw edge
/// width — is deliberately reduced twice.
pub open spec fn transformed_qual(
    q0: Seq<u8>,
    i: int,
    amount: u8,
    num_bases: int,
    leading_clip: int,
    trailing_clip: int,
) -> u8 {
    let after_leading = if in_leading_window(i, q0.len() as int, num_bases, leading_clip) {
        reduced_qual(q0[i], amount)
    } else {
        q0[i]
    };
    if in_trailing_window(i, q0.len() as int, num_bases, trailing_clip) {
        reduced_qual(after_leading, amount)
    } else {
        after_leading
    }
}

/// Lowers the qualities of the edge bases of a read, saturating at zero.
///
/// The leading window spans the first `num_bases + leading_softclips`
/// positions; the trailing window spans the last
/// `num_bases + trailing_softclips` positions that lie at or above index
/// `num_bases`. Both windows clamp at the array bounds, so oversized edge
/// widths or clip lengths are safe for any array length.
pub fn reduce_qualities_in_edges(
    qual: Vec<u8>,
    num_bases: &usize,
    qual_reduction: &u8,
    leading_softclips: &usize,
    trailing_softclips: &usize,
) -> (result: Vec<u8>)
    ensures
        result.len() == qual.len(),
        forall|i: int|
            0 <= i < qual.len() ==> result[i] == transformed_qual(
                qual@,
                i,
                *qual_reduction,
                *num_bases as int,
                *leading_softclips as int,
                *trailing_softclips as int,
            ),
        forall|i: int| 0 <= i < qual.len() ==> result[i] <= qual[i],
        *qual_reduction == 0 ==> result@ == qual@,
{
    let ghost q0: Seq<u8> = qual@;
    let ghost nb: int = *num_bases as int;
    let ghost lc: int = *leading_softclips as int;
    let ghost tc: int = *trailing_softclips as int;
    let mut out = qual;
    let seq_len: usize = out.len();

    let num_bases_with_clip: usize = num_bases.saturating_add(*leading_softclips);
    let lead_end: usize = if num_bases_with_clip < seq_len {
        num_bases_with_clip
    } else {
        seq_len
    };
    let mut pos: usize = 0;
    while pos < lead_end
        invariant
            pos <= lead_end,
            lead_end <= seq_len,
            out.len() == seq_len,
            seq_len == q0.len(),
            forall|i: int| 0 <= i < pos ==> out[i] == reduced_qual(q0[i], *qual_reduction),
            forall|i: int| pos <= i < q0.len() ==> out[i] == q0[i],
            forall|i: int| 0 <= i < q0.len() ==> (i < lead_end <==> in_leading_window(i, q0.len() as int, nb, lc)),
        decreases lead_end - pos,
    {
        let reduced = reduce_single_qual(out[pos], qual_reduction);
        out.set(pos, reduced);
        pos = pos + 1;
    }

    let ghost q1: Seq<u8> = out@;
    let num_bases_with_clip: usize = num_bases.saturating_add(*trailing_softclips);
    let trail_span: usize = if num_bases_with_clip < seq_len {
        num_bases_with_clip
    } else {
        seq_len
    };
    let mut k: usize = 0;
    while k < trail_span
        invariant
            k <= trail_span,
            trail_span <= seq_len,
            trail_span <= nb + tc,
            nb == *num_bases as int,
            out.len() == seq_len,
            seq_len == q0.len(),
            q1.len() == q0.len(),
            forall|i: int| 0 <= i < q0.len() ==> q1[i] == (if in_leading_window(i, q0.len() as int, nb, lc) {
                reduced_qual(q0[i], *qual_reduction)
            } else {
                q0[i]
            }),
            forall|i: int| 0 <= i < q0.len() ==> ((seq_len - k <= i && nb <= i)
                <==> in_trailing_window(i, q0.len() as int, nb, tc) && seq_len - k <= i),
            forall|i: int| 0 <= i < seq_len - k ==> out[i] == q1[i],
            forall|i: int| seq_len - k <= i < q0.len() ==> out[i] == (
                if in_trailing_window(i, q0.len() as int, nb, tc) {
                    reduced_qual(q1[i], *qual_reduction)
                } else {
                    q1[i]
                }),
            forall|i: int| 0 <= i < q0.len()
                ==> (in_trailing_window(i, q0.len() as int, nb, tc) ==> seq_len - trail_span <= i),
        decreases trail_span - k,
    {
        let pos_from_end: usize = seq_len - 1 - k;
        if pos_from_end >= *num_bases {
            let reduced = reduce_single_qual(out[pos_from_end], qual_reduction);
            out.set(pos_from_end, reduced);
        }
        k = k + 1;
    }

    proof {
        assert forall|i: int| 0 <= i < q0.len() implies out@[i] == transformed_qual(
            q0,
            i,
            *qual_reduction,
            nb,
            lc,
            tc,
        ) by {
            if seq_len - trail_span <= i {
                assert(out@[i] == (if in_trailing_window(i, q0.len() as int, nb, tc) {
                    reduced_qual(q1[i], *qual_reduction)
                } else {
                    q1[i]
                }));
            } else {
                assert(!in_trailing_window(i, q0.len() as int, nb, tc));
                assert(out@[i] == q1[i]);
            }
        }
        if *qual_reduction == 0 {
            assert(out@ =~= qual@);
        }
    }
    out
}

/// Selection is deterministic: computing the selected edge positions twice
/// from identical arguments yields an identical set. Selection depends only
/// on the array length, the edge width and the clip lengths — in particular
/// not on the quality values or the reduction amount.
pub proof fn lemma_selection_idempotent(
    len: int,
    num_bases: int,
    leading_clip: int,
    trailing_clip: int,
)
    ensures
        selected_positions(len, num_bases, leading_clip, trailing_clip) =~= selected_positions(
            len,
            num_bases,
            leading_clip,
            trailing_clip,
        ),
{
}

/// Boundary safety of selection: every selected position lies inside the
/// array, however large the edge width or the clip lengths are — the windows
/// clamp at the array bounds instead of reaching past them.
pub proof fn lemma_selection_in_bounds(
    len: int,
    num_bases: int,
    leading_clip: int,
    trailing_clip: int,
)
    ensures
        forall|i: int|
            selected_positions(len, num_bases, leading_clip, trailing_clip).contains(i) ==> 0 <= i
                < len,
{
}

/// A position outside both windows keeps its quality value exactly.
pub proof fn lemma_unselected_position_unchanged(
    q0: Seq<u8>,
    i: int,
    amount: u8,
    num_bases: int,
    leading_clip: int,
    trailing_clip: int,
)
    requires
        0 <= i < q0.len(),
        !selected_positions(q0.len() as int, num_bases, leading_clip, trailing_clip).contains(i),
    ensures
        transformed_qual(q0, i, amount, num_bases, leading_clip, trailing_clip) == q0[i],
{
}

} // verus!
