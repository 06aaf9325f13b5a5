//! Segments of samples laid end to end.
//!
//! Each segment begins with the sample that the segment before it ended on.
//! Laid end to end without those repeats, the segments give the palette.

use vstd::arithmetic::div_mod::lemma_fundamental_div_mod;
use vstd::arithmetic::div_mod::lemma_fundamental_div_mod_converse;
use vstd::prelude::*;

verus! {

/// The segments as sequences.
pub open spec fn segment_views<T>(segments: Seq<Vec<T>>) -> Seq<Seq<T>> {
    segments.map_values(|segment: Vec<T>| segment@)
}

/// All segments one after another.
pub open spec fn joined<T>(segments: Seq<Seq<T>>) -> Seq<T>
    decreases segments.len(),
{
    if segments.len() == 0 {
        Seq::empty()
    } else {
        joined(segments.drop_last()) + segments.last()
    }
}

/// A seam: an index that is a multiple of the stride, and not the first.
pub open spec fn on_seam(index: int, stride: int) -> bool {
    index != 0 && index % stride == 0
}

/// The sequence without its elements on seams, in their order.
pub open spec fn without_seams<T>(flat: Seq<T>, stride: int) -> Seq<T>
    decreases flat.len(),
{
    if flat.len() == 0 {
        Seq::empty()
    } else if on_seam(flat.len() - 1, stride) {
        without_seams(flat.drop_last(), stride)
    } else {
        without_seams(flat.drop_last(), stride).push(flat.last())
    }
}

/// The segments laid end to end, without the first element of every segment
/// but the first.
pub open spec fn flattened<T>(segments: Seq<Seq<T>>, stride: int) -> Seq<T> {
    without_seams(joined(segments), stride)
}

/// How many seams lie below `len`.
pub open spec fn seams_below(len: int, stride: int) -> int {
    if len <= 0 {
        0
    } else {
        (len - 1) / stride
    }
}

/// Every segment has `stride` elements.
pub open spec fn even<T>(segments: Seq<Seq<T>>, stride: int) -> bool {
    forall|i: int| 0 <= i < segments.len() ==> (#[trigger] segments[i]).len() == stride
}

/// Segments of `stride` elements each have `stride` elements for each
/// segment when joined.
pub proof fn lemma_joined_len<T>(segments: Seq<Seq<T>>, stride: int)
    requires
        even(segments, stride),
    ensures
        joined(segments).len() == segments.len() * stride,
    decreases segments.len(),
{
    if segments.len() > 0 {
        let front = segments.drop_last();
        assert forall|i: int| 0 <= i < front.len() implies (#[trigger] front[i]).len()
            == stride by {
            assert(front[i] == segments[i]);
        }
        lemma_joined_len(front, stride);
        assert(front.len() * stride + stride == segments.len() * stride) by (nonlinear_arith)
            requires
                front.len() + 1 == segments.len(),
        ;
    }
}

/// Index `index` of segment `segment` lies on a seam exactly when it is the
/// first of a segment that is not the first.
pub proof fn lemma_seam_is_segment_start(segment: int, index: int, stride: int)
    requires
        0 <= segment,
        0 <= index < stride,
    ensures
        on_seam(segment * stride + index, stride) <==> (segment > 0 && index == 0),
{
    lemma_fundamental_div_mod_converse(segment * stride + index, stride, segment, index);
    assert(segment > 0 ==> segment * stride > 0) by (nonlinear_arith)
        requires
            stride > 0,
    ;
}

/// One more element lengthens the sequence without seams by one, unless it
/// falls on a seam.
pub proof fn lemma_without_seams_len<T>(flat: Seq<T>, stride: int)
    requires
        stride >= 1,
    ensures
        without_seams(flat, stride).len() == flat.len() - seams_below(flat.len() as int, stride),
    decreases flat.len(),
{
    if flat.len() > 0 {
        lemma_without_seams_len(flat.drop_last(), stride);
        let index = flat.len() - 1;
        if index > 0 {
            lemma_fundamental_div_mod(index, stride);
            let q = index / stride;
            let r = index % stride;
            assert(index == q * stride + r) by (nonlinear_arith)
                requires
                    index == stride * q + r,
            ;
            if r == 0 {
                assert(index - 1 == (q - 1) * stride + (stride - 1)) by (nonlinear_arith)
                    requires
                        index == q * stride,
                ;
                lemma_fundamental_div_mod_converse(index - 1, stride, q - 1, stride - 1);
            } else {
                lemma_fundamental_div_mod_converse(index - 1, stride, q, r - 1);
            }
        }
    }
}

/// One segment or more, of `stride` elements each, flatten to all of their
/// elements less one for each segment after the first.
pub proof fn lemma_flattened_len<T>(segments: Seq<Seq<T>>, stride: int)
    requires
        stride >= 1,
        even(segments, stride),
    ensures
        flattened(segments, stride).len() == (if segments.len() == 0 {
            0
        } else {
            segments.len() * stride - (segments.len() - 1)
        }),
{
    lemma_joined_len(segments, stride);
    lemma_without_seams_len(joined(segments), stride);
    let count = segments.len() as int;
    if count > 0 {
        assert(count * stride - 1 == (count - 1) * stride + (stride - 1)) by (nonlinear_arith);
        assert(count * stride >= 1) by (nonlinear_arith)
            requires
                count >= 1,
                stride >= 1,
        ;
        lemma_fundamental_div_mod_converse(count * stride - 1, stride, count - 1, stride - 1);
    }
}

/// Element `index` of segment `segment` stands in the joined sequence after
/// all elements of the segments before it.
pub proof fn lemma_joined_index<T>(segments: Seq<Seq<T>>, stride: int, segment: int, index: int)
    requires
        even(segments, stride),
        0 <= segment < segments.len(),
        0 <= index < stride,
    ensures
        0 <= segment * stride + index < joined(segments).len(),
        joined(segments)[segment * stride + index] == segments[segment][index],
    decreases segments.len(),
{
    let front = segments.drop_last();
    assert forall|i: int| 0 <= i < front.len() implies (#[trigger] front[i]).len() == stride by {
        assert(front[i] == segments[i]);
    }
    lemma_joined_len(front, stride);
    lemma_joined_len(segments, stride);
    assert(segments.last().len() == stride);
    assert(0 <= segment * stride && (segment + 1) * stride <= segments.len() * stride) by (
        nonlinear_arith)
        requires
            0 <= segment < segments.len(),
            stride > 0,
    ;
    assert((segment + 1) * stride == segment * stride + stride) by (nonlinear_arith);
    if segment == segments.len() - 1 {
        assert(front.len() * stride == segment * stride);
    } else {
        lemma_joined_index(front, stride, segment, index);
        assert(front[segment] == segments[segment]);
    }
}

/// An element that is not on a seam stands, without the seams, as many
/// places further to the front as there are seams before it.
pub proof fn lemma_without_seams_index<T>(flat: Seq<T>, stride: int, index: int)
    requires
        stride >= 1,
        0 <= index < flat.len(),
        !on_seam(index, stride),
    ensures
        0 <= index - index / stride < without_seams(flat, stride).len(),
        without_seams(flat, stride)[index - index / stride] == flat[index],
    decreases flat.len(),
{
    let last = flat.len() - 1;
    let front = flat.drop_last();
    lemma_without_seams_len(front, stride);
    lemma_seams_up_to(index, stride);
    if index == last {
    } else {
        lemma_without_seams_index(front, stride, index);
        assert(front[index] == flat[index]);
    }
}

/// Up to an index that is not on a seam there are as many seams as the
/// stride goes into the index, and the index is at least that many.
proof fn lemma_seams_up_to(index: int, stride: int)
    requires
        stride >= 1,
        0 <= index,
        !on_seam(index, stride),
    ensures
        seams_below(index, stride) == index / stride,
        0 <= index / stride <= index,
{
    lemma_fundamental_div_mod(index, stride);
    let q = index / stride;
    let r = index % stride;
    assert(index == q * stride + r) by (nonlinear_arith)
        requires
            index == stride * q + r,
    ;
    assert(0 <= q <= index) by (nonlinear_arith)
        requires
            index == q * stride + r,
            0 <= r < stride,
            stride >= 1,
            index >= 0,
    ;
    if index > 0 {
        lemma_fundamental_div_mod_converse(index - 1, stride, q, r - 1);
    }
}

/// Where an element of a segment stands among the flattened: each segment
/// before it takes one place fewer than it has elements.
pub open spec fn place(segment: int, index: int, stride: int) -> int {
    segment * (stride - 1) + index
}

/// Every element of the first segment, and every element but the first of
/// each later segment, stands among the flattened at its place.
pub proof fn lemma_flattened_index<T>(segments: Seq<Seq<T>>, stride: int, segment: int, index: int)
    requires
        even(segments, stride),
        0 <= segment < segments.len(),
        0 <= index < stride,
        segment == 0 || index >= 1,
    ensures
        0 <= place(segment, index, stride) < flattened(segments, stride).len(),
        flattened(segments, stride)[place(segment, index, stride)] == segments[segment][index],
{
    let at = segment * stride + index;
    lemma_joined_index(segments, stride, segment, index);
    lemma_seam_is_segment_start(segment, index, stride);
    lemma_fundamental_div_mod_converse(at, stride, segment, index);
    lemma_without_seams_index(joined(segments), stride, at);
    assert(at - segment == place(segment, index, stride)) by (nonlinear_arith)
        requires
            at == segment * stride + index,
    ;
}

/// The segments laid end to end, each after the first without its first
/// element.
pub fn flatten<T: Copy>(segments: &Vec<Vec<T>>, stride: usize) -> (flat: Vec<T>)
    requires
        stride >= 1,
        even(segment_views(segments@), stride as int),
    ensures
        flat@ == flattened(segment_views(segments@), stride as int),
{
    let ghost views = segment_views(segments@);
    let mut flat: Vec<T> = Vec::new();
    let mut i: usize = 0;
    proof {
        assert(views.take(0) =~= Seq::<Seq<T>>::empty());
    }
    while i < segments.len()
        invariant
            stride >= 1,
            views == segment_views(segments@),
            even(views, stride as int),
            i <= segments.len(),
            flat@ == without_seams(joined(views.take(i as int)), stride as int),
        decreases segments.len() - i,
    {
        let segment = &segments[i];
        let ghost before = joined(views.take(i as int));
        proof {
            assert(segment@ == views[i as int]);
            assert(segment@.len() == stride);
            assert forall|n: int| 0 <= n < views.take(i as int).len() implies (
            #[trigger] views.take(i as int)[n]).len() == stride by {
                assert(views.take(i as int)[n] == views[n]);
            }
            lemma_joined_len(views.take(i as int), stride as int);
            assert(before + segment@.take(0) =~= before);
        }
        let mut j: usize = 0;
        while j < stride
            invariant
                stride >= 1,
                j <= stride,
                segment@.len() == stride,
                before.len() == i * stride,
                flat@ == without_seams(before + segment@.take(j as int), stride as int),
            decreases stride - j,
        {
            proof {
                let shorter = before + segment@.take(j as int);
                let longer = before + segment@.take(j + 1);
                assert(longer.drop_last() =~= shorter);
                assert(longer.last() == segment@[j as int]);
                lemma_seam_is_segment_start(i as int, j as int, stride as int);
            }
            if i == 0 || j != 0 {
                flat.push(segment[j]);
            }
            j += 1;
        }
        proof {
            assert(segment@.take(stride as int) =~= segment@);
            assert(views.take(i + 1).drop_last() =~= views.take(i as int));
            assert(views.take(i + 1).last() == segment@);
        }
        i += 1;
    }
    proof {
        assert(views.take(segments.len() as int) =~= views);
    }
    flat
}

} // verus!
