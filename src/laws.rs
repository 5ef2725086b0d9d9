use crate::gains::{
    blurred_distance_2_spec, contribution, contribution_sum, k_coefficient_spec, Speaker,
};
use crate::scalar::Scalar;
use vstd::prelude::*;

verus! {

/// Every speaker adds nothing to the sum behind `k`: its distance is zero, or its weight
/// is zero and its squared distance a number other than zero.
pub open spec fn adds_nothing<S: Scalar>(s: Speaker<S>) -> bool {
    ||| s.distance.spec_is_zero()
    ||| {
        &&& s.weight.spec_is_zero()
        &&& s.distance.spec_times(s.distance).spec_is_number()
        &&& !s.distance.spec_times(s.distance).spec_is_zero()
    }
}

proof fn lemma_contribution_sum_zero<S: Scalar>(speakers: Seq<Speaker<S>>)
    requires
        forall|i: int| 0 <= i < speakers.len() ==> adds_nothing(#[trigger] speakers[i]),
    ensures
        contribution_sum(speakers).spec_is_zero(),
    decreases speakers.len(),
{
    S::lemma_zero_is_zero();
    if speakers.len() > 0 {
        let s = speakers.last();
        assert(adds_nothing(speakers[speakers.len() - 1]));
        lemma_contribution_sum_zero(speakers.drop_last());
        if !s.distance.spec_is_zero() {
            S::lemma_times_zeros(s.weight, s.weight);
            S::lemma_zero_divided_by(
                s.weight.spec_times(s.weight),
                s.distance.spec_times(s.distance),
            );
        }
        S::lemma_plus_zeros(contribution_sum(speakers.drop_last()), contribution(s));
    }
}

/// `k` is exactly zero when every speaker has weight zero or distance zero (a speaker of
/// weight zero needing a squared distance that is a number and not zero).
pub proof fn lemma_k_zero_when_nothing_contributes<S: Scalar>(a: S, speakers: Seq<Speaker<S>>)
    requires
        forall|i: int| 0 <= i < speakers.len() ==> adds_nothing(#[trigger] speakers[i]),
    ensures
        k_coefficient_spec(a, speakers) == S::spec_of_int(0),
{
    lemma_contribution_sum_zero(speakers);
}

/// A point's blurred squared distance to itself, without blur, is zero.
pub proof fn lemma_blurred_distance_2_same_point<S: Scalar>(p: [S; 2])
    requires
        p[0].spec_is_finite(),
        p[1].spec_is_finite(),
    ensures
        blurred_distance_2_spec(p, p, S::spec_of_int(0)) == S::spec_of_int(0),
{
    S::lemma_minus_self(p[0]);
    S::lemma_minus_self(p[1]);
    S::lemma_zero_ops();
}

/// A point's blurred squared distance to itself is `blur²`, where `blur²` is a number
/// other than zero.
pub proof fn lemma_blurred_distance_2_same_point_blur<S: Scalar>(p: [S; 2], blur: S)
    requires
        p[0].spec_is_finite(),
        p[1].spec_is_finite(),
        blur.spec_times(blur).spec_is_number(),
        !blur.spec_times(blur).spec_is_zero(),
    ensures
        blurred_distance_2_spec(p, p, blur) == blur.spec_times(blur),
{
    S::lemma_minus_self(p[0]);
    S::lemma_minus_self(p[1]);
    S::lemma_zero_ops();
    S::lemma_zero_plus(blur.spec_times(blur));
}

} // verus!
