use crate::scalar::Scalar;
use vstd::prelude::*;

verus! {

/// A speaker, seen from the virtual source.
#[derive(Clone, Copy, Debug)]
pub struct Speaker<S> {
    /// The speaker's distance from the virtual source.
    pub distance: S,
    /// The weight of the speaker, compared to all other speakers.
    pub weight: S,
}

/// Why a gain sequence could not be made.
#[derive(Clone, Copy, Debug, PartialEq, Eq, Structural)]
pub enum GainsError {
    /// No speaker was given.
    EmptyInput,
}

/// The squared distance between two points of the plane, plus the square of `blur`.
pub open spec fn blurred_distance_2_spec<S: Scalar>(source: [S; 2], speaker: [S; 2], blur: S) -> S {
    let x = speaker[0].spec_minus(source[0]);
    let y = speaker[1].spec_minus(source[1]);
    x.spec_times(x).spec_plus(y.spec_times(y)).spec_plus(blur.spec_times(blur))
}

/// `10 ^ (-rolloff_db / 20)`.
pub open spec fn a_coefficient_spec<S: Scalar>(rolloff_db: S) -> S {
    S::spec_of_int(10).spec_pow(rolloff_db.spec_negated().spec_divided_by(S::spec_of_int(20)))
}

/// What one speaker adds to the sum behind `k`: `weight² / distance²`, or zero at distance zero.
pub open spec fn contribution<S: Scalar>(s: Speaker<S>) -> S {
    if s.distance.spec_is_zero() {
        S::spec_of_int(0)
    } else {
        s.weight.spec_times(s.weight).spec_divided_by(s.distance.spec_times(s.distance))
    }
}

/// The contributions of the speakers, added up from the first to the last, starting from zero.
pub open spec fn contribution_sum<S: Scalar>(speakers: Seq<Speaker<S>>) -> S
    decreases speakers.len(),
{
    if speakers.len() == 0 {
        S::spec_of_int(0)
    } else {
        contribution_sum(speakers.drop_last()).spec_plus(contribution(speakers.last()))
    }
}

/// `2·a / sum`, or zero where the sum of the contributions is zero.
pub open spec fn k_coefficient_spec<S: Scalar>(a: S, speakers: Seq<Speaker<S>>) -> S {
    let sum = contribution_sum(speakers);
    if sum.spec_is_zero() {
        S::spec_of_int(0)
    } else {
        S::spec_of_int(2).spec_times(a).spec_divided_by(sum)
    }
}

/// `k · weight / (2 · distance · a)`, where `2 · distance` is `distance + distance`.
pub open spec fn relative_amplitude_spec<S: Scalar>(speaker: Speaker<S>, k: S, a: S) -> S {
    k.spec_times(speaker.weight).spec_divided_by(
        speaker.distance.spec_plus(speaker.distance).spec_times(a),
    )
}

/// The gain of a speaker: its relative amplitude divided by its distance.
pub open spec fn gain_spec<S: Scalar>(speaker: Speaker<S>, k: S, a: S) -> S {
    relative_amplitude_spec(speaker, k, a).spec_divided_by(speaker.distance)
}

/// The squared distance from `source` to `speaker` in the plane, plus `blur²`.
///
/// A blur whose square is not zero keeps the result away from zero, so that no gain
/// formula divides by zero.
pub fn blurred_distance_2<S: Scalar>(source: [S; 2], speaker: [S; 2], blur: S) -> (r: S)
    ensures
        r == blurred_distance_2_spec(source, speaker, blur),
{
    let x = speaker[0].minus(source[0]);
    let y = speaker[1].minus(source[1]);
    x.times(x).plus(y.times(y)).plus(blur.times(blur))
}

/// The relative amplitude of a speaker, where `k` depends on the source and all speakers
/// and `a` on the rolloff. The speaker's distance must not be zero for a meaningful result.
pub fn v_speaker_relative_amplitude<S: Scalar>(speaker: &Speaker<S>, k: S, a: S) -> (r: S)
    ensures
        r == relative_amplitude_spec(*speaker, k, a),
{
    k.times(speaker.weight).divided_by(speaker.distance.plus(speaker.distance).times(a))
}

/// The coefficient for a rolloff in decibels per doubling of distance: 6 dB is the
/// inverse distance law of a free field, 3 to 5 dB suit closed, reverberant rooms.
pub fn a_coefficient<S: Scalar>(rolloff_db: S) -> (r: S)
    ensures
        r == a_coefficient_spec(rolloff_db),
{
    S::of_int(10).pow(rolloff_db.negated().divided_by(S::of_int(20)))
}

/// The coefficient `k`, which depends on the source's position and on all speakers.
/// Zero where every speaker adds zero (weight zero or distance zero).
pub fn k_coefficient<S: Scalar>(a: S, speakers: &[Speaker<S>]) -> (r: S)
    ensures
        r == k_coefficient_spec(a, speakers@),
{
    let zero = S::of_int(0);
    let mut sum = zero;
    let mut i: usize = 0;
    while i < speakers.len()
        invariant
            i <= speakers@.len(),
            zero == S::spec_of_int(0),
            sum == contribution_sum(speakers@.take(i as int)),
        decreases speakers@.len() - i,
    {
        let s = speakers[i];
        let c = if s.distance.is_zero() {
            zero
        } else {
            s.weight.times(s.weight).divided_by(s.distance.times(s.distance))
        };
        assert(speakers@.take(i + 1).drop_last() =~= speakers@.take(i as int));
        sum = sum.plus(c);
        i = i + 1;
    }
    assert(speakers@.take(i as int) =~= speakers@);
    if sum.is_zero() {
        zero
    } else {
        S::of_int(2).times(a).divided_by(sum)
    }
}

/// The gains of a list of speakers, one at a time and in order, with `a` and `k`
/// computed once.
///
/// A speaker at distance zero adds nothing to `k`, but its own gain divides by its
/// distance: callers keep every distance away from zero, for instance with a blur.
#[derive(Clone)]
pub struct SpeakerGains<'a, S> {
    speakers: &'a [Speaker<S>],
    a_coefficient: S,
    k_coefficient: S,
    i: usize,
}

impl<'a, S: Scalar> SpeakerGains<'a, S> {
    /// The speakers whose gains the sequence yields.
    pub closed spec fn speakers(&self) -> Seq<Speaker<S>> {
        self.speakers@
    }

    /// The coefficient computed from the rolloff.
    pub closed spec fn a(&self) -> S {
        self.a_coefficient
    }

    /// The coefficient computed from all speakers.
    pub closed spec fn k(&self) -> S {
        self.k_coefficient
    }

    /// How many gains have been yielded.
    pub closed spec fn position(&self) -> nat {
        self.i as nat
    }

    /// The position never passes the end of the speakers.
    pub closed spec fn wf(&self) -> bool {
        self.i <= self.speakers@.len()
    }

    /// The sequence for `speakers` and a rolloff in decibels; fails on an empty list.
    pub fn new(speakers: &'a [Speaker<S>], rolloff_db: S) -> (r: Result<Self, GainsError>)
        ensures
            speakers@.len() == 0 <==> r is Err,
            r is Err ==> r->Err_0 == GainsError::EmptyInput,
            r matches Ok(g) ==> {
                &&& g.wf()
                &&& g.speakers() == speakers@
                &&& g.position() == 0
                &&& g.a() == a_coefficient_spec(rolloff_db)
                &&& g.k() == k_coefficient_spec(g.a(), speakers@)
            },
    {
        if speakers.len() == 0 {
            return Err(GainsError::EmptyInput);
        }
        let a_coefficient = a_coefficient(rolloff_db);
        let k_coefficient = k_coefficient(a_coefficient, speakers);
        Ok(SpeakerGains { speakers, a_coefficient, k_coefficient, i: 0 })
    }

    /// The gain of the next speaker, or `None` once every speaker has had its gain.
    pub fn next(&mut self) -> (r: Option<S>)
        requires
            old(self).wf(),
        ensures
            final(self).wf(),
            final(self).speakers() == old(self).speakers(),
            final(self).a() == old(self).a(),
            final(self).k() == old(self).k(),
            old(self).position() < old(self).speakers().len() ==> {
                &&& final(self).position() == old(self).position() + 1
                &&& r == Some(
                    gain_spec(old(self).speakers()[old(self).position() as int], old(self).k(), old(self).a()),
                )
            },
            old(self).position() >= old(self).speakers().len() ==> {
                &&& final(self).position() == old(self).position()
                &&& r is None
            },
    {
        let i = self.i;
        if i >= self.speakers.len() {
            return None;
        }
        self.i = self.i + 1;
        let s = &self.speakers[i];
        let s_r_amp = v_speaker_relative_amplitude(s, self.k_coefficient, self.a_coefficient);
        Some(s_r_amp.divided_by(s.distance))
    }

    /// Yields every gain that is left, in the order of the speakers.
    pub fn collect_all(&mut self) -> (v: Vec<S>)
        requires
            old(self).wf(),
        ensures
            final(self).wf(),
            final(self).speakers() == old(self).speakers(),
            final(self).a() == old(self).a(),
            final(self).k() == old(self).k(),
            final(self).position() == old(self).speakers().len(),
            v@.len() == old(self).speakers().len() - old(self).position(),
            forall|j: int|
                0 <= j < v@.len() ==> v@[j] == gain_spec(
                    old(self).speakers()[old(self).position() + j],
                    old(self).k(),
                    old(self).a(),
                ),
    {
        let mut v: Vec<S> = Vec::new();
        loop
            invariant
                self.wf(),
                self.speakers() == old(self).speakers(),
                self.a() == old(self).a(),
                self.k() == old(self).k(),
                old(self).position() <= self.position(),
                v@.len() == self.position() - old(self).position(),
                forall|j: int|
                    0 <= j < v@.len() ==> v@[j] == gain_spec(
                        old(self).speakers()[old(self).position() + j],
                        old(self).k(),
                        old(self).a(),
                    ),
            ensures
                self.position() == self.speakers().len(),
            decreases self.speakers().len() - self.position(),
        {
            match self.next() {
                Some(g) => v.push(g),
                None => break,
            }
        }
        v
    }
}

} // verus!
