use dbap::{
    a_coefficient, blurred_distance_2, k_coefficient, v_speaker_relative_amplitude, GainsError,
    Scalar, Speaker, SpeakerGains,
};
use num_traits::Pow;

#[derive(Clone, Copy, Debug, PartialEq)]
struct F(f64);

impl Scalar for F {
    fn of_int(n: i32) -> F {
        F(n as f64)
    }
    fn plus(self, o: F) -> F {
        F(self.0 + o.0)
    }
    fn minus(self, o: F) -> F {
        F(self.0 - o.0)
    }
    fn times(self, o: F) -> F {
        F(self.0 * o.0)
    }
    fn divided_by(self, o: F) -> F {
        F(self.0 / o.0)
    }
    fn negated(self) -> F {
        F(-self.0)
    }
    fn pow(self, e: F) -> F {
        F(Pow::pow(self.0, e.0))
    }
    fn is_zero(self) -> bool {
        self.0 == 0.0
    }
    fn spec_of_int(n: i32) -> F {
        F::of_int(n)
    }
    fn spec_plus(self, o: F) -> F {
        self.plus(o)
    }
    fn spec_minus(self, o: F) -> F {
        self.minus(o)
    }
    fn spec_times(self, o: F) -> F {
        self.times(o)
    }
    fn spec_divided_by(self, o: F) -> F {
        self.divided_by(o)
    }
    fn spec_negated(self) -> F {
        self.negated()
    }
    fn spec_pow(self, e: F) -> F {
        self.pow(e)
    }
    fn spec_is_zero(self) -> bool {
        self.is_zero()
    }
    fn spec_is_number(self) -> bool {
        !self.0.is_nan()
    }
    fn spec_is_finite(self) -> bool {
        self.0.is_finite()
    }
    fn lemma_zero_is_zero() {}
    fn lemma_plus_zeros(_a: F, _b: F) {}
    fn lemma_times_zeros(_a: F, _b: F) {}
    fn lemma_zero_divided_by(_a: F, _b: F) {}
    fn lemma_minus_self(_a: F) {}
    fn lemma_zero_ops() {}
    fn lemma_zero_plus(_b: F) {}
}

fn spk(distance: f64, weight: f64) -> Speaker<F> {
    Speaker { distance: F(distance), weight: F(weight) }
}

fn all_gains(speakers: &[Speaker<F>], rolloff: f64) -> Vec<f64> {
    let mut g = SpeakerGains::new(speakers, F(rolloff)).unwrap();
    g.collect_all().into_iter().map(|x| x.0).collect()
}

fn close(a: f64, b: f64) -> bool {
    (a - b).abs() < 1e-6
}

#[test]
fn speaker_gains() {
    fn magnitude2([x, y]: [f64; 2]) -> f64 {
        x * x + y * y
    }
    fn distance2([ax, ay]: [f64; 2], [bx, by]: [f64; 2]) -> f64 {
        magnitude2([bx - ax, by - ay])
    }
    let src = [5f64, 5.0];
    let speaker = |v: [f64; 2], w: f64| spk(distance2(v, src).sqrt(), w);
    let a = speaker([0.0, 0.0], 1.0);
    let b = speaker([10.0, 0.0], 1.0);
    let c = speaker([10.0, 10.0], 1.0);
    let d = speaker([0.0, 10.0], 1.0);
    let spkrs = vec![a, b, c, d];
    let r = 6.0; // free-field rolloff db.
    let gains = all_gains(&spkrs, r);
    let g = gains[0];
    for gain in gains {
        assert_eq!(g, gain);
    }
}

#[test]
fn one_gain_per_speaker_in_order() {
    let spkrs = vec![spk(1.0, 1.0), spk(2.0, 1.0), spk(4.0, 0.5)];
    let gains = all_gains(&spkrs, 6.0);
    assert_eq!(gains.len(), 3);
    let a = a_coefficient(F(6.0));
    let k = k_coefficient(a, &spkrs);
    for (i, s) in spkrs.iter().enumerate() {
        let expected = v_speaker_relative_amplitude(s, k, a).0 / s.distance.0;
        assert_eq!(gains[i], expected);
    }
    assert!(gains[0] > gains[1] && gains[1] > gains[2]);
}

#[test]
fn next_ends_after_last_speaker() {
    let spkrs = vec![spk(1.0, 1.0), spk(3.0, 1.0)];
    let mut g = SpeakerGains::new(&spkrs, F(6.0)).unwrap();
    assert!(g.next().is_some());
    assert!(g.next().is_some());
    assert!(g.next().is_none());
    assert!(g.next().is_none());
    assert!(g.collect_all().is_empty());
}

#[test]
fn empty_speakers_fail() {
    let spkrs: Vec<Speaker<F>> = Vec::new();
    assert!(matches!(SpeakerGains::new(&spkrs, F(6.0)), Err(GainsError::EmptyInput)));
}

#[test]
fn a_coefficient_free_field() {
    let a = a_coefficient(F(6.0)).0;
    assert!(close(a, 0.501187), "{}", a);
    assert!(close(a, 10f64.powf(-0.3)));
    assert_eq!(a_coefficient(F(0.0)).0, 1.0);
    assert!(close(a_coefficient(F(20.0)).0, 0.1));
}

#[test]
fn k_coefficient_zero_weights() {
    let spkrs = vec![spk(1.0, 0.0), spk(2.0, 0.0), spk(3.0, 0.0)];
    assert_eq!(k_coefficient(F(0.5), &spkrs).0, 0.0);
}

#[test]
fn k_coefficient_zero_distances() {
    let spkrs = vec![spk(0.0, 1.0), spk(0.0, 2.0)];
    assert_eq!(k_coefficient(F(0.5), &spkrs).0, 0.0);
    let mixed = vec![spk(0.0, 1.0), spk(5.0, 0.0)];
    assert_eq!(k_coefficient(F(0.5), &mixed).0, 0.0);
}

#[test]
fn k_coefficient_exact() {
    // One speaker at distance 2 with weight 1: the sum is 1/4, so k = 2a / (1/4) = 8a.
    assert_eq!(k_coefficient(F(0.5), &[spk(2.0, 1.0)]).0, 4.0);
    // A speaker at distance zero adds nothing: the sum is 1 + 1/4.
    assert_eq!(k_coefficient(F(1.25), &[spk(1.0, 1.0), spk(0.0, 7.0), spk(2.0, 1.0)]).0, 2.0);
}

#[test]
fn relative_amplitude_exact() {
    let s = spk(2.0, 1.0);
    assert_eq!(v_speaker_relative_amplitude(&s, F(4.0), F(0.5)).0, 2.0);
    let s = spk(1.0, 3.0);
    assert_eq!(v_speaker_relative_amplitude(&s, F(2.0), F(0.25)).0, 12.0);
}

#[test]
fn blurred_distance_2_exact() {
    assert_eq!(blurred_distance_2([F(0.0), F(0.0)], [F(3.0), F(4.0)], F(0.0)).0, 25.0);
    assert_eq!(blurred_distance_2([F(1.0), F(1.0)], [F(4.0), F(5.0)], F(2.0)).0, 29.0);
}

#[test]
fn blurred_distance_2_same_point() {
    let p = [F(5.5), F(-3.25)];
    assert_eq!(blurred_distance_2(p, p, F(0.0)).0, 0.0);
    assert_eq!(blurred_distance_2(p, p, F(0.5)).0, 0.25);
    assert_eq!(blurred_distance_2(p, p, F(-3.0)).0, 9.0);
}

#[test]
fn closer_speaker_has_greater_gain() {
    let gains = all_gains(&[spk(1.5, 1.0), spk(2.5, 1.0)], 6.0);
    assert!(gains[0] > gains[1]);
    let gains = all_gains(&[spk(9.0, 2.0), spk(3.0, 2.0)], 4.0);
    assert!(gains[1] > gains[0]);
}

#[test]
fn doubling_distance_keeps_k_well_defined() {
    let a = a_coefficient(F(6.0));
    let before = k_coefficient(a, &[spk(2.0, 1.0), spk(3.0, 1.0)]).0;
    let after = k_coefficient(a, &[spk(4.0, 1.0), spk(3.0, 1.0)]).0;
    assert!(before.is_finite() && after.is_finite());
    assert!(before > 0.0 && after > 0.0);
}
