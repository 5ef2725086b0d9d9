//! Distance-Based Amplitude Panning (Trond Lossius, 2009): the gain of each loudspeaker
//! for a virtual source, from the speakers' distances to it, their weights and a rolloff.

mod gains;
mod laws;
mod scalar;

pub use gains::{
    a_coefficient, a_coefficient_spec, blurred_distance_2, blurred_distance_2_spec, contribution,
    contribution_sum, gain_spec, k_coefficient, k_coefficient_spec, relative_amplitude_spec,
    v_speaker_relative_amplitude, GainsError, Speaker, SpeakerGains,
};
pub use laws::{
    adds_nothing, lemma_blurred_distance_2_same_point, lemma_blurred_distance_2_same_point_blur,
    lemma_k_zero_when_nothing_contributes,
};
pub use scalar::Scalar;
