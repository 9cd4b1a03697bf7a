//! A symmetric wire form for the parameters record.
//!
//! A record is encoded as exactly thirty 64-bit words, in field order: two
//! words per scalar (the numerator biased into an unsigned word, then the
//! denominator), one word per iteration count, and one word per flag (`1` for
//! `true`, `0` for `false`). Decoding validates the shape and the record's
//! invariant, and restores every well-formed record exactly
//! (see [`lemma_decode_encode`]).

use vstd::prelude::*;

use crate::params::IntegrationParameters;
use crate::scalar::Real;

verus! {

/// The bias that shifts a signed 64-bit numerator onto an unsigned word.
pub const NUM_BIAS: i128 = 0x8000_0000_0000_0000;

/// The number of words in the wire form of one record.
pub const WIRE_LEN: usize = 30;

/// The unsigned word that encodes a signed numerator.
pub open spec fn word_of_num(n: i64) -> u64 {
    (n + NUM_BIAS) as u64
}

/// The signed numerator that an unsigned word encodes.
pub open spec fn num_of_word(w: u64) -> i64 {
    (w - NUM_BIAS) as i64
}

/// Encoding a numerator and decoding the word restores the numerator.
pub proof fn lemma_num_word_roundtrip(n: i64)
    ensures
        num_of_word(word_of_num(n)) == n,
{
}

/// The scalar carried at word positions `i` and `i + 1`.
pub open spec fn scalar_at(w: Seq<u64>, i: int) -> Real {
    Real { num: num_of_word(w[i]), den: w[i + 1] }
}

/// The record that a thirty-word wire form carries, read field by field.
pub open spec fn record_of(w: Seq<u64>) -> IntegrationParameters {
    IntegrationParameters {
        dt: scalar_at(w, 0),
        return_after_ccd_substep: w[2] == 1,
        erp: scalar_at(w, 3),
        joint_erp: scalar_at(w, 5),
        warmstart_coeff: scalar_at(w, 7),
        restitution_velocity_threshold: scalar_at(w, 9),
        allowed_linear_error: scalar_at(w, 11),
        prediction_distance: scalar_at(w, 13),
        allowed_angular_error: scalar_at(w, 15),
        max_linear_correction: scalar_at(w, 17),
        max_angular_correction: scalar_at(w, 19),
        max_stabilization_multiplier: scalar_at(w, 21),
        max_velocity_iterations: w[23] as usize,
        max_position_iterations: w[24] as usize,
        min_island_size: w[25] as usize,
        max_ccd_position_iterations: w[26] as usize,
        max_ccd_substeps: w[27] as usize,
        multiple_ccd_substep_sensor_events_enabled: w[28] == 1,
        ccd_on_penetration_enabled: w[29] == 1,
    }
}

/// The wire form is acceptable: thirty words, a well-formed record, flag words
/// that are exactly zero or one, and counts that fit the host's `usize`.
pub open spec fn wire_ok(w: Seq<u64>) -> bool {
    &&& w.len() == WIRE_LEN
    &&& record_of(w).wf()
    &&& w[2] <= 1
    &&& w[28] <= 1
    &&& w[29] <= 1
    &&& w[23] <= usize::MAX
    &&& w[24] <= usize::MAX
    &&& w[25] <= usize::MAX
    &&& w[26] <= usize::MAX
    &&& w[27] <= usize::MAX
}

/// What decoding a wire form yields: the record it carries, or nothing when
/// the form is not acceptable.
pub open spec fn decode_spec(w: Seq<u64>) -> Option<IntegrationParameters> {
    if wire_ok(w) {
        Some(record_of(w))
    } else {
        None
    }
}

/// The exact wire form of a record.
pub open spec fn words_of(p: IntegrationParameters) -> Seq<u64> {
    seq![
        word_of_num(p.dt.num),
        p.dt.den,
        if p.return_after_ccd_substep { 1u64 } else { 0u64 },
        word_of_num(p.erp.num),
        p.erp.den,
        word_of_num(p.joint_erp.num),
        p.joint_erp.den,
        word_of_num(p.warmstart_coeff.num),
        p.warmstart_coeff.den,
        word_of_num(p.restitution_velocity_threshold.num),
        p.restitution_velocity_threshold.den,
        word_of_num(p.allowed_linear_error.num),
        p.allowed_linear_error.den,
        word_of_num(p.prediction_distance.num),
        p.prediction_distance.den,
        word_of_num(p.allowed_angular_error.num),
        p.allowed_angular_error.den,
        word_of_num(p.max_linear_correction.num),
        p.max_linear_correction.den,
        word_of_num(p.max_angular_correction.num),
        p.max_angular_correction.den,
        word_of_num(p.max_stabilization_multiplier.num),
        p.max_stabilization_multiplier.den,
        p.max_velocity_iterations as u64,
        p.max_position_iterations as u64,
        p.min_island_size as u64,
        p.max_ccd_position_iterations as u64,
        p.max_ccd_substeps as u64,
        if p.multiple_ccd_substep_sensor_events_enabled { 1u64 } else { 0u64 },
        if p.ccd_on_penetration_enabled { 1u64 } else { 0u64 },
    ]
}

/// Encodes one numerator into its unsigned word.
fn encode_num(n: i64) -> (w: u64)
    ensures
        w == word_of_num(n),
{
    ((n as i128) + NUM_BIAS) as u64
}

/// Decodes one unsigned word back into a numerator.
fn decode_num(w: u64) -> (n: i64)
    ensures
        n == num_of_word(w),
{
    ((w as i128) - NUM_BIAS) as i64
}

/// Encodes a record into its thirty-word wire form.
pub fn encode(p: &IntegrationParameters) -> (words: Vec<u64>)
    ensures
        words@ == words_of(*p),
{
    let mut w: Vec<u64> = Vec::new();
    w.push(encode_num(p.dt.num));
    w.push(p.dt.den);
    w.push(if p.return_after_ccd_substep { 1u64 } else { 0u64 });
    w.push(encode_num(p.erp.num));
    w.push(p.erp.den);
    w.push(encode_num(p.joint_erp.num));
    w.push(p.joint_erp.den);
    w.push(encode_num(p.warmstart_coeff.num));
    w.push(p.warmstart_coeff.den);
    w.push(encode_num(p.restitution_velocity_threshold.num));
    w.push(p.restitution_velocity_threshold.den);
    w.push(encode_num(p.allowed_linear_error.num));
    w.push(p.allowed_linear_error.den);
    w.push(encode_num(p.prediction_distance.num));
    w.push(p.prediction_distance.den);
    w.push(encode_num(p.allowed_angular_error.num));
    w.push(p.allowed_angular_error.den);
    w.push(encode_num(p.max_linear_correction.num));
    w.push(p.max_linear_correction.den);
    w.push(encode_num(p.max_angular_correction.num));
    w.push(p.max_angular_correction.den);
    w.push(encode_num(p.max_stabilization_multiplier.num));
    w.push(p.max_stabilization_multiplier.den);
    w.push(p.max_velocity_iterations as u64);
    w.push(p.max_position_iterations as u64);
    w.push(p.min_island_size as u64);
    w.push(p.max_ccd_position_iterations as u64);
    w.push(p.max_ccd_substeps as u64);
    w.push(if p.multiple_ccd_substep_sensor_events_enabled { 1u64 } else { 0u64 });
    w.push(if p.ccd_on_penetration_enabled { 1u64 } else { 0u64 });
    proof {
        assert(w@ =~= words_of(*p));
    }
    w
}

/// Reads the scalar at word positions `i` and `i + 1`.
fn read_scalar(words: &Vec<u64>, i: usize) -> (r: Real)
    requires
        i + 1 < words@.len(),
    ensures
        r == scalar_at(words@, i as int),
{
    let _len = words.len();
    Real { num: decode_num(words[i]), den: words[i + 1] }
}

/// Decodes a wire form back into a record.
///
/// Returns the record exactly when the input is thirty words long, every flag
/// word is zero or one, every count fits the host's `usize`, and the carried
/// record satisfies the invariant; otherwise returns nothing.
pub fn decode(words: &Vec<u64>) -> (r: Option<IntegrationParameters>)
    ensures
        r == decode_spec(words@),
{
    if words.len() != WIRE_LEN {
        return None;
    }
    let p = IntegrationParameters {
        dt: read_scalar(words, 0),
        return_after_ccd_substep: words[2] == 1,
        erp: read_scalar(words, 3),
        joint_erp: read_scalar(words, 5),
        warmstart_coeff: read_scalar(words, 7),
        restitution_velocity_threshold: read_scalar(words, 9),
        allowed_linear_error: read_scalar(words, 11),
        prediction_distance: read_scalar(words, 13),
        allowed_angular_error: read_scalar(words, 15),
        max_linear_correction: read_scalar(words, 17),
        max_angular_correction: read_scalar(words, 19),
        max_stabilization_multiplier: read_scalar(words, 21),
        max_velocity_iterations: words[23] as usize,
        max_position_iterations: words[24] as usize,
        min_island_size: words[25] as usize,
        max_ccd_position_iterations: words[26] as usize,
        max_ccd_substeps: words[27] as usize,
        multiple_ccd_substep_sensor_events_enabled: words[28] == 1,
        ccd_on_penetration_enabled: words[29] == 1,
    };
    if !p.check_wf() {
        return None;
    }
    if words[2] > 1 || words[28] > 1 || words[29] > 1 {
        return None;
    }
    if words[23] > usize::MAX as u64 || words[24] > usize::MAX as u64
        || words[25] > usize::MAX as u64 || words[26] > usize::MAX as u64
        || words[27] > usize::MAX as u64 {
        return None;
    }
    Some(p)
}

/// Law: decoding the wire form of any well-formed record restores the record
/// exactly, field for field.
pub proof fn lemma_decode_encode(p: IntegrationParameters)
    requires
        p.wf(),
    ensures
        decode_spec(words_of(p)) == Some(p),
{
    lemma_num_word_roundtrip(p.dt.num);
    lemma_num_word_roundtrip(p.erp.num);
    lemma_num_word_roundtrip(p.joint_erp.num);
    lemma_num_word_roundtrip(p.warmstart_coeff.num);
    lemma_num_word_roundtrip(p.restitution_velocity_threshold.num);
    lemma_num_word_roundtrip(p.allowed_linear_error.num);
    lemma_num_word_roundtrip(p.prediction_distance.num);
    lemma_num_word_roundtrip(p.allowed_angular_error.num);
    lemma_num_word_roundtrip(p.max_linear_correction.num);
    lemma_num_word_roundtrip(p.max_angular_correction.num);
    lemma_num_word_roundtrip(p.max_stabilization_multiplier.num);
    assert(record_of(words_of(p)) == p);
    assert(wire_ok(words_of(p)));
}

} // verus!
