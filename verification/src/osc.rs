//! The outbound parameter encoding: 14-bit quantities split into two 7-bit
//! halves, and the named parameters of one analysis cycle.

use crate::utils::{append_decimal, decimal};
use vstd::prelude::*;
use vstd::string::*;

verus! {

/// Full scale of a quantized parameter: the largest 14-bit value.
pub const SCALE_MAX: u32 = 0x3FFF;

/// Full scale of one half of a quantized parameter: the largest 7-bit value.
pub const HALF_MAX: u8 = 0x7F;

/// The number of formants that have a place in a bundle.
pub const FORMANT_SLOTS: usize = 4;

/// The highest formant frequency, in hertz, that is sent as it is; a higher
/// one is sent as this frequency.
pub const FORMANT_CEILING_HZ: u32 = 8192;

/// The MIDI note at which the normalized pitch is zero: E2.
pub const LOWEST_NOTE: u8 = 40;

/// The MIDI note at which the normalized pitch is one: G5.
pub const HIGHEST_NOTE: u8 = 79;

/// The low seven bits of `q`.
pub open spec fn low_half(q: int) -> int {
    q % 128
}

/// Bits 7 to 13 of `q`.
pub open spec fn high_half(q: int) -> int {
    (q / 128) % 128
}

/// The quantity whose halves are `low` and `high`.
pub open spec fn joined(low: int, high: int) -> int {
    low + 128 * high
}

/// Splits a quantized value into its low and high 7-bit halves. Bits above the
/// fourteenth are dropped.
pub fn split_halves(q: u32) -> (halves: (u8, u8))
    ensures
        halves.0 == low_half(q as int),
        halves.1 == high_half(q as int),
        halves.0 <= HALF_MAX,
        halves.1 <= HALF_MAX,
{
    let low: u32 = q & 0x7F;
    let high: u32 = (q >> 7) & 0x7F;
    assert(low == q % 128 && low < 128) by (bit_vector)
        requires
            low == q & 0x7F,
    ;
    assert(high == (q / 128) % 128 && high < 128) by (bit_vector)
        requires
            high == (q >> 7) & 0x7F,
    ;
    (low as u8, high as u8)
}

/// Puts two halves back together.
pub fn join_halves(low: u8, high: u8) -> (q: u32)
    ensures
        q == joined(low as int, high as int),
{
    low as u32 + 128 * (high as u32)
}

/// The ratio `numerator / denominator` on the 14-bit scale: the whole part of
/// the ratio times full scale.
pub open spec fn quantized(numerator: nat, denominator: nat) -> int {
    (SCALE_MAX * numerator) / denominator as int
}

/// Quantizes a ratio between zero and one to 14 bits, rounding down.
pub fn quantize(numerator: u32, denominator: u32) -> (q: u32)
    requires
        0 < denominator,
        numerator <= denominator,
    ensures
        q == quantized(numerator as nat, denominator as nat),
        q <= SCALE_MAX,
{
    assert(SCALE_MAX * numerator <= 0x3FFF * 0xFFFF_FFFF) by (nonlinear_arith)
        requires
            numerator <= 0xFFFF_FFFF,
    ;
    let scaled: u64 = (SCALE_MAX as u64) * (numerator as u64);
    let q: u64 = scaled / (denominator as u64);
    assert(q <= SCALE_MAX) by (nonlinear_arith)
        requires
            q == (SCALE_MAX * numerator) / denominator as int,
            0 < denominator,
            numerator <= denominator,
    ;
    q as u32
}

/// Splitting a quantized value and joining the halves gives back its low 14
/// bits, so a value on the 14-bit scale comes back as it was.
pub proof fn split_then_join(q: u32)
    ensures
        joined(low_half(q as int), high_half(q as int)) == q % 0x4000,
        q <= SCALE_MAX ==> joined(low_half(q as int), high_half(q as int)) == q,
{
}

/// A ratio `x` between zero and one that is quantized, split into halves and
/// put together again comes back less than one step of the 14-bit scale
/// below `x`, and never above it.
pub proof fn quantization_round_trip(numerator: nat, denominator: nat)
    requires
        0 < denominator,
        numerator <= denominator,
    ensures
        ({
            let q = quantized(numerator, denominator);
            let back = joined(low_half(q), high_half(q));
            &&& 0 <= q <= SCALE_MAX
            &&& back == q
            &&& back * denominator <= SCALE_MAX * numerator < (back + 1) * denominator
        }),
{
    let q = quantized(numerator, denominator);
    assert(0 <= q <= SCALE_MAX && q * denominator <= SCALE_MAX * numerator < (q + 1) * denominator)
        by (nonlinear_arith)
        requires
            q == (SCALE_MAX * numerator) / denominator as int,
            0 < denominator,
            numerator <= denominator,
    ;
}

/// Quantizes a formant frequency given in whole hertz.
pub fn quantize_formant(hz: u32) -> (q: u32)
    ensures
        q == formant_quantity(hz),
        q == quantized(formant_quantity(hz) as nat, SCALE_MAX as nat),
        q <= FORMANT_CEILING_HZ,
{
    if hz > FORMANT_CEILING_HZ {
        FORMANT_CEILING_HZ
    } else {
        hz
    }
}

/// The value of one outbound parameter: a harmonic gain passed through as it
/// was measured, or one 7-bit half of a quantized value.
#[derive(Debug, Clone, Copy, PartialEq)]
pub enum Level<G> {
    Gain(G),
    Half(u8),
}

/// One named outbound parameter.
#[derive(Debug, Clone, PartialEq)]
pub struct Parameter<G> {
    pub address: String,
    pub level: Level<G>,
}

impl<G> View for Parameter<G> {
    type V = (Seq<char>, Level<G>);

    open spec fn view(&self) -> (Seq<char>, Level<G>) {
        (self.address@, self.level)
    }
}

/// The parameters of a bundle as plain values.
pub open spec fn views<G>(parameters: Seq<Parameter<G>>) -> Seq<(Seq<char>, Level<G>)> {
    parameters.map_values(|p: Parameter<G>| p@)
}

/// The ending that tells the two halves of a split parameter apart.
pub open spec fn half_suffix(high: bool) -> Seq<char> {
    if high {
        "_H"@
    } else {
        "_L"@
    }
}

/// The address of the gain of harmonic `k`, counted from one.
pub open spec fn gain_address(k: nat) -> Seq<char> {
    "/avatar/parameters/G"@ + decimal(k)
}

/// The address of one half of the pitch.
pub open spec fn pitch_address(high: bool) -> Seq<char> {
    "/avatar/parameters/FT"@ + half_suffix(high)
}

/// The address of one half of formant `k`, counted from one.
pub open spec fn formant_address(k: nat, high: bool) -> Seq<char> {
    "/avatar/parameters/F"@ + decimal(k) + half_suffix(high)
}

/// One half of a quantized value as a parameter level.
pub open spec fn half_level<G>(q: u32, high: bool) -> Level<G> {
    if high {
        Level::Half(high_half(q as int) as u8)
    } else {
        Level::Half(low_half(q as int) as u8)
    }
}

/// The quantized pitch that is sent: that of a voiced cycle, and zero for an
/// unvoiced one.
pub open spec fn pitch_sent(pitch: Option<u32>) -> u32 {
    match pitch {
        Some(q) => q,
        None => 0,
    }
}

/// A formant frequency in whole hertz on the 14-bit scale: the frequency,
/// held to the ceiling, over a full scale of `SCALE_MAX` hertz.
pub open spec fn formant_quantity(hz: u32) -> u32 {
    if hz > FORMANT_CEILING_HZ {
        FORMANT_CEILING_HZ
    } else {
        hz
    }
}

/// The formants that are sent: the first `FORMANT_SLOTS` of them.
pub open spec fn formants_sent(formants: Seq<u32>) -> Seq<u32> {
    if formants.len() <= FORMANT_SLOTS {
        formants
    } else {
        formants.take(FORMANT_SLOTS as int)
    }
}

/// The bundle of one cycle: the gains in order, then the low and the high
/// half of the pitch, then the low and the high half of each formant that is
/// sent, in order.
pub open spec fn bundle<G>(pitch: Option<u32>, gains: Seq<G>, formants: Seq<u32>) -> Seq<
    (Seq<char>, Level<G>),
> {
    let sent = formants_sent(formants);
    Seq::new(gains.len(), |i: int| (gain_address((i + 1) as nat), Level::Gain(gains[i]))) + seq![
        (pitch_address(false), half_level(pitch_sent(pitch), false)),
        (pitch_address(true), half_level(pitch_sent(pitch), true)),
    ] + Seq::new(
        2 * sent.len(),
        |j: int|
            (
                formant_address((j / 2 + 1) as nat, j % 2 == 1),
                half_level(formant_quantity(sent[j / 2]), j % 2 == 1),
            ),
    )
}

/// The ending of the low or the high half.
fn suffix_text(high: bool) -> (text: &'static str)
    ensures
        text@ == half_suffix(high),
{
    if high {
        "_H"
    } else {
        "_L"
    }
}

/// A parameter that carries one half of `q`.
fn half_parameter<G>(address: String, q: u32, high: bool) -> (parameter: Parameter<G>)
    ensures
        parameter@ == (address@, half_level::<G>(q, high)),
{
    let halves = split_halves(q);
    let half = if high {
        halves.1
    } else {
        halves.0
    };
    Parameter { address, level: Level::Half(half) }
}

/// Names the parameters of one cycle: a gain for each harmonic, the two
/// halves of the quantized pitch, and the two halves of each of the first
/// `FORMANT_SLOTS` formants, which come in whole hertz and are quantized
/// here. An unvoiced cycle sends zero for both halves of the pitch.
pub fn parameter_bundle<G: Copy>(pitch: Option<u32>, gains: &Vec<G>, formants: &Vec<u32>) -> (parameters:
    Vec<Parameter<G>>)
    ensures
        views(parameters@) == bundle(pitch, gains@, formants@),
        parameters.len() == gains.len() + 2 + 2 * formants_sent(formants@).len(),
{
    let mut parameters: Vec<Parameter<G>> = Vec::new();
    let ghost wanted = bundle(pitch, gains@, formants@);
    let mut i: usize = 0;
    while i < gains.len()
        invariant
            i <= gains.len(),
            wanted == bundle(pitch, gains@, formants@),
            views(parameters@) == wanted.take(i as int),
        decreases gains.len() - i,
    {
        let mut address = String::from_str("/avatar/parameters/G");
        append_decimal(&mut address, i + 1);
        let ghost before = parameters@;
        let parameter = Parameter { address, level: Level::Gain(gains[i]) };
        assert(parameter@ == wanted[i as int]);
        parameters.push(parameter);
        i += 1;
        assert(views(parameters@) =~= views(before).push(parameter@));
        assert(views(parameters@) =~= wanted.take(i as int));
    }
    let q = match pitch {
        Some(q) => q,
        None => 0,
    };
    let mut low = String::from_str("/avatar/parameters/FT");
    low.append(suffix_text(false));
    parameters.push(half_parameter(low, q, false));
    let mut high = String::from_str("/avatar/parameters/FT");
    high.append(suffix_text(true));
    parameters.push(half_parameter(high, q, true));
    assert(views(parameters@) =~= wanted.take(gains.len() + 2));
    let slots = if formants.len() <= FORMANT_SLOTS {
        formants.len()
    } else {
        FORMANT_SLOTS
    };
    let ghost sent = formants_sent(formants@);
    let mut k: usize = 0;
    while k < slots
        invariant
            k <= slots,
            slots == sent.len(),
            slots <= formants.len(),
            sent == formants_sent(formants@),
            wanted == bundle(pitch, gains@, formants@),
            parameters.len() == gains.len() + 2 + 2 * k,
            views(parameters@) == wanted.take(gains.len() + 2 + 2 * k),
        decreases slots - k,
    {
        let ghost before = parameters@;
        let ghost at = gains.len() + 2 + 2 * k;
        let mut low = String::from_str("/avatar/parameters/F");
        append_decimal(&mut low, k + 1);
        low.append(suffix_text(false));
        let q = quantize_formant(formants[k]);
        let low = half_parameter(low, q, false);
        let mut high = String::from_str("/avatar/parameters/F");
        append_decimal(&mut high, k + 1);
        high.append(suffix_text(true));
        let high = half_parameter(high, q, true);
        proof {
            assert((2 * k) / 2 == k && (2 * k) % 2 == 0);
            assert((2 * k + 1) / 2 == k && (2 * k + 1) % 2 == 1);
            assert(sent[k as int] == formants[k as int]);
            assert(wanted[at] == low@);
            assert(wanted[at + 1] == high@);
        }
        parameters.push(low);
        parameters.push(high);
        k += 1;
        assert(views(parameters@) =~= views(before).push(low@).push(high@));
        assert(views(parameters@) =~= wanted.take(gains.len() + 2 + 2 * k));
    }
    assert(wanted.take(gains.len() + 2 + 2 * k) =~= wanted);
    parameters
}

} // verus!
