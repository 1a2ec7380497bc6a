//! Finding the spectrum bins around a harmonic, and the harmonic gain vector.
//!
//! A bin frequency comes in as a key: an unsigned number that is ordered like
//! the frequency it stands for.

use vstd::prelude::*;

verus! {

/// The number of harmonics whose gain is measured.
pub const HARMONICS: usize = 20;

/// The two neighbouring bins between which a target frequency lies: the first
/// bin at or above the target, and the bin before it if there is one.
#[derive(Debug, Clone, Copy, PartialEq, Eq, Structural)]
pub struct Bracket {
    pub lower: Option<usize>,
    pub upper: usize,
}

/// `upper` is the first position in `bins` whose key is at least `target`.
pub open spec fn is_first_at_or_above(bins: Seq<u64>, target: u64, upper: int) -> bool {
    &&& 0 <= upper < bins.len()
    &&& bins[upper] >= target
    &&& forall|j: int| 0 <= j < upper ==> bins[j] < target
}

/// Every key in `bins` is below `target`.
pub open spec fn all_below(bins: Seq<u64>, target: u64) -> bool {
    forall|j: int| 0 <= j < bins.len() ==> bins[j] < target
}

/// Brackets `target` among `bins`, scanning from the lowest bin up. A target
/// above every bin has no bracket; a target at or below the first bin has no
/// lower neighbour.
pub fn bracket(bins: &Vec<u64>, target: u64) -> (found: Option<Bracket>)
    ensures
        match found {
            Some(b) => {
                &&& is_first_at_or_above(bins@, target, b.upper as int)
                &&& b.lower == if b.upper == 0 {
                    None
                } else {
                    Some((b.upper - 1) as usize)
                }
            },
            None => all_below(bins@, target),
        },
{
    let mut i: usize = 0;
    while i < bins.len()
        invariant
            i <= bins.len(),
            forall|j: int| 0 <= j < i ==> bins[j] < target,
        decreases bins.len() - i,
    {
        if bins[i] >= target {
            let lower = if i == 0 {
                None
            } else {
                Some(i - 1)
            };
            return Some(Bracket { lower, upper: i });
        }
        i += 1;
    }
    None
}

/// The gain in slot `i` of a gain vector: what was measured there, and
/// `silence` where nothing was measured or the cycle is unvoiced.
pub open spec fn gain_in_slot<G>(measured: Option<&Vec<Option<G>>>, silence: G, i: int) -> G {
    match measured {
        Some(m) => match m@[i] {
            Some(gain) => gain,
            None => silence,
        },
        None => silence,
    }
}

/// The gain vector of one cycle, with a slot for each harmonic. A voiced
/// cycle comes with what was measured at each harmonic, which is nothing for
/// a harmonic above the last bin of the spectrum; that slot gets `silence`.
/// An unvoiced cycle gets `silence` in every slot.
pub fn harmonic_gains<G: Copy>(measured: Option<&Vec<Option<G>>>, silence: G) -> (gains: Vec<G>)
    requires
        measured matches Some(m) ==> m.len() == HARMONICS,
    ensures
        gains@ == Seq::new(HARMONICS as nat, |i: int| gain_in_slot(measured, silence, i)),
{
    let mut gains: Vec<G> = Vec::new();
    let mut i: usize = 0;
    while i < HARMONICS
        invariant
            i <= HARMONICS,
            measured matches Some(m) ==> m.len() == HARMONICS,
            gains@ == Seq::new(i as nat, |j: int| gain_in_slot(measured, silence, j)),
        decreases HARMONICS - i,
    {
        let gain = match measured {
            Some(m) => match m[i] {
                Some(gain) => gain,
                None => silence,
            },
            None => silence,
        };
        gains.push(gain);
        i += 1;
        assert(gains@ =~= Seq::new(i as nat, |j: int| gain_in_slot(measured, silence, j)));
    }
    gains
}

} // verus!
