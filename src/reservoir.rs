//! Weighted reservoir sampling: one representative illumination sample per
//! pixel, merged over time and over screen-space neighbours. Weights are
//! fixed-point integers.
use vstd::prelude::*;
use vstd::set_lib::{lemma_int_range, set_int_range};

verus! {

/// Scale of a Jacobian factor: `JACOBIAN_ONE` stands for 1.
pub const JACOBIAN_ONE: u32 = 65536;

/// The sample-reuse unit: the chosen sample, the running weight sum, how
/// many candidates were streamed through it, and the contribution weight,
/// which is only meaningful after `resolve`.
#[derive(Clone, Copy, Debug, PartialEq, Eq, Structural)]
pub struct Reservoir {
    pub sample: u32,
    pub w_sum: u64,
    pub m: u32,
    pub w: u64,
}

/// `a + b`, but never more than `cap`.
pub open spec fn capped_sum(a: u32, b: u32, cap: u32) -> u32 {
    if a + b > cap {
        cap
    } else {
        (a + b) as u32
    }
}

/// Whether a merge keeps the incoming sample, for the random value `u`:
/// `u` reduced modulo the combined weight falls among the incoming weight.
pub open spec fn selects_incoming(w_curr: int, w_in: int, u: int) -> bool {
    w_curr + w_in > 0 && u % (w_curr + w_in) < w_in
}

/// The reservoir that streams `b` into `a` with the random value `u`.
pub open spec fn merged(a: Reservoir, b: Reservoir, u: u64, max_m: u32) -> Reservoir {
    Reservoir {
        sample: if selects_incoming(a.w_sum as int, b.w_sum as int, u as int) {
            b.sample
        } else {
            a.sample
        },
        w_sum: (a.w_sum + b.w_sum) as u64,
        m: capped_sum(a.m, b.m, max_m),
        w: a.w,
    }
}

impl Reservoir {
    /// The reservoir that has seen nothing: it resolves to no contribution.
    pub fn empty() -> (r: Reservoir)
        ensures
            r == (Reservoir { sample: 0, w_sum: 0, m: 0, w: 0 }),
    {
        Reservoir { sample: 0, w_sum: 0, m: 0, w: 0 }
    }

    /// A fresh reservoir holding one candidate `sample` of weight `weight`.
    pub fn candidate(sample: u32, weight: u64) -> (r: Reservoir)
        ensures
            r == (Reservoir { sample, w_sum: weight, m: 1, w: 0 }),
    {
        Reservoir { sample, w_sum: weight, m: 1, w: 0 }
    }

    /// Streams `other` into this reservoir: the weights add up, `m` adds up
    /// but stops at `max_m`, and the incoming sample is kept when
    /// `selects_incoming` holds for `u`. Returns whether it was kept.
    pub fn merge(&mut self, other: &Reservoir, u: u64, max_m: u32) -> (r: bool)
        requires
            old(self).w_sum + other.w_sum <= u64::MAX,
        ensures
            r == selects_incoming(old(self).w_sum as int, other.w_sum as int, u as int),
            *final(self) == merged(*old(self), *other, u, max_m),
    {
        let total = self.w_sum + other.w_sum;
        let take = total > 0 && u % total < other.w_sum;
        if take {
            self.sample = other.sample;
        }
        self.w_sum = total;
        let m = self.m as u64 + other.m as u64;
        self.m = if m > max_m as u64 {
            max_m
        } else {
            m as u32
        };
        take
    }

    /// Computes the contribution weight `w_sum / (target_pdf * m)`, rounded
    /// down, or zero when that denominator is zero.
    pub fn resolve(&mut self, target_pdf: u64)
        ensures
            final(self).w == contribution_weight(old(self).w_sum, target_pdf, old(self).m),
            final(self).sample == old(self).sample,
            final(self).w_sum == old(self).w_sum,
            final(self).m == old(self).m,
    {
        proof {
            assert(target_pdf * self.m <= u64::MAX * u32::MAX) by (nonlinear_arith);
        }
        let den = target_pdf as u128 * self.m as u128;
        if den == 0 {
            self.w = 0;
        } else {
            proof {
                assert(self.w_sum as u128 / den <= self.w_sum) by (nonlinear_arith)
                    requires
                        den >= 1,
                ;
            }
            self.w = (self.w_sum as u128 / den) as u64;
        }
    }
}

impl Reservoir {
    /// The radiance this reservoir adds to its pixel: the chosen sample's
    /// shaded contribution `radiance` scaled by the contribution weight.
    pub fn resolved_radiance(&self, radiance: u64) -> (r: u128)
        ensures
            r == radiance * self.w,
    {
        proof {
            assert(radiance * self.w <= u64::MAX * u64::MAX) by (nonlinear_arith)
                requires
                    radiance <= u64::MAX,
                    self.w <= u64::MAX,
            ;
        }
        radiance as u128 * self.w as u128
    }
}

/// `w_sum / (target_pdf * m)`, or zero when the denominator is zero.
pub open spec fn contribution_weight(w_sum: u64, target_pdf: u64, m: u32) -> u64 {
    if target_pdf * m == 0 {
        0
    } else {
        (w_sum as int / (target_pdf * m)) as u64
    }
}

/// For a random value drawn uniformly below the combined weight, exactly
/// `w_in` of the `w_curr + w_in` equally likely values keep the incoming
/// sample and the other `w_curr` keep the current one: each sample is
/// chosen in proportion to its weight.
pub proof fn lemma_selection_in_proportion_to_weight(w_curr: u64, w_in: u64)
    requires
        w_curr + w_in > 0,
    ensures
        Set::new(|u: int| 0 <= u < w_curr + w_in && selects_incoming(w_curr as int, w_in as int, u)).finite(),
        Set::new(|u: int| 0 <= u < w_curr + w_in && selects_incoming(w_curr as int, w_in as int, u)).len() == w_in,
        Set::new(|u: int| 0 <= u < w_curr + w_in && !selects_incoming(w_curr as int, w_in as int, u)).finite(),
        Set::new(|u: int| 0 <= u < w_curr + w_in && !selects_incoming(w_curr as int, w_in as int, u)).len() == w_curr,
{
    let total = w_curr + w_in;
    let kept = Set::new(|u: int| 0 <= u < total && selects_incoming(w_curr as int, w_in as int, u));
    let left = Set::new(|u: int| 0 <= u < total && !selects_incoming(w_curr as int, w_in as int, u));
    assert forall|u: int| 0 <= u < total implies #[trigger] (u % total) == u by {
        vstd::arithmetic::div_mod::lemma_small_mod(u as nat, total as nat);
    }
    assert(kept =~= set_int_range(0, w_in as int));
    assert(left =~= set_int_range(w_in as int, total));
    lemma_int_range(0, w_in as int);
    lemma_int_range(w_in as int, total);
}

} // verus!
