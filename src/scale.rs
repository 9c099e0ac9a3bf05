use vstd::prelude::*;

verus! {

/// A positive-denominator ratio `num / den` applied to both axes of an image.
#[derive(Clone, Copy, Debug, PartialEq, Eq, Structural)]
pub struct Scale {
    pub num: u32,
    pub den: u32,
}

impl Scale {
    /// A scale is usable when its denominator is nonzero.
    pub open spec fn wf(self) -> bool {
        self.den > 0
    }

    /// Builds the ratio `num / den`; `None` when `den` is zero.
    pub fn new(num: u32, den: u32) -> (r: Option<Scale>)
        ensures
            den == 0 <==> r is None,
            r matches Some(s) ==> s.num == num && s.den == den && s.wf(),
    {
        if den == 0 {
            None
        } else {
            Some(Scale { num, den })
        }
    }

    /// The identity scale `1 / 1`.
    pub fn unit() -> (r: Scale)
        ensures
            r.num == 1 && r.den == 1,
    {
        Scale { num: 1, den: 1 }
    }
}

/// `floor(n * num / den)`: the length `n` takes on after scaling by `s`.
pub open spec fn scaled_len(n: nat, s: Scale) -> nat
    recommends
        s.wf(),
{
    (n * (s.num as nat)) / (s.den as nat)
}

/// The scaled length of `n`, or `None` when it does not fit in a `u32`.
pub fn scaled_dimension(n: u32, s: Scale) -> (r: Option<u32>)
    requires
        s.wf(),
    ensures
        r is Some <==> scaled_len(n as nat, s) <= u32::MAX,
        r matches Some(v) ==> v == scaled_len(n as nat, s),
{
    let v: u64 = scaled_product(n, s);
    if v <= u32::MAX as u64 {
        Some(v as u32)
    } else {
        None
    }
}

/// The scaled length of `n` as a `u64`; it always fits there.
pub fn scaled_product(n: u32, s: Scale) -> (r: u64)
    requires
        s.wf(),
    ensures
        r == scaled_len(n as nat, s),
{
    proof {
        lemma_product_fits(n, s.num);
    }
    let p: u64 = (n as u64) * (s.num as u64);
    p / (s.den as u64)
}

proof fn lemma_product_fits(a: u32, b: u32)
    ensures
        (a as nat) * (b as nat) <= u64::MAX,
{
    assert((a as nat) * (b as nat) <= (u32::MAX as nat) * (u32::MAX as nat)) by (nonlinear_arith)
        requires
            a <= u32::MAX,
            b <= u32::MAX,
    ;
}

/// Scaling by a ratio equal to one leaves every length as it is.
pub proof fn lemma_unit_scale_keeps_length(n: nat, s: Scale)
    requires
        s.wf(),
        s.num == s.den,
    ensures
        scaled_len(n, s) == n,
{
    let d = s.den as nat;
    assert(n * d / d == n) by (nonlinear_arith)
        requires
            d > 0,
    ;
}

/// Scaling by zero sends every length to zero.
pub proof fn lemma_zero_scale_vanishes(n: nat, s: Scale)
    requires
        s.wf(),
        s.num == 0,
    ensures
        scaled_len(n, s) == 0,
{
}

/// A scaled length is zero exactly when `n * num` is below `den`.
pub proof fn lemma_scaled_len_zero_iff(n: nat, s: Scale)
    requires
        s.wf(),
    ensures
        scaled_len(n, s) == 0 <==> n * s.num < s.den,
{
    let p = n * (s.num as nat);
    let d = s.den as nat;
    assert(p / d == 0 <==> p < d) by (nonlinear_arith)
        requires
            d > 0,
    ;
}

} // verus!
