//! The number theory that glucose computes, and what this library knows of it.

use glucose::group_theory::primes;
use vstd::arithmetic::power::{lemma_pow_increases, pow};
use vstd::prelude::*;

verus! {

/// The largest modulus whose square still fits in an `i64`; glucose's group
/// routines multiply two residues before reducing them.
pub const MAX_MODULUS: i64 = 3037000499;

/// The three ways of making a group out of the residues modulo `m`.
#[derive(Clone, Copy, Debug, PartialEq, Eq, Structural)]
pub enum GroupType {
    Additive,
    Multiplicative,
    MultiplicativeStar,
}

/// No integer above 1 divides both `a` and `b`.
pub open spec fn coprime(a: int, b: int) -> bool {
    forall|d: int| 1 < d ==> !(#[trigger] (a % d) == 0 && b % d == 0)
}

/// The residues `1..m` that are coprime to `m`, in increasing order.
pub open spec fn units_below(m: int) -> Seq<i64> {
    Seq::new((m - 1) as nat, |j: int| (j + 1) as i64).filter(|e: i64| coprime(e as int, m))
}

/// The elements of the group of the given kind modulo `m`, in increasing order.
pub open spec fn group_elements(m: int, kind: GroupType) -> Seq<i64> {
    match kind {
        GroupType::MultiplicativeStar => units_below(m),
        _ => Seq::new(m as nat, |j: int| j as i64),
    }
}

/// The number of elements of that group.
pub open spec fn group_size_of(m: int, kind: GroupType) -> int {
    match kind {
        GroupType::MultiplicativeStar => units_below(m).len() as int,
        _ => m,
    }
}

/// The divisors of `n`, in increasing order.
pub open spec fn divisors(n: int) -> Seq<i64> {
    Seq::new(n as nat, |j: int| (j + 1) as i64).filter(|d: i64| n % (d as int) == 0)
}

/// A modulus that glucose's group routines handle without overflow.
pub open spec fn modulus_in_range(m: int) -> bool {
    2 <= m <= MAX_MODULUS
}

/// A bound on the exponents that glucose's quick producer test raises the
/// elements of a group of `n` elements to: `n` over one of its prime factors,
/// so at most `n / 2`, and 1 for a group of one element.
pub open spec fn largest_exponent(n: int) -> nat {
    if n < 2 {
        1
    } else {
        (n / 2) as nat
    }
}

/// glucose's producer search runs without overflow: the additive and the
/// `big` searches only multiply residues; the other raises residues to powers.
pub open spec fn producers_computable(m: int, n: int, kind: GroupType, big: bool) -> bool {
    kind == GroupType::Additive || big || pow(m - 1, largest_exponent(n)) <= i64::MAX
}

/// A group modulo `m` has as many elements as its size says, and no more than `m`.
pub proof fn lemma_group_size(m: int, kind: GroupType)
    requires
        modulus_in_range(m),
    ensures
        group_elements(m, kind).len() == group_size_of(m, kind),
        0 <= group_size_of(m, kind) <= m,
{
    broadcast use vstd::seq_lib::group_filter_ensures;

    if kind == GroupType::MultiplicativeStar {
        assert(units_below(m).len() <= m - 1);
    }
}

/// The prime factors of `n`, with multiplicity, as glucose's wheel
/// factorization lists them.
pub uninterp spec fn prime_factors_of(n: i64) -> Seq<i64>;

/// The order that glucose reports for the element `e` of the group of the
/// given kind modulo `m`.
pub uninterp spec fn element_order(m: i64, e: i64, kind: GroupType) -> i64;

/// The producers (generators) that glucose finds among `group`.
pub uninterp spec fn producers_of(m: i64, group: Seq<i64>, kind: GroupType, big: bool) -> Seq<i64>;

/// The table of glucose's extended Euclidean algorithm on `a < b`: the
/// columns a, b, k, s and t, one entry per step.
pub uninterp spec fn euclid_table(a: i64, b: i64) -> Seq<Seq<i64>>;

/// Relies on `glucose::group_theory::extended_euclidean_algorithm::extended_euclidean_as_dmatrix`
/// for the table; it asserts `a < b` and divides by `a`, and for `0 < a < b`
/// its quotients and coefficients stay within `b` in size.
#[verifier::external_body]
pub(crate) fn euclid_steps(a: i64, b: i64) -> (r: Vec<Vec<i64>>)
    requires
        0 < a < b,
    ensures
        r.deep_view() == euclid_table(a, b),
{
    glucose::group_theory::extended_euclidean_algorithm::extended_euclidean_as_dmatrix(a, b).data
}

/// Relies on `glucose::group_theory::primes::wheel_factorization` for the prime
/// factors of `n`; it squares its trial divisor, which stays in range for such `n`.
#[verifier::external_body]
pub(crate) fn factorize(n: i64) -> (r: Vec<i64>)
    requires
        0 <= n <= MAX_MODULUS,
    ensures
        r@ == prime_factors_of(n),
{
    glucose::group_theory::primes::wheel_factorization(n)
}

/// Relies on `glucose::group_theory::primes::group_size`: the modulus itself,
/// or the number of coprime residues for the units.
#[verifier::external_body]
pub(crate) fn group_size(m: i64, kind: GroupType) -> (r: i64)
    requires
        modulus_in_range(m as int),
    ensures
        r == group_size_of(m as int, kind),
{
    let kind = match kind {
        GroupType::Additive => primes::GroupType::Additive,
        GroupType::Multiplicative => primes::GroupType::Multiplicative,
        GroupType::MultiplicativeStar => primes::GroupType::MultiplicativeStar,
    };
    primes::group_size(m, kind)
}

/// Relies on `glucose::group_theory::primes::group`: the residues `0..m`, or
/// the coprime ones for the units.
#[verifier::external_body]
pub(crate) fn group(m: i64, kind: GroupType) -> (r: Vec<i64>)
    requires
        modulus_in_range(m as int),
    ensures
        r@ == group_elements(m as int, kind),
{
    let kind = match kind {
        GroupType::Additive => primes::GroupType::Additive,
        GroupType::Multiplicative => primes::GroupType::Multiplicative,
        GroupType::MultiplicativeStar => primes::GroupType::MultiplicativeStar,
    };
    primes::group(m, kind)
}

/// Relies on `glucose::group_theory::primes::possible_orders`: the divisors of
/// the group size.
#[verifier::external_body]
pub(crate) fn possible_orders(m: i64, kind: GroupType) -> (r: Vec<i64>)
    requires
        modulus_in_range(m as int),
    ensures
        r@ == divisors(group_size_of(m as int, kind)),
{
    let kind = match kind {
        GroupType::Additive => primes::GroupType::Additive,
        GroupType::Multiplicative => primes::GroupType::Multiplicative,
        GroupType::MultiplicativeStar => primes::GroupType::MultiplicativeStar,
    };
    primes::possible_orders(m, kind)
}

/// Relies on `glucose::group_theory::primes::orders`: each element of the group
/// beside its order.
/// Its loops end for the elements of such a group (for the units, because
/// they are coprime to `m`).
#[verifier::external_body]
pub(crate) fn orders(m: i64, group: &Vec<i64>, kind: GroupType) -> (r: Vec<(i64, i64)>)
    requires
        modulus_in_range(m as int),
        group@ == group_elements(m as int, kind),
    ensures
        r@.len() == group@.len(),
        forall|i: int|
            0 <= i < group@.len() ==> #[trigger] r@[i] == (group@[i], element_order(m, group@[i], kind)),
{
    let kind = match kind {
        GroupType::Additive => primes::GroupType::Additive,
        GroupType::Multiplicative => primes::GroupType::Multiplicative,
        GroupType::MultiplicativeStar => primes::GroupType::MultiplicativeStar,
    };
    primes::orders(m, group, kind)
}

/// Relies on `glucose::group_theory::primes::producers` for the generators among
/// `group`. The searches on the units end because their elements are coprime
/// to `m`; the quick multiplicative search raises elements to powers, which
/// `producers_computable` keeps in range.
#[verifier::external_body]
pub(crate) fn producers(m: i64, group: &Vec<i64>, kind: GroupType, big: bool) -> (r: Vec<i64>)
    requires
        modulus_in_range(m as int),
        group@ == group_elements(m as int, kind),
        producers_computable(m as int, group@.len() as int, kind, big),
    ensures
        r@ == producers_of(m, group@, kind, big),
{
    let kind = match kind {
        GroupType::Additive => primes::GroupType::Additive,
        GroupType::Multiplicative => primes::GroupType::Multiplicative,
        GroupType::MultiplicativeStar => primes::GroupType::MultiplicativeStar,
    };
    primes::producers(m, group, kind, big)
}

/// Whether `base` to the power `exp` fits in an `i64`.
pub fn power_fits(base: i64, exp: i64) -> (r: bool)
    requires
        base >= 0,
        exp >= 0,
    ensures
        r == (pow(base as int, exp as nat) <= i64::MAX),
{
    if base <= 1 {
        proof {
            lemma_small_base_pow(base as int, exp as nat);
        }
        return true;
    }
    let mut acc: i64 = 1;
    let mut j: i64 = 0;
    proof {
        reveal(pow);
    }
    while j < exp
        invariant
            2 <= base,
            0 <= j <= exp,
            acc >= 1,
            acc as int == pow(base as int, j as nat),
        decreases exp - j,
    {
        proof {
            lemma_pow_step(base as int, j as nat);
        }
        if acc > i64::MAX / base {
            assert(acc * base > i64::MAX) by (nonlinear_arith)
                requires
                    acc > i64::MAX / base,
                    base >= 2,
            ;
            proof {
                lemma_pow_increases(base as nat, (j + 1) as nat, exp as nat);
            }
            return false;
        }
        assert(1 <= acc * base <= i64::MAX) by (nonlinear_arith)
            requires
                1 <= acc <= i64::MAX / base,
                base >= 2,
        ;
        acc = acc * base;
        j += 1;
    }
    true
}

proof fn lemma_pow_step(b: int, e: nat)
    ensures
        pow(b, e + 1) == b * pow(b, e),
{
    reveal(pow);
}

proof fn lemma_small_base_pow(b: int, e: nat)
    requires
        0 <= b <= 1,
    ensures
        0 <= pow(b, e) <= 1,
    decreases e,
{
    reveal(pow);
    if e > 0 {
        lemma_small_base_pow(b, (e - 1) as nat);
        let p = pow(b, (e - 1) as nat);
        assert(0 <= b * p <= 1) by (nonlinear_arith)
            requires
                0 <= b <= 1,
                0 <= p <= 1,
        ;
    }
}

} // verus!
