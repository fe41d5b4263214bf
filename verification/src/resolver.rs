//! How the limits that apply to a mixture combine into one ambient pressure.

use vstd::prelude::*;
use crate::gas_mix::Composition;
use crate::profile::limit_table;
use crate::ratio::lemma_at_most_then_below;
use crate::ratio::lemma_below_then_at_most;
use crate::ratio::Ratio;
use crate::{Extremum, Limit, Pressure};

verus! {

/// Whether `limit` bounds a mixture of composition `mix` at `extremum`: it is
/// a limit of that extremum on a gas that the mixture holds.
pub open spec fn applies(mix: Composition, limit: Limit, extremum: Extremum) -> bool {
    limit.extremum == extremum && mix.share(limit.gas) != 0
}

/// The ambient pressure, in millibar, at which a mixture of composition `mix`
/// reaches `limit`: an absolute limit as it stands, a partial one divided by
/// the fraction of its gas.
pub open spec fn bound(mix: Composition, limit: Limit) -> Ratio {
    match limit.pressure {
        Pressure::Absolute(value) => Ratio { num: value as int, den: 1 },
        Pressure::Partial(value) => if mix.share(limit.gas) > 0 {
            Ratio { num: value * mix.whole, den: mix.share(limit.gas) }
        } else {
            Ratio { num: -(value * mix.whole), den: -mix.share(limit.gas) }
        },
    }
}

/// Whether the pressure `candidate` restricts more than `current`: at the
/// minimum the higher pressure does, at the maximum the lower one.
pub open spec fn tightens(extremum: Extremum, candidate: Ratio, current: Ratio) -> bool {
    match extremum {
        Extremum::Minimum => current.is_below(candidate),
        Extremum::Maximum => candidate.is_below(current),
    }
}

/// The limit that binds once `limit` is taken into account after `earlier`:
/// `limit` where it applies and restricts more than `earlier`, or is the
/// first to apply; else `earlier`.
pub open spec fn with_limit(
    mix: Composition,
    extremum: Extremum,
    earlier: Option<Limit>,
    limit: Limit,
) -> Option<Limit> {
    if !applies(mix, limit, extremum) {
        earlier
    } else {
        match earlier {
            None => Some(limit),
            Some(current) => if tightens(extremum, bound(mix, limit), bound(mix, current)) {
                Some(limit)
            } else {
                Some(current)
            },
        }
    }
}

/// The limit of `table` that restricts a mixture of composition `mix` most at
/// `extremum`, the earliest of them where several restrict alike; `None`
/// where no limit of the table applies.
pub open spec fn binding_limit(mix: Composition, table: Seq<Limit>, extremum: Extremum) -> Option<
    Limit,
>
    decreases table.len(),
{
    if table.len() == 0 {
        None
    } else {
        with_limit(mix, extremum, binding_limit(mix, table.drop_last(), extremum), table.last())
    }
}

/// The ambient pressure that bounds the use of a mixture of composition `mix`
/// at `extremum` under the limits of `table`; `None` where none applies.
pub open spec fn combined_limit(mix: Composition, table: Seq<Limit>, extremum: Extremum) -> Option<
    Ratio,
> {
    match binding_limit(mix, table, extremum) {
        Some(limit) => Some(bound(mix, limit)),
        None => None,
    }
}

/// A limit in a form that two limits on one mixture can be compared in: the
/// pair `(value, share)` stands for `value / share` times the whole of the
/// mixture, with a positive `share`.
pub open spec fn scaled_bound(mix: Composition, limit: Limit) -> (int, int) {
    match limit.pressure {
        Pressure::Absolute(value) => (value as int, mix.whole),
        Pressure::Partial(value) => if mix.share(limit.gas) > 0 {
            (value as int, mix.share(limit.gas))
        } else {
            (-(value as int), -mix.share(limit.gas))
        },
    }
}

/// A partial limit's bound is its scaled form times the whole of the mixture.
proof fn lemma_partial_bound_scaled(mix: Composition, limit: Limit)
    requires
        limit.pressure is Partial,
        mix.share(limit.gas) != 0,
    ensures
        bound(mix, limit).num == scaled_bound(mix, limit).0 * mix.whole,
        bound(mix, limit).den == scaled_bound(mix, limit).1,
{
    let value = limit.pressure->Partial_0 as int;
    let whole = mix.whole;
    assert(-(value * whole) == (-value) * whole) by (nonlinear_arith);
}

/// Two bounds on one mixture compare as their scaled forms do.
pub proof fn lemma_scaled_bound_compares(mix: Composition, first: Limit, second: Limit)
    requires
        mix.whole > 0,
        mix.share(first.gas) != 0,
        mix.share(second.gas) != 0,
    ensures
        bound(mix, first).is_below(bound(mix, second)) == (scaled_bound(mix, first).0
            * scaled_bound(mix, second).1 < scaled_bound(mix, second).0 * scaled_bound(
            mix,
            first,
        ).1),
{
    let whole = mix.whole;
    let (first_value, first_share) = scaled_bound(mix, first);
    let (second_value, second_share) = scaled_bound(mix, second);
    match (first.pressure, second.pressure) {
        (Pressure::Absolute(_), Pressure::Absolute(_)) => {
            assert((first_value < second_value) == (first_value * whole < second_value * whole))
                by (nonlinear_arith)
                requires
                    whole > 0,
            ;
            assert(bound(mix, first).is_below(bound(mix, second)) == (first_value * 1 < second_value
                * 1));
        },
        (Pressure::Absolute(_), Pressure::Partial(_)) => {
            lemma_partial_bound_scaled(mix, second);
            assert(second_value * whole * 1 == second_value * whole);
        },
        (Pressure::Partial(_), Pressure::Absolute(_)) => {
            lemma_partial_bound_scaled(mix, first);
            assert(first_value * whole * 1 == first_value * whole);
        },
        (Pressure::Partial(_), Pressure::Partial(_)) => {
            lemma_partial_bound_scaled(mix, first);
            lemma_partial_bound_scaled(mix, second);
            assert((first_value * whole * second_share < second_value * whole * first_share) == (
            first_value * second_share < second_value * first_share)) by (nonlinear_arith)
                requires
                    whole > 0,
            ;
        },
    }
}

/// The limit that binds is a limit of the table that applies to the mixture,
/// and none binds only where none applies.
pub proof fn lemma_binding_limit_applies(mix: Composition, table: Seq<Limit>, extremum: Extremum)
    ensures
        match binding_limit(mix, table, extremum) {
            Some(limit) => table.contains(limit) && applies(mix, limit, extremum),
            None => forall|i: int| 0 <= i < table.len() ==> !applies(mix, #[trigger] table[i], extremum),
        },
    decreases table.len(),
{
    if table.len() > 0 {
        let shorter = table.drop_last();
        lemma_binding_limit_applies(mix, shorter, extremum);
        assert(forall|i: int| 0 <= i < shorter.len() ==> shorter[i] == table[i]);
        match binding_limit(mix, table, extremum) {
            Some(limit) => {
                if limit == table.last() {
                    assert(table[table.len() - 1] == limit);
                } else {
                    assert(shorter.contains(limit));
                    let i = choose|i: int| 0 <= i < shorter.len() && shorter[i] == limit;
                    assert(table[i] == limit);
                }
            },
            None => {
                assert forall|i: int| 0 <= i < table.len() implies !applies(
                    mix,
                    #[trigger] table[i],
                    extremum,
                ) by {
                    if i < shorter.len() {
                        assert(shorter[i] == table[i]);
                    }
                }
            },
        }
    }
}

/// No limit of the table that applies to the mixture restricts it more than
/// the limit that binds: at the maximum no bound is lower, at the minimum
/// none is higher.
pub proof fn lemma_binding_limit_is_tightest(
    mix: Composition,
    table: Seq<Limit>,
    extremum: Extremum,
)
    ensures
        binding_limit(mix, table, extremum) matches Some(binding) ==> forall|i: int|
            0 <= i < table.len() && applies(mix, #[trigger] table[i], extremum) ==> !tightens(
                extremum,
                bound(mix, table[i]),
                bound(mix, binding),
            ),
    decreases table.len(),
{
    if table.len() > 0 {
        let shorter = table.drop_last();
        lemma_binding_limit_is_tightest(mix, shorter, extremum);
        lemma_binding_limit_applies(mix, shorter, extremum);
        lemma_binding_limit_applies(mix, table, extremum);
        if let Some(binding) = binding_limit(mix, table, extremum) {
            let tightest = bound(mix, binding);
            assert forall|i: int|
                0 <= i < table.len() && applies(mix, #[trigger] table[i], extremum) implies !tightens(
                extremum,
                bound(mix, table[i]),
                tightest,
            ) by {
                let other = bound(mix, table[i]);
                if i == table.len() - 1 {
                    // The last limit either binds, or did not restrict more than the one that does.
                } else {
                    assert(shorter[i] == table[i]);
                    let earlier = binding_limit(mix, shorter, extremum)->Some_0;
                    if binding != earlier {
                        // The last limit took over from the earlier one, which no
                        // limit before it restricted more than.
                        let before = bound(mix, earlier);
                        assert(tightens(extremum, tightest, before));
                        assert(!tightens(extremum, other, before));
                        match extremum {
                            Extremum::Minimum => {
                                lemma_at_most_then_below(other, before, tightest);
                            },
                            Extremum::Maximum => {
                                lemma_below_then_at_most(tightest, before, other);
                            },
                        }
                    }
                }
            }
        }
    }
}

/// Under the limits of the table, the minimum pressure of a mixture that
/// holds dioxygen is set by the partial pressure of dioxygen that sustains
/// life.
pub proof fn lemma_minimum_binding(mix: Composition)
    requires
        mix.dioxygen != 0,
    ensures
        binding_limit(mix, limit_table(), Extremum::Minimum) == Some(limit_table()[0]),
{
    let table = limit_table();
    reveal_with_fuel(binding_limit, 5);
    assert(table.drop_last() =~= seq![table[0], table[1], table[2]]);
    assert(table.drop_last().drop_last() =~= seq![table[0], table[1]]);
    assert(table.drop_last().drop_last().drop_last() =~= seq![table[0]]);
    assert(table.drop_last().drop_last().drop_last().drop_last() =~= Seq::<Limit>::empty());
}

/// Under the limits of the table, the maximum pressure of a mixture that
/// holds dioxygen is set by the toxicity of dioxygen, unless dinitrogen or
/// helium restricts more.
pub proof fn lemma_maximum_binding(mix: Composition)
    requires
        mix.dioxygen != 0,
    ensures
        binding_limit(mix, limit_table(), Extremum::Maximum) == with_limit(
            mix,
            Extremum::Maximum,
            with_limit(mix, Extremum::Maximum, Some(limit_table()[1]), limit_table()[2]),
            limit_table()[3],
        ),
{
    let table = limit_table();
    reveal_with_fuel(binding_limit, 5);
    assert(table.drop_last() =~= seq![table[0], table[1], table[2]]);
    assert(table.drop_last().drop_last() =~= seq![table[0], table[1]]);
    assert(table.drop_last().drop_last().drop_last() =~= seq![table[0]]);
    assert(table.drop_last().drop_last().drop_last().drop_last() =~= Seq::<Limit>::empty());
}

/// Of two mixtures, the one with the larger fraction of dioxygen reaches the
/// toxicity of dioxygen at the lower ambient pressure.
pub proof fn lemma_more_dioxygen_lowers_its_maximum(lean: Composition, rich: Composition)
    requires
        lean.whole > 0,
        rich.whole > 0,
        lean.dioxygen > 0,
        lean.dioxygen * rich.whole < rich.dioxygen * lean.whole,
    ensures
        bound(rich, limit_table()[1]).is_below(bound(lean, limit_table()[1])),
{
    assert(rich.dioxygen > 0) by (nonlinear_arith)
        requires
            lean.whole > 0,
            rich.whole > 0,
            lean.dioxygen > 0,
            lean.dioxygen * rich.whole < rich.dioxygen * lean.whole,
    ;
    assert((1300 * rich.whole) * lean.dioxygen < (1300 * lean.whole) * rich.dioxygen)
        by (nonlinear_arith)
        requires
            lean.dioxygen * rich.whole < rich.dioxygen * lean.whole,
    ;
}

} // verus!
