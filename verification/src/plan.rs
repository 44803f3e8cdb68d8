//! Which renditions to produce for a source of a given height, and the
//! steps that produce them.

use crate::format::DeliveryTarget;
use vstd::prelude::*;

verus! {

/// The standard rendition heights, in ascending order.
pub open spec fn ladder() -> Seq<u32> {
    seq![480u32, 720u32, 1080u32, 1440u32, 2160u32]
}

/// The test that a rung passes when it is no higher than the source.
pub open spec fn within(height: u32) -> spec_fn(u32) -> bool {
    |rung: u32| rung <= height
}

/// The rendition heights for a source of the given height: the rungs of the
/// ladder that are no higher than the source, in the ladder's order. Below
/// the lowest rung there is no such rung, and the plan is the source's own
/// height alone, so that there is always something to play and nothing is
/// scaled up.
pub open spec fn plan_for(height: u32) -> Seq<u32> {
    if height < 480 {
        seq![height]
    } else if height < 720 {
        seq![480u32]
    } else if height < 1080 {
        seq![480u32, 720u32]
    } else if height < 1440 {
        seq![480u32, 720u32, 1080u32]
    } else if height < 2160 {
        seq![480u32, 720u32, 1080u32, 1440u32]
    } else {
        seq![480u32, 720u32, 1080u32, 1440u32, 2160u32]
    }
}

/// Whether the heights in `plan` rise strictly from each entry to the next.
pub open spec fn ascending(plan: Seq<u32>) -> bool {
    forall|i: int, j: int| 0 <= i < j < plan.len() ==> plan[i] < plan[j]
}

/// How many rungs of the ladder are no higher than `height`.
spec fn rungs_within(height: u32) -> int {
    if height < 480 {
        0
    } else if height < 720 {
        1
    } else if height < 1080 {
        2
    } else if height < 1440 {
        3
    } else if height < 2160 {
        4
    } else {
        5
    }
}

/// Filtering one more rung either keeps it or leaves things as they were.
proof fn lemma_filter_next_rung(height: u32, at: int)
    requires
        0 <= at < 5,
    ensures
        ladder().take(at + 1).filter(within(height)) == if ladder()[at] <= height {
            ladder().take(at).filter(within(height)).push(ladder()[at])
        } else {
            ladder().take(at).filter(within(height))
        },
        ladder().take(0).filter(within(height)) == Seq::<u32>::empty(),
{
    reveal(Seq::filter);
    assert(ladder().take(at + 1).drop_last() =~= ladder().take(at));
    assert(ladder().take(0).len() == 0);
}

/// Because the ladder rises, the rungs that pass the test are the first
/// few of it.
proof fn lemma_kept_rungs_are_a_prefix(height: u32, at: int)
    requires
        0 <= at <= 5,
    ensures
        ladder().take(at).filter(within(height)) == ladder().take(
            if at <= rungs_within(height) {
                at
            } else {
                rungs_within(height)
            },
        ),
    decreases at,
{
    if at == 0 {
        lemma_filter_next_rung(height, 0);
        assert(ladder().take(0) =~= Seq::<u32>::empty());
    } else {
        lemma_kept_rungs_are_a_prefix(height, at - 1);
        lemma_filter_next_rung(height, at - 1);
        let before = if at - 1 <= rungs_within(height) {
            at - 1
        } else {
            rungs_within(height)
        };
        if ladder()[at - 1] <= height {
            assert(ladder().take(before).push(ladder()[at - 1]) =~= ladder().take(at));
        }
    }
}

/// The rungs that pass the test are the plan, unless none passes.
proof fn lemma_kept_rungs_are_the_plan(height: u32)
    ensures
        height >= 480 ==> ladder().filter(within(height)) == plan_for(height),
        height < 480 ==> ladder().filter(within(height)).len() == 0,
{
    lemma_kept_rungs_are_a_prefix(height, 5);
    assert(ladder().take(5) =~= ladder());
    assert(ladder().take(rungs_within(height)) =~= if height < 480 {
        Seq::<u32>::empty()
    } else {
        plan_for(height)
    });
}

/// For a source at least as high as the lowest rung, the plan holds exactly
/// the rungs that are no higher than the source, in ascending order, and at
/// least one of them.
pub proof fn lemma_plan_is_ladder_up_to_height(height: u32)
    requires
        height >= 480,
    ensures
        plan_for(height) == ladder().filter(within(height)),
        forall|rung: u32|
            plan_for(height).contains(rung) <==> (ladder().contains(rung) && rung <= height),
        ascending(plan_for(height)),
        plan_for(height).len() >= 1,
{
    lemma_kept_rungs_are_the_plan(height);
    lemma_kept_rungs_are_a_prefix(height, 5);
    assert(ladder().take(5) =~= ladder());
    let plan = plan_for(height);
    let n = rungs_within(height);
    assert(plan == ladder().take(n));
    assert forall|rung: u32| plan.contains(rung) <==> (ladder().contains(rung) && rung
        <= height) by {
        if plan.contains(rung) {
            let i = choose|i: int| 0 <= i < plan.len() && plan[i] == rung;
            assert(ladder()[i] == rung);
        }
        if ladder().contains(rung) && rung <= height {
            let i = choose|i: int| 0 <= i < ladder().len() && ladder()[i] == rung;
            assert(i < n);
            assert(plan[i] == rung);
        }
    }
}

/// For a source below the lowest rung, no rung of the ladder is within its
/// height, and the plan is the source's own height and nothing else.
pub proof fn lemma_plan_of_low_source(height: u32)
    requires
        height < 480,
    ensures
        ladder().filter(within(height)).len() == 0,
        plan_for(height) == seq![height],
        plan_for(height).len() == 1,
        plan_for(height)[0] == height,
{
    lemma_kept_rungs_are_the_plan(height);
}

/// Whatever the source, the plan is not empty, rises strictly, and asks for
/// no rendition higher than the source; unless the source has no height at
/// all, every height in it is positive.
pub proof fn lemma_plan_never_upscales(height: u32)
    ensures
        1 <= plan_for(height).len() <= 5,
        ascending(plan_for(height)),
        forall|i: int| 0 <= i < plan_for(height).len() ==> #[trigger] plan_for(height)[i] <= height,
        height > 0 ==> forall|i: int|
            0 <= i < plan_for(height).len() ==> #[trigger] plan_for(height)[i] > 0,
{
}

/// Computes the rendition heights for a source of the given height: the
/// rungs of the ladder up to that height or, if there is none, the height
/// itself.
pub fn plan_renditions(height: u32) -> (plan: Vec<u32>)
    ensures
        plan@ == plan_for(height),
{
    let rungs: [u32; 5] = [480, 720, 1080, 1440, 2160];
    assert(rungs@ =~= ladder());
    let mut plan: Vec<u32> = Vec::new();
    let mut at: usize = 0;
    proof {
        lemma_filter_next_rung(height, 0);
    }
    while at < 5
        invariant
            at <= 5,
            rungs@ == ladder(),
            plan@ == ladder().take(at as int).filter(within(height)),
        decreases 5 - at,
    {
        proof {
            lemma_filter_next_rung(height, at as int);
        }
        if rungs[at] <= height {
            plan.push(rungs[at]);
        }
        at += 1;
    }
    proof {
        assert(ladder().take(5) =~= ladder());
        lemma_kept_rungs_are_the_plan(height);
    }
    if plan.len() == 0 {
        plan.push(height);
        assert(plan@ =~= seq![height]);
    }
    plan
}

/// One unit of work in a task's pipeline.
#[derive(Clone, Copy, Debug, PartialEq, Eq, Structural)]
pub enum Step {
    /// Encode the rendition of the given height.
    Encode(u32),
    /// Copy the source as it is.
    Copy,
    /// Take the thumbnail.
    Thumbnail,
}

/// The steps that produce a video file, in the order in which they run. For
/// `Home` there is one encoding per planned height; for `Flash` the plan is
/// passed over and the source is copied once, whatever its height.
pub open spec fn rendition_steps(target: DeliveryTarget, height: u32) -> Seq<Step> {
    match target {
        DeliveryTarget::Home => Seq::new(
            plan_for(height).len(),
            |i: int| Step::Encode(plan_for(height)[i]),
        ),
        DeliveryTarget::Flash => seq![Step::Copy],
    }
}

/// All steps of a task: those that produce a video file, then the
/// thumbnail unless it is to be skipped.
pub open spec fn steps_for(target: DeliveryTarget, height: u32, skip_thumbnail: bool) -> Seq<
    Step,
> {
    if skip_thumbnail {
        rendition_steps(target, height)
    } else {
        rendition_steps(target, height).push(Step::Thumbnail)
    }
}

/// For `Flash` exactly one video file is produced, by one copy, whatever
/// the height of the source.
pub proof fn lemma_flash_copies_once(height: u32, skip_thumbnail: bool)
    ensures
        rendition_steps(DeliveryTarget::Flash, height) == seq![Step::Copy],
        steps_for(DeliveryTarget::Flash, height, skip_thumbnail).len() == if skip_thumbnail {
            1nat
        } else {
            2nat
        },
        steps_for(DeliveryTarget::Flash, height, skip_thumbnail)[0] == Step::Copy,
        forall|i: int|
            1 <= i < steps_for(DeliveryTarget::Flash, height, skip_thumbnail).len()
                ==> #[trigger] steps_for(DeliveryTarget::Flash, height, skip_thumbnail)[i]
                == Step::Thumbnail,
{
}

/// Every task has at least one step and at most six, and the thumbnail, if
/// it is taken at all, is taken last and only once.
pub proof fn lemma_steps_shape(target: DeliveryTarget, height: u32, skip_thumbnail: bool)
    ensures
        1 <= steps_for(target, height, skip_thumbnail).len() <= 6,
        steps_for(target, height, skip_thumbnail).len() == rendition_steps(target, height).len()
            + if skip_thumbnail {
            0nat
        } else {
            1nat
        },
        forall|i: int|
            0 <= i < rendition_steps(target, height).len() ==> #[trigger] steps_for(
                target,
                height,
                skip_thumbnail,
            )[i] == rendition_steps(target, height)[i],
        forall|i: int|
            0 <= i < rendition_steps(target, height).len() ==> #[trigger] rendition_steps(
                target,
                height,
            )[i] != Step::Thumbnail,
{
    lemma_plan_never_upscales(height);
}

/// Lists the steps of a task for the given target and source height.
pub fn plan_steps(target: DeliveryTarget, height: u32, skip_thumbnail: bool) -> (steps: Vec<Step>)
    ensures
        steps@ == steps_for(target, height, skip_thumbnail),
{
    let mut steps: Vec<Step> = Vec::new();
    match target {
        DeliveryTarget::Home => {
            let plan = plan_renditions(height);
            let mut at: usize = 0;
            while at < plan.len()
                invariant
                    at <= plan@.len(),
                    plan@ == plan_for(height),
                    steps@.len() == at,
                    forall|i: int| 0 <= i < at ==> #[trigger] steps@[i] == Step::Encode(plan@[i]),
                decreases plan@.len() - at,
            {
                steps.push(Step::Encode(plan[at]));
                at += 1;
            }
            assert(steps@ =~= rendition_steps(target, height));
        },
        DeliveryTarget::Flash => {
            steps.push(Step::Copy);
            assert(steps@ =~= rendition_steps(target, height));
        },
    }
    if !skip_thumbnail {
        steps.push(Step::Thumbnail);
    }
    steps
}

/// The progress shown while step number `index` of `total` is carried out:
/// the share of steps already done, as a percentage rounded down.
pub open spec fn progress_at(index: nat, total: nat) -> nat {
    index * 100 / total
}

/// While a step is under way the progress is below 100, and it does not
/// fall from one step to a later one.
pub proof fn lemma_progress_at(index: nat, later: nat, total: nat)
    requires
        index <= later < total,
    ensures
        progress_at(index, total) <= progress_at(later, total) < 100,
        progress_at(0, total) == 0,
{
    assert(index * 100 / total <= later * 100 / total && later * 100 / total < 100 && 0 * 100
        / total == 0) by (nonlinear_arith)
        requires
            index <= later < total,
    ;
}

/// Computes the progress shown while step number `index` of `total` is
/// carried out.
pub fn step_progress(index: usize, total: usize) -> (progress: u32)
    requires
        index < total,
    ensures
        progress == progress_at(index as nat, total as nat),
        progress < 100,
{
    proof {
        lemma_progress_at(index as nat, index as nat, total as nat);
    }
    let scaled: u128 = index as u128 * 100;
    (scaled / total as u128) as u32
}

} // verus!
