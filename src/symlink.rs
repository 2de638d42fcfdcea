use crate::text::opt_view;
use vstd::prelude::*;

verus! {

/// What one rotation of the stable links does: first, optionally, point
/// `last` at the run that `current` resolves to; then point `current` at the
/// new run's log.
pub struct RotationPlan {
    /// The target that `last` is repointed at, if it is repointed.
    pub promote_last: Option<String>,
    /// The target that `current` is repointed at.
    pub current_target: String,
}

/// A rotation plan, as targets: (`last`'s new target if it changes,
/// `current`'s new target).
pub type PlanView = (Option<Seq<char>>, Seq<char>);

/// The targets of the two stable links: (`current`, `last`).
pub type LinksView = (Option<Seq<char>>, Option<Seq<char>>);

impl View for RotationPlan {
    type V = PlanView;

    open spec fn view(&self) -> PlanView {
        (opt_view(self.promote_last), self.current_target@)
    }
}

/// The rotation for a run whose log is `new_path`, given what `current` and
/// `last` resolve to: `current`'s target is promoted to `last` only when
/// `current` resolves and `last` does not already point there.
pub open spec fn rotation_of(
    current: Option<Seq<char>>,
    last: Option<Seq<char>>,
    new_path: Seq<char>,
) -> PlanView {
    if current is Some && last != current {
        (current, new_path)
    } else {
        (None, new_path)
    }
}

/// The links after a plan is carried out.
pub open spec fn links_after(plan: PlanView, links: LinksView) -> LinksView {
    (Some(plan.1), if plan.0 is Some { plan.0 } else { links.1 })
}

/// Decides the rotation of the stable links for a run whose log is
/// `new_path`. `current_target` is the file that `current` resolves to, or
/// `None` when `current` is absent or dangling; `last_target` is what `last`
/// points to, if it exists. The plan is carried out `last` first, so that
/// `current` is never missing.
pub fn plan_rotation(
    current_target: Option<String>,
    last_target: Option<String>,
    new_path: String,
) -> (r: RotationPlan)
    ensures
        r@ == rotation_of(opt_view(current_target), opt_view(last_target), new_path@),
{
    let promote_last = match current_target {
        Some(cur) => {
            let same = match &last_target {
                Some(last) => *last == cur,
                None => false,
            };
            if same {
                None
            } else {
                Some(cur)
            }
        },
        None => None,
    };
    RotationPlan { promote_last, current_target: new_path }
}

/// With `current` at `a` and no `last`, one rotation to a new log `b`
/// leaves `last` at `a` and `current` at `b`.
pub proof fn lemma_first_rotation(a: Seq<char>, b: Seq<char>)
    ensures
        links_after(rotation_of(Some(a), None, b), (Some(a), None)) == (Some(b), Some(a)),
{
}

/// When `last` already points where `current` does, a rotation leaves
/// `last` alone: the plan does not repoint it, and it keeps its target.
pub proof fn lemma_rotation_keeps_matching_last(b: Seq<char>, new_path: Seq<char>)
    ensures
        rotation_of(Some(b), Some(b), new_path).0 is None,
        links_after(rotation_of(Some(b), Some(b), new_path), (Some(b), Some(b))).1 == Some(b),
{
}

} // verus!
