use vstd::prelude::*;

use crate::body::{BodyHandle, BodyType};

verus! {

/// What the world step needs to know of one participant before it starts:
/// its kind, and whether gravity pulls on it while it is dynamic.
#[derive(Clone, Copy, Debug, PartialEq, Eq, Structural)]
pub struct Participant {
    pub kind: BodyType,
    pub gravity: bool,
}

/// One piece of work of a world step. Bodies are named by their position in
/// the participant list.
#[derive(Clone, Copy, Debug, PartialEq, Eq, Structural)]
pub enum StepAction {
    /// Add gravity to the force of `body` (when `gravity` holds), then
    /// integrate its velocity and position.
    Advance { body: usize, gravity: bool },
    /// Detect a contact between the dynamic `body` and the static `obstacle`,
    /// and resolve it if there is one.
    Resolve { body: usize, obstacle: usize },
}

/// Every participant in list order: the objects `0..n_objects`, then the
/// active camera, when there is one.
pub open spec fn participants_spec(n_objects: nat, camera: Option<usize>) -> Seq<BodyHandle> {
    let objects = Seq::new(n_objects, |i: int| BodyHandle::Object(i as usize));
    match camera {
        Some(c) => objects.push(BodyHandle::Camera(c)),
        None => objects,
    }
}

/// The contact checks of `body` against the participants `0..j` that are
/// static, in list order.
pub open spec fn resolves_upto(parts: Seq<Participant>, body: int, j: int) -> Seq<StepAction>
    decreases j,
{
    if j <= 0 {
        Seq::empty()
    } else {
        let before = resolves_upto(parts, body, j - 1);
        if j - 1 != body && !parts[j - 1].kind.is_dynamic_spec() {
            before.push(StepAction::Resolve { body: body as usize, obstacle: (j - 1) as usize })
        } else {
            before
        }
    }
}

/// The work for participant `i`: nothing for a static body; for a dynamic
/// one, its advance followed by its checks against every static obstacle.
pub open spec fn body_actions(parts: Seq<Participant>, i: int) -> Seq<StepAction> {
    if parts[i].kind.is_dynamic_spec() {
        seq![StepAction::Advance { body: i as usize, gravity: parts[i].gravity }]
            + resolves_upto(parts, i, parts.len() as int)
    } else {
        Seq::empty()
    }
}

/// The work for participants `0..n`, one after another in list order.
pub open spec fn plan_upto(parts: Seq<Participant>, n: int) -> Seq<StepAction>
    decreases n,
{
    if n <= 0 {
        Seq::empty()
    } else {
        plan_upto(parts, n - 1) + body_actions(parts, n - 1)
    }
}

/// The whole work of one world step over `parts`.
pub open spec fn step_plan_spec(parts: Seq<Participant>) -> Seq<StepAction> {
    plan_upto(parts, parts.len() as int)
}

/// Lists the participants of a step: each object in order, then the active
/// camera, if any.
pub fn collect_bodies(n_objects: usize, camera: Option<usize>) -> (r: Vec<BodyHandle>)
    ensures
        r@ == participants_spec(n_objects as nat, camera),
{
    let mut r: Vec<BodyHandle> = Vec::new();
    let mut i: usize = 0;
    while i < n_objects
        invariant
            i <= n_objects,
            r@ == Seq::new(i as nat, |k: int| BodyHandle::Object(k as usize)),
        decreases n_objects - i,
    {
        r.push(BodyHandle::Object(i));
        i = i + 1;
    }
    if let Some(c) = camera {
        r.push(BodyHandle::Camera(c));
    }
    assert(r@ =~= participants_spec(n_objects as nat, camera));
    r
}

/// Orders the work of one world step.
///
/// Each dynamic participant, in list order, is advanced and then checked
/// against every other participant that is static, in list order. Static
/// participants are never advanced, and two dynamic participants are never
/// checked against each other.
pub fn step_plan(parts: &Vec<Participant>) -> (r: Vec<StepAction>)
    ensures
        r@ == step_plan_spec(parts@),
{
    let n = parts.len();
    let mut r: Vec<StepAction> = Vec::new();
    let mut i: usize = 0;
    while i < n
        invariant
            n == parts@.len(),
            i <= n,
            r@ == plan_upto(parts@, i as int),
        decreases n - i,
    {
        if parts[i].kind.is_dynamic() {
            let ghost start = r@;
            r.push(StepAction::Advance { body: i, gravity: parts[i].gravity });
            let mut j: usize = 0;
            while j < n
                invariant
                    n == parts@.len(),
                    i < n,
                    j <= n,
                    parts@[i as int].kind.is_dynamic_spec(),
                    start == plan_upto(parts@, i as int),
                    r@ == start + seq![StepAction::Advance { body: i, gravity: parts@[i as int].gravity }]
                        + resolves_upto(parts@, i as int, j as int),
                decreases n - j,
            {
                if j != i && parts[j].kind.is_static() {
                    r.push(StepAction::Resolve { body: i, obstacle: j });
                }
                j = j + 1;
            }
            assert(r@ =~= plan_upto(parts@, i + 1));
        } else {
            assert(plan_upto(parts@, i + 1) =~= plan_upto(parts@, i as int));
        }
        i = i + 1;
    }
    r
}

} // verus!

verus! {

/// An action that only touches participants of `parts`, advances only
/// dynamic ones, and checks a dynamic participant only against a different,
/// static one.
pub open spec fn action_respects_kinds(parts: Seq<Participant>, a: StepAction) -> bool {
    match a {
        StepAction::Advance { body, .. } => body < parts.len() && parts[body as int].kind.is_dynamic_spec(),
        StepAction::Resolve { body, obstacle } => {
            &&& body < parts.len()
            &&& obstacle < parts.len()
            &&& body != obstacle
            &&& parts[body as int].kind.is_dynamic_spec()
            &&& !parts[obstacle as int].kind.is_dynamic_spec()
        },
    }
}

proof fn lemma_resolves_respect_kinds(parts: Seq<Participant>, body: int, j: int)
    requires
        0 <= body < parts.len(),
        j <= parts.len(),
        parts.len() <= usize::MAX,
        parts[body].kind.is_dynamic_spec(),
    ensures
        forall|k: int|
            0 <= k < resolves_upto(parts, body, j).len() ==> action_respects_kinds(
                parts,
                #[trigger] resolves_upto(parts, body, j)[k],
            ),
    decreases j,
{
    if j > 0 {
        lemma_resolves_respect_kinds(parts, body, j - 1);
        let before = resolves_upto(parts, body, j - 1);
        assert forall|k: int| 0 <= k < resolves_upto(parts, body, j).len() implies action_respects_kinds(
            parts,
            #[trigger] resolves_upto(parts, body, j)[k],
        ) by {
            if k < before.len() {
                assert(resolves_upto(parts, body, j)[k] == before[k]);
            }
        }
    }
}

proof fn lemma_plan_upto_respects_kinds(parts: Seq<Participant>, n: int)
    requires
        n <= parts.len(),
        parts.len() <= usize::MAX,
    ensures
        forall|k: int|
            0 <= k < plan_upto(parts, n).len() ==> action_respects_kinds(
                parts,
                #[trigger] plan_upto(parts, n)[k],
            ),
    decreases n,
{
    if n > 0 {
        lemma_plan_upto_respects_kinds(parts, n - 1);
        if parts[n - 1].kind.is_dynamic_spec() {
            lemma_resolves_respect_kinds(parts, n - 1, parts.len() as int);
        }
        let prev = plan_upto(parts, n - 1);
        let own = body_actions(parts, n - 1);
        assert forall|k: int| 0 <= k < plan_upto(parts, n).len() implies action_respects_kinds(
            parts,
            #[trigger] plan_upto(parts, n)[k],
        ) by {
            if k < prev.len() {
                assert(plan_upto(parts, n)[k] == prev[k]);
            } else {
                assert(plan_upto(parts, n)[k] == own[k - prev.len()]);
                if parts[n - 1].kind.is_dynamic_spec() {
                    let rs = resolves_upto(parts, n - 1, parts.len() as int);
                    if k > prev.len() {
                        assert(own[k - prev.len()] == rs[k - prev.len() - 1]);
                    }
                }
            }
        }
    }
}

/// Dynamic bodies are never resolved against each other: in the work of a
/// step, each contact check pairs a dynamic body with a different, static
/// one, and only dynamic bodies are advanced.
pub proof fn lemma_no_dynamic_pairs(parts: Seq<Participant>)
    requires
        parts.len() <= usize::MAX,
    ensures
        forall|k: int|
            0 <= k < step_plan_spec(parts).len() ==> action_respects_kinds(
                parts,
                #[trigger] step_plan_spec(parts)[k],
            ),
{
    lemma_plan_upto_respects_kinds(parts, parts.len() as int);
}

} // verus!

verus! {

proof fn lemma_resolves_include(parts: Seq<Participant>, body: int, obstacle: int, j: int)
    requires
        0 <= body < parts.len(),
        0 <= obstacle < j <= parts.len(),
        parts.len() <= usize::MAX,
        body != obstacle,
        !parts[obstacle].kind.is_dynamic_spec(),
    ensures
        resolves_upto(parts, body, j).contains(
            StepAction::Resolve { body: body as usize, obstacle: obstacle as usize },
        ),
    decreases j,
{
    let target = StepAction::Resolve { body: body as usize, obstacle: obstacle as usize };
    let before = resolves_upto(parts, body, j - 1);
    if obstacle < j - 1 {
        lemma_resolves_include(parts, body, obstacle, j - 1);
        let k = choose|k: int| 0 <= k < before.len() && before[k] == target;
        assert(resolves_upto(parts, body, j)[k] == target);
    } else {
        assert(resolves_upto(parts, body, j)[before.len() as int] == target);
    }
}

proof fn lemma_plan_upto_keeps(parts: Seq<Participant>, i: int, n: int, a: StepAction)
    requires
        0 <= i < n <= parts.len(),
        body_actions(parts, i).contains(a),
    ensures
        plan_upto(parts, n).contains(a),
    decreases n,
{
    let prev = plan_upto(parts, n - 1);
    if i < n - 1 {
        lemma_plan_upto_keeps(parts, i, n - 1, a);
        let k = choose|k: int| 0 <= k < prev.len() && prev[k] == a;
        assert(plan_upto(parts, n)[k] == a);
    } else {
        let own = body_actions(parts, i);
        let k = choose|k: int| 0 <= k < own.len() && own[k] == a;
        assert(plan_upto(parts, n)[prev.len() + k] == a);
    }
}

/// A step advances every dynamic body and checks it against every other
/// body that is static.
pub proof fn lemma_dynamic_bodies_meet_all_obstacles(parts: Seq<Participant>, body: int, other: int)
    requires
        parts.len() <= usize::MAX,
        0 <= body < parts.len(),
        0 <= other < parts.len(),
        parts[body].kind.is_dynamic_spec(),
    ensures
        step_plan_spec(parts).contains(
            StepAction::Advance { body: body as usize, gravity: parts[body].gravity },
        ),
        other != body && !parts[other].kind.is_dynamic_spec() ==> step_plan_spec(parts).contains(
            StepAction::Resolve { body: body as usize, obstacle: other as usize },
        ),
{
    let own = body_actions(parts, body);
    let advance = StepAction::Advance { body: body as usize, gravity: parts[body].gravity };
    assert(own[0] == advance);
    lemma_plan_upto_keeps(parts, body, parts.len() as int, advance);
    if other != body && !parts[other].kind.is_dynamic_spec() {
        let resolve = StepAction::Resolve { body: body as usize, obstacle: other as usize };
        let rs = resolves_upto(parts, body, parts.len() as int);
        lemma_resolves_include(parts, body, other, parts.len() as int);
        let k = choose|k: int| 0 <= k < rs.len() && rs[k] == resolve;
        assert(own[k + 1] == resolve);
        lemma_plan_upto_keeps(parts, body, parts.len() as int, resolve);
    }
}

} // verus!
