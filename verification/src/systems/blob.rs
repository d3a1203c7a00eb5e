//! The movement system: each simulation tick it reads two optional input
//! axis values, displaces every blob-bearing entity's transform by the
//! movement scale, and clamps the result to the playable bounds (upper bound
//! first, then lower bound).

use vstd::prelude::*;

use crate::blob_world::{BlobWorld, ComponentKind, Component, Transform, BLOB_HEIGHT, BLOB_WIDTH,
    WORLD_HEIGHT, WORLD_WIDTH};

verus! {

/// Axis subunits per full unit of input deflection: an axis reading of
/// `AXIS_SCALE` means full positive deflection, `-AXIS_SCALE` full negative.
pub const AXIS_SCALE: i32 = 1000;

/// Displacement per axis subunit, in position subunits. Full deflection moves
/// the blob by 1.5 world units per tick, and 1.5 world units per AXIS_SCALE
/// axis subunits is exactly 3 position subunits per axis subunit.
pub const MOVEMENT_SCALE_FACTOR: i32 = 3;

/// The directional input read in one tick: a signed magnitude per axis, or
/// `None` where the input source reported no value (no movement requested on
/// that axis — distinct from an explicit zero).
#[derive(Clone, Copy, Debug)]
pub struct InputSnapshot {
    pub leftright: Option<i32>,
    pub updown: Option<i32>,
}

impl InputSnapshot {
    /// Both axis readings, where present, lie within full deflection.
    pub open spec fn valid(self) -> bool {
        &&& (self.leftright matches Some(v) ==> -AXIS_SCALE <= v <= AXIS_SCALE)
        &&& (self.updown matches Some(v) ==> -AXIS_SCALE <= v <= AXIS_SCALE)
    }
}

/// A snapshot in which both axes are absent: no movement is requested.
pub open spec fn no_input() -> InputSnapshot {
    InputSnapshot { leftright: None, updown: None }
}

/// Lower clamp bound on the x axis.
pub open spec fn x_lower() -> int {
    BLOB_WIDTH as int
}

/// Upper clamp bound on the x axis.
pub open spec fn x_upper() -> int {
    WORLD_WIDTH as int - (BLOB_WIDTH as int) / 2
}

/// Lower clamp bound on the y axis.
pub open spec fn y_lower() -> int {
    BLOB_HEIGHT as int
}

/// Upper clamp bound on the y axis.
pub open spec fn y_upper() -> int {
    WORLD_HEIGHT as int - (BLOB_HEIGHT as int) / 2
}

/// One axis step: displace the position by the scaled axis value, then apply
/// the upper bound, then the lower bound. The order is significant: were the
/// bounds ever to cross, the result would pin to the lower bound.
pub open spec fn clamped_axis(pos: int, v: int, upper: int, lower: int) -> int {
    let moved = pos + (MOVEMENT_SCALE_FACTOR as int) * v;
    let capped = if moved > upper { upper } else { moved };
    if capped < lower {
        lower
    } else {
        capped
    }
}

/// The transform after one tick: each axis with a present input value is
/// displaced and clamped; an absent axis is left untouched.
pub open spec fn stepped(t: Transform, input: InputSnapshot) -> Transform {
    Transform {
        x: match input.leftright {
            Some(v) => clamped_axis(t.x as int, v as int, x_upper(), x_lower()) as i32,
            None => t.x,
        },
        y: match input.updown {
            Some(v) => clamped_axis(t.y as int, v as int, y_upper(), y_lower()) as i32,
            None => t.y,
        },
        z: t.z,
    }
}

/// The transform after a whole run of ticks, applied in order.
pub open spec fn stepped_all(t: Transform, inputs: Seq<InputSnapshot>) -> Transform
    decreases inputs.len(),
{
    if inputs.len() == 0 {
        t
    } else {
        stepped_all(stepped(t, inputs[0]), inputs.skip(1))
    }
}

/// What the movement tick leaves as entity `e`'s transform: entities carrying
/// both a blob and a transform are stepped; every other entity keeps its
/// transform (in particular, ball-only entities are never moved).
pub open spec fn run_transform(pre: BlobWorld, e: int, input: InputSnapshot) -> Option<Transform> {
    match (pre.blob_of(e), pre.transform_of(e)) {
        (Some(b), Some(t)) => Some(stepped(t, input)),
        _ => pre.transform_of(e),
    }
}

/// Displaces `pos` by the scaled axis value `v`, applies the upper bound,
/// then the lower bound. The intermediate sum is widened so it cannot
/// overflow; the clamped result always fits the position type again.
fn move_axis(pos: i32, v: i32, upper: i32, lower: i32) -> (r: i32)
    ensures
        r as int == clamped_axis(pos as int, v as int, upper as int, lower as int),
{
    let scaled: i64 = 3 * (v as i64);
    proof {
        assert(scaled == (MOVEMENT_SCALE_FACTOR as int) * (v as int));
    }
    let moved: i64 = pos as i64 + scaled;
    let capped: i64 = if moved > upper as i64 { upper as i64 } else { moved };
    let clamped: i64 = if capped < lower as i64 { lower as i64 } else { capped };
    clamped as i32
}

/// The movement system: stateless across ticks except for the transforms it
/// mutates in place.
pub struct BlobSystem;

impl BlobSystem {
    /// One simulation tick. Every entity carrying both a blob and a transform
    /// has its transform stepped by the input (each present axis displaced
    /// and clamped, each absent axis untouched); the transform of every other
    /// entity, and every component of every other kind, is unchanged.
    pub fn run(&mut self, world: &mut BlobWorld, input: &InputSnapshot)
        requires
            old(world).wf(),
        ensures
            final(world).wf(),
            final(world).entity_count() == old(world).entity_count(),
            forall|e: int| 0 <= e < old(world).entity_count()
                ==> #[trigger] final(world).transform_of(e) == run_transform(*old(world), e, *input),
            forall|e: int| 0 <= e < old(world).entity_count()
                ==> #[trigger] final(world).blob_of(e) == old(world).blob_of(e),
            forall|e: int| 0 <= e < old(world).entity_count()
                ==> #[trigger] final(world).ball_of(e) == old(world).ball_of(e),
            forall|e: int| 0 <= e < old(world).entity_count()
                ==> #[trigger] final(world).camera_of(e) == old(world).camera_of(e),
    {
        let ghost pre = *world;
        let n = world.num_entities();
        let mut e: usize = 0;
        while e < n
            invariant
                world.wf(),
                pre.wf(),
                e <= n,
                n as int == pre.entity_count(),
                world.entity_count() == pre.entity_count(),
                forall|i: int| 0 <= i < e as int
                    ==> #[trigger] world.transform_of(i) == run_transform(pre, i, *input),
                forall|i: int| e as int <= i < n as int
                    ==> #[trigger] world.transform_of(i) == pre.transform_of(i),
                forall|i: int| 0 <= i < n as int
                    ==> #[trigger] world.blob_of(i) == pre.blob_of(i),
                forall|i: int| 0 <= i < n as int
                    ==> #[trigger] world.ball_of(i) == pre.ball_of(i),
                forall|i: int| 0 <= i < n as int
                    ==> #[trigger] world.camera_of(i) == pre.camera_of(i),
            decreases n as int - e as int,
        {
            if world.has(e, ComponentKind::Blob) && world.has(e, ComponentKind::Transform) {
                let t_opt = world.get_transform(e);
                let mut t = t_opt.unwrap();
                match input.leftright {
                    Some(v) => {
                        t.x = move_axis(t.x, v, WORLD_WIDTH - BLOB_WIDTH / 2, BLOB_WIDTH);
                    },
                    None => {},
                }
                match input.updown {
                    Some(v) => {
                        t.y = move_axis(t.y, v, WORLD_HEIGHT - BLOB_HEIGHT / 2, BLOB_HEIGHT);
                    },
                    None => {},
                }
                if input.leftright.is_some() || input.updown.is_some() {
                    world.attach(e, Component::Transform(t));
                }
            }
            e = e + 1;
        }
    }
}

/// Whether a transform lies within the playable band on both axes: x in
/// [BLOB_WIDTH, WORLD_WIDTH - BLOB_WIDTH / 2] and y in the symmetric band.
pub open spec fn in_bounds(t: Transform) -> bool {
    &&& x_lower() <= t.x as int <= x_upper()
    &&& y_lower() <= t.y as int <= y_upper()
}

/// Law (boundary invariant, one tick): from any in-bounds transform, a step
/// with axis readings within full deflection yields an in-bounds transform.
pub proof fn lemma_step_stays_in_bounds(t: Transform, input: InputSnapshot)
    requires
        in_bounds(t),
        input.valid(),
    ensures
        in_bounds(stepped(t, input)),
{
}

/// Law (boundary invariant, any number of ticks): a whole run of ticks whose
/// axis readings all stay within full deflection keeps the transform in
/// bounds.
pub proof fn lemma_bounds_all_ticks(t: Transform, inputs: Seq<InputSnapshot>)
    requires
        in_bounds(t),
        forall|i: int| 0 <= i < inputs.len() ==> (#[trigger] inputs[i]).valid(),
    ensures
        in_bounds(stepped_all(t, inputs)),
    decreases inputs.len(),
{
    if inputs.len() > 0 {
        lemma_step_stays_in_bounds(t, inputs[0]);
        assert forall|i: int| 0 <= i < inputs.skip(1).len()
            implies (#[trigger] inputs.skip(1)[i]).valid() by {
            assert(inputs.skip(1)[i] == inputs[i + 1]);
        }
        lemma_bounds_all_ticks(stepped(t, inputs[0]), inputs.skip(1));
    }
}

/// Law: the movement tick never moves an entity that carries no blob — its
/// transform is left exactly as it was, whatever the input. In particular the
/// ball entity, which has no blob, is never moved, however many ticks run.
pub proof fn lemma_non_blob_transform_unchanged(pre: BlobWorld, e: int, input: InputSnapshot)
    requires
        pre.blob_of(e) is None,
    ensures
        run_transform(pre, e, input) == pre.transform_of(e),
{
}

/// Law: a tick in which both axes are absent leaves every entity's transform
/// exactly as it was, blob-bearing or not.
pub proof fn lemma_no_input_run_unchanged(pre: BlobWorld, e: int)
    ensures
        run_transform(pre, e, no_input()) == pre.transform_of(e),
{
    if pre.blob_of(e) is Some && pre.transform_of(e) is Some {
        lemma_no_input_identity(pre.transform_of(e)->Some_0);
    }
}

/// Law (idempotence of absent input, one tick): a step in which both axes
/// are absent leaves any transform exactly as it was.
pub proof fn lemma_no_input_identity(t: Transform)
    ensures
        stepped(t, no_input()) == t,
{
}

/// Law (idempotence of absent input, any number of ticks): a whole run of
/// ticks in which both axes are always absent leaves any transform exactly
/// as it was.
pub proof fn lemma_no_input_all_ticks(t: Transform, inputs: Seq<InputSnapshot>)
    requires
        forall|i: int| 0 <= i < inputs.len() ==> inputs[i] == no_input(),
    ensures
        stepped_all(t, inputs) == t,
    decreases inputs.len(),
{
    if inputs.len() > 0 {
        lemma_no_input_identity(t);
        assert forall|i: int| 0 <= i < inputs.skip(1).len()
            implies inputs.skip(1)[i] == no_input() by {
            assert(inputs.skip(1)[i] == inputs[i + 1]);
        }
        lemma_no_input_all_ticks(stepped(t, inputs[0]), inputs.skip(1));
    }
}

} // verus!
