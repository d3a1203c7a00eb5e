//! The data model and the movable entity registry: components (`Transform`,
//! `Blob`, `BlobBall`, `Camera`), the `BlobWorld` registry that stores one
//! optional component of each kind per entity, and the world bootstrap that
//! creates the initial entities of a session.

use vstd::prelude::*;

verus! {

/// Position subunits per world unit. All positions, sizes and velocities in
/// this crate are stored as integer subunits, so that the world geometry
/// (bounds of 800 by 800 units, a 24-unit blob, a displacement of 1.5 units
/// per tick at full input deflection) is exact.
pub const POS_SCALE: i32 = 2000;

/// Height of the playable world, in position subunits (800 world units).
pub const WORLD_HEIGHT: i32 = 800 * POS_SCALE;

/// Width of the playable world, in position subunits (800 world units).
pub const WORLD_WIDTH: i32 = 800 * POS_SCALE;

/// Height of the blob's bounding box, in position subunits (24 world units).
pub const BLOB_HEIGHT: i32 = 24 * POS_SCALE;

/// Width of the blob's bounding box, in position subunits (24 world units).
pub const BLOB_WIDTH: i32 = 24 * POS_SCALE;

/// Default x velocity of the ball, in position subunits per second (75 units).
pub const BLOB_BALL_VELOCITY_X: i32 = 75 * POS_SCALE;

/// Default y velocity of the ball, in position subunits per second (75 units).
pub const BLOB_BALL_VELOCITY_Y: i32 = 75 * POS_SCALE;

/// Radius of the ball, in position subunits (16 world units).
pub const BLOB_BALL_RADIUS: i32 = 16 * POS_SCALE;

/// Lifecycle state of a blob. Only `Alive` is ever produced by the bootstrap;
/// `Dead` exists so that future lifecycle logic has both states available.
#[derive(Clone, Copy, Debug, PartialEq, Eq, Structural)]
pub enum Blobness {
    Dead,
    Alive,
}

/// A position in the world, in position subunits. Owned by the entity it is
/// attached to and mutated only by systems that move that entity.
#[derive(Clone, Copy, Debug, PartialEq, Eq, Structural)]
pub struct Transform {
    pub x: i32,
    pub y: i32,
    pub z: i32,
}

/// The player-controlled avatar: a lifecycle flag and a fixed bounding box.
#[derive(Clone, Copy, Debug, PartialEq, Eq, Structural)]
pub struct Blob {
    pub blobness: Blobness,
    pub width: i32,
    pub height: i32,
}

/// A two-component velocity vector, in position subunits per second.
#[derive(Clone, Copy, Debug, PartialEq, Eq, Structural)]
pub struct Velocity {
    pub x: i32,
    pub y: i32,
}

/// A second, independently placed entity. Its velocity is inert data: no
/// system in scope consumes it yet.
#[derive(Clone, Copy, Debug, PartialEq, Eq, Structural)]
pub struct BlobBall {
    pub velocity: Velocity,
    pub radius: i32,
}

/// A view entity sized to frame the full world bounds; it fixes the
/// coordinate frame that the movement clamp values are expressed in.
#[derive(Clone, Copy, Debug, PartialEq, Eq, Structural)]
pub struct Camera {
    pub width: i32,
    pub height: i32,
}

/// The kinds of component an entity may carry, used to query the registry.
#[derive(Clone, Copy, Debug, PartialEq, Eq, Structural)]
pub enum ComponentKind {
    Transform,
    Blob,
    BlobBall,
    Camera,
}

/// One component instance, as handed to `BlobWorld::attach`.
#[derive(Clone, Copy, Debug)]
pub enum Component {
    Transform(Transform),
    Blob(Blob),
    BlobBall(BlobBall),
    Camera(Camera),
}

impl Blob {
    /// A blob with the given lifecycle state and the fixed bounding box.
    pub fn new(blobness: Blobness) -> (b: Blob)
        ensures
            b == (Blob { blobness, width: BLOB_WIDTH, height: BLOB_HEIGHT }),
    {
        Blob { blobness, width: BLOB_WIDTH, height: BLOB_HEIGHT }
    }
}

/// The transform at the world center, where every bootstrap entity starts.
pub open spec fn world_center(z: i32) -> Transform {
    Transform { x: (WORLD_WIDTH as int / 2) as i32, y: (WORLD_HEIGHT as int / 2) as i32, z }
}

/// The blob record the bootstrap creates: alive, fixed bounding box.
pub open spec fn initial_blob() -> Blob {
    Blob { blobness: Blobness::Alive, width: BLOB_WIDTH, height: BLOB_HEIGHT }
}

/// The ball record the bootstrap creates: default velocity and radius.
pub open spec fn initial_ball() -> BlobBall {
    BlobBall {
        velocity: Velocity { x: BLOB_BALL_VELOCITY_X, y: BLOB_BALL_VELOCITY_Y },
        radius: BLOB_BALL_RADIUS,
    }
}

/// The camera record the bootstrap creates: frames the full world bounds.
pub open spec fn initial_camera() -> Camera {
    Camera { width: WORLD_WIDTH, height: WORLD_HEIGHT }
}

/// The movable entity registry and simulation context: a table from entity
/// identifier (a dense index) to one optional component of each kind.
pub struct BlobWorld {
    transforms: Vec<Option<Transform>>,
    blobs: Vec<Option<Blob>>,
    balls: Vec<Option<BlobBall>>,
    cameras: Vec<Option<Camera>>,
}

impl BlobWorld {
    /// Well-formedness: every per-kind column has one slot per entity.
    pub closed spec fn wf(self) -> bool {
        &&& self.blobs@.len() == self.transforms@.len()
        &&& self.balls@.len() == self.transforms@.len()
        &&& self.cameras@.len() == self.transforms@.len()
    }

    /// How many entities have been created.
    pub closed spec fn entity_count(self) -> int {
        self.transforms@.len() as int
    }

    /// The transform of entity `e`, if one is attached.
    pub closed spec fn transform_of(self, e: int) -> Option<Transform> {
        self.transforms@[e]
    }

    /// The blob record of entity `e`, if one is attached.
    pub closed spec fn blob_of(self, e: int) -> Option<Blob> {
        self.blobs@[e]
    }

    /// The ball record of entity `e`, if one is attached.
    pub closed spec fn ball_of(self, e: int) -> Option<BlobBall> {
        self.balls@[e]
    }

    /// The camera record of entity `e`, if one is attached.
    pub closed spec fn camera_of(self, e: int) -> Option<Camera> {
        self.cameras@[e]
    }

    /// Whether entity `e` carries a component of the given kind.
    pub open spec fn spec_has(self, e: int, kind: ComponentKind) -> bool {
        match kind {
            ComponentKind::Transform => self.transform_of(e) is Some,
            ComponentKind::Blob => self.blob_of(e) is Some,
            ComponentKind::BlobBall => self.ball_of(e) is Some,
            ComponentKind::Camera => self.camera_of(e) is Some,
        }
    }

    /// Whether entity `e` carries all the requested component kinds.
    pub open spec fn matches_all(self, e: int, kinds: Seq<ComponentKind>) -> bool {
        forall|k: int| 0 <= k < kinds.len() ==> self.spec_has(e, #[trigger] kinds[k])
    }

    /// An empty registry with no entities.
    pub fn new() -> (w: BlobWorld)
        ensures
            w.wf(),
            w.entity_count() == 0,
    {
        BlobWorld { transforms: Vec::new(), blobs: Vec::new(), balls: Vec::new(), cameras: Vec::new() }
    }

    /// How many entities have been created.
    pub fn num_entities(&self) -> (n: usize)
        ensures
            n as int == self.entity_count(),
    {
        self.transforms.len()
    }

    /// Allocates a fresh entity identifier carrying no components yet; every
    /// existing entity is left untouched.
    pub fn create_entity(&mut self) -> (e: usize)
        requires
            old(self).wf(),
        ensures
            final(self).wf(),
            e as int == old(self).entity_count(),
            final(self).entity_count() == old(self).entity_count() + 1,
            final(self).transform_of(e as int) is None,
            final(self).blob_of(e as int) is None,
            final(self).ball_of(e as int) is None,
            final(self).camera_of(e as int) is None,
            forall|i: int| 0 <= i < old(self).entity_count()
                ==> #[trigger] final(self).transform_of(i) == old(self).transform_of(i),
            forall|i: int| 0 <= i < old(self).entity_count()
                ==> #[trigger] final(self).blob_of(i) == old(self).blob_of(i),
            forall|i: int| 0 <= i < old(self).entity_count()
                ==> #[trigger] final(self).ball_of(i) == old(self).ball_of(i),
            forall|i: int| 0 <= i < old(self).entity_count()
                ==> #[trigger] final(self).camera_of(i) == old(self).camera_of(i),
    {
        let e = self.transforms.len();
        self.transforms.push(None);
        self.blobs.push(None);
        self.balls.push(None);
        self.cameras.push(None);
        e
    }

    /// Associates one component instance with entity `e`; attaching the same
    /// kind twice replaces the prior value (last write wins). Components of
    /// the other kinds, and every other entity, are left untouched.
    pub fn attach(&mut self, e: usize, c: Component)
        requires
            old(self).wf(),
            (e as int) < old(self).entity_count(),
        ensures
            final(self).wf(),
            final(self).entity_count() == old(self).entity_count(),
            forall|i: int| 0 <= i < old(self).entity_count() && i != e as int
                ==> #[trigger] final(self).transform_of(i) == old(self).transform_of(i),
            forall|i: int| 0 <= i < old(self).entity_count() && i != e as int
                ==> #[trigger] final(self).blob_of(i) == old(self).blob_of(i),
            forall|i: int| 0 <= i < old(self).entity_count() && i != e as int
                ==> #[trigger] final(self).ball_of(i) == old(self).ball_of(i),
            forall|i: int| 0 <= i < old(self).entity_count() && i != e as int
                ==> #[trigger] final(self).camera_of(i) == old(self).camera_of(i),
            match c {
                Component::Transform(t) => {
                    &&& final(self).transform_of(e as int) == Some(t)
                    &&& final(self).blob_of(e as int) == old(self).blob_of(e as int)
                    &&& final(self).ball_of(e as int) == old(self).ball_of(e as int)
                    &&& final(self).camera_of(e as int) == old(self).camera_of(e as int)
                },
                Component::Blob(b) => {
                    &&& final(self).blob_of(e as int) == Some(b)
                    &&& final(self).transform_of(e as int) == old(self).transform_of(e as int)
                    &&& final(self).ball_of(e as int) == old(self).ball_of(e as int)
                    &&& final(self).camera_of(e as int) == old(self).camera_of(e as int)
                },
                Component::BlobBall(b) => {
                    &&& final(self).ball_of(e as int) == Some(b)
                    &&& final(self).transform_of(e as int) == old(self).transform_of(e as int)
                    &&& final(self).blob_of(e as int) == old(self).blob_of(e as int)
                    &&& final(self).camera_of(e as int) == old(self).camera_of(e as int)
                },
                Component::Camera(cam) => {
                    &&& final(self).camera_of(e as int) == Some(cam)
                    &&& final(self).transform_of(e as int) == old(self).transform_of(e as int)
                    &&& final(self).blob_of(e as int) == old(self).blob_of(e as int)
                    &&& final(self).ball_of(e as int) == old(self).ball_of(e as int)
                },
            },
    {
        match c {
            Component::Transform(t) => {
                self.transforms[e] = Some(t);
            },
            Component::Blob(b) => {
                self.blobs[e] = Some(b);
            },
            Component::BlobBall(b) => {
                self.balls[e] = Some(b);
            },
            Component::Camera(cam) => {
                self.cameras[e] = Some(cam);
            },
        }
    }

    /// The transform of entity `e`, if one is attached.
    pub fn get_transform(&self, e: usize) -> (r: Option<Transform>)
        requires
            self.wf(),
            (e as int) < self.entity_count(),
        ensures
            r == self.transform_of(e as int),
    {
        self.transforms[e]
    }

    /// The blob record of entity `e`, if one is attached.
    pub fn get_blob(&self, e: usize) -> (r: Option<Blob>)
        requires
            self.wf(),
            (e as int) < self.entity_count(),
        ensures
            r == self.blob_of(e as int),
    {
        self.blobs[e]
    }

    /// The ball record of entity `e`, if one is attached.
    pub fn get_ball(&self, e: usize) -> (r: Option<BlobBall>)
        requires
            self.wf(),
            (e as int) < self.entity_count(),
        ensures
            r == self.ball_of(e as int),
    {
        self.balls[e]
    }

    /// The camera record of entity `e`, if one is attached.
    pub fn get_camera(&self, e: usize) -> (r: Option<Camera>)
        requires
            self.wf(),
            (e as int) < self.entity_count(),
        ensures
            r == self.camera_of(e as int),
    {
        self.cameras[e]
    }

    /// Establishes the deterministic initial state of a new session: one
    /// ball, then one blob, then one camera, all placed at the world center.
    /// Entities that already existed are left untouched.
    pub fn on_start(&mut self)
        requires
            old(self).wf(),
        ensures
            final(self).wf(),
            final(self).entity_count() == old(self).entity_count() + 3,
            forall|i: int| 0 <= i < old(self).entity_count()
                ==> #[trigger] final(self).transform_of(i) == old(self).transform_of(i),
            forall|i: int| 0 <= i < old(self).entity_count()
                ==> #[trigger] final(self).blob_of(i) == old(self).blob_of(i),
            forall|i: int| 0 <= i < old(self).entity_count()
                ==> #[trigger] final(self).ball_of(i) == old(self).ball_of(i),
            forall|i: int| 0 <= i < old(self).entity_count()
                ==> #[trigger] final(self).camera_of(i) == old(self).camera_of(i),
            final(self).ball_of(old(self).entity_count()) == Some(initial_ball()),
            final(self).transform_of(old(self).entity_count()) == Some(world_center(0)),
            final(self).blob_of(old(self).entity_count()) is None,
            final(self).camera_of(old(self).entity_count()) is None,
            final(self).blob_of(old(self).entity_count() + 1) == Some(initial_blob()),
            final(self).transform_of(old(self).entity_count() + 1) == Some(world_center(0)),
            final(self).ball_of(old(self).entity_count() + 1) is None,
            final(self).camera_of(old(self).entity_count() + 1) is None,
            final(self).camera_of(old(self).entity_count() + 2) == Some(initial_camera()),
            final(self).transform_of(old(self).entity_count() + 2) == Some(world_center(POS_SCALE)),
            final(self).blob_of(old(self).entity_count() + 2) is None,
            final(self).ball_of(old(self).entity_count() + 2) is None,
    {
        initialise_blob_ball(self);
        initialise_blobs(self);
        initialise_camera(self);
    }

    /// Whether entity `e` carries a component of the given kind.
    pub fn has(&self, e: usize, kind: ComponentKind) -> (r: bool)
        requires
            self.wf(),
            (e as int) < self.entity_count(),
        ensures
            r == self.spec_has(e as int, kind),
    {
        match kind {
            ComponentKind::Transform => self.transforms[e].is_some(),
            ComponentKind::Blob => self.blobs[e].is_some(),
            ComponentKind::BlobBall => self.balls[e].is_some(),
            ComponentKind::Camera => self.cameras[e].is_some(),
        }
    }

    /// Whether entity `e` carries all the requested component kinds.
    pub fn has_all(&self, e: usize, kinds: &Vec<ComponentKind>) -> (r: bool)
        requires
            self.wf(),
            (e as int) < self.entity_count(),
        ensures
            r == self.matches_all(e as int, kinds@),
    {
        let mut k: usize = 0;
        while k < kinds.len()
            invariant
                self.wf(),
                (e as int) < self.entity_count(),
                k <= kinds@.len(),
                forall|j: int| 0 <= j < k as int ==> self.spec_has(e as int, #[trigger] kinds@[j]),
            decreases kinds@.len() - k as int,
        {
            if !self.has(e, kinds[k]) {
                return false;
            }
            k = k + 1;
        }
        true
    }

    /// The entities that carry all the requested component kinds, snapshotted
    /// up front: in increasing identifier order, so no entity is visited
    /// twice and none that matches is skipped.
    pub fn query(&self, kinds: &Vec<ComponentKind>) -> (r: Vec<usize>)
        requires
            self.wf(),
        ensures
            forall|j: int| 0 <= j < r@.len()
                ==> (#[trigger] r@[j] as int) < self.entity_count()
                    && self.matches_all(r@[j] as int, kinds@),
            forall|j: int, l: int| 0 <= j < l < r@.len() ==> r@[j] < r@[l],
            forall|e: int| 0 <= e < self.entity_count() && self.matches_all(e, kinds@)
                ==> r@.contains(e as usize),
    {
        let n = self.num_entities();
        let mut r: Vec<usize> = Vec::new();
        let mut e: usize = 0;
        while e < n
            invariant
                self.wf(),
                e <= n,
                n as int == self.entity_count(),
                forall|j: int| 0 <= j < r@.len()
                    ==> (#[trigger] r@[j] as int) < e as int
                        && self.matches_all(r@[j] as int, kinds@),
                forall|j: int, l: int| 0 <= j < l < r@.len() ==> r@[j] < r@[l],
                forall|i: int| 0 <= i < e as int && self.matches_all(i, kinds@)
                    ==> r@.contains(i as usize),
            decreases n as int - e as int,
        {
            if self.has_all(e, kinds) {
                let ghost r_before = r@;
                r.push(e);
                proof {
                    assert forall|i: int| 0 <= i < e as int + 1 && self.matches_all(i, kinds@)
                        implies r@.contains(i as usize) by {
                        if i < e as int {
                            let j = choose|j: int| 0 <= j < r_before.len() && r_before[j] == i as usize;
                            assert(r@[j] == i as usize);
                        } else {
                            assert(r@[r@.len() - 1] == e);
                        }
                    }
                }
            }
            e = e + 1;
        }
        r
    }
}

/// Creates the ball entity: a transform at the world center and the default
/// ball record. Existing entities are left untouched.
fn initialise_blob_ball(world: &mut BlobWorld)
    requires
        old(world).wf(),
    ensures
        final(world).wf(),
        final(world).entity_count() == old(world).entity_count() + 1,
        forall|i: int| 0 <= i < old(world).entity_count()
            ==> #[trigger] final(world).transform_of(i) == old(world).transform_of(i),
        forall|i: int| 0 <= i < old(world).entity_count()
            ==> #[trigger] final(world).blob_of(i) == old(world).blob_of(i),
        forall|i: int| 0 <= i < old(world).entity_count()
            ==> #[trigger] final(world).ball_of(i) == old(world).ball_of(i),
        forall|i: int| 0 <= i < old(world).entity_count()
            ==> #[trigger] final(world).camera_of(i) == old(world).camera_of(i),
        final(world).ball_of(old(world).entity_count()) == Some(initial_ball()),
        final(world).transform_of(old(world).entity_count()) == Some(world_center(0)),
        final(world).blob_of(old(world).entity_count()) is None,
        final(world).camera_of(old(world).entity_count()) is None,
{
    let local_transform = Transform { x: WORLD_WIDTH / 2, y: WORLD_HEIGHT / 2, z: 0 };
    let e = world.create_entity();
    world.attach(e, Component::BlobBall(BlobBall {
        radius: BLOB_BALL_RADIUS,
        velocity: Velocity { x: BLOB_BALL_VELOCITY_X, y: BLOB_BALL_VELOCITY_Y },
    }));
    world.attach(e, Component::Transform(local_transform));
}

/// Creates the blob entity: a transform at the world center and an alive
/// blob record. Existing entities are left untouched.
fn initialise_blobs(world: &mut BlobWorld)
    requires
        old(world).wf(),
    ensures
        final(world).wf(),
        final(world).entity_count() == old(world).entity_count() + 1,
        forall|i: int| 0 <= i < old(world).entity_count()
            ==> #[trigger] final(world).transform_of(i) == old(world).transform_of(i),
        forall|i: int| 0 <= i < old(world).entity_count()
            ==> #[trigger] final(world).blob_of(i) == old(world).blob_of(i),
        forall|i: int| 0 <= i < old(world).entity_count()
            ==> #[trigger] final(world).ball_of(i) == old(world).ball_of(i),
        forall|i: int| 0 <= i < old(world).entity_count()
            ==> #[trigger] final(world).camera_of(i) == old(world).camera_of(i),
        final(world).blob_of(old(world).entity_count()) == Some(initial_blob()),
        final(world).transform_of(old(world).entity_count()) == Some(world_center(0)),
        final(world).ball_of(old(world).entity_count()) is None,
        final(world).camera_of(old(world).entity_count()) is None,
{
    let y = WORLD_HEIGHT / 2;
    let x = WORLD_WIDTH / 2;
    let blob_transform = Transform { x, y, z: 0 };
    let e = world.create_entity();
    world.attach(e, Component::Blob(Blob::new(Blobness::Alive)));
    world.attach(e, Component::Transform(blob_transform));
}

/// Creates the camera entity: a transform at the world center, one unit in
/// front of the play plane, and a camera framing the full world bounds.
/// Existing entities are left untouched.
fn initialise_camera(world: &mut BlobWorld)
    requires
        old(world).wf(),
    ensures
        final(world).wf(),
        final(world).entity_count() == old(world).entity_count() + 1,
        forall|i: int| 0 <= i < old(world).entity_count()
            ==> #[trigger] final(world).transform_of(i) == old(world).transform_of(i),
        forall|i: int| 0 <= i < old(world).entity_count()
            ==> #[trigger] final(world).blob_of(i) == old(world).blob_of(i),
        forall|i: int| 0 <= i < old(world).entity_count()
            ==> #[trigger] final(world).ball_of(i) == old(world).ball_of(i),
        forall|i: int| 0 <= i < old(world).entity_count()
            ==> #[trigger] final(world).camera_of(i) == old(world).camera_of(i),
        final(world).camera_of(old(world).entity_count()) == Some(initial_camera()),
        final(world).transform_of(old(world).entity_count()) == Some(world_center(POS_SCALE)),
        final(world).blob_of(old(world).entity_count()) is None,
        final(world).ball_of(old(world).entity_count()) is None,
{
    let transform = Transform { x: WORLD_WIDTH / 2, y: WORLD_HEIGHT / 2, z: POS_SCALE };
    let e = world.create_entity();
    world.attach(e, Component::Camera(Camera { width: WORLD_WIDTH, height: WORLD_HEIGHT }));
    world.attach(e, Component::Transform(transform));
}

} // verus!
