use vstd::prelude::*;
use crate::arena::{Handle, Pool};
use crate::geometry::Vec3;
use crate::message::Shooter;
use crate::weapon::{Weapon, WeaponContainer};

verus! {

/// The collision group of actors' capsules: rays cast for shots skip it.
pub const ACTOR_CAPSULE_GROUP: u32 = 2;

/// A named collider region on an actor, used to tell which body part a ray
/// struck.
#[derive(Clone, Copy, PartialEq, Eq, Structural, Debug)]
pub struct HitBox {
    pub bone: Handle,
    pub collider: Handle,
}

/// What hit resolution reads of an actor: its capsule and its hit boxes.
#[derive(Clone, Debug)]
pub struct Actor {
    pub capsule_collider: Handle,
    pub hit_boxes: Vec<HitBox>,
}

pub type ActorContainer = Pool<Actor>;

/// The part of a collider's shape that a ray met.
#[derive(Clone, Copy, PartialEq, Eq, Structural, Debug)]
pub enum Feature {
    Vertex(u32),
    Edge(u32),
    Face(u32),
    Unknown,
}

/// One intersection of a ray with a collider.
#[derive(Clone, Copy, PartialEq, Eq, Structural, Debug)]
pub struct Intersection {
    pub collider: Handle,
    pub position: Vec3,
    pub normal: Vec3,
    pub feature: Feature,
}

/// The outcome of a ray cast that struck something. `actor` is set exactly
/// when `hit_box` is: attribution to an actor comes only from its hit box.
#[derive(Clone, Debug)]
pub struct Hit {
    pub actor: Handle,
    pub who: Handle,
    pub position: Vec3,
    pub normal: Vec3,
    pub collider: Handle,
    pub feature: Feature,
    pub hit_box: Option<HitBox>,
    /// All intersections along the ray, nearest first.
    pub query_buffer: Vec<Intersection>,
}

impl PartialEq for Hit {
    fn eq(&self, other: &Hit) -> (r: bool) {
        self.actor == other.actor && self.who == other.who && self.position == other.position
            && self.normal == other.normal && self.collider == other.collider && self.feature
            == other.feature && self.hit_box == other.hit_box
    }
}

impl vstd::std_specs::cmp::PartialEqSpecImpl for Hit {
    open spec fn obeys_eq_spec() -> bool {
        true
    }

    open spec fn eq_spec(&self, other: &Hit) -> bool {
        self.actor == other.actor && self.who == other.who && self.position == other.position
            && self.normal == other.normal && self.collider == other.collider && self.feature
            == other.feature && self.hit_box == other.hit_box
    }
}

/// The parameters of the ray cast a shot makes: from `origin` along `direction`
/// (whose length is the ray's), against every group but actors' capsules,
/// results sorted nearest first.
#[derive(Clone, Copy, PartialEq, Eq, Structural, Debug)]
pub struct RayCastRequest {
    pub origin: Vec3,
    pub direction: Vec3,
    pub memberships: u32,
    pub filter: u32,
    pub sort_results: bool,
}

/// The ray cast for a shot from `begin` to `end`.
pub fn ray_cast_request(begin: Vec3, end: Vec3) -> (r: RayCastRequest)
    requires
        crate::geometry::in_world(begin),
        crate::geometry::in_world(end),
    ensures
        r.origin == begin,
        r.direction == (Vec3 { x: (end.x - begin.x) as i64, y: (end.y - begin.y) as i64, z: (end.z - begin.z) as i64 }),
        r.memberships == 0xFFFFu32,
        r.filter == !ACTOR_CAPSULE_GROUP,
        r.sort_results,
{
    RayCastRequest {
        origin: begin,
        direction: Vec3 { x: end.x - begin.x, y: end.y - begin.y, z: end.z - begin.z },
        memberships: 0xFFFF,
        filter: !ACTOR_CAPSULE_GROUP,
        sort_results: true,
    }
}

/// The index of the first intersection, from `i` on, whose collider is not
/// `ignored`.
pub open spec fn first_unignored_from(q: Seq<Intersection>, ignored: Handle, i: nat) -> Option<int>
    decreases q.len() - i,
{
    if i >= q.len() {
        None
    } else if q[i as int].collider != ignored {
        Some(i as int)
    } else {
        first_unignored_from(q, ignored, i + 1)
    }
}

pub open spec fn first_unignored(q: Seq<Intersection>, ignored: Handle) -> Option<int> {
    first_unignored_from(q, ignored, 0)
}

/// The index of the first hit box, from `j` on, on collider `c`.
pub open spec fn first_box_from(boxes: Seq<HitBox>, c: Handle, j: nat) -> Option<int>
    decreases boxes.len() - j,
{
    if j >= boxes.len() {
        None
    } else if boxes[j as int].collider == c {
        Some(j as int)
    } else {
        first_box_from(boxes, c, j + 1)
    }
}

pub open spec fn first_box(boxes: Seq<HitBox>, c: Handle) -> Option<int> {
    first_box_from(boxes, c, 0)
}

pub open spec fn actor_has_box(actors: Pool<Actor>, i: int, c: Handle) -> bool {
    &&& actors.payloads()[i] is Some
    &&& first_box(actors.payloads()[i]->0.hit_boxes@, c) is Some
}

/// The first actor slot, from `i` on, of an actor other than `who` with a hit
/// box on collider `c`.
pub open spec fn struck_from(actors: Pool<Actor>, c: Handle, who: Handle, i: nat) -> Option<int>
    decreases actors.payloads().len() - i,
{
    if i >= actors.payloads().len() {
        None
    } else if actor_has_box(actors, i as int, c) && actors.handle_at(i as int) != who {
        Some(i as int)
    } else {
        struck_from(actors, c, who, i + 1)
    }
}

/// Whether any actor slot, from `i` on, holds an actor with a hit box on
/// collider `c`.
pub open spec fn any_box_from(actors: Pool<Actor>, c: Handle, i: nat) -> bool
    decreases actors.payloads().len() - i,
{
    if i >= actors.payloads().len() {
        false
    } else {
        actor_has_box(actors, i as int, c) || any_box_from(actors, c, i + 1)
    }
}

/// The actor a shot is attributed to: the shooting actor, or the owner of the
/// shooting weapon while that weapon exists; nobody otherwise.
pub open spec fn owner_of(shooter: Shooter, weapons: Map<Handle, Weapon>) -> Handle {
    match shooter {
        Shooter::Actor(a) => a,
        Shooter::Weapon(w) => if weapons.contains_key(w) {
            weapons[w].owner_spec()
        } else {
            Handle { index: 0, generation: 0 }
        },
        _ => Handle { index: 0, generation: 0 },
    }
}

/// What a ray hits, as (actor, who, hit box, index of the intersection): the
/// nearest intersection not on the ignored collider; attributed to the first
/// actor other than `who` with a hit box on that collider; nothing where only
/// `who` has one; the environment where no actor has one.
pub open spec fn expected_hit(
    who: Handle,
    actors: Pool<Actor>,
    q: Seq<Intersection>,
    ignored: Handle,
) -> Option<(Handle, Handle, Option<HitBox>, int)> {
    match first_unignored(q, ignored) {
        None => None,
        Some(k) => {
            let c = q[k].collider;
            match struck_from(actors, c, who, 0) {
                Some(i) => {
                    let boxes = actors.payloads()[i]->0.hit_boxes@;
                    Some((actors.handle_at(i), who, Some(boxes[first_box(boxes, c)->0]), k))
                },
                None => if any_box_from(actors, c, 0) {
                    None
                } else {
                    Some((Handle { index: 0, generation: 0 }, Handle { index: 0, generation: 0 }, None, k))
                },
            }
        },
    }
}

/// Whether `r` is the result that [`expected_hit`] describes for the ray.
pub open spec fn is_ray_hit(
    r: Option<Hit>,
    who: Handle,
    actors: Pool<Actor>,
    q: Seq<Intersection>,
    ignored: Handle,
) -> bool {
    match expected_hit(who, actors, q, ignored) {
        None => r is None,
        Some((actor, w, hit_box, k)) => {
            &&& r is Some
            &&& r->0.actor == actor
            &&& r->0.who == w
            &&& r->0.hit_box == hit_box
            &&& r->0.position == q[k].position
            &&& r->0.normal == q[k].normal
            &&& r->0.collider == q[k].collider
            &&& r->0.feature == q[k].feature
            &&& r->0.query_buffer@ == q
        },
    }
}

fn shooter_owner(shooter: Shooter, weapons: &WeaponContainer) -> (r: Handle)
    requires
        weapons.wf(),
    ensures
        r == owner_of(shooter, weapons@),
{
    match shooter {
        Shooter::Actor(a) => a,
        Shooter::Weapon(w) => match weapons.try_get(w) {
            Some(weapon) => weapon.owner(),
            None => Handle::none(),
        },
        _ => Handle::none(),
    }
}

fn find_box(boxes: &Vec<HitBox>, c: Handle) -> (r: Option<usize>)
    ensures
        r is None ==> first_box(boxes@, c) is None,
        r is Some ==> first_box(boxes@, c) == Some(r->0 as int) && r->0 < boxes@.len(),
{
    let mut j: usize = 0;
    while j < boxes.len()
        invariant
            j <= boxes@.len(),
            first_box_from(boxes@, c, 0) == first_box_from(boxes@, c, j as nat),
        decreases boxes@.len() - j,
    {
        if boxes[j].collider == c {
            return Some(j);
        }
        j = j + 1;
    }
    None
}

fn find_unignored(q: &Vec<Intersection>, ignored: Handle) -> (r: Option<usize>)
    ensures
        r is None ==> first_unignored(q@, ignored) is None,
        r is Some ==> first_unignored(q@, ignored) == Some(r->0 as int) && r->0 < q@.len(),
{
    let mut k: usize = 0;
    while k < q.len()
        invariant
            k <= q@.len(),
            first_unignored_from(q@, ignored, 0) == first_unignored_from(q@, ignored, k as nat),
        decreases q@.len() - k,
    {
        if q[k].collider != ignored {
            return Some(k);
        }
        k = k + 1;
    }
    None
}

/// Resolves a shot's ray from the intersections the physics world reported
/// for it, nearest first. The shooter's own hit boxes are transparent to its
/// shots; `ignored_collider` (the shooter's capsule) is skipped.
pub fn ray_hit(
    shooter: Shooter,
    weapons: &WeaponContainer,
    actors: &ActorContainer,
    query_buffer: Vec<Intersection>,
    ignored_collider: Handle,
) -> (r: Option<Hit>)
    requires
        weapons.wf(),
        actors.wf(),
    ensures
        is_ray_hit(r, owner_of(shooter, weapons@), *actors, query_buffer@, ignored_collider),
{
    let k = match find_unignored(&query_buffer, ignored_collider) {
        Some(k) => k,
        None => return None,
    };
    let hit = query_buffer[k];
    let c = hit.collider;
    let who = shooter_owner(shooter, weapons);
    let n = actors.slot_count();
    let mut is_hitbox_hit = false;
    let mut i: usize = 0;
    while i < n
        invariant
            actors.wf(),
            n == actors.payloads().len(),
            i <= n,
            k < query_buffer@.len(),
            first_unignored(query_buffer@, ignored_collider) == Some(k as int),
            hit == query_buffer@[k as int],
            c == hit.collider,
            who == owner_of(shooter, weapons@),
            struck_from(*actors, c, who, 0) == struck_from(*actors, c, who, i as nat),
            any_box_from(*actors, c, 0) == (is_hitbox_hit || any_box_from(*actors, c, i as nat)),
        decreases n - i,
    {
        match actors.entry(i) {
            Some((actor_handle, actor)) => {
                match find_box(&actor.hit_boxes, c) {
                    Some(j) => {
                        is_hitbox_hit = true;
                        if actor_handle != who {
                            proof {
                                assert(actor_has_box(*actors, i as int, c));
                                assert(struck_from(*actors, c, who, i as nat) == Some(i as int));
                            }
                            return Some(
                                Hit {
                                    actor: actor_handle,
                                    who,
                                    position: hit.position,
                                    normal: hit.normal,
                                    collider: c,
                                    feature: hit.feature,
                                    hit_box: Some(actor.hit_boxes[j]),
                                    query_buffer,
                                },
                            );
                        }
                    },
                    None => {},
                }
            },
            None => {},
        }
        i = i + 1;
    }
    if is_hitbox_hit {
        None
    } else {
        Some(
            Hit {
                actor: Handle::none(),
                who: Handle::none(),
                position: hit.position,
                normal: hit.normal,
                collider: c,
                feature: hit.feature,
                hit_box: None,
                query_buffer,
            },
        )
    }
}

proof fn lemma_all_ignored_from(q: Seq<Intersection>, ignored: Handle, i: nat)
    requires
        forall|k: int| 0 <= k < q.len() ==> #[trigger] q[k].collider == ignored,
    ensures
        first_unignored_from(q, ignored, i) is None,
    decreases q.len() - i,
{
    if i < q.len() {
        lemma_all_ignored_from(q, ignored, i + 1);
    }
}

/// A ray whose every intersection is with the ignored collider (the
/// shooter's own capsule) hits nothing.
pub proof fn lemma_only_ignored_collider_hits_nothing(
    who: Handle,
    actors: Pool<Actor>,
    q: Seq<Intersection>,
    ignored: Handle,
)
    requires
        forall|k: int| 0 <= k < q.len() ==> #[trigger] q[k].collider == ignored,
    ensures
        expected_hit(who, actors, q, ignored) is None,
        forall|r: Option<Hit>| #[trigger] is_ray_hit(r, who, actors, q, ignored) ==> r is None,
{
    lemma_all_ignored_from(q, ignored, 0);
}

proof fn lemma_struck_from_props(actors: Pool<Actor>, c: Handle, who: Handle, i: nat)
    requires
        actors.wf(),
    ensures
        struck_from(actors, c, who, i) matches Some(s) ==> (i <= s < actors.payloads().len()
            && actor_has_box(actors, s, c) && actors.handle_at(s) != who),
    decreases actors.payloads().len() - i,
{
    if i < actors.payloads().len() {
        lemma_struck_from_props(actors, c, who, i + 1);
    }
}

proof fn lemma_first_box_from_props(boxes: Seq<HitBox>, c: Handle, j: nat)
    ensures
        first_box_from(boxes, c, j) matches Some(b) ==> (j <= b < boxes.len() && boxes[b].collider
            == c),
    decreases boxes.len() - j,
{
    if j < boxes.len() {
        lemma_first_box_from_props(boxes, c, j + 1);
    }
}

/// No hit is attributed to the actor that made it, an actor is attributed
/// exactly when a hit box is, and the hit box is on the struck collider.
pub proof fn lemma_no_self_attribution(
    who: Handle,
    actors: Pool<Actor>,
    q: Seq<Intersection>,
    ignored: Handle,
    r: Option<Hit>,
)
    requires
        actors.wf(),
        is_ray_hit(r, who, actors, q, ignored),
    ensures
        r matches Some(hit) ==> (!hit.actor.is_none_spec() ==> hit.actor != hit.who),
        r matches Some(hit) ==> (!hit.actor.is_none_spec() <==> hit.hit_box is Some),
        r matches Some(hit) ==> (hit.hit_box matches Some(b) ==> b.collider == hit.collider),
{
    if let Some(k) = first_unignored(q, ignored) {
        let c = q[k].collider;
        lemma_struck_from_props(actors, c, who, 0);
        if let Some(i) = struck_from(actors, c, who, 0) {
            let boxes = actors.payloads()[i]->0.hit_boxes@;
            lemma_first_box_from_props(boxes, c, 0);
            assert(actors.generations()[i] >= 1);
        }
    }
}

} // verus!
