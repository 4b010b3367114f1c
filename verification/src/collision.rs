//! Collision filtering and collision-to-damage resolution.
//!
//! A collider carries a set of masks; two entities may interact only when
//! their mask sets share an element.  Boxes are axis-aligned, given by a
//! centre point and a full size, and overlap strictly.

use vstd::prelude::*;

use crate::geom::Vec2i;
use crate::shared::Health;

verus! {

/// Hit points taken from a target by one projectile hit.
pub const COLLISION_DAMAGE: u16 = 25;

/// Which family of entities a collider may interact with.
#[allow(non_camel_case_types)]
#[derive(Clone, Copy, PartialEq, Eq, Structural, Debug)]
pub enum CollisionMask {
    PLAYER,
    ENEMY,
}

/// The set of masks an entity carries.
pub struct Collider {
    pub collision_mask: Vec<CollisionMask>,
}

impl Collider {
    pub fn new(collision_mask: Vec<CollisionMask>) -> (c: Collider)
        ensures
            c.collision_mask@ == collision_mask@,
    {
        Collider { collision_mask }
    }
}

/// The two mask sets share at least one element.
pub open spec fn masks_intersect(a: Seq<CollisionMask>, b: Seq<CollisionMask>) -> bool {
    exists|i: int| 0 <= i < a.len() && b.contains(a[i])
}

fn mask_contains(v: &Vec<CollisionMask>, m: CollisionMask) -> (r: bool)
    ensures
        r == v@.contains(m),
{
    let mut j: usize = 0;
    while j < v.len()
        invariant
            j <= v@.len(),
            forall|l: int| 0 <= l < j ==> v@[l] != m,
        decreases v@.len() - j,
    {
        if v[j] == m {
            proof {
                assert(v@[j as int] == m);
            }
            return true;
        }
        j += 1;
    }
    false
}

/// Whether two colliders are eligible to interact.
pub fn collider_masks_intersect(a: &Collider, b: &Collider) -> (r: bool)
    ensures
        r == masks_intersect(a.collision_mask@, b.collision_mask@),
{
    let mut i: usize = 0;
    while i < a.collision_mask.len()
        invariant
            i <= a.collision_mask@.len(),
            forall|k: int| 0 <= k < i
                ==> !b.collision_mask@.contains(#[trigger] a.collision_mask@[k]),
        decreases a.collision_mask@.len() - i,
    {
        if mask_contains(&b.collision_mask, a.collision_mask[i]) {
            proof {
                assert(b.collision_mask@.contains(a.collision_mask@[i as int]));
            }
            return true;
        }
        i += 1;
    }
    false
}

/// Two centre-and-size boxes overlap strictly on both axes.
pub open spec fn aabb_overlap(a_pos: Vec2i, a_size: Vec2i, b_pos: Vec2i, b_size: Vec2i) -> bool {
    &&& 2 * (a_pos.x - b_pos.x) < a_size.x + b_size.x
    &&& 2 * (b_pos.x - a_pos.x) < a_size.x + b_size.x
    &&& 2 * (a_pos.y - b_pos.y) < a_size.y + b_size.y
    &&& 2 * (b_pos.y - a_pos.y) < a_size.y + b_size.y
}

/// Decides whether the boxes of two entities overlap.
pub fn collide(a_pos: Vec2i, a_size: Vec2i, b_pos: Vec2i, b_size: Vec2i) -> (r: bool)
    ensures
        r == aabb_overlap(a_pos, a_size, b_pos, b_size),
{
    let dx: i128 = 2 * (a_pos.x as i128 - b_pos.x as i128);
    let dy: i128 = 2 * (a_pos.y as i128 - b_pos.y as i128);
    let wsum: i128 = a_size.x as i128 + b_size.x as i128;
    let hsum: i128 = a_size.y as i128 + b_size.y as i128;
    dx < wsum && -dx < wsum && dy < hsum && -dy < hsum
}

/// A projectile as the damage pass sees it.
pub struct ProjectileBody {
    pub collider: Collider,
    pub pos: Vec2i,
    pub size: Vec2i,
}

/// A damageable entity as the damage pass sees it.
pub struct TargetBody {
    pub collider: Collider,
    pub health: Health,
    pub pos: Vec2i,
    pub size: Vec2i,
}

/// A projectile hits a target when their masks allow the pair and their
/// boxes overlap.
pub open spec fn hit(p: ProjectileBody, t: TargetBody) -> bool {
    masks_intersect(p.collider.collision_mask@, t.collider.collision_mask@)
        && aabb_overlap(p.pos, p.size, t.pos, t.size)
}

/// How many of the given projectiles hit the target.
pub open spec fn hit_count(ps: Seq<ProjectileBody>, t: TargetBody) -> int
    decreases ps.len(),
{
    if ps.len() == 0 {
        0
    } else {
        hit_count(ps.drop_last(), t) + if hit(ps.last(), t) {
            1int
        } else {
            0int
        }
    }
}

/// Hit points left after `n` hits: each hit takes `COLLISION_DAMAGE`
/// if the points cover it and is otherwise ignored.
pub open spec fn health_after_hits(h: int, n: int) -> int
    decreases n,
{
    if n <= 0 {
        h
    } else {
        let prev = health_after_hits(h, n - 1);
        if prev >= COLLISION_DAMAGE {
            prev - COLLISION_DAMAGE
        } else {
            prev
        }
    }
}

/// A target starting at `h` hit points is despawned by `n` hits exactly
/// when some hit fails to leave it alive, i.e. when the hit before last
/// already brought it to `COLLISION_DAMAGE` points or fewer.
pub open spec fn target_despawned(h: int, n: int) -> bool {
    n >= 1 && health_after_hits(h, n - 1) <= COLLISION_DAMAGE
}

proof fn lemma_hit_count_bounds(ps: Seq<ProjectileBody>, t: TargetBody)
    ensures
        0 <= hit_count(ps, t) <= ps.len(),
    decreases ps.len(),
{
    if ps.len() > 0 {
        lemma_hit_count_bounds(ps.drop_last(), t);
    }
}

proof fn lemma_hit_count_take_step(ps: Seq<ProjectileBody>, t: TargetBody, i: int)
    requires
        0 <= i < ps.len(),
    ensures
        hit_count(ps.take(i + 1), t) == hit_count(ps.take(i), t) + if hit(ps[i], t) {
            1int
        } else {
            0int
        },
{
    assert(ps.take(i + 1).drop_last() =~= ps.take(i));
    assert(ps.take(i + 1).last() == ps[i]);
}

/// Hits never heal: hit points after `n` hits stay between zero and the
/// starting value, and each further hit can only lower them.
pub proof fn lemma_health_after_hits_decreasing(h: int, n: int)
    requires
        0 <= h,
        0 <= n,
    ensures
        0 <= health_after_hits(h, n) <= h,
        n > 0 ==> health_after_hits(h, n) <= health_after_hits(h, n - 1),
    decreases n,
{
    if n > 0 {
        lemma_health_after_hits_decreasing(h, n - 1);
    }
}

proof fn lemma_health_after_hits_shift(h: int, n: int)
    requires
        0 <= h,
        0 <= n,
    ensures
        health_after_hits(h, n + 1) == health_after_hits(
            if h >= COLLISION_DAMAGE {
                h - COLLISION_DAMAGE
            } else {
                h
            },
            n,
        ),
    decreases n,
{
    let h2 = if h >= COLLISION_DAMAGE {
        h - COLLISION_DAMAGE
    } else {
        h as int
    };
    if n == 0 {
        assert(health_after_hits(h, 0) == h);
        assert(health_after_hits(h, 1) == h2);
        assert(health_after_hits(h2, 0) == h2);
    } else {
        lemma_health_after_hits_shift(h, n - 1);
        assert(health_after_hits(h, n + 1) == if health_after_hits(h, n) >= COLLISION_DAMAGE {
            health_after_hits(h, n) - COLLISION_DAMAGE
        } else {
            health_after_hits(h, n)
        });
        assert(health_after_hits(h2, n) == if health_after_hits(h2, n - 1) >= COLLISION_DAMAGE {
            health_after_hits(h2, n - 1) - COLLISION_DAMAGE
        } else {
            health_after_hits(h2, n - 1)
        });
    }
}

/// The despawn rule in closed form: `n` hits despawn a target that
/// started at `h` hit points exactly when they carry at least `h` points
/// of damage in total.
pub proof fn lemma_target_despawned_iff(h: int, n: int)
    requires
        0 <= h,
        0 <= n,
    ensures
        target_despawned(h, n) <==> (n >= 1 && h <= n * COLLISION_DAMAGE),
    decreases n,
{
    if n >= 2 {
        let h2 = if h >= COLLISION_DAMAGE {
            h - COLLISION_DAMAGE
        } else {
            h as int
        };
        lemma_health_after_hits_shift(h, n - 2);
        lemma_target_despawned_iff(h2, n - 1);
    }
}

/// The per-target outcome of one damage pass: position, size, masks and
/// maximum health are untouched; current health and the despawn verdict
/// follow from the number of projectiles that hit the target.
pub open spec fn target_outcome(
    ps: Seq<ProjectileBody>,
    t0: TargetBody,
    t1: TargetBody,
    despawned: bool,
) -> bool {
    let n = hit_count(ps, t0);
    &&& t1.collider.collision_mask@ == t0.collider.collision_mask@
    &&& t1.pos == t0.pos
    &&& t1.size == t0.size
    &&& t1.health.max_health == t0.health.max_health
    &&& t1.health.current_health == health_after_hits(t0.health.current_health as int, n)
    &&& (despawned <==> target_despawned(t0.health.current_health as int, n))
}

/// Resolves one frame of projectile-versus-target collisions.
///
/// Every projectile is paired against every target; each eligible,
/// overlapping pair costs the target `COLLISION_DAMAGE` hit points under
/// [`Health::try_apply_damage`].  Returns one despawn flag per projectile
/// (it hit something) and one per target (some hit exhausted it).
pub fn damage_entities_on_collision(
    projectiles: &Vec<ProjectileBody>,
    targets: &mut Vec<TargetBody>,
) -> (despawn: (Vec<bool>, Vec<bool>))
    ensures
        final(targets)@.len() == old(targets)@.len(),
        despawn.0@.len() == projectiles@.len(),
        despawn.1@.len() == old(targets)@.len(),
        forall|i: int|
            0 <= i < projectiles@.len()
                ==> (#[trigger] despawn.0@[i] <==> exists|j: int|
                    0 <= j < old(targets)@.len() && hit(
                        projectiles@[i],
                        #[trigger] old(targets)@[j],
                    )),
        forall|j: int|
            0 <= j < old(targets)@.len()
                ==> target_outcome(
                    projectiles@,
                    old(targets)@[j],
                    #[trigger] final(targets)@[j],
                    despawn.1@[j],
                ),
{
    let n_targets = targets.len();
    let mut despawn_p: Vec<bool> = Vec::new();
    let mut despawn_t: Vec<bool> = Vec::new();

    let mut j0: usize = 0;
    while j0 < n_targets
        invariant
            j0 <= n_targets,
            despawn_t@.len() == j0,
            forall|l: int| 0 <= l < j0 ==> !(#[trigger] despawn_t@[l]),
        decreases n_targets - j0,
    {
        despawn_t.push(false);
        j0 += 1;
    }

    let mut i: usize = 0;
    while i < projectiles.len()
        invariant
            i <= projectiles@.len(),
            n_targets == old(targets)@.len(),
            targets@.len() == old(targets)@.len(),
            despawn_p@.len() == i,
            despawn_t@.len() == old(targets)@.len(),
            forall|k: int|
                0 <= k < i
                    ==> (#[trigger] despawn_p@[k] <==> exists|j: int|
                        0 <= j < old(targets)@.len() && hit(
                            projectiles@[k],
                            #[trigger] old(targets)@[j],
                        )),
            forall|l: int|
                0 <= l < old(targets)@.len()
                    ==> target_outcome(
                        projectiles@.take(i as int),
                        old(targets)@[l],
                        #[trigger] targets@[l],
                        despawn_t@[l],
                    ),
        decreases projectiles@.len() - i,
    {
        let mut hit_any = false;
        let mut j: usize = 0;
        while j < n_targets
            invariant
                j <= n_targets,
                i < projectiles@.len(),
                n_targets == old(targets)@.len(),
                targets@.len() == old(targets)@.len(),
                despawn_t@.len() == old(targets)@.len(),
                (hit_any <==> exists|l: int|
                    0 <= l < j && hit(projectiles@[i as int], #[trigger] old(targets)@[l])),
                forall|l: int|
                    0 <= l < j && l < old(targets)@.len()
                        ==> target_outcome(
                            projectiles@.take(i as int + 1),
                            old(targets)@[l],
                            #[trigger] targets@[l],
                            despawn_t@[l],
                        ),
                forall|l: int|
                    j <= l < old(targets)@.len()
                        ==> target_outcome(
                            projectiles@.take(i as int),
                            old(targets)@[l],
                            #[trigger] targets@[l],
                            despawn_t@[l],
                        ),
            decreases n_targets - j,
        {
            let ghost t0 = old(targets)@[j as int];
            let ghost h0 = t0.health.current_health as int;
            let ghost c = hit_count(projectiles@.take(i as int), t0);
            proof {
                lemma_hit_count_bounds(projectiles@.take(i as int), t0);
                lemma_hit_count_take_step(projectiles@, t0, i as int);
            }
            let masks = collider_masks_intersect(&projectiles[i].collider, &targets[j].collider);
            if masks && collide(projectiles[i].pos, projectiles[i].size, targets[j].pos, targets[j].size) {
                proof {
                    assert(hit(projectiles@[i as int], t0));
                    assert(hit_count(projectiles@.take(i as int + 1), t0) == c + 1);
                    if despawn_t@[j as int] {
                        lemma_health_after_hits_decreasing(h0, c);
                    }
                }
                let r = targets[j].health.try_apply_damage(COLLISION_DAMAGE);
                if r.is_none() {
                    despawn_t[j] = true;
                }
                hit_any = true;
            } else {
                proof {
                    assert(!hit(projectiles@[i as int], t0));
                    assert(hit_count(projectiles@.take(i as int + 1), t0) == c);
                }
            }
            j += 1;
        }
        despawn_p.push(hit_any);
        i += 1;
    }
    proof {
        assert(projectiles@.take(projectiles@.len() as int) =~= projectiles@);
    }
    (despawn_p, despawn_t)
}

} // verus!
