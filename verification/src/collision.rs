//! The collision pass of one frame: decide who survives, then remove.
//!
//! The pass works on an overlap table measured after every entity has moved.
//! Row `i` of the table belongs to asteroid `i`, column `j` to bullet `j`; a
//! second table tells which asteroids overlap the player's ship. An entry that
//! a table lacks counts as no overlap.

use vstd::prelude::*;
use crate::data::{
    alive_values, lemma_alive_values_bounds, lemma_alive_values_split, retain_alive, MaybeAlive,
};

verus! {

/// Asteroid `i` overlaps bullet `j`.
pub open spec fn hit(hits: Seq<Seq<bool>>, i: int, j: int) -> bool {
    0 <= i < hits.len() && 0 <= j < hits[i].len() && hits[i][j]
}

/// Asteroid `i` overlaps one of the first `bullets` bullets.
pub open spec fn struck(hits: Seq<Seq<bool>>, i: int, bullets: int) -> bool {
    exists|j: int| 0 <= j < bullets && hit(hits, i, j)
}

/// Asteroid `i` overlaps the player's ship.
pub open spec fn rammed(player_hits: Seq<bool>, i: int) -> bool {
    0 <= i < player_hits.len() && player_hits[i]
}

/// Asteroid `i` dies this frame: a bullet or the ship touches it.
pub open spec fn destroyed(
    hits: Seq<Seq<bool>>,
    player_hits: Seq<bool>,
    bullets: int,
    i: int,
) -> bool {
    struck(hits, i, bullets) || rammed(player_hits, i)
}

/// Bullet `j` overlaps one of the first `asteroids` asteroids.
pub open spec fn consumed(hits: Seq<Seq<bool>>, asteroids: int, j: int) -> bool {
    exists|i: int| 0 <= i < asteroids && hit(hits, i, j)
}

/// One of the first `asteroids` asteroids overlaps the ship.
pub open spec fn player_hit(player_hits: Seq<bool>, asteroids: int) -> bool {
    exists|i: int| 0 <= i < asteroids && rammed(player_hits, i)
}

/// Every asteroid tagged alive exactly when nothing touches it.
pub open spec fn marked_asteroids<A>(
    asteroids: Seq<A>,
    bullets: int,
    hits: Seq<Seq<bool>>,
    player_hits: Seq<bool>,
) -> Seq<MaybeAlive<A>> {
    Seq::new(
        asteroids.len(),
        |i: int| MaybeAlive { alive: !destroyed(hits, player_hits, bullets, i), value: asteroids[i] },
    )
}

/// Every asteroid tagged alive exactly when something touches it: what
/// survives this tagging is the wreckage.
pub open spec fn marked_wrecks<A>(
    asteroids: Seq<A>,
    bullets: int,
    hits: Seq<Seq<bool>>,
    player_hits: Seq<bool>,
) -> Seq<MaybeAlive<A>> {
    Seq::new(
        asteroids.len(),
        |i: int| MaybeAlive { alive: destroyed(hits, player_hits, bullets, i), value: asteroids[i] },
    )
}

/// Every bullet tagged alive exactly when it touches no asteroid.
pub open spec fn marked_bullets<B>(bullets: Seq<B>, asteroids: int, hits: Seq<Seq<bool>>) -> Seq<
    MaybeAlive<B>,
> {
    Seq::new(
        bullets.len(),
        |j: int| MaybeAlive { alive: !consumed(hits, asteroids, j), value: bullets[j] },
    )
}

/// What one collision pass leaves behind.
pub struct Collisions<A, B> {
    /// Asteroids that nothing touched, in their old order.
    pub asteroids: Vec<A>,
    /// Asteroids that were hit, in their old order: each is owed one explosion.
    pub destroyed: Vec<A>,
    /// Bullets that touched no asteroid, in their old order.
    pub bullets: Vec<B>,
    /// False when some asteroid reached the ship.
    pub player_alive: bool,
}

proof fn lemma_struck_step(hits: Seq<Seq<bool>>, i: int, j: int)
    requires
        0 <= j,
    ensures
        struck(hits, i, j + 1) == (struck(hits, i, j) || hit(hits, i, j)),
{
    if struck(hits, i, j + 1) {
        let w = choose|w: int| 0 <= w < j + 1 && hit(hits, i, w);
        if w < j {
            assert(0 <= w < j && hit(hits, i, w));
        }
    }
    if struck(hits, i, j) {
        let w = choose|w: int| 0 <= w < j && hit(hits, i, w);
        assert(0 <= w < j + 1 && hit(hits, i, w));
    }
    if hit(hits, i, j) {
        assert(0 <= j < j + 1 && hit(hits, i, j));
    }
}

proof fn lemma_consumed_step(hits: Seq<Seq<bool>>, i: int, j: int)
    requires
        0 <= i,
    ensures
        consumed(hits, i + 1, j) == (consumed(hits, i, j) || hit(hits, i, j)),
{
    if consumed(hits, i + 1, j) {
        let w = choose|w: int| 0 <= w < i + 1 && hit(hits, w, j);
        if w < i {
            assert(0 <= w < i && hit(hits, w, j));
        }
    }
    if consumed(hits, i, j) {
        let w = choose|w: int| 0 <= w < i && hit(hits, w, j);
        assert(0 <= w < i + 1 && hit(hits, w, j));
    }
    if hit(hits, i, j) {
        assert(0 <= i < i + 1 && hit(hits, i, j));
    }
}

proof fn lemma_player_hit_step(player_hits: Seq<bool>, i: int)
    requires
        0 <= i,
    ensures
        player_hit(player_hits, i + 1) == (player_hit(player_hits, i) || rammed(player_hits, i)),
{
    if player_hit(player_hits, i + 1) {
        let w = choose|w: int| 0 <= w < i + 1 && rammed(player_hits, w);
        if w < i {
            assert(0 <= w < i && rammed(player_hits, w));
        }
    }
    if player_hit(player_hits, i) {
        let w = choose|w: int| 0 <= w < i && rammed(player_hits, w);
        assert(0 <= w < i + 1 && rammed(player_hits, w));
    }
    if rammed(player_hits, i) {
        assert(0 <= i < i + 1 && rammed(player_hits, i));
    }
}

/// Unfolds `alive_values` over a prefix that grows by one item.
proof fn lemma_alive_values_step<T>(items: Seq<MaybeAlive<T>>, n: int)
    requires
        0 <= n < items.len(),
    ensures
        alive_values(items.take(n + 1)) == if items[n].alive {
            alive_values(items.take(n)).push(items[n].value)
        } else {
            alive_values(items.take(n))
        },
{
    assert(items.take(n + 1).drop_last() == items.take(n));
}

/// An asteroid cannot both go on and leave an explosion in one frame: each
/// is among the survivors or among the wrecks, and in one of the two only.
pub proof fn lemma_asteroid_lives_or_dies<A>(
    asteroids: Seq<A>,
    bullets: int,
    hits: Seq<Seq<bool>>,
    player_hits: Seq<bool>,
)
    ensures
        forall|i: int|
            0 <= i < asteroids.len() ==> #[trigger] marked_asteroids(
                asteroids,
                bullets,
                hits,
                player_hits,
            )[i].alive != marked_wrecks(asteroids, bullets, hits, player_hits)[i].alive,
        alive_values(marked_asteroids(asteroids, bullets, hits, player_hits)).len() + alive_values(
            marked_wrecks(asteroids, bullets, hits, player_hits),
        ).len() == asteroids.len(),
{
    lemma_alive_values_split(
        marked_asteroids(asteroids, bullets, hits, player_hits),
        marked_wrecks(asteroids, bullets, hits, player_hits),
    );
}

/// Where a bullet touches an asteroid, both are gone: the asteroid dies and
/// the bullet is used up, however many other bullets touch the same
/// asteroid. No bullet passes through a dying asteroid and flies on.
pub proof fn lemma_bullets_die_with_their_asteroid(
    hits: Seq<Seq<bool>>,
    player_hits: Seq<bool>,
    asteroids: int,
    bullets: int,
    i: int,
    j: int,
)
    requires
        0 <= i < asteroids,
        0 <= j < bullets,
        hit(hits, i, j),
    ensures
        destroyed(hits, player_hits, bullets, i),
        consumed(hits, asteroids, j),
{
}

/// A frame in which nothing touches anything changes nothing: every
/// asteroid and every bullet goes on, in order, and nothing is wrecked.
pub proof fn lemma_quiet_frame<A, B>(
    asteroids: Seq<A>,
    bullets: Seq<B>,
    hits: Seq<Seq<bool>>,
    player_hits: Seq<bool>,
)
    requires
        forall|i: int, j: int| !hit(hits, i, j),
        forall|i: int| !rammed(player_hits, i),
    ensures
        alive_values(marked_asteroids(asteroids, bullets.len() as int, hits, player_hits))
            == asteroids,
        alive_values(marked_wrecks(asteroids, bullets.len() as int, hits, player_hits))
            == Seq::<A>::empty(),
        alive_values(marked_bullets(bullets, asteroids.len() as int, hits)) == bullets,
        !player_hit(player_hits, asteroids.len() as int),
{
    let kept = marked_asteroids(asteroids, bullets.len() as int, hits, player_hits);
    let wrecks = marked_wrecks(asteroids, bullets.len() as int, hits, player_hits);
    let flying = marked_bullets(bullets, asteroids.len() as int, hits);
    lemma_alive_values_bounds(kept);
    lemma_alive_values_bounds(wrecks);
    lemma_alive_values_bounds(flying);
    assert(kept.map_values(|item: MaybeAlive<A>| item.value) =~= asteroids);
    assert(flying.map_values(|item: MaybeAlive<B>| item.value) =~= bullets);
}

fn hit_at(hits: &Vec<Vec<bool>>, i: usize, j: usize) -> (b: bool)
    ensures
        b == hit(hits.deep_view(), i as int, j as int),
{
    if i < hits.len() {
        let row = &hits[i];
        assert(hits.deep_view()[i as int] == row@);
        if j < row.len() {
            row[j]
        } else {
            false
        }
    } else {
        false
    }
}

fn rammed_at(player_hits: &Vec<bool>, i: usize) -> (b: bool)
    ensures
        b == rammed(player_hits@, i as int),
{
    if i < player_hits.len() {
        player_hits[i]
    } else {
        false
    }
}

/// Runs the collision pass of one frame.
///
/// An asteroid dies once when any bullet or the ship overlaps it; every
/// bullet that overlaps any asteroid is used up, not only the first; the
/// player dies when any asteroid overlaps the ship. All decisions are taken
/// against the same table before anything is removed, and what remains keeps
/// its order.
pub fn resolve_collisions<A, B>(
    asteroids: Vec<A>,
    bullets: Vec<B>,
    hits: &Vec<Vec<bool>>,
    player_hits: &Vec<bool>,
) -> (out: Collisions<A, B>)
    ensures
        out.asteroids@ == alive_values(
            marked_asteroids(asteroids@, bullets@.len() as int, hits.deep_view(), player_hits@),
        ),
        out.destroyed@ == alive_values(
            marked_wrecks(asteroids@, bullets@.len() as int, hits.deep_view(), player_hits@),
        ),
        out.bullets@ == alive_values(
            marked_bullets(bullets@, asteroids@.len() as int, hits.deep_view()),
        ),
        out.player_alive == !player_hit(player_hits@, asteroids@.len() as int),
        out.asteroids@.len() + out.destroyed@.len() == asteroids@.len(),
{
    let ghost h = hits.deep_view();
    let ghost p = player_hits@;
    let ghost kept_marks = marked_asteroids(asteroids@, bullets@.len() as int, h, p);
    let ghost wreck_marks = marked_wrecks(asteroids@, bullets@.len() as int, h, p);
    let ghost bullet_marks = marked_bullets(bullets@, asteroids@.len() as int, h);
    let na = asteroids.len();
    let nb = bullets.len();

    let mut bullet_alive: Vec<bool> = Vec::new();
    while bullet_alive.len() < nb
        invariant
            bullet_alive.len() <= nb,
            forall|k: int| 0 <= k < bullet_alive.len() ==> bullet_alive@[k],
        decreases nb - bullet_alive.len(),
    {
        bullet_alive.push(true);
    }

    let mut kept: Vec<A> = Vec::new();
    let mut wrecked: Vec<A> = Vec::new();
    let mut player_alive = true;
    let mut i: usize = 0;
    for asteroid in it: asteroids
        invariant
            it.seq() == asteroids@,
            i == it.index(),
            na == asteroids@.len(),
            nb == bullets@.len(),
            h == hits.deep_view(),
            p == player_hits@,
            kept_marks == marked_asteroids(asteroids@, nb as int, h, p),
            wreck_marks == marked_wrecks(asteroids@, nb as int, h, p),
            bullet_alive.len() == nb,
            forall|k: int| 0 <= k < nb ==> #[trigger] bullet_alive@[k] == !consumed(h, i as int, k),
            kept@ == alive_values(kept_marks.take(i as int)),
            wrecked@ == alive_values(wreck_marks.take(i as int)),
            player_alive == !player_hit(p, i as int),
    {
        let mut asteroid_alive = true;
        let mut j: usize = 0;
        while j < nb
            invariant
                j <= nb,
                h == hits.deep_view(),
                bullet_alive.len() == nb,
                asteroid_alive == !struck(h, i as int, j as int),
                forall|k: int|
                    0 <= k < nb ==> #[trigger] bullet_alive@[k] == !(consumed(h, i as int, k) || (k
                        < j && hit(h, i as int, k))),
            decreases nb - j,
        {
            proof {
                lemma_struck_step(h, i as int, j as int);
            }
            if hit_at(hits, i, j) {
                asteroid_alive = false;
                bullet_alive.set(j, false);
            }
            j += 1;
        }
        proof {
            lemma_player_hit_step(p, i as int);
            lemma_alive_values_step(kept_marks, i as int);
            lemma_alive_values_step(wreck_marks, i as int);
            assert forall|k: int| 0 <= k < nb implies #[trigger] bullet_alive@[k] == !consumed(
                h,
                i + 1,
                k,
            ) by {
                lemma_consumed_step(h, i as int, k);
            }
        }
        if rammed_at(player_hits, i) {
            asteroid_alive = false;
            player_alive = false;
        }
        if asteroid_alive {
            kept.push(asteroid);
        } else {
            wrecked.push(asteroid);
        }
        i += 1;
    }
    proof {
        assert(kept_marks.take(kept_marks.len() as int) == kept_marks);
        assert(wreck_marks.take(wreck_marks.len() as int) == wreck_marks);
        lemma_asteroid_lives_or_dies(asteroids@, nb as int, h, p);
    }

    let mut transition: Vec<MaybeAlive<B>> = Vec::new();
    let mut j: usize = 0;
    for bullet in it: bullets
        invariant
            it.seq() == bullets@,
            j == it.index(),
            nb == bullets@.len(),
            bullet_alive.len() == nb,
            bullet_marks == marked_bullets(bullets@, asteroids@.len() as int, h),
            forall|k: int|
                0 <= k < nb ==> #[trigger] bullet_alive@[k] == !consumed(
                    h,
                    asteroids@.len() as int,
                    k,
                ),
            transition@ == bullet_marks.take(j as int),
    {
        transition.push(MaybeAlive { alive: bullet_alive[j], value: bullet });
        assert(transition@ == bullet_marks.take(j + 1));
        j += 1;
    }
    proof {
        assert(bullet_marks.take(bullet_marks.len() as int) == bullet_marks);
    }
    Collisions { asteroids: kept, destroyed: wrecked, bullets: retain_alive(transition), player_alive }
}

} // verus!
