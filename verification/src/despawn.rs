//! The barrier between phases. A phase only marks what is to leave the
//! world; the marked entities are taken out together once the phase is over,
//! so that nothing is removed while a phase still runs over it, and nothing
//! that was marked enters the next phase.

use vstd::prelude::*;
use crate::enemy::ExplosionEntity;
use crate::food::Bite;
use crate::gun::BulletOutcome;

verus! {

/// The entities that are not marked, in their order.
pub open spec fn survivors<T>(entities: Seq<T>, doomed: Seq<bool>) -> Seq<T>
    recommends
        entities.len() == doomed.len(),
    decreases entities.len(),
{
    if entities.len() == 0 {
        Seq::<T>::empty()
    } else if doomed.last() {
        survivors(entities.drop_last(), doomed.drop_last())
    } else {
        survivors(entities.drop_last(), doomed.drop_last()).push(entities.last())
    }
}

/// Whether an outcome is a lethal hit on the enemy at `enemy`.
pub open spec fn kills_enemy(outcome: BulletOutcome, enemy: int) -> bool {
    match outcome {
        BulletOutcome::HitEnemy { index, killed } => killed && index == enemy,
        _ => false,
    }
}

/// Whether an outcome is a lethal hit on the boss at `boss`.
pub open spec fn kills_boss(outcome: BulletOutcome, boss: int) -> bool {
    match outcome {
        BulletOutcome::HitBoss { index, killed } => killed && index == boss,
        _ => false,
    }
}

/// Whether any of the first `count` outcomes killed the enemy at `enemy`.
pub open spec fn enemy_killed(outcomes: Seq<BulletOutcome>, enemy: int, count: int) -> bool {
    exists|i: int| 0 <= i < count && kills_enemy(#[trigger] outcomes[i], enemy)
}

/// Whether any of the first `count` outcomes killed the boss at `boss`.
pub open spec fn boss_killed(outcomes: Seq<BulletOutcome>, boss: int, count: int) -> bool {
    exists|i: int| 0 <= i < count && kills_boss(#[trigger] outcomes[i], boss)
}

/// Takes the marked entities out and keeps the others in their order.
pub fn despawn_marked<T: Copy>(entities: &mut Vec<T>, doomed: &Vec<bool>)
    requires
        old(entities).len() == doomed.len(),
    ensures
        final(entities)@ == survivors(old(entities)@, doomed@),
{
    let mut kept: Vec<T> = Vec::new();
    let n: usize = entities.len();
    let mut i: usize = 0;
    assert(old(entities)@.take(0) =~= Seq::<T>::empty());
    while i < n
        invariant
            i <= n,
            n == entities.len(),
            n == doomed.len(),
            entities@ == old(entities)@,
            kept@ == survivors(old(entities)@.take(i as int), doomed@.take(i as int)),
        decreases n - i,
    {
        assert(old(entities)@.take(i + 1).drop_last() =~= old(entities)@.take(i as int));
        assert(doomed@.take(i + 1).drop_last() =~= doomed@.take(i as int));
        if !doomed[i] {
            kept.push(entities[i]);
        }
        i = i + 1;
    }
    assert(old(entities)@.take(n as int) =~= old(entities)@);
    assert(doomed@.take(n as int) =~= doomed@);
    *entities = kept;
}

/// Marks the bullets that a round of hit resolution has spent: all but those
/// that fly on.
pub fn spent_bullets(outcomes: &Vec<BulletOutcome>) -> (doomed: Vec<bool>)
    ensures
        doomed.len() == outcomes.len(),
        forall|i: int| 0 <= i < outcomes.len() ==> #[trigger] doomed[i] == outcomes[i].despawns(),
{
    let mut doomed: Vec<bool> = Vec::new();
    let n: usize = outcomes.len();
    let mut i: usize = 0;
    while i < n
        invariant
            i <= n,
            n == outcomes.len(),
            doomed.len() == i,
            forall|k: int| 0 <= k < i ==> #[trigger] doomed[k] == outcomes[k].despawns(),
        decreases n - i,
    {
        doomed.push(outcomes[i].is_despawned());
        i = i + 1;
    }
    doomed
}

/// Marks, among `count` enemies, those that a round of hit resolution has
/// killed.
pub fn killed_enemies(outcomes: &Vec<BulletOutcome>, count: usize) -> (doomed: Vec<bool>)
    ensures
        doomed.len() == count,
        forall|j: int|
            0 <= j < count ==> #[trigger] doomed[j] == enemy_killed(
                outcomes@,
                j,
                outcomes.len() as int,
            ),
{
    let mut doomed: Vec<bool> = Vec::new();
    let mut j: usize = 0;
    while j < count
        invariant
            j <= count,
            doomed.len() == j,
            forall|k: int| 0 <= k < j ==> !(#[trigger] doomed[k]),
        decreases count - j,
    {
        doomed.push(false);
        j = j + 1;
    }
    let n: usize = outcomes.len();
    let mut i: usize = 0;
    while i < n
        invariant
            i <= n,
            n == outcomes.len(),
            doomed.len() == count,
            forall|k: int|
                0 <= k < count ==> #[trigger] doomed[k] == enemy_killed(outcomes@, k, i as int),
        decreases n - i,
    {
        let ghost before = doomed@;
        match outcomes[i] {
            BulletOutcome::HitEnemy { index, killed } => {
                if killed && index < count {
                    doomed[index] = true;
                }
            },
            _ => {},
        }
        assert forall|k: int| 0 <= k < count implies #[trigger] doomed[k] == enemy_killed(
            outcomes@,
            k,
            i + 1,
        ) by {
            assert(before[k] == enemy_killed(outcomes@, k, i as int));
            if kills_enemy(outcomes@[i as int], k) {
                assert(enemy_killed(outcomes@, k, i + 1));
            }
        }
        i = i + 1;
    }
    doomed
}

/// Marks, among `count` bosses, those that a round of hit resolution has
/// killed.
pub fn killed_bosses(outcomes: &Vec<BulletOutcome>, count: usize) -> (doomed: Vec<bool>)
    ensures
        doomed.len() == count,
        forall|j: int|
            0 <= j < count ==> #[trigger] doomed[j] == boss_killed(
                outcomes@,
                j,
                outcomes.len() as int,
            ),
{
    let mut doomed: Vec<bool> = Vec::new();
    let mut j: usize = 0;
    while j < count
        invariant
            j <= count,
            doomed.len() == j,
            forall|k: int| 0 <= k < j ==> !(#[trigger] doomed[k]),
        decreases count - j,
    {
        doomed.push(false);
        j = j + 1;
    }
    let n: usize = outcomes.len();
    let mut i: usize = 0;
    while i < n
        invariant
            i <= n,
            n == outcomes.len(),
            doomed.len() == count,
            forall|k: int|
                0 <= k < count ==> #[trigger] doomed[k] == boss_killed(outcomes@, k, i as int),
        decreases n - i,
    {
        let ghost before = doomed@;
        match outcomes[i] {
            BulletOutcome::HitBoss { index, killed } => {
                if killed && index < count {
                    doomed[index] = true;
                }
            },
            _ => {},
        }
        assert forall|k: int| 0 <= k < count implies #[trigger] doomed[k] == boss_killed(
            outcomes@,
            k,
            i + 1,
        ) by {
            assert(before[k] == boss_killed(outcomes@, k, i as int));
            if kills_boss(outcomes@[i as int], k) {
                assert(boss_killed(outcomes@, k, i + 1));
            }
        }
        i = i + 1;
    }
    doomed
}

/// Marks the bodies that a terrain pass has detonated.
pub fn detonated(spawned: &Vec<Option<ExplosionEntity>>) -> (doomed: Vec<bool>)
    ensures
        doomed.len() == spawned.len(),
        forall|i: int| 0 <= i < spawned.len() ==> #[trigger] doomed[i] == (spawned[i] is Some),
{
    let mut doomed: Vec<bool> = Vec::new();
    let n: usize = spawned.len();
    let mut i: usize = 0;
    while i < n
        invariant
            i <= n,
            n == spawned.len(),
            doomed.len() == i,
            forall|k: int| 0 <= k < i ==> #[trigger] doomed[k] == (spawned[k] is Some),
        decreases n - i,
    {
        doomed.push(spawned[i].is_some());
        i = i + 1;
    }
    doomed
}

/// Marks the food that the player has eaten.
pub fn eaten(bites: &Vec<Bite>) -> (doomed: Vec<bool>)
    ensures
        doomed.len() == bites.len(),
        forall|i: int| 0 <= i < bites.len() ==> #[trigger] doomed[i] == bites[i].eaten,
{
    let mut doomed: Vec<bool> = Vec::new();
    let n: usize = bites.len();
    let mut i: usize = 0;
    while i < n
        invariant
            i <= n,
            n == bites.len(),
            doomed.len() == i,
            forall|k: int| 0 <= k < i ==> #[trigger] doomed[k] == bites[k].eaten,
        decreases n - i,
    {
        doomed.push(bites[i].eaten);
        i = i + 1;
    }
    doomed
}

/// Nobody survives who was marked, and everybody does who was not: the
/// survivors are as many as the unmarked, each survivor stood unmarked in
/// the world before, and survivors keep their order.
pub proof fn lemma_survivors_were_unmarked<T>(entities: Seq<T>, doomed: Seq<bool>)
    requires
        entities.len() == doomed.len(),
    ensures
        survivors(entities, doomed).len() <= entities.len(),
        forall|k: int|
            0 <= k < survivors(entities, doomed).len() ==> exists|i: int|
                k <= i < entities.len() && !doomed[i] && entities[i] == #[trigger] survivors(
                    entities,
                    doomed,
                )[k],
        (forall|i: int| 0 <= i < doomed.len() ==> !doomed[i]) ==> survivors(entities, doomed)
            =~= entities,
        (forall|i: int| 0 <= i < doomed.len() ==> doomed[i]) ==> survivors(entities, doomed).len()
            == 0,
    decreases entities.len(),
{
    if entities.len() > 0 {
        let front = entities.drop_last();
        let marks = doomed.drop_last();
        lemma_survivors_were_unmarked(front, marks);
        let rest = survivors(front, marks);
        let all = survivors(entities, doomed);
        assert forall|k: int| 0 <= k < all.len() implies exists|i: int|
            k <= i < entities.len() && !doomed[i] && entities[i] == #[trigger] all[k] by {
            if k < rest.len() {
                assert(all[k] == rest[k]);
                let i = choose|i: int| k <= i < front.len() && !marks[i] && front[i] == rest[k];
                assert(k <= i < entities.len() && !doomed[i] && entities[i] == all[k]);
            } else {
                let i = entities.len() - 1;
                assert(k <= i < entities.len() && !doomed[i] && entities[i] == all[k]);
            }
        }
    }
}

} // verus!
