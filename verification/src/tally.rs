//! Weighted counts over sequences of entities, and how they change when one
//! entity changes.
use vstd::prelude::*;
use crate::world::{Entity, EntityType};

verus! {

/// The sum of `w` over the entities of `es`.
pub open spec fn total(es: Seq<Entity>, w: spec_fn(Entity) -> nat) -> nat
    decreases es.len(),
{
    if es.len() == 0 {
        0
    } else {
        total(es.drop_last(), w) + w(es.last())
    }
}

/// 1 for an object that has been collected.
pub open spec fn collected_weight() -> spec_fn(Entity) -> nat {
    |e: Entity| match e.entity_type {
        EntityType::Object { collected } => if collected { 1nat } else { 0nat },
        _ => 0nat,
    }
}

/// 1 for any object.
pub open spec fn object_weight() -> spec_fn(Entity) -> nat {
    |e: Entity| match e.entity_type {
        EntityType::Object { .. } => 1nat,
        _ => 0nat,
    }
}

/// 1 for a chest that has been opened.
pub open spec fn opened_weight() -> spec_fn(Entity) -> nat {
    |e: Entity| match e.entity_type {
        EntityType::Chest { opened } => if opened { 1nat } else { 0nat },
        _ => 0nat,
    }
}

/// 1 for any chest.
pub open spec fn chest_weight() -> spec_fn(Entity) -> nat {
    |e: Entity| match e.entity_type {
        EntityType::Chest { .. } => 1nat,
        _ => 0nat,
    }
}

/// The stamina a food that has not been eaten yet would restore.
pub open spec fn pending_food_weight() -> spec_fn(Entity) -> nat {
    |e: Entity| match e.entity_type {
        EntityType::Food { eaten, kind } => if eaten { 0nat } else { kind.stamina_of() as nat },
        _ => 0nat,
    }
}

/// Replacing one entity changes the total by the difference of the two weights.
pub proof fn lemma_total_update(es: Seq<Entity>, i: int, e: Entity, w: spec_fn(Entity) -> nat)
    requires
        0 <= i < es.len(),
    ensures
        total(es.update(i, e), w) + w(es[i]) == total(es, w) + w(e),
    decreases es.len(),
{
    let es2 = es.update(i, e);
    if i == es.len() - 1 {
        assert(es2.drop_last() =~= es.drop_last());
    } else {
        assert(es2.drop_last() =~= es.drop_last().update(i, e));
        lemma_total_update(es.drop_last(), i, e, w);
    }
}

/// Appending an entity adds its weight.
pub proof fn lemma_total_push(es: Seq<Entity>, e: Entity, w: spec_fn(Entity) -> nat)
    ensures
        total(es.push(e), w) == total(es, w) + w(e),
{
    assert(es.push(e).drop_last() =~= es);
}

/// A single weight never exceeds the total.
pub proof fn lemma_weight_le_total(es: Seq<Entity>, i: int, w: spec_fn(Entity) -> nat)
    requires
        0 <= i < es.len(),
    ensures
        w(es[i]) <= total(es, w),
    decreases es.len(),
{
    if i < es.len() - 1 {
        lemma_weight_le_total(es.drop_last(), i, w);
    }
}

/// A total of weights that are each at most one is at most the length.
pub proof fn lemma_total_le_len(es: Seq<Entity>, w: spec_fn(Entity) -> nat)
    requires
        forall|e: Entity| #[trigger] w(e) <= 1,
    ensures
        total(es, w) <= es.len(),
    decreases es.len(),
{
    if es.len() > 0 {
        lemma_total_le_len(es.drop_last(), w);
    }
}

/// A weight that is pointwise below another has a total below the other's.
pub proof fn lemma_total_mono(es: Seq<Entity>, w1: spec_fn(Entity) -> nat, w2: spec_fn(Entity) -> nat)
    requires
        forall|e: Entity| #[trigger] w1(e) <= w2(e),
    ensures
        total(es, w1) <= total(es, w2),
    decreases es.len(),
{
    if es.len() > 0 {
        lemma_total_mono(es.drop_last(), w1, w2);
    }
}

} // verus!

verus! {

/// 1 for any food.
pub open spec fn food_weight() -> spec_fn(Entity) -> nat {
    |e: Entity| match e.entity_type {
        EntityType::Food { .. } => 1nat,
        _ => 0nat,
    }
}

/// A total of weights that are each zero is zero.
pub proof fn lemma_total_zero(es: Seq<Entity>, w: spec_fn(Entity) -> nat)
    requires
        forall|i: int| 0 <= i < es.len() ==> #[trigger] w(es[i]) == 0,
    ensures
        total(es, w) == 0,
    decreases es.len(),
{
    if es.len() > 0 {
        lemma_total_zero(es.drop_last(), w);
    }
}

} // verus!
