//! Records of live entities, one per entity id, in the order in which the ids first appeared.

use crate::protocol::EntityId;
use crate::search::first_where;
use crate::search::lemma_first_where;
use vstd::prelude::*;

verus! {

/// A record that describes one entity.
pub trait EntityRecord: Copy {
    /// The entity this record describes.
    spec fn entity_of(&self) -> EntityId;

    /// The entity this record describes.
    fn entity_id(&self) -> (id: EntityId)
        ensures
            id == self.entity_of(),
    ;

    /// The record of an entity of which nothing is known yet.
    spec fn fresh_spec(id: EntityId) -> Self;

    /// The record of an entity of which nothing is known yet.
    fn fresh(id: EntityId) -> (record: Self)
        ensures
            record == Self::fresh_spec(id),
    ;

    /// A fresh record describes the entity it was made for.
    proof fn lemma_fresh(id: EntityId)
        ensures
            Self::fresh_spec(id).entity_of() == id,
    ;
}

/// The position at which the record of `id` stands in `with_entity(records, id)`.
pub open spec fn slot_of<T: EntityRecord>(records: Seq<T>, id: EntityId) -> int {
    match first_where(records, describes::<T>(id)) {
        Some(i) => i,
        None => records.len() as int,
    }
}

/// `records`, with a fresh record of `id` at the end where `records` holds none of `id`.
pub open spec fn with_entity<T: EntityRecord>(records: Seq<T>, id: EntityId) -> Seq<T> {
    if first_where(records, describes::<T>(id)) is Some {
        records
    } else {
        records.push(T::fresh_spec(id))
    }
}

/// Finds the record of `id`, adding a fresh one at the end where there is none.
pub fn slot_or_create<T: EntityRecord>(records: &mut Vec<T>, id: EntityId) -> (slot: usize)
    ensures
        final(records)@ == with_entity(old(records)@, id),
        slot == slot_of(old(records)@, id),
        slot < final(records)@.len(),
        final(records)@[slot as int].entity_of() == id,
{
    proof {
        lemma_first_where(records@, describes::<T>(id));
        T::lemma_fresh(id);
    }
    let found = find_entity(records, id);
    match found {
        Some(slot) => {
            proof {
                let at = first_where(records@, describes::<T>(id))->0;
                assert(0 <= at < records@.len());
                assert(describes::<T>(id)(records@[at]));
                assert(slot == at);
            }
            slot
        },
        None => {
            let slot = records.len();
            records.push(T::fresh(id));
            slot
        },
    }
}

/// Adding the record of an entity where it is missing keeps the records distinct and the
/// earlier records in place, and leaves exactly one record of that entity.
pub proof fn lemma_with_entity<T: EntityRecord>(records: Seq<T>, id: EntityId)
    requires
        ids_distinct(records),
    ensures
        ids_distinct(with_entity(records, id)),
        count_of(with_entity(records, id), id) == 1,
        0 <= slot_of(records, id) < with_entity(records, id).len(),
        with_entity(records, id)[slot_of(records, id)].entity_of() == id,
        first_where(with_entity(records, id), describes::<T>(id)) == Some(slot_of(records, id)),
        forall|i: int| 0 <= i < records.len() ==> #[trigger] with_entity(records, id)[i] == records[i],
        first_where(records, describes::<T>(id)) is None ==> with_entity(records, id)[slot_of(
            records,
            id,
        )] == T::fresh_spec(id),
{
    lemma_first_where(records, describes::<T>(id));
    T::lemma_fresh(id);
    let after = with_entity(records, id);
    if first_where(records, describes::<T>(id)) is None {
        assert(after.drop_last() =~= records);
        assert forall|i: int, j: int| 0 <= i < j < after.len() implies (
        #[trigger] after[i]).entity_of() != (#[trigger] after[j]).entity_of() by {
            if j == after.len() - 1 {
                assert(!describes::<T>(id)(records[i]));
            }
        }
    }
    lemma_count_distinct(after, id);
    lemma_first_where(after, describes::<T>(id));
    let found = first_where(after, describes::<T>(id));
    let slot = slot_of(records, id);
    assert(describes::<T>(id)(after[slot]));
    assert(found is Some);
    if found->0 < slot {
        assert(after[found->0].entity_of() != after[slot].entity_of());
    }
}

/// Whether a record describes the entity `id`.
pub open spec fn describes<T: EntityRecord>(id: EntityId) -> spec_fn(T) -> bool {
    |record: T| record.entity_of() == id
}

/// Whether a record describes another entity than `id`.
pub open spec fn describes_other<T: EntityRecord>(id: EntityId) -> spec_fn(T) -> bool {
    |record: T| record.entity_of() != id
}

/// Whether no two records of `records` describe the same entity.
pub open spec fn ids_distinct<T: EntityRecord>(records: Seq<T>) -> bool {
    forall|i: int, j: int|
        0 <= i < j < records.len() ==> (#[trigger] records[i]).entity_of() != (
        #[trigger] records[j]).entity_of()
}

/// The number of records of `records` that describe the entity `id`.
pub open spec fn count_of<T: EntityRecord>(records: Seq<T>, id: EntityId) -> nat
    decreases records.len(),
{
    if records.len() == 0 {
        0
    } else {
        count_of(records.drop_last(), id) + if records.last().entity_of() == id {
            1nat
        } else {
            0nat
        }
    }
}

/// The position of the record of `id` in `records`.
pub fn find_entity<T: EntityRecord>(records: &Vec<T>, id: EntityId) -> (found: Option<usize>)
    ensures
        match found {
            Some(i) => {
                &&& i < records@.len()
                &&& records@[i as int].entity_of() == id
                &&& first_where(records@, describes::<T>(id)) == Some(i as int)
            },
            None => first_where(records@, describes::<T>(id)) is None,
        },
{
    let mut i: usize = 0;
    while i < records.len()
        invariant
            i <= records.len(),
            forall|j: int| 0 <= j < i ==> (#[trigger] records@[j]).entity_of() != id,
        decreases records.len() - i,
    {
        if records[i].entity_id() == id {
            proof {
                lemma_first_where(records@, describes::<T>(id));
            }
            return Some(i);
        }
        i += 1;
    }
    proof {
        lemma_first_where(records@, describes::<T>(id));
    }
    None
}

/// Drops every record of the entity `id`, keeping the others in their order.
pub fn remove_entity<T: EntityRecord>(records: &mut Vec<T>, id: EntityId)
    ensures
        final(records)@ == old(records)@.filter(describes_other::<T>(id)),
{
    let mut kept: Vec<T> = Vec::new();
    let mut i: usize = 0;
    while i < records.len()
        invariant
            i <= records.len(),
            records@ == old(records)@,
            kept@ == records@.take(i as int).filter(describes_other::<T>(id)),
        decreases records.len() - i,
    {
        let record = records[i];
        proof {
            reveal(Seq::filter);
            assert(records@.take(i + 1).drop_last() =~= records@.take(i as int));
        }
        if record.entity_id() != id {
            kept.push(record);
        }
        i += 1;
    }
    proof {
        assert(records@.take(i as int) =~= records@);
    }
    *records = kept;
}

/// Dropping the records of `id` leaves none of `id`, keeps the records distinct, and keeps the
/// first record where it was if it describes another entity.
pub proof fn lemma_remove_entity<T: EntityRecord>(records: Seq<T>, id: EntityId)
    ensures
        first_where(records.filter(describes_other::<T>(id)), describes::<T>(id)) is None,
        count_of(records.filter(describes_other::<T>(id)), id) == 0,
        ids_distinct(records) ==> ids_distinct(records.filter(describes_other::<T>(id))),
        records.len() > 0 && records[0].entity_of() != id ==> records.filter(
            describes_other::<T>(id),
        ).len() > 0 && records.filter(describes_other::<T>(id))[0] == records[0],
        forall|other: EntityId|
            other != id ==> count_of(records.filter(describes_other::<T>(id)), other)
                == #[trigger] count_of(records, other),
    decreases records.len(),
{
    reveal(Seq::filter);
    let keep = describes_other::<T>(id);
    let kept = records.filter(keep);
    if records.len() > 0 {
        let front = records.drop_last();
        lemma_remove_entity(front, id);
        let front_kept = front.filter(keep);
        lemma_filter_members(front, id);
        if keep(records.last()) {
            assert(kept == front_kept.push(records.last()));
            assert(kept.drop_last() =~= front_kept);
            if ids_distinct(records) {
                assert forall|i: int, j: int| 0 <= i < j < front.len() implies (
                #[trigger] front[i]).entity_of() != (#[trigger] front[j]).entity_of() by {
                    assert(front[i] == records[i] && front[j] == records[j]);
                }
                assert forall|i: int, j: int| 0 <= i < j < kept.len() implies (
                #[trigger] kept[i]).entity_of() != (#[trigger] kept[j]).entity_of() by {
                    if j == kept.len() - 1 {
                        let k = choose|k: int| 0 <= k < front.len() && front[k] == front_kept[i];
                        assert(records[k] == front[k]);
                        assert(records[k].entity_of() != records[records.len() - 1].entity_of());
                    } else {
                        assert(front_kept[i] == kept[i] && front_kept[j] == kept[j]);
                    }
                }
            }
            if front.len() > 0 {
                assert(front[0] == records[0]);
            }
            lemma_first_where(kept, describes::<T>(id));
            lemma_first_where(front_kept, describes::<T>(id));
            assert forall|other: EntityId| other != id implies count_of(kept, other)
                == #[trigger] count_of(records, other) by {
                assert(count_of(front_kept, other) == count_of(front, other));
            }
        } else {
            assert(kept == front_kept);
            if ids_distinct(records) {
                assert forall|i: int, j: int| 0 <= i < j < front.len() implies (
                #[trigger] front[i]).entity_of() != (#[trigger] front[j]).entity_of() by {
                    assert(front[i] == records[i] && front[j] == records[j]);
                }
            }
            if front.len() > 0 {
                assert(front[0] == records[0]);
            }
            assert forall|other: EntityId| other != id implies count_of(kept, other)
                == #[trigger] count_of(records, other) by {
                assert(count_of(front_kept, other) == count_of(front, other));
            }
        }
    }
}

/// Every record kept when the records of `id` are dropped was among the records before.
pub proof fn lemma_filter_members<T: EntityRecord>(records: Seq<T>, id: EntityId)
    ensures
        forall|i: int|
            0 <= i < records.filter(describes_other::<T>(id)).len() ==> exists|k: int|
                0 <= k < records.len() && records[k] == #[trigger] records.filter(
                    describes_other::<T>(id),
                )[i],
    decreases records.len(),
{
    reveal(Seq::filter);
    let keep = describes_other::<T>(id);
    let kept = records.filter(keep);
    if records.len() > 0 {
        let front = records.drop_last();
        lemma_filter_members(front, id);
        let front_kept = front.filter(keep);
        assert forall|i: int| 0 <= i < kept.len() implies exists|k: int|
            0 <= k < records.len() && records[k] == #[trigger] kept[i] by {
            if i < front_kept.len() {
                assert(kept[i] == front_kept[i]);
                let k = choose|k: int| 0 <= k < front.len() && front[k] == front_kept[i];
                assert(records[k] == front[k]);
            } else {
                assert(kept[i] == records[records.len() - 1]);
            }
        }
    }
}

/// Records that are distinct hold at most one record of an entity; they hold exactly one where
/// the entity is found.
pub proof fn lemma_count_distinct<T: EntityRecord>(records: Seq<T>, id: EntityId)
    requires
        ids_distinct(records),
    ensures
        count_of(records, id) == (if first_where(records, describes::<T>(id)) is Some {
            1nat
        } else {
            0nat
        }),
    decreases records.len(),
{
    if records.len() > 0 {
        let front = records.drop_last();
        assert forall|i: int, j: int| 0 <= i < j < front.len() implies (
        #[trigger] front[i]).entity_of() != (#[trigger] front[j]).entity_of() by {
            assert(front[i] == records[i] && front[j] == records[j]);
        }
        lemma_count_distinct(front, id);
        lemma_first_where(front, describes::<T>(id));
        match first_where(front, describes::<T>(id)) {
            Some(i) => {
                assert(front[i] == records[i]);
                assert(records[i].entity_of() != records[records.len() - 1].entity_of());
            },
            None => {},
        }
    }
}

} // verus!
