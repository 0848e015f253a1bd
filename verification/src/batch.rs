//! The response batch: the envelopes of one turn, in causal order.
//!
//! A batch is read whole or not at all: one record that stands for no
//! envelope rejects the list it is in, so that no broken scene is shown.

use vstd::prelude::*;
use crate::envelope::{
    decoded_envelope, lemma_unknown_token_is_schema_mismatch, GameEventDTO, GameEventView,
};
use crate::error::{EnvelopeField, SchemaError, SchemaFault};
use crate::json::{trees_of, JsonTree, JsonValue};
use crate::schema::SchemaVersion;
use crate::vocabulary::CommandType;

verus! {

/// The value of each envelope of a batch.
pub open spec fn events_of(batch: Seq<GameEventDTO>) -> Seq<GameEventView> {
    Seq::new(batch.len(), |i: int| batch[i]@)
}

/// Whether the record at place `i` is the first of the batch that stands for
/// no envelope.
pub open spec fn first_fault_at(records: Seq<JsonTree>, version: SchemaVersion, i: int) -> bool {
    &&& 0 <= i < records.len()
    &&& decoded_envelope(records[i], version) is Err
    &&& forall|j: int| 0 <= j < i ==> (#[trigger] decoded_envelope(records[j], version)) is Ok
}

/// The batch that a list of records stands for: the envelope of each record,
/// in the order of the list. One record that stands for no envelope rejects
/// the whole list, with what is wrong with the first such record.
pub open spec fn decoded_batch(records: Seq<JsonTree>, version: SchemaVersion) -> Result<
    Seq<GameEventView>,
    SchemaFault,
> {
    if exists|i: int| first_fault_at(records, version, i) {
        let first = choose|i: int| first_fault_at(records, version, i);
        Err(decoded_envelope(records[first], version)->Err_0)
    } else {
        Ok(Seq::new(records.len(), |i: int| decoded_envelope(records[i], version)->Ok_0))
    }
}

/// A batch has at most one first fault.
pub proof fn lemma_first_fault_unique(
    records: Seq<JsonTree>,
    version: SchemaVersion,
    i: int,
    j: int,
)
    requires
        first_fault_at(records, version, i),
        first_fault_at(records, version, j),
    ensures
        i == j,
{
    if i < j {
        assert(decoded_envelope(records[i], version) is Ok);
    } else if j < i {
        assert(decoded_envelope(records[j], version) is Ok);
    }
}

/// One record with a command token outside the vocabulary rejects the batch
/// that holds it: no envelope of the batch comes out. Where that record is
/// the first faulty one, the batch is rejected as a schema mismatch that
/// carries the token.
pub proof fn lemma_unknown_token_rejects_batch(
    records: Seq<JsonTree>,
    version: SchemaVersion,
    i: int,
    token: Seq<char>,
)
    requires
        0 <= i < records.len(),
        records[i].field(EnvelopeField::CommandType.name(version)) == Some(JsonTree::Text(token)),
        CommandType::parse(token) is None,
    ensures
        decoded_envelope(records[i], version) == Err::<GameEventView, SchemaFault>(
            SchemaFault::SchemaMismatch { token },
        ),
        decoded_batch(records, version) is Err,
        first_fault_at(records, version, i) ==> decoded_batch(records, version) == Err::<
            Seq<GameEventView>,
            SchemaFault,
        >(SchemaFault::SchemaMismatch { token }),
{
    lemma_unknown_token_is_schema_mismatch(records[i], version, token);
    lemma_batch_fault(records, version, i);
    if first_fault_at(records, version, i) {
        let first = choose|k: int| first_fault_at(records, version, k);
        lemma_first_fault_unique(records, version, first, i);
    }
}

/// A batch with a faulty record has a first faulty record.
pub proof fn lemma_batch_fault(records: Seq<JsonTree>, version: SchemaVersion, i: int)
    requires
        0 <= i < records.len(),
        decoded_envelope(records[i], version) is Err,
    ensures
        exists|k: int| first_fault_at(records, version, k),
        decoded_batch(records, version) is Err,
    decreases i,
{
    if forall|j: int| 0 <= j < i ==> (#[trigger] decoded_envelope(records[j], version)) is Ok {
        assert(first_fault_at(records, version, i));
    } else {
        let earlier = choose|j: int|
            0 <= j < i && !((#[trigger] decoded_envelope(records[j], version)) is Ok);
        lemma_batch_fault(records, version, earlier);
    }
}

/// A batch is accepted exactly when each of its records stands for an
/// envelope, and then holds the envelopes in the order of the records.
pub proof fn lemma_batch_accepted(records: Seq<JsonTree>, version: SchemaVersion)
    ensures
        decoded_batch(records, version) is Ok <==> forall|i: int|
            0 <= i < records.len() ==> (#[trigger] decoded_envelope(records[i], version)) is Ok,
        decoded_batch(records, version) matches Ok(events) ==> events.len() == records.len()
            && forall|i: int|
            0 <= i < records.len() ==> decoded_envelope(records[i], version) == Ok::<
                GameEventView,
                SchemaFault,
            >(#[trigger] events[i]),
{
    if exists|k: int| first_fault_at(records, version, k) {
        let k = choose|k: int| first_fault_at(records, version, k);
        assert(!(decoded_envelope(records[k], version) is Ok));
    } else {
        assert forall|i: int| 0 <= i < records.len() implies (#[trigger] decoded_envelope(
            records[i],
            version,
        )) is Ok by {
            if decoded_envelope(records[i], version) is Err {
                lemma_batch_fault(records, version, i);
            }
        }
    }
}

/// Reads a list of records under a schema version, in order. The result is
/// the batch that the list stands for; the first record that stands for no
/// envelope rejects the whole list.
pub fn decode_batch(records: &Vec<JsonValue>, version: SchemaVersion) -> (res: Result<
    Vec<GameEventDTO>,
    SchemaError,
>)
    ensures
        match decoded_batch(trees_of(records@), version) {
            Ok(events) => res matches Ok(batch) && events_of(batch@) == events,
            Err(fault) => res matches Err(e) && e@ == fault,
        },
        res matches Ok(batch) ==> forall|i: int|
            0 <= i < batch.len() ==> (#[trigger] batch[i]).well_formed(),
{
    let ghost trees = trees_of(records@);
    let mut batch: Vec<GameEventDTO> = Vec::new();
    let mut i: usize = 0;
    while i < records.len()
        invariant
            i <= records.len(),
            batch.len() == i,
            trees == trees_of(records@),
            forall|j: int|
                0 <= j < i ==> (#[trigger] decoded_envelope(trees[j], version)) == Ok::<
                    GameEventView,
                    SchemaFault,
                >(batch[j]@),
            forall|j: int| 0 <= j < i ==> (#[trigger] batch[j]).well_formed(),
        decreases records.len() - i,
    {
        match GameEventDTO::from_record(&records[i], version) {
            Ok(event) => {
                batch.push(event);
            },
            Err(fault) => {
                proof {
                    assert(first_fault_at(trees, version, i as int));
                    let first = choose|k: int| first_fault_at(trees, version, k);
                    lemma_first_fault_unique(trees, version, first, i as int);
                }
                return Err(fault);
            },
        }
        i += 1;
    }
    proof {
        assert forall|k: int| !first_fault_at(trees, version, k) by {
            if 0 <= k < trees.len() {
                assert(decoded_envelope(trees[k], version) is Ok);
            }
        }
        assert(events_of(batch@) =~= decoded_batch(trees, version)->Ok_0);
    }
    Ok(batch)
}

} // verus!
