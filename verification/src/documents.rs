//! Documents for the search index: the records of a JSON array, each given
//! its position in the array as identifier.

use crate::decimal::{decimal_digits, lemma_decimal_digits_injective};
use crate::json::{
    insert_number, object_members, parse_objects, parsed_objects, render_objects,
    rendered_objects, JsonObject,
};
use vstd::prelude::*;

verus! {

/// The largest size, in bytes, that the index on disk may take: 10 MiB.
pub const INDEX_MAP_SIZE: usize = 10 * 1024 * 1024;

/// The key under which a document carries its identifier.
pub open spec fn id_key() -> Seq<char> {
    "id"@
}

/// `document` is `record` with `position` as its identifier: the member
/// `id` holds the number `position`, whatever `record` held there, and every
/// other member is as in `record`.
pub open spec fn identified(record: JsonObject, position: nat, document: JsonObject) -> bool {
    object_members(document) == object_members(record).insert(id_key(), decimal_digits(position))
}

/// `document` carries the number `position` as its identifier.
pub open spec fn carries_id(document: JsonObject, position: nat) -> bool {
    &&& object_members(document).dom().contains(id_key())
    &&& object_members(document)[id_key()] == decimal_digits(position)
}

/// `documents` are the `records`, in the same order, each identified by its
/// position.
pub open spec fn positions_assigned(records: Seq<JsonObject>, documents: Seq<JsonObject>) -> bool {
    &&& documents.len() == records.len()
    &&& forall|n: int|
        0 <= n < records.len() ==> identified(#[trigger] records[n], n as nat, documents[n])
}

/// Documents at different positions carry different identifiers.
pub proof fn lemma_identifiers_distinct(
    records: Seq<JsonObject>,
    documents: Seq<JsonObject>,
    m: int,
    n: int,
)
    requires
        positions_assigned(records, documents),
        0 <= m < documents.len(),
        0 <= n < documents.len(),
        m != n,
    ensures
        object_members(documents[m])[id_key()] != object_members(documents[n])[id_key()],
{
    assert(identified(records[m], m as nat, documents[m]));
    assert(identified(records[n], n as nat, documents[n]));
    if decimal_digits(m as nat) == decimal_digits(n as nat) {
        lemma_decimal_digits_injective(m as nat, n as nat);
    }
}

/// The identifiers depend on the positions alone: two runs over the same
/// records give documents with the same members, identifiers included.
pub proof fn lemma_assignment_determined(
    records: Seq<JsonObject>,
    first: Seq<JsonObject>,
    second: Seq<JsonObject>,
)
    requires
        positions_assigned(records, first),
        positions_assigned(records, second),
    ensures
        first.len() == second.len(),
        forall|n: int|
            0 <= n < first.len() ==> object_members(#[trigger] first[n]) == object_members(
                second[n],
            ),
{
    assert forall|n: int| 0 <= n < first.len() implies object_members(#[trigger] first[n])
        == object_members(second[n]) by {
        assert(identified(records[n], n as nat, first[n]));
        assert(identified(records[n], n as nat, second[n]));
    }
}

/// Assigning identifiers to documents that already carry them changes
/// nothing: every member, the identifier included, stays as it was.
pub proof fn lemma_assignment_idempotent(
    records: Seq<JsonObject>,
    once: Seq<JsonObject>,
    twice: Seq<JsonObject>,
)
    requires
        positions_assigned(records, once),
        positions_assigned(once, twice),
    ensures
        positions_assigned(records, twice),
        forall|n: int|
            0 <= n < once.len() ==> object_members(#[trigger] twice[n]) == object_members(
                once[n],
            ),
{
    assert forall|n: int| 0 <= n < once.len() implies object_members(#[trigger] twice[n])
        == object_members(once[n]) && identified(records[n], n as nat, twice[n]) by {
        assert(identified(records[n], n as nat, once[n]));
        assert(identified(once[n], n as nat, twice[n]));
    }
}

/// Why a document set could not be prepared.
#[derive(Debug)]
pub enum DocumentsError {
    /// The input is not a JSON array of objects.
    Malformed(serde_json::Error),
    /// The identified documents could not be written out as JSON.
    Unwritable(serde_json::Error),
}

/// Gives each record its zero-based position as identifier, replacing any
/// identifier it had. The record at position `n` carries `n` afterwards,
/// whatever it holds, and keeps its other members.
pub fn assign_ids(records: &mut Vec<JsonObject>)
    ensures
        positions_assigned(old(records)@, final(records)@),
        forall|n: int|
            0 <= n < final(records)@.len() ==> carries_id(#[trigger] final(records)@[n], n as nat),
{
    let mut position: usize = 0;
    while position < records.len()
        invariant
            records.len() == old(records).len(),
            position <= records.len(),
            forall|n: int|
                0 <= n < position ==> identified(
                    #[trigger] old(records)@[n],
                    n as nat,
                    records@[n],
                ),
            forall|n: int| position <= n < records.len() ==> records@[n] == old(records)@[n],
        decreases records.len() - position,
    {
        insert_number(&mut records[position], "id", position);
        position += 1;
    }
    proof {
        assert forall|n: int| 0 <= n < records@.len() implies carries_id(
            #[trigger] records@[n],
            n as nat,
        ) by {
            assert(identified(old(records)@[n], n as nat, records@[n]));
        }
    }
}

/// `outcome` is what writing out the identified records of `input` gives:
/// `input` parses as a list of records, and `outcome` is the rendering of
/// documents that are those records, each identified by its position.
pub open spec fn written_from(input: Seq<u8>, outcome: Result<Seq<char>, serde_json::Error>) -> bool {
    exists|documents: Seq<JsonObject>|
        parsed_objects(input) is Ok && positions_assigned(parsed_objects(input)->Ok_0, documents)
            && #[trigger] rendered_objects(documents) == outcome
}

/// Reads a JSON array of records and writes it out again as the compact
/// text of a JSON array of documents: the same records in the same order,
/// each identified by its position in the array.
///
/// The input is rejected as `Malformed` where it is not a JSON array of
/// objects. `Unwritable` hands on an error of the JSON writer.
pub fn documents_from_json(input: &[u8]) -> (result: Result<String, DocumentsError>)
    ensures
        match result {
            Ok(text) => written_from(input@, Ok(text@)),
            Err(DocumentsError::Malformed(e)) => parsed_objects(input@) == Err::<
                Seq<JsonObject>,
                serde_json::Error,
            >(e),
            Err(DocumentsError::Unwritable(e)) => written_from(input@, Err(e)),
        },
{
    let mut records = match parse_objects(input) {
        Ok(records) => records,
        Err(e) => {
            return Err(DocumentsError::Malformed(e));
        },
    };
    assign_ids(&mut records);
    match render_objects(&records) {
        Ok(text) => Ok(text),
        Err(e) => Err(DocumentsError::Unwritable(e)),
    }
}

} // verus!
