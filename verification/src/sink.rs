//! The result sink: the bytes and the file name of one persisted harvest.
//!
//! The library fixes the entire output: the file name is derived from the
//! set name alone, and the document's bytes are a function of the merged
//! records and their count, so a re-run with identical remote data
//! overwrites the file with identical bytes.
use vstd::prelude::*;
use crate::json::JsonVal;
use crate::json::JsonValue;
use crate::json::spec_encode;
use crate::model::HarvestResult;
use crate::model::spec_decimal;
use crate::walker::records_models;
use crate::text::{
    json_ext, key_context, key_count, key_next_link, key_value, spec_json_ext, spec_key_context,
    spec_key_count, spec_key_next_link, spec_key_value,
};

verus! {

/// Each record, as the object value it is written as.
pub open spec fn spec_record_values(records: Seq<Seq<(Seq<u8>, JsonVal)>>) -> Seq<JsonVal> {
    Seq::new(
        records.len(),
        |i: int|
            if 0 <= i < records.len() {
                JsonVal::Object(records[i])
            } else {
                JsonVal::Null
            },
    )
}

/// The document a harvest is persisted as: an empty context annotation, the
/// record count, no next cursor, and every merged record in order.
pub open spec fn spec_harvest_doc(records: Seq<Seq<(Seq<u8>, JsonVal)>>, count: int) -> JsonVal {
    JsonVal::Object(
        seq![
            (spec_key_context(), JsonVal::Str(Seq::empty())),
            (spec_key_count(), JsonVal::Number(spec_decimal(count))),
            (spec_key_next_link(), JsonVal::Null),
            (spec_key_value(), JsonVal::Array(spec_record_values(records))),
        ],
    )
}

/// The exact bytes a harvest is persisted as.
pub open spec fn spec_persist_bytes(r: HarvestResult) -> Seq<u8> {
    spec_encode(spec_harvest_doc(records_models(r.records@), r.record_count as int))
}

/// The output file's name: the set name with the fixed extension.
pub open spec fn spec_file_name(set_name: Seq<u8>) -> Seq<u8> {
    set_name + spec_json_ext()
}

/// Builds the output file name for a collection.
pub fn file_name(set_name: &Vec<u8>) -> (r: Vec<u8>)
    ensures
        r@ == spec_file_name(set_name@),
{
    let mut r = crate::json::clone_bytes(set_name);
    let ext = json_ext();
    crate::json::push_bytes(&mut r, &ext);
    r
}

/// Serializes a merged harvest: exactly `spec_persist_bytes`, so equal
/// results give byte-identical output.
pub fn persist_bytes(result: &HarvestResult) -> (r: Vec<u8>)
    ensures
        r@ == spec_persist_bytes(*result),
{
    let ghost recs = records_models(result.records@);
    let mut values: Vec<JsonValue> = Vec::new();
    let mut i: usize = 0;
    while i < result.records.len()
        invariant
            0 <= i <= result.records.len(),
            recs == records_models(result.records@),
            recs.len() == result.records.len(),
            values@.len() == i,
            forall|j: int| 0 <= j < i ==> values@[j].model() == JsonVal::Object(recs[j]),
        decreases result.records.len() - i,
    {
        let fields = crate::json::clone_members(&result.records[i].fields);
        let rec_value = JsonValue::Object(fields);
        proof {
            crate::json::lemma_model_object(rec_value);
        }
        values.push(rec_value);
        i += 1;
    }
    let mut count_lexeme: Vec<u8> = Vec::new();
    crate::model::push_decimal(&mut count_lexeme, result.record_count as u64);
    let mut members: Vec<(Vec<u8>, JsonValue)> = Vec::new();
    members.push((key_context(), JsonValue::Str(Vec::new())));
    members.push((key_count(), JsonValue::Number(count_lexeme)));
    members.push((key_next_link(), JsonValue::Null));
    let array = JsonValue::Array(values);
    proof {
        crate::json::lemma_model_array(array);
    }
    members.push((key_value(), array));
    let doc = JsonValue::Object(members);
    proof {
        crate::json::lemma_model_object(doc);
        assert(crate::json::seq_models(doc->Object_0@[3].1->Array_0@) =~= spec_record_values(
            recs,
        ));
        assert(crate::json::member_models(doc->Object_0@) =~= spec_harvest_doc(
            recs,
            result.record_count as int,
        )->Object_0);
    }
    crate::json::encode_document(&doc)
}

/// Persisting is idempotent: the output bytes and the file name are
/// functions of the merged result alone, so persisting an unchanged result
/// twice writes byte-identical content to the same file.
pub proof fn lemma_persist_idempotent(a: HarvestResult, b: HarvestResult)
    requires
        a.set_name@ == b.set_name@,
        records_models(a.records@) == records_models(b.records@),
        a.record_count == b.record_count,
    ensures
        spec_persist_bytes(a) == spec_persist_bytes(b),
        spec_file_name(a.set_name@) == spec_file_name(b.set_name@),
{
}

} // verus!
