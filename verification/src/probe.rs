//! The access probe: a best-effort, two-step dependent lookup of the rights
//! an actor holds on one sample record of a harvested collection.
//!
//! The sample is always the first merged record, and a harvest with no
//! records is never probed. The probe's response is an envelope whose
//! `accessInfo` member is itself a JSON document carried as a string: that
//! inner document is decoded in a second, separate step.
use vstd::prelude::*;
use crate::json::JsonVal;
use crate::json::JsonValue;
use crate::json::clone_bytes;
use crate::model::ErrorKind;
use crate::model::HarvestResult;
use crate::model::InnerAcessInfo;
use crate::model::OuterAcessInfo;
use crate::model::Record;
use crate::model::members_get;
use crate::model::spec_lookup;
use crate::parse::parse_document;
use crate::parse::spec_parse_document;
use crate::text::{
    access_info_call, api_data_path, entity_name_infix, key_access_info, key_context, key_granted,
    probe_suffix, systemusers_open, spec_access_info_call, spec_api_data_path,
    spec_entity_name_infix, spec_key_access_info, spec_key_context, spec_key_granted,
    spec_probe_suffix, spec_systemusers_open,
};

verus! {

/// The record the probe samples: the first merged record, and none at all
/// when the harvest is empty — an empty harvest never triggers a probe.
pub fn sample_record(result: &HarvestResult) -> (r: Option<&Record>)
    ensures
        r is Some <==> result.records@.len() > 0,
        r matches Some(rec) ==> *rec == result.records@[0],
        result.wf() && result.record_count == 0 ==> r is None,
{
    if result.records.len() == 0 {
        None
    } else {
        Some(&result.records[0])
    }
}

/// The sample record's identity: the string under the collection's primary
/// id attribute. Absence and a non-string value are distinct errors, and
/// both leave the harvest itself untouched.
pub fn extract_primary_id(rec: &Record, primary_id_attribute: &Vec<u8>) -> (r: Result<
    Vec<u8>,
    ErrorKind,
>)
    ensures
        r matches Ok(id) ==> spec_lookup(rec.model(), primary_id_attribute@) == Some(
            JsonVal::Str(id@),
        ),
        r == Err::<Vec<u8>, ErrorKind>(ErrorKind::MissingPrimaryId) <==> spec_lookup(
            rec.model(),
            primary_id_attribute@,
        ) is None,
        r == Err::<Vec<u8>, ErrorKind>(ErrorKind::NonStringPrimaryId) <==> (spec_lookup(
            rec.model(),
            primary_id_attribute@,
        ) matches Some(v) && !(v is Str)),
{
    match rec.get(primary_id_attribute) {
        None => Err(ErrorKind::MissingPrimaryId),
        Some(v) => match v {
            JsonValue::Str(s) => Ok(clone_bytes(s)),
            _ => Err(ErrorKind::NonStringPrimaryId),
        },
    }
}

/// The address of the dependent probe lookup, keyed by the actor, the
/// sample record and the collection's logical name.
pub open spec fn spec_probe_url(
    target: Seq<u8>,
    api: Seq<u8>,
    actor_id: Seq<u8>,
    record_id: Seq<u8>,
    logical_name: Seq<u8>,
) -> Seq<u8> {
    target + spec_api_data_path() + api + spec_systemusers_open() + actor_id
        + spec_access_info_call() + record_id + spec_entity_name_infix() + logical_name
        + spec_probe_suffix()
}

/// Builds the probe address.
pub fn probe_url(
    target: &Vec<u8>,
    api: &Vec<u8>,
    actor_id: &Vec<u8>,
    record_id: &Vec<u8>,
    logical_name: &Vec<u8>,
) -> (r: Vec<u8>)
    ensures
        r@ == spec_probe_url(target@, api@, actor_id@, record_id@, logical_name@),
{
    let mut r: Vec<u8> = Vec::new();
    crate::json::push_bytes(&mut r, target);
    let c1 = api_data_path();
    crate::json::push_bytes(&mut r, &c1);
    crate::json::push_bytes(&mut r, api);
    let c2 = systemusers_open();
    crate::json::push_bytes(&mut r, &c2);
    crate::json::push_bytes(&mut r, actor_id);
    let c3 = access_info_call();
    crate::json::push_bytes(&mut r, &c3);
    crate::json::push_bytes(&mut r, record_id);
    let c4 = entity_name_infix();
    crate::json::push_bytes(&mut r, &c4);
    crate::json::push_bytes(&mut r, logical_name);
    let c5 = probe_suffix();
    crate::json::push_bytes(&mut r, &c5);
    assert(r@ =~= spec_probe_url(target@, api@, actor_id@, record_id@, logical_name@));
    r
}

/// What a probe response document denotes: the context annotation (empty
/// where absent) and the still-encoded inner document.
pub open spec fn spec_envelope_of(doc: JsonVal) -> Option<(Seq<u8>, Seq<u8>)> {
    match doc {
        JsonVal::Object(members) => match spec_lookup(members, spec_key_access_info()) {
            Some(JsonVal::Str(a)) => Some(
                (
                    match spec_lookup(members, spec_key_context()) {
                        Some(JsonVal::Str(c)) => c,
                        _ => Seq::empty(),
                    },
                    a,
                ),
            ),
            _ => None,
        },
        _ => None,
    }
}

/// Reads the probe envelope out of a response body: the body must be one
/// JSON document holding an `accessInfo` string.
pub fn decode_access_envelope(body: &Vec<u8>) -> (r: Option<OuterAcessInfo>)
    ensures
        r is None ==> (match spec_parse_document(body@) {
            None => true,
            Some(doc) => spec_envelope_of(doc) is None,
        }),
        r matches Some(outer) ==> (match spec_parse_document(body@) {
            None => false,
            Some(doc) => spec_envelope_of(doc) == Some(
                (outer.odata_context@, outer.access_info@),
            ),
        }),
{
    let doc = match parse_document(body) {
        None => {
            return None;
        },
        Some(doc) => doc,
    };
    let members = match &doc {
        JsonValue::Object(members) => members,
        _ => {
            return None;
        },
    };
    proof {
        crate::json::lemma_model_object(doc);
    }
    let access_key = key_access_info();
    let access_info = match members_get(members, &access_key) {
        Some(JsonValue::Str(a)) => clone_bytes(a),
        _ => {
            return None;
        },
    };
    let context_key = key_context();
    let odata_context = match members_get(members, &context_key) {
        Some(JsonValue::Str(c)) => clone_bytes(c),
        _ => Vec::new(),
    };
    Some(OuterAcessInfo { odata_context, access_info })
}

/// What the inner access document denotes: the granted-rights string.
pub open spec fn spec_inner_of(doc: JsonVal) -> Option<Seq<u8>> {
    match doc {
        JsonVal::Object(members) => match spec_lookup(members, spec_key_granted()) {
            Some(JsonVal::Str(g)) => Some(g),
            _ => None,
        },
        _ => None,
    }
}

/// The second decode: the envelope's `accessInfo` string is itself a JSON
/// document, and anything but a document with a granted-rights string is a
/// `NestedDecode` error. The enclosing harvest is unaffected either way.
pub fn decode_access_info(access_info: &Vec<u8>) -> (r: Result<InnerAcessInfo, ErrorKind>)
    ensures
        r matches Ok(inner) ==> (match spec_parse_document(access_info@) {
            None => false,
            Some(doc) => spec_inner_of(doc) == Some(inner.granted_access_rights@),
        }),
        r matches Err(e) ==> e == ErrorKind::NestedDecode && (match spec_parse_document(
            access_info@,
        ) {
            None => true,
            Some(doc) => spec_inner_of(doc) is None,
        }),
{
    let doc = match parse_document(access_info) {
        None => {
            return Err(ErrorKind::NestedDecode);
        },
        Some(doc) => doc,
    };
    let members = match &doc {
        JsonValue::Object(members) => members,
        _ => {
            return Err(ErrorKind::NestedDecode);
        },
    };
    proof {
        crate::json::lemma_model_object(doc);
    }
    let granted_key = key_granted();
    match members_get(members, &granted_key) {
        Some(JsonValue::Str(g)) => Ok(InnerAcessInfo { granted_access_rights: clone_bytes(g) }),
        _ => Err(ErrorKind::NestedDecode),
    }
}

} // verus!
