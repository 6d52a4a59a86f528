use dynharvest::json::JsonValue;
use dynharvest::model::{ErrorKind, HarvestResult, Record};
use dynharvest::probe::{
    decode_access_envelope, decode_access_info, extract_primary_id, probe_url, sample_record,
};

fn record(fields: Vec<(&str, JsonValue)>) -> Record {
    Record {
        fields: fields
            .into_iter()
            .map(|(k, v)| (k.as_bytes().to_vec(), v))
            .collect(),
    }
}

#[test]
fn an_empty_harvest_is_never_probed() {
    let result = HarvestResult {
        set_name: b"accounts".to_vec(),
        records: vec![],
        record_count: 0,
    };
    assert!(sample_record(&result).is_none());
}

#[test]
fn the_sample_is_the_first_record() {
    let result = HarvestResult {
        set_name: b"accounts".to_vec(),
        records: vec![
            record(vec![("accountid", JsonValue::Str(b"first".to_vec()))]),
            record(vec![("accountid", JsonValue::Str(b"second".to_vec()))]),
        ],
        record_count: 2,
    };
    let sample = sample_record(&result).unwrap();
    assert_eq!(
        extract_primary_id(sample, &b"accountid".to_vec()).unwrap(),
        b"first".to_vec()
    );
}

#[test]
fn a_missing_primary_id_is_its_own_error() {
    let rec = record(vec![("name", JsonValue::Str(b"x".to_vec()))]);
    assert_eq!(
        extract_primary_id(&rec, &b"accountid".to_vec()).unwrap_err(),
        ErrorKind::MissingPrimaryId
    );
}

#[test]
fn a_non_string_primary_id_is_its_own_error() {
    let rec = record(vec![("accountid", JsonValue::Number(b"7".to_vec()))]);
    assert_eq!(
        extract_primary_id(&rec, &b"accountid".to_vec()).unwrap_err(),
        ErrorKind::NonStringPrimaryId
    );
}

#[test]
fn builds_the_probe_address() {
    let url = probe_url(
        &b"https://example.test".to_vec(),
        &b"v9.2".to_vec(),
        &b"actor-1".to_vec(),
        &b"rec-9".to_vec(),
        &b"account".to_vec(),
    );
    assert_eq!(
        url,
        b"https://example.test/api/data/v9.2/systemusers(actor-1)/Microsoft.Dynamics.CRM.RetrievePrincipalAccessInfo(ObjectId=rec-9,EntityName='account')".to_vec()
    );
}

#[test]
fn decodes_the_nested_access_document() {
    let body = b"{\"accessInfo\":\"{\\\"grantedAccessRights\\\":\\\"ReadAppend\\\"}\"}".to_vec();
    let outer = decode_access_envelope(&body).unwrap();
    assert_eq!(
        outer.access_info,
        b"{\"grantedAccessRights\":\"ReadAppend\"}".to_vec()
    );
    let inner = decode_access_info(&outer.access_info).unwrap();
    assert_eq!(inner.granted_access_rights, b"ReadAppend".to_vec());
}

#[test]
fn a_nested_document_that_is_no_json_fails_the_second_decode() {
    let body = b"{\"accessInfo\":\"not-json\"}".to_vec();
    let outer = decode_access_envelope(&body).unwrap();
    assert_eq!(outer.access_info, b"not-json".to_vec());
    assert_eq!(
        decode_access_info(&outer.access_info).unwrap_err(),
        ErrorKind::NestedDecode
    );
}

#[test]
fn an_envelope_without_the_string_member_is_no_envelope() {
    assert!(decode_access_envelope(&b"{\"accessInfo\":7}".to_vec()).is_none());
    assert!(decode_access_envelope(&b"[]".to_vec()).is_none());
    assert!(decode_access_envelope(&b"not json".to_vec()).is_none());
}

#[test]
fn the_first_occurrence_of_a_key_decides() {
    let rec = record(vec![
        ("accountid", JsonValue::Str(b"first".to_vec())),
        ("accountid", JsonValue::Str(b"second".to_vec())),
    ]);
    assert_eq!(
        extract_primary_id(&rec, &b"accountid".to_vec()).unwrap(),
        b"first".to_vec()
    );
}
