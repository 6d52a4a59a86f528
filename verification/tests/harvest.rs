use dynharvest::catalog::catalog_from_document;
use dynharvest::model::ErrorKind;
use dynharvest::parse::parse_document;
use dynharvest::sink::{file_name, persist_bytes};
use dynharvest::walker::PageWalker;

#[test]
fn walks_two_pages_and_persists() {
    let target = b"https://example.test".to_vec();
    let api = b"v9.2".to_vec();
    let mut walker = PageWalker::start(b"accounts".to_vec(), &target, &api, 1000);

    let first = walker.next_request().unwrap();
    assert_eq!(
        first,
        b"https://example.test/api/data/v9.2/accounts?$count=true".to_vec()
    );
    assert!(!walker.done());

    // Two records and a further cursor: the walk goes on, even though the
    // page is far below the page-size preference.
    let page1 = b"{\"value\":[{\"accountid\":\"r1\"},{\"accountid\":\"r2\"}],\"@odata.nextLink\":\"c2\"}".to_vec();
    walker.on_response(200, &page1).unwrap();
    assert_eq!(walker.next_request().unwrap(), b"c2".to_vec());

    // One record and no cursor: the server has signalled the end.
    let page2 = b"{\"value\":[{\"accountid\":\"r3\"}]}".to_vec();
    walker.on_response(200, &page2).unwrap();
    assert!(walker.done());
    assert_eq!(walker.next_request(), None);

    let result = walker.finish();
    assert_eq!(result.set_name, b"accounts".to_vec());
    assert_eq!(result.record_count, 3);
    assert_eq!(result.records.len(), 3);

    assert_eq!(file_name(&result.set_name), b"accounts.json".to_vec());
    let expected = b"{\"@odata.context\":\"\",\"@odata.count\":3,\"@odata.nextLink\":null,\"value\":[{\"accountid\":\"r1\"},{\"accountid\":\"r2\"},{\"accountid\":\"r3\"}]}".to_vec();
    assert_eq!(persist_bytes(&result), expected);
}

#[test]
fn persisting_twice_gives_identical_bytes() {
    let target = b"https://example.test".to_vec();
    let api = b"v9.2".to_vec();
    let mut walker = PageWalker::start(b"contacts".to_vec(), &target, &api, 50);
    let page = b"{\"value\":[{\"contactid\":\"c1\",\"age\":41}]}".to_vec();
    walker.on_response(200, &page).unwrap();
    let result = walker.finish();
    assert_eq!(persist_bytes(&result), persist_bytes(&result));
    assert_eq!(file_name(&result.set_name), file_name(&result.set_name));
}

#[test]
fn a_null_next_link_ends_the_walk() {
    let target = b"t".to_vec();
    let api = b"v9.2".to_vec();
    let mut walker = PageWalker::start(b"accounts".to_vec(), &target, &api, 1000);
    let page = b"{\"value\":[],\"@odata.nextLink\":null}".to_vec();
    walker.on_response(200, &page).unwrap();
    assert!(walker.done());
    let result = walker.finish();
    assert_eq!(result.record_count, 0);
}

#[test]
fn a_bad_status_fails_the_page() {
    let target = b"t".to_vec();
    let api = b"v9.2".to_vec();
    let mut walker = PageWalker::start(b"accounts".to_vec(), &target, &api, 1000);
    let err = walker.on_response(404, &b"{}".to_vec()).unwrap_err();
    assert_eq!(err, ErrorKind::PageFetch { status: Some(404) });
}

#[test]
fn an_unreadable_body_fails_the_page() {
    let target = b"t".to_vec();
    let api = b"v9.2".to_vec();
    let mut walker = PageWalker::start(b"accounts".to_vec(), &target, &api, 1000);
    let err = walker.on_response(200, &b"<html>".to_vec()).unwrap_err();
    assert_eq!(err, ErrorKind::PageFetch { status: None });
    // A response without a record array is no page either.
    let err = walker
        .on_response(200, &b"{\"items\":[]}".to_vec())
        .unwrap_err();
    assert_eq!(err, ErrorKind::PageFetch { status: None });
}

#[test]
fn the_prefer_value_carries_the_hint() {
    let target = b"t".to_vec();
    let api = b"v9.2".to_vec();
    let walker = PageWalker::start(b"accounts".to_vec(), &target, &api, 1000);
    assert_eq!(walker.prefer_value(), b"odata.maxpagesize=1000".to_vec());
}

#[test]
fn persists_an_empty_harvest() {
    let target = b"t".to_vec();
    let api = b"v9.2".to_vec();
    let mut walker = PageWalker::start(b"audits".to_vec(), &target, &api, 10);
    walker.on_response(200, &b"{\"value\":[]}".to_vec()).unwrap();
    let result = walker.finish();
    assert_eq!(
        persist_bytes(&result),
        b"{\"@odata.context\":\"\",\"@odata.count\":0,\"@odata.nextLink\":null,\"value\":[]}"
            .to_vec()
    );
}

#[test]
fn a_filtered_catalog_drives_a_full_harvest() {
    let catalog_body = b"{\"value\":[{\"schemaName\":\"Account\",\"logicalName\":\"account\",\"setName\":\"accounts\",\"primaryIdAttribute\":\"accountid\"},{\"schemaName\":\"Audit\",\"logicalName\":\"audit\",\"setName\":\"audits\",\"primaryIdAttribute\":\"auditid\"}]}".to_vec();
    let doc = parse_document(&catalog_body).unwrap();
    let catalog = catalog_from_document(&doc).unwrap();
    let allow: Vec<Vec<u8>> = vec![];
    let deny: Vec<Vec<u8>> = vec![b"audits".to_vec()];
    let work = catalog.list(&allow, &deny);
    assert_eq!(work.len(), 1);

    let target = b"https://example.test".to_vec();
    let api = b"v9.2".to_vec();
    let mut walker = PageWalker::start(work[0].set_name.clone(), &target, &api, 2);
    walker
        .on_response(
            200,
            &b"{\"value\":[{\"accountid\":\"a1\"}],\"@odata.nextLink\":null}".to_vec(),
        )
        .unwrap();
    assert!(walker.done());
    let result = walker.finish();
    assert_eq!(file_name(&result.set_name), b"accounts.json".to_vec());
    assert_eq!(result.record_count, 1);
}
