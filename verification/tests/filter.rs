use dynharvest::catalog::{catalog_from_document, CollectionCatalog};
use dynharvest::model::{CollectionDefinition, ErrorKind};
use dynharvest::parse::parse_document;

fn def(set_name: &str) -> CollectionDefinition {
    CollectionDefinition {
        schema_name: set_name.as_bytes().to_vec(),
        logical_name: set_name.as_bytes().to_vec(),
        set_name: set_name.as_bytes().to_vec(),
        primary_id_attribute: b"id".to_vec(),
    }
}

fn names(of: &[CollectionDefinition]) -> Vec<Vec<u8>> {
    of.iter().map(|d| d.set_name.clone()).collect()
}

#[test]
fn the_deny_list_always_wins() {
    let catalog = CollectionCatalog {
        defs: vec![def("accounts"), def("contacts"), def("audits")],
    };
    let allow: Vec<Vec<u8>> = vec![];
    let deny: Vec<Vec<u8>> = vec![b"audits".to_vec()];
    let listed = catalog.list(&allow, &deny);
    assert_eq!(names(&listed), vec![b"accounts".to_vec(), b"contacts".to_vec()]);

    let allow: Vec<Vec<u8>> = vec![b"contacts".to_vec()];
    let listed = catalog.list(&allow, &deny);
    assert_eq!(names(&listed), vec![b"contacts".to_vec()]);
}

#[test]
fn a_name_on_both_lists_is_dropped() {
    let catalog = CollectionCatalog {
        defs: vec![def("accounts"), def("contacts")],
    };
    let allow: Vec<Vec<u8>> = vec![b"accounts".to_vec()];
    let deny: Vec<Vec<u8>> = vec![b"accounts".to_vec()];
    let listed = catalog.list(&allow, &deny);
    assert_eq!(listed.len(), 0);
}

#[test]
fn reads_a_catalog_response() {
    let body = b"{\"value\":[{\"schemaName\":\"Account\",\"logicalName\":\"account\",\"setName\":\"accounts\",\"primaryIdAttribute\":\"accountid\",\"extra\":1}]}".to_vec();
    let doc = parse_document(&body).unwrap();
    let catalog = catalog_from_document(&doc).unwrap();
    assert_eq!(catalog.defs.len(), 1);
    assert_eq!(catalog.defs[0].schema_name, b"Account".to_vec());
    assert_eq!(catalog.defs[0].logical_name, b"account".to_vec());
    assert_eq!(catalog.defs[0].set_name, b"accounts".to_vec());
    assert_eq!(catalog.defs[0].primary_id_attribute, b"accountid".to_vec());
}

#[test]
fn a_catalog_without_descriptors_is_fatal() {
    let body = b"{\"value\":[{\"schemaName\":\"Account\"}]}".to_vec();
    let doc = parse_document(&body).unwrap();
    assert_eq!(
        catalog_from_document(&doc).unwrap_err(),
        ErrorKind::CatalogFetch
    );
    let doc = parse_document(&b"[1,2]".to_vec()).unwrap();
    assert_eq!(
        catalog_from_document(&doc).unwrap_err(),
        ErrorKind::CatalogFetch
    );
}
