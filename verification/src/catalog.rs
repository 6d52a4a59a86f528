//! The collection catalog: the descriptors fetched once per run, and the
//! allow/deny name filter that yields the work list.
use vstd::prelude::*;
use crate::json::JsonVal;
use crate::json::JsonValue;
use crate::json::clone_bytes;
use crate::json::member_models;
use crate::model::CollectionDefV;
use crate::model::CollectionDefinition;
use crate::model::ErrorKind;
use crate::model::members_get;
use crate::model::spec_lookup;
use crate::text::{
    key_logical_name, key_primary_id, key_schema_name, key_set_name, key_value,
    spec_key_logical_name, spec_key_primary_id, spec_key_schema_name, spec_key_set_name,
    spec_key_value,
};

verus! {

/// The views of the definitions in `defs`, in order.
pub open spec fn defs_view(defs: Seq<CollectionDefinition>) -> Seq<CollectionDefV> {
    Seq::new(
        defs.len(),
        |i: int|
            if 0 <= i < defs.len() {
                defs[i]@
            } else {
                CollectionDefV {
                    schema_name: Seq::empty(),
                    logical_name: Seq::empty(),
                    set_name: Seq::empty(),
                    primary_id_attribute: Seq::empty(),
                }
            },
    )
}

/// Whether a definition survives the filters: a non-empty allow list
/// admits only the sets it names, and a denied set is always dropped — the
/// deny list wins over the allow list.
pub open spec fn spec_selected(d: CollectionDefV, allow: Seq<Seq<u8>>, deny: Seq<
    Seq<u8>,
>) -> bool {
    (allow.len() == 0 || allow.contains(d.set_name)) && !deny.contains(d.set_name)
}

/// The definitions that survive the filters, in catalog order.
pub open spec fn spec_filtered(
    defs: Seq<CollectionDefV>,
    allow: Seq<Seq<u8>>,
    deny: Seq<Seq<u8>>,
) -> Seq<CollectionDefV>
    decreases defs.len(),
{
    if defs.len() == 0 {
        Seq::empty()
    } else {
        spec_filtered(defs.drop_last(), allow, deny) + (if spec_selected(
            defs.last(),
            allow,
            deny,
        ) {
            seq![defs.last()]
        } else {
            Seq::empty()
        })
    }
}

/// Whether `n` occurs among `names`, as byte strings.
pub fn name_in(names: &Vec<Vec<u8>>, n: &Vec<u8>) -> (r: bool)
    ensures
        r == names.deep_view().contains(n@),
{
    let mut i: usize = 0;
    while i < names.len()
        invariant
            0 <= i <= names.len(),
            forall|k: int| 0 <= k < i ==> names.deep_view()[k] != n@,
        decreases names.len() - i,
    {
        proof {
            assert(names.deep_view()[i as int] =~= names@[i as int]@);
        }
        if crate::bytes_eq(&names[i], n) {
            assert(names.deep_view()[i as int] == n@);
            return true;
        }
        i += 1;
    }
    false
}

/// A copy of a definition: same view.
pub fn clone_definition(d: &CollectionDefinition) -> (r: CollectionDefinition)
    ensures
        r@ == d@,
{
    CollectionDefinition {
        schema_name: clone_bytes(&d.schema_name),
        logical_name: clone_bytes(&d.logical_name),
        set_name: clone_bytes(&d.set_name),
        primary_id_attribute: clone_bytes(&d.primary_id_attribute),
    }
}

/// The catalog: every collection the remote store offers, in fetch order.
#[derive(Debug, PartialEq)]
pub struct CollectionCatalog {
    pub defs: Vec<CollectionDefinition>,
}

impl CollectionCatalog {
    /// The work list: exactly the definitions that survive the filters, in
    /// catalog order.
    pub fn list(&self, allow: &Vec<Vec<u8>>, deny: &Vec<Vec<u8>>) -> (r: Vec<
        CollectionDefinition,
    >)
        ensures
            defs_view(r@) == spec_filtered(
                defs_view(self.defs@),
                allow.deep_view(),
                deny.deep_view(),
            ),
    {
        let ghost dv = defs_view(self.defs@);
        let mut out: Vec<CollectionDefinition> = Vec::new();
        let mut i: usize = 0;
        assert(dv.take(0) =~= Seq::<CollectionDefV>::empty());
        while i < self.defs.len()
            invariant
                0 <= i <= self.defs.len(),
                dv == defs_view(self.defs@),
                dv.len() == self.defs.len(),
                defs_view(out@) == spec_filtered(
                    dv.take(i as int),
                    allow.deep_view(),
                    deny.deep_view(),
                ),
            decreases self.defs.len() - i,
        {
            let ghost pre = defs_view(out@);
            let d = &self.defs[i];
            let keep = (allow.len() == 0 || name_in(allow, &d.set_name)) && !name_in(
                deny,
                &d.set_name,
            );
            if keep {
                out.push(clone_definition(d));
            }
            proof {
                assert(dv.take(i + 1).drop_last() =~= dv.take(i as int));
                assert(dv.take(i + 1).last() == dv[i as int]);
                if keep {
                    assert(defs_view(out@) =~= pre + seq![dv[i as int]]);
                } else {
                    assert(defs_view(out@) =~= pre + Seq::<CollectionDefV>::empty());
                }
            }
            i += 1;
        }
        proof {
            assert(dv.take(dv.len() as int) =~= dv);
        }
        out
    }
}

/// What one catalog entry denotes: its four descriptor strings.
pub open spec fn spec_definition_of(members: Seq<(Seq<u8>, JsonVal)>) -> Option<CollectionDefV> {
    match (
        spec_lookup(members, spec_key_schema_name()),
        spec_lookup(members, spec_key_logical_name()),
        spec_lookup(members, spec_key_set_name()),
        spec_lookup(members, spec_key_primary_id()),
    ) {
        (
            Some(JsonVal::Str(sn)),
            Some(JsonVal::Str(ln)),
            Some(JsonVal::Str(en)),
            Some(JsonVal::Str(pa)),
        ) => Some(
            CollectionDefV {
                schema_name: sn,
                logical_name: ln,
                set_name: en,
                primary_id_attribute: pa,
            },
        ),
        _ => None,
    }
}

/// The catalog entries of `elems`, where every element is an entry object;
/// `None` where one is not.
pub open spec fn spec_defs_of(elems: Seq<JsonVal>) -> Option<Seq<CollectionDefV>>
    decreases elems.len(),
{
    if elems.len() == 0 {
        Some(Seq::empty())
    } else {
        match (spec_defs_of(elems.drop_last()), elems.last()) {
            (Some(ds), JsonVal::Object(m)) => match spec_definition_of(m) {
                Some(d) => Some(ds.push(d)),
                None => None,
            },
            _ => None,
        }
    }
}

/// Once a prefix fails to be all entries, the whole sequence does.
proof fn lemma_defs_of_none(elems: Seq<JsonVal>, i: int)
    requires
        0 <= i <= elems.len(),
        spec_defs_of(elems.take(i)) is None,
    ensures
        spec_defs_of(elems) is None,
    decreases elems.len() - i,
{
    if i == elems.len() {
        assert(elems.take(i) =~= elems);
    } else {
        assert(elems.take(i + 1).drop_last() =~= elems.take(i));
        lemma_defs_of_none(elems, i + 1);
    }
}

/// What a catalog response document denotes: a `value` array of entries.
pub open spec fn spec_catalog_of(doc: JsonVal) -> Option<Seq<CollectionDefV>> {
    match doc {
        JsonVal::Object(members) => match spec_lookup(members, spec_key_value()) {
            Some(JsonVal::Array(elems)) => spec_defs_of(elems),
            _ => None,
        },
        _ => None,
    }
}

/// Reads one catalog entry out of an object's members.
fn definition_from_members(fields: &Vec<(Vec<u8>, JsonValue)>) -> (r: Option<CollectionDefinition>)
    ensures
        r is None ==> spec_definition_of(member_models(fields@)) is None,
        r matches Some(d) ==> spec_definition_of(member_models(fields@)) == Some(d@),
{
    let k_schema = key_schema_name();
    let k_logical = key_logical_name();
    let k_set = key_set_name();
    let k_primary = key_primary_id();
    let schema_name = match members_get(fields, &k_schema) {
        Some(JsonValue::Str(s)) => clone_bytes(s),
        _ => {
            return None;
        },
    };
    let logical_name = match members_get(fields, &k_logical) {
        Some(JsonValue::Str(s)) => clone_bytes(s),
        _ => {
            return None;
        },
    };
    let set_name = match members_get(fields, &k_set) {
        Some(JsonValue::Str(s)) => clone_bytes(s),
        _ => {
            return None;
        },
    };
    let primary_id_attribute = match members_get(fields, &k_primary) {
        Some(JsonValue::Str(s)) => clone_bytes(s),
        _ => {
            return None;
        },
    };
    Some(CollectionDefinition { schema_name, logical_name, set_name, primary_id_attribute })
}

/// Reads the catalog out of a parsed response document. A document that is
/// not a catalog — exactly where `spec_catalog_of` says so — is a
/// `CatalogFetch` error: the run has no catalog and cannot go on.
pub fn catalog_from_document(doc: &JsonValue) -> (r: Result<CollectionCatalog, ErrorKind>)
    ensures
        r matches Err(e) ==> spec_catalog_of(doc.model()) is None && e == ErrorKind::CatalogFetch,
        r matches Ok(c) ==> spec_catalog_of(doc.model()) == Some(defs_view(c.defs@)),
{
    let members = match doc {
        JsonValue::Object(members) => members,
        _ => {
            return Err(ErrorKind::CatalogFetch);
        },
    };
    proof {
        crate::json::lemma_model_object(*doc);
    }
    let value_key = key_value();
    let looked_up = members_get(members, &value_key);
    let elems = match looked_up {
        Some(v) => match v {
            JsonValue::Array(elems) => {
                proof {
                    crate::json::lemma_model_array(*v);
                }
                elems
            },
            _ => {
                return Err(ErrorKind::CatalogFetch);
            },
        },
        None => {
            return Err(ErrorKind::CatalogFetch);
        },
    };
    let ghost melems = crate::json::seq_models(elems@);
    let mut defs: Vec<CollectionDefinition> = Vec::new();
    let mut i: usize = 0;
    while i < elems.len()
        invariant
            0 <= i <= elems.len(),
            melems == crate::json::seq_models(elems@),
            melems.len() == elems@.len(),
            doc.model() == JsonVal::Object(member_models(members@)),
            spec_lookup(member_models(members@), spec_key_value()) == Some(
                JsonVal::Array(melems),
            ),
            spec_defs_of(melems.take(i as int)) == Some(defs_view(defs@)),
        decreases elems.len() - i,
    {
        let ghost pre = defs_view(defs@);
        proof {
            assert(melems.take(i + 1).drop_last() =~= melems.take(i as int));
            assert(melems.take(i + 1).last() == melems[i as int]);
        }
        match &elems[i] {
            JsonValue::Object(fields) => {
                proof {
                    crate::json::lemma_model_object(elems@[i as int]);
                }
                match definition_from_members(fields) {
                    Some(d) => {
                        let ghost dv = d@;
                        defs.push(d);
                        proof {
                            assert(defs_view(defs@) =~= pre.push(dv));
                        }
                    },
                    None => {
                        proof {
                            lemma_defs_of_none(melems, i + 1);
                        }
                        return Err(ErrorKind::CatalogFetch);
                    },
                }
            },
            _ => {
                proof {
                    lemma_defs_of_none(melems, i + 1);
                }
                return Err(ErrorKind::CatalogFetch);
            },
        }
        i += 1;
    }
    proof {
        assert(melems.take(melems.len() as int) =~= melems);
    }
    Ok(CollectionCatalog { defs })
}

} // verus!
