//! The data model of the harvest.
//!
//! Names, cursors and record payloads are byte strings: the remote store's
//! documents are UTF-8 and the logic never needs character boundaries, so
//! `Vec<u8>` keeps every contract an exact statement over byte sequences.
use vstd::prelude::*;
use crate::json::JsonVal;
use crate::json::JsonValue;
use crate::json::member_models;

verus! {

/// The identity response of the one-shot bootstrap call.
#[derive(Debug, PartialEq)]
pub struct WhoAmIResponse {
    pub odata_context: Vec<u8>,
    pub user_id: Vec<u8>,
    pub business_unit_id: Vec<u8>,
    pub organization_id: Vec<u8>,
}

/// One response of the listing endpoint: an annotated batch of values and
/// an optional next cursor. The merged harvest is written in this shape too.
#[derive(Debug, PartialEq)]
pub struct EntitySet<T> {
    pub odata_context: Vec<u8>,
    pub odata_count: i64,
    pub odata_next: Option<Vec<u8>>,
    pub value: Vec<T>,
}

/// The actor fetched by the bootstrap, with its schema-less remainder.
#[derive(Debug, PartialEq)]
pub struct SystemUser {
    pub odata_context: Vec<u8>,
    pub windows_live_id: Vec<u8>,
    pub system_user_id: Vec<u8>,
    pub title: Option<Vec<u8>>,
    pub dynamic: Vec<(Vec<u8>, JsonValue)>,
}

/// The privileges response of the one-shot bootstrap call.
#[derive(Debug, PartialEq)]
pub struct UserPrivileges {
    pub odata_context: Vec<u8>,
    pub role_privileges: Vec<RolePrivilege>,
}

/// One role privilege of the acting user.
#[derive(Debug, PartialEq)]
pub struct RolePrivilege {
    pub depth: Vec<u8>,
    pub privilege_id: Vec<u8>,
    pub business_unit_id: Vec<u8>,
    pub privilege_name: Vec<u8>,
    pub record_filter_id: Vec<u8>,
    pub record_filter_unique_name: Vec<u8>,
}

/// The error envelope the remote store answers with.
#[derive(Debug, PartialEq)]
pub struct Root {
    pub error: Error,
}

/// The code and message inside the remote store's error envelope.
#[derive(Debug, PartialEq)]
pub struct Error {
    pub code: Vec<u8>,
    pub message: Vec<u8>,
}

/// The access-probe envelope: `access_info` holds a JSON document as a
/// string, to be decoded a second time.
#[derive(Debug, PartialEq)]
pub struct OuterAcessInfo {
    pub odata_context: Vec<u8>,
    pub access_info: Vec<u8>,
}

/// The decoded inner access document: the granted-rights string.
#[derive(Debug, PartialEq)]
pub struct InnerAcessInfo {
    pub granted_access_rights: Vec<u8>,
}

/// One harvestable collection, as the catalog describes it.
#[derive(Debug, PartialEq)]
pub struct CollectionDefinition {
    pub schema_name: Vec<u8>,
    pub logical_name: Vec<u8>,
    pub set_name: Vec<u8>,
    pub primary_id_attribute: Vec<u8>,
}

/// The mathematical view of a collection definition.
pub ghost struct CollectionDefV {
    pub schema_name: Seq<u8>,
    pub logical_name: Seq<u8>,
    pub set_name: Seq<u8>,
    pub primary_id_attribute: Seq<u8>,
}

impl View for CollectionDefinition {
    type V = CollectionDefV;

    open spec fn view(&self) -> CollectionDefV {
        CollectionDefV {
            schema_name: self.schema_name@,
            logical_name: self.logical_name@,
            set_name: self.set_name@,
            primary_id_attribute: self.primary_id_attribute@,
        }
    }
}

/// One harvested record: an ordered, schema-less attribute map.
#[derive(Debug, PartialEq)]
pub struct Record {
    pub fields: Vec<(Vec<u8>, JsonValue)>,
}

impl Record {
    /// The record as an ordered sequence of modelled members.
    pub open spec fn model(self) -> Seq<(Seq<u8>, JsonVal)> {
        member_models(self.fields@)
    }

    /// The value under `key`, if the record has one; the first occurrence
    /// decides, as `spec_lookup` says.
    pub fn get(&self, key: &Vec<u8>) -> (r: Option<&JsonValue>)
        ensures
            r is None ==> spec_lookup(self.model(), key@) is None,
            r matches Some(v) ==> spec_lookup(self.model(), key@) == Some(v.model()),
    {
        members_get(&self.fields, key)
    }
}

/// The first member of `members` whose key is `key`, if any.
pub open spec fn spec_lookup(members: Seq<(Seq<u8>, JsonVal)>, key: Seq<u8>) -> Option<JsonVal>
    decreases members.len(),
{
    if members.len() == 0 {
        None
    } else if members[0].0 == key {
        Some(members[0].1)
    } else {
        spec_lookup(members.skip(1), key)
    }
}

/// Looks a key up in an object's member list, returning exactly
/// `spec_lookup` on the members' models.
pub fn members_get<'a>(members: &'a Vec<(Vec<u8>, JsonValue)>, key: &Vec<u8>) -> (r: Option<
    &'a JsonValue,
>)
    ensures
        r is None ==> spec_lookup(member_models(members@), key@) is None,
        r matches Some(v) ==> spec_lookup(member_models(members@), key@) == Some(v.model()),
{
    let ghost m = member_models(members@);
    assert(m.skip(0) =~= m);
    let mut i: usize = 0;
    while i < members.len()
        invariant
            0 <= i <= members.len(),
            m == member_models(members@),
            m.len() == members.len(),
            spec_lookup(m, key@) == spec_lookup(m.skip(i as int), key@),
        decreases members.len() - i,
    {
        if crate::bytes_eq(&members[i].0, key) {
            proof {
                assert(m.skip(i as int)[0] == m[i as int]);
            }
            return Some(&members[i].1);
        }
        proof {
            assert(m.skip(i as int)[0] == m[i as int]);
            assert(m.skip(i as int).skip(1) =~= m.skip(i + 1));
        }
        i += 1;
    }
    proof {
        assert(m.skip(members.len() as int) =~= Seq::<(Seq<u8>, JsonVal)>::empty());
    }
    None
}

/// The fully merged harvest of one collection.
#[derive(Debug, PartialEq)]
pub struct HarvestResult {
    pub set_name: Vec<u8>,
    pub records: Vec<Record>,
    pub record_count: usize,
}

impl HarvestResult {
    /// A merged result carries its own length: the count field equals the
    /// number of records.
    pub open spec fn wf(self) -> bool {
        self.record_count == self.records@.len()
    }
}

/// Why a step of the harvest failed.
#[derive(Debug, PartialEq)]
pub enum ErrorKind {
    /// The catalog could not be fetched or read; fatal to the run.
    CatalogFetch,
    /// A page request failed: the HTTP status where one was received,
    /// `None` for a transport failure or an unreadable body.
    PageFetch { status: Option<u16> },
    /// The sample record has no value under the primary id attribute.
    MissingPrimaryId,
    /// The sample record's primary id value is not a string.
    NonStringPrimaryId,
    /// The nested access document could not be decoded.
    NestedDecode,
    /// The merged result could not be written.
    Io,
}

/// What one collection's task came to.
#[derive(Debug, PartialEq)]
pub enum TaskOutcome {
    /// The harvest was persisted; the probe result, where one was obtained.
    Success(HarvestResult, Option<InnerAcessInfo>),
    /// The named collection failed with the given error.
    Failure(Vec<u8>, ErrorKind),
}

/// The decimal digits of `n`.
pub open spec fn spec_decimal(n: int) -> Seq<u8>
    decreases n,
{
    if n < 0 {
        Seq::empty()
    } else if n < 10 {
        seq![(0x30 + n) as u8]
    } else {
        spec_decimal(n / 10) + seq![(0x30 + n % 10) as u8]
    }
}

/// Appends the decimal digits of `n` to `out`.
pub fn push_decimal(out: &mut Vec<u8>, n: u64)
    ensures
        final(out)@ == old(out)@ + spec_decimal(n as int),
    decreases n,
{
    if n < 10 {
        out.push(0x30 + (n as u8));
        assert(final(out)@ =~= old(out)@ + spec_decimal(n as int));
    } else {
        push_decimal(out, n / 10);
        out.push(0x30 + ((n % 10) as u8));
        assert(final(out)@ =~= old(out)@ + spec_decimal(n as int));
    }
}

} // verus!
