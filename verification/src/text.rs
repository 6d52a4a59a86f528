//! Byte-string constants of the wire protocol and the output naming.
//!
//! Verus has no byte-string literals, so each constant is a spec sequence
//! with an executable builder whose contract ties the two together.
use vstd::prelude::*;

verus! {

/// `value`: the member that holds a response's records.
pub open spec fn spec_key_value() -> Seq<u8> {
    seq![0x76u8, 0x61, 0x6c, 0x75, 0x65]
}

/// The bytes of `value`.
pub fn key_value() -> (r: Vec<u8>)
    ensures
        r@ == spec_key_value(),
{
    let mut r: Vec<u8> = Vec::new();
    r.push(0x76);
    r.push(0x61);
    r.push(0x6c);
    r.push(0x75);
    r.push(0x65);
    assert(r@ =~= spec_key_value());
    r
}

/// `@odata.nextLink`: the member that carries the next cursor.
pub open spec fn spec_key_next_link() -> Seq<u8> {
    seq![0x40u8, 0x6f, 0x64, 0x61, 0x74, 0x61, 0x2e, 0x6e, 0x65, 0x78, 0x74, 0x4c, 0x69, 0x6e, 0x6b]
}

/// The bytes of `@odata.nextLink`.
pub fn key_next_link() -> (r: Vec<u8>)
    ensures
        r@ == spec_key_next_link(),
{
    let mut r: Vec<u8> = Vec::new();
    r.push(0x40);
    r.push(0x6f);
    r.push(0x64);
    r.push(0x61);
    r.push(0x74);
    r.push(0x61);
    r.push(0x2e);
    r.push(0x6e);
    r.push(0x65);
    r.push(0x78);
    r.push(0x74);
    r.push(0x4c);
    r.push(0x69);
    r.push(0x6e);
    r.push(0x6b);
    assert(r@ =~= spec_key_next_link());
    r
}

/// `@odata.context`: the context annotation member.
pub open spec fn spec_key_context() -> Seq<u8> {
    seq![0x40u8, 0x6f, 0x64, 0x61, 0x74, 0x61, 0x2e, 0x63, 0x6f, 0x6e, 0x74, 0x65, 0x78, 0x74]
}

/// The bytes of `@odata.context`.
pub fn key_context() -> (r: Vec<u8>)
    ensures
        r@ == spec_key_context(),
{
    let mut r: Vec<u8> = Vec::new();
    r.push(0x40);
    r.push(0x6f);
    r.push(0x64);
    r.push(0x61);
    r.push(0x74);
    r.push(0x61);
    r.push(0x2e);
    r.push(0x63);
    r.push(0x6f);
    r.push(0x6e);
    r.push(0x74);
    r.push(0x65);
    r.push(0x78);
    r.push(0x74);
    assert(r@ =~= spec_key_context());
    r
}

/// `@odata.count`: the count annotation member.
pub open spec fn spec_key_count() -> Seq<u8> {
    seq![0x40u8, 0x6f, 0x64, 0x61, 0x74, 0x61, 0x2e, 0x63, 0x6f, 0x75, 0x6e, 0x74]
}

/// The bytes of `@odata.count`.
pub fn key_count() -> (r: Vec<u8>)
    ensures
        r@ == spec_key_count(),
{
    let mut r: Vec<u8> = Vec::new();
    r.push(0x40);
    r.push(0x6f);
    r.push(0x64);
    r.push(0x61);
    r.push(0x74);
    r.push(0x61);
    r.push(0x2e);
    r.push(0x63);
    r.push(0x6f);
    r.push(0x75);
    r.push(0x6e);
    r.push(0x74);
    assert(r@ =~= spec_key_count());
    r
}

/// `accessInfo`: the envelope member that holds the nested document.
pub open spec fn spec_key_access_info() -> Seq<u8> {
    seq![0x61u8, 0x63, 0x63, 0x65, 0x73, 0x73, 0x49, 0x6e, 0x66, 0x6f]
}

/// The bytes of `accessInfo`.
pub fn key_access_info() -> (r: Vec<u8>)
    ensures
        r@ == spec_key_access_info(),
{
    let mut r: Vec<u8> = Vec::new();
    r.push(0x61);
    r.push(0x63);
    r.push(0x63);
    r.push(0x65);
    r.push(0x73);
    r.push(0x73);
    r.push(0x49);
    r.push(0x6e);
    r.push(0x66);
    r.push(0x6f);
    assert(r@ =~= spec_key_access_info());
    r
}

/// `grantedAccessRights`: the granted-rights member of the nested document.
pub open spec fn spec_key_granted() -> Seq<u8> {
    seq![0x67u8, 0x72, 0x61, 0x6e, 0x74, 0x65, 0x64, 0x41, 0x63, 0x63, 0x65, 0x73, 0x73, 0x52, 0x69, 0x67, 0x68, 0x74, 0x73]
}

/// The bytes of `grantedAccessRights`.
pub fn key_granted() -> (r: Vec<u8>)
    ensures
        r@ == spec_key_granted(),
{
    let mut r: Vec<u8> = Vec::new();
    r.push(0x67);
    r.push(0x72);
    r.push(0x61);
    r.push(0x6e);
    r.push(0x74);
    r.push(0x65);
    r.push(0x64);
    r.push(0x41);
    r.push(0x63);
    r.push(0x63);
    r.push(0x65);
    r.push(0x73);
    r.push(0x73);
    r.push(0x52);
    r.push(0x69);
    r.push(0x67);
    r.push(0x68);
    r.push(0x74);
    r.push(0x73);
    assert(r@ =~= spec_key_granted());
    r
}

/// `schemaName`: a collection descriptor's schema name.
pub open spec fn spec_key_schema_name() -> Seq<u8> {
    seq![0x73u8, 0x63, 0x68, 0x65, 0x6d, 0x61, 0x4e, 0x61, 0x6d, 0x65]
}

/// The bytes of `schemaName`.
pub fn key_schema_name() -> (r: Vec<u8>)
    ensures
        r@ == spec_key_schema_name(),
{
    let mut r: Vec<u8> = Vec::new();
    r.push(0x73);
    r.push(0x63);
    r.push(0x68);
    r.push(0x65);
    r.push(0x6d);
    r.push(0x61);
    r.push(0x4e);
    r.push(0x61);
    r.push(0x6d);
    r.push(0x65);
    assert(r@ =~= spec_key_schema_name());
    r
}

/// `logicalName`: a collection descriptor's logical name.
pub open spec fn spec_key_logical_name() -> Seq<u8> {
    seq![0x6cu8, 0x6f, 0x67, 0x69, 0x63, 0x61, 0x6c, 0x4e, 0x61, 0x6d, 0x65]
}

/// The bytes of `logicalName`.
pub fn key_logical_name() -> (r: Vec<u8>)
    ensures
        r@ == spec_key_logical_name(),
{
    let mut r: Vec<u8> = Vec::new();
    r.push(0x6c);
    r.push(0x6f);
    r.push(0x67);
    r.push(0x69);
    r.push(0x63);
    r.push(0x61);
    r.push(0x6c);
    r.push(0x4e);
    r.push(0x61);
    r.push(0x6d);
    r.push(0x65);
    assert(r@ =~= spec_key_logical_name());
    r
}

/// `setName`: a collection descriptor's set name.
pub open spec fn spec_key_set_name() -> Seq<u8> {
    seq![0x73u8, 0x65, 0x74, 0x4e, 0x61, 0x6d, 0x65]
}

/// The bytes of `setName`.
pub fn key_set_name() -> (r: Vec<u8>)
    ensures
        r@ == spec_key_set_name(),
{
    let mut r: Vec<u8> = Vec::new();
    r.push(0x73);
    r.push(0x65);
    r.push(0x74);
    r.push(0x4e);
    r.push(0x61);
    r.push(0x6d);
    r.push(0x65);
    assert(r@ =~= spec_key_set_name());
    r
}

/// `primaryIdAttribute`: a collection descriptor's primary id attribute.
pub open spec fn spec_key_primary_id() -> Seq<u8> {
    seq![0x70u8, 0x72, 0x69, 0x6d, 0x61, 0x72, 0x79, 0x49, 0x64, 0x41, 0x74, 0x74, 0x72, 0x69, 0x62, 0x75, 0x74, 0x65]
}

/// The bytes of `primaryIdAttribute`.
pub fn key_primary_id() -> (r: Vec<u8>)
    ensures
        r@ == spec_key_primary_id(),
{
    let mut r: Vec<u8> = Vec::new();
    r.push(0x70);
    r.push(0x72);
    r.push(0x69);
    r.push(0x6d);
    r.push(0x61);
    r.push(0x72);
    r.push(0x79);
    r.push(0x49);
    r.push(0x64);
    r.push(0x41);
    r.push(0x74);
    r.push(0x74);
    r.push(0x72);
    r.push(0x69);
    r.push(0x62);
    r.push(0x75);
    r.push(0x74);
    r.push(0x65);
    assert(r@ =~= spec_key_primary_id());
    r
}

/// `/api/data/`: the API root path segment.
pub open spec fn spec_api_data_path() -> Seq<u8> {
    seq![0x2fu8, 0x61, 0x70, 0x69, 0x2f, 0x64, 0x61, 0x74, 0x61, 0x2f]
}

/// The bytes of `/api/data/`.
pub fn api_data_path() -> (r: Vec<u8>)
    ensures
        r@ == spec_api_data_path(),
{
    let mut r: Vec<u8> = Vec::new();
    r.push(0x2f);
    r.push(0x61);
    r.push(0x70);
    r.push(0x69);
    r.push(0x2f);
    r.push(0x64);
    r.push(0x61);
    r.push(0x74);
    r.push(0x61);
    r.push(0x2f);
    assert(r@ =~= spec_api_data_path());
    r
}

/// `/`: a path separator.
pub open spec fn spec_slash() -> Seq<u8> {
    seq![0x2fu8]
}

/// The bytes of `/`.
pub fn slash() -> (r: Vec<u8>)
    ensures
        r@ == spec_slash(),
{
    let mut r: Vec<u8> = Vec::new();
    r.push(0x2f);
    assert(r@ =~= spec_slash());
    r
}

/// `?$count=true`: the listing query string.
pub open spec fn spec_count_query() -> Seq<u8> {
    seq![0x3fu8, 0x24, 0x63, 0x6f, 0x75, 0x6e, 0x74, 0x3d, 0x74, 0x72, 0x75, 0x65]
}

/// The bytes of `?$count=true`.
pub fn count_query() -> (r: Vec<u8>)
    ensures
        r@ == spec_count_query(),
{
    let mut r: Vec<u8> = Vec::new();
    r.push(0x3f);
    r.push(0x24);
    r.push(0x63);
    r.push(0x6f);
    r.push(0x75);
    r.push(0x6e);
    r.push(0x74);
    r.push(0x3d);
    r.push(0x74);
    r.push(0x72);
    r.push(0x75);
    r.push(0x65);
    assert(r@ =~= spec_count_query());
    r
}

/// `/systemusers(`: the start of an actor-scoped path.
pub open spec fn spec_systemusers_open() -> Seq<u8> {
    seq![0x2fu8, 0x73, 0x79, 0x73, 0x74, 0x65, 0x6d, 0x75, 0x73, 0x65, 0x72, 0x73, 0x28]
}

/// The bytes of `/systemusers(`.
pub fn systemusers_open() -> (r: Vec<u8>)
    ensures
        r@ == spec_systemusers_open(),
{
    let mut r: Vec<u8> = Vec::new();
    r.push(0x2f);
    r.push(0x73);
    r.push(0x79);
    r.push(0x73);
    r.push(0x74);
    r.push(0x65);
    r.push(0x6d);
    r.push(0x75);
    r.push(0x73);
    r.push(0x65);
    r.push(0x72);
    r.push(0x73);
    r.push(0x28);
    assert(r@ =~= spec_systemusers_open());
    r
}

/// `)/Microsoft.Dynamics.CRM.RetrievePrincipalAccessInfo(ObjectId=`: the access-probe function segment.
pub open spec fn spec_access_info_call() -> Seq<u8> {
    seq![0x29u8, 0x2f, 0x4d, 0x69, 0x63, 0x72, 0x6f, 0x73, 0x6f, 0x66, 0x74, 0x2e, 0x44, 0x79, 0x6e, 0x61, 0x6d, 0x69, 0x63, 0x73, 0x2e, 0x43, 0x52, 0x4d, 0x2e, 0x52, 0x65, 0x74, 0x72, 0x69, 0x65, 0x76, 0x65, 0x50, 0x72, 0x69, 0x6e, 0x63, 0x69, 0x70, 0x61, 0x6c, 0x41, 0x63, 0x63, 0x65, 0x73, 0x73, 0x49, 0x6e, 0x66, 0x6f, 0x28, 0x4f, 0x62, 0x6a, 0x65, 0x63, 0x74, 0x49, 0x64, 0x3d]
}

/// The bytes of `)/Microsoft.Dynamics.CRM.RetrievePrincipalAccessInfo(ObjectId=`.
pub fn access_info_call() -> (r: Vec<u8>)
    ensures
        r@ == spec_access_info_call(),
{
    let mut r: Vec<u8> = Vec::new();
    r.push(0x29);
    r.push(0x2f);
    r.push(0x4d);
    r.push(0x69);
    r.push(0x63);
    r.push(0x72);
    r.push(0x6f);
    r.push(0x73);
    r.push(0x6f);
    r.push(0x66);
    r.push(0x74);
    r.push(0x2e);
    r.push(0x44);
    r.push(0x79);
    r.push(0x6e);
    r.push(0x61);
    r.push(0x6d);
    r.push(0x69);
    r.push(0x63);
    r.push(0x73);
    r.push(0x2e);
    r.push(0x43);
    r.push(0x52);
    r.push(0x4d);
    r.push(0x2e);
    r.push(0x52);
    r.push(0x65);
    r.push(0x74);
    r.push(0x72);
    r.push(0x69);
    r.push(0x65);
    r.push(0x76);
    r.push(0x65);
    r.push(0x50);
    r.push(0x72);
    r.push(0x69);
    r.push(0x6e);
    r.push(0x63);
    r.push(0x69);
    r.push(0x70);
    r.push(0x61);
    r.push(0x6c);
    r.push(0x41);
    r.push(0x63);
    r.push(0x63);
    r.push(0x65);
    r.push(0x73);
    r.push(0x73);
    r.push(0x49);
    r.push(0x6e);
    r.push(0x66);
    r.push(0x6f);
    r.push(0x28);
    r.push(0x4f);
    r.push(0x62);
    r.push(0x6a);
    r.push(0x65);
    r.push(0x63);
    r.push(0x74);
    r.push(0x49);
    r.push(0x64);
    r.push(0x3d);
    assert(r@ =~= spec_access_info_call());
    r
}

/// `,EntityName='`: the probe's entity-name argument prefix.
pub open spec fn spec_entity_name_infix() -> Seq<u8> {
    seq![0x2cu8, 0x45, 0x6e, 0x74, 0x69, 0x74, 0x79, 0x4e, 0x61, 0x6d, 0x65, 0x3d, 0x27]
}

/// The bytes of `,EntityName='`.
pub fn entity_name_infix() -> (r: Vec<u8>)
    ensures
        r@ == spec_entity_name_infix(),
{
    let mut r: Vec<u8> = Vec::new();
    r.push(0x2c);
    r.push(0x45);
    r.push(0x6e);
    r.push(0x74);
    r.push(0x69);
    r.push(0x74);
    r.push(0x79);
    r.push(0x4e);
    r.push(0x61);
    r.push(0x6d);
    r.push(0x65);
    r.push(0x3d);
    r.push(0x27);
    assert(r@ =~= spec_entity_name_infix());
    r
}

/// `')`: the probe call's closing characters.
pub open spec fn spec_probe_suffix() -> Seq<u8> {
    seq![0x27u8, 0x29]
}

/// The bytes of `')`.
pub fn probe_suffix() -> (r: Vec<u8>)
    ensures
        r@ == spec_probe_suffix(),
{
    let mut r: Vec<u8> = Vec::new();
    r.push(0x27);
    r.push(0x29);
    assert(r@ =~= spec_probe_suffix());
    r
}

/// `.json`: the output file extension.
pub open spec fn spec_json_ext() -> Seq<u8> {
    seq![0x2eu8, 0x6a, 0x73, 0x6f, 0x6e]
}

/// The bytes of `.json`.
pub fn json_ext() -> (r: Vec<u8>)
    ensures
        r@ == spec_json_ext(),
{
    let mut r: Vec<u8> = Vec::new();
    r.push(0x2e);
    r.push(0x6a);
    r.push(0x73);
    r.push(0x6f);
    r.push(0x6e);
    assert(r@ =~= spec_json_ext());
    r
}

/// `odata.maxpagesize=`: the page-size preference header value prefix.
pub open spec fn spec_prefer_prefix() -> Seq<u8> {
    seq![0x6fu8, 0x64, 0x61, 0x74, 0x61, 0x2e, 0x6d, 0x61, 0x78, 0x70, 0x61, 0x67, 0x65, 0x73, 0x69, 0x7a, 0x65, 0x3d]
}

/// The bytes of `odata.maxpagesize=`.
pub fn prefer_prefix() -> (r: Vec<u8>)
    ensures
        r@ == spec_prefer_prefix(),
{
    let mut r: Vec<u8> = Vec::new();
    r.push(0x6f);
    r.push(0x64);
    r.push(0x61);
    r.push(0x74);
    r.push(0x61);
    r.push(0x2e);
    r.push(0x6d);
    r.push(0x61);
    r.push(0x78);
    r.push(0x70);
    r.push(0x61);
    r.push(0x67);
    r.push(0x65);
    r.push(0x73);
    r.push(0x69);
    r.push(0x7a);
    r.push(0x65);
    r.push(0x3d);
    assert(r@ =~= spec_prefer_prefix());
    r
}

} // verus!