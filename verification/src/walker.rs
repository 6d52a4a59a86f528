//! The page walker: one collection's cursor-following pagination.
//!
//! The walker starts at the collection's listing address, hands out the
//! request to issue, merges each response's records in arrival order, adopts
//! the response's next cursor, and is done when a page carries none. A page
//! whose record count falls short of the page-size preference does not end
//! the walk: only a missing next cursor does.
use vstd::prelude::*;
use crate::json::JsonVal;
use crate::json::JsonValue;
use crate::json::clone_bytes;
use crate::model::ErrorKind;
use crate::model::HarvestResult;
use crate::model::Record;
use crate::model::spec_lookup;
use crate::parse::spec_parse_document;
use crate::parse::parse_document;
use crate::text::{
    api_data_path, count_query, key_next_link, key_value, prefer_prefix, slash,
    spec_api_data_path, spec_count_query, spec_key_next_link, spec_key_value, spec_prefer_prefix,
    spec_slash,
};

verus! {

/// The mathematical view of one page: the records' models and the next
/// cursor, if the server supplied one.
pub ghost struct PageV {
    pub records: Seq<Seq<(Seq<u8>, JsonVal)>>,
    pub next: Option<Seq<u8>>,
}

/// One page of a collection's listing, as one HTTP response carried it.
#[derive(Debug, PartialEq)]
pub struct Page {
    pub records: Vec<Record>,
    pub next_cursor: Option<Vec<u8>>,
}

/// The models of the records in `rs`, in order.
pub open spec fn records_models(rs: Seq<Record>) -> Seq<Seq<(Seq<u8>, JsonVal)>> {
    Seq::new(
        rs.len(),
        |i: int|
            if 0 <= i < rs.len() {
                rs[i].model()
            } else {
                Seq::empty()
            },
    )
}

impl View for Page {
    type V = PageV;

    open spec fn view(&self) -> PageV {
        PageV {
            records: records_models(self.records@),
            next: match self.next_cursor {
                None => None,
                Some(u) => Some(u@),
            },
        }
    }
}

/// The records of `elems`, where every element is an object; `None` where
/// one is not.
pub open spec fn spec_records_of(elems: Seq<JsonVal>) -> Option<Seq<Seq<(Seq<u8>, JsonVal)>>>
    decreases elems.len(),
{
    if elems.len() == 0 {
        Some(Seq::empty())
    } else {
        match (spec_records_of(elems.drop_last()), elems.last()) {
            (Some(rs), JsonVal::Object(m)) => Some(rs.push(m)),
            _ => None,
        }
    }
}

/// Once a prefix fails to be all objects, the whole sequence does.
proof fn lemma_records_of_none(elems: Seq<JsonVal>, i: int)
    requires
        0 <= i <= elems.len(),
        spec_records_of(elems.take(i)) is None,
    ensures
        spec_records_of(elems) is None,
    decreases elems.len() - i,
{
    if i == elems.len() {
        assert(elems.take(i) =~= elems);
    } else {
        assert(elems.take(i + 1).drop_last() =~= elems.take(i));
        lemma_records_of_none(elems, i + 1);
    }
}

/// What a page response document denotes: a `value` array of record
/// objects, and an optional next cursor; a missing or null next-link member
/// ends the pagination.
pub open spec fn spec_page_of(doc: JsonVal) -> Option<PageV> {
    match doc {
        JsonVal::Object(members) => match spec_lookup(members, spec_key_value()) {
            Some(JsonVal::Array(elems)) => match spec_records_of(elems) {
                Some(recs) => match spec_lookup(members, spec_key_next_link()) {
                    None => Some(PageV { records: recs, next: None }),
                    Some(JsonVal::Null) => Some(PageV { records: recs, next: None }),
                    Some(JsonVal::Str(u)) => Some(PageV { records: recs, next: Some(u) }),
                    Some(_) => None,
                },
                None => None,
            },
            _ => None,
        },
        _ => None,
    }
}

/// Reads a page out of a parsed document, returning exactly `spec_page_of`.
pub fn page_from_document(doc: &JsonValue) -> (r: Option<Page>)
    ensures
        r is None ==> spec_page_of(doc.model()) is None,
        r matches Some(p) ==> spec_page_of(doc.model()) == Some(p@),
{
    let members = match doc {
        JsonValue::Object(members) => members,
        _ => {
            return None;
        },
    };
    proof {
        crate::json::lemma_model_object(*doc);
    }
    let value_key = key_value();
    let looked_up = crate::model::members_get(members, &value_key);
    let elems = match looked_up {
        Some(v) => match v {
            JsonValue::Array(elems) => {
                proof {
                    crate::json::lemma_model_array(*v);
                }
                elems
            },
            _ => {
                return None;
            },
        },
        None => {
            return None;
        },
    };
    let ghost melems = crate::json::seq_models(elems@);
    let mut records: Vec<Record> = Vec::new();
    let mut i: usize = 0;
    while i < elems.len()
        invariant
            0 <= i <= elems.len(),
            melems == crate::json::seq_models(elems@),
            melems.len() == elems@.len(),
            doc.model() == JsonVal::Object(crate::json::member_models(members@)),
            spec_lookup(crate::json::member_models(members@), spec_key_value()) == Some(
                JsonVal::Array(melems),
            ),
            spec_records_of(melems.take(i as int)) == Some(records_models(records@)),
        decreases elems.len() - i,
    {
        let ghost pre = records_models(records@);
        match &elems[i] {
            JsonValue::Object(fields) => {
                let rec = Record { fields: crate::json::clone_members(fields) };
                records.push(rec);
                proof {
                    crate::json::lemma_model_object(elems@[i as int]);
                    assert(melems.take(i + 1).drop_last() =~= melems.take(i as int));
                    assert(melems.take(i + 1).last() == melems[i as int]);
                    assert(records_models(records@) =~= pre.push(
                        elems@[i as int].model()->Object_0,
                    ));
                }
            },
            _ => {
                proof {
                    assert(melems.take(i + 1).drop_last() =~= melems.take(i as int));
                    assert(melems.take(i + 1).last() == melems[i as int]);
                    assert(spec_records_of(melems.take(i + 1)) is None);
                    lemma_records_of_none(melems, i + 1);
                }
                return None;
            },
        }
        i += 1;
    }
    proof {
        assert(melems.take(melems.len() as int) =~= melems);
    }
    let next_key = key_next_link();
    let next_cursor: Option<Vec<u8>> = match crate::model::members_get(members, &next_key) {
        None => None,
        Some(JsonValue::Null) => None,
        Some(JsonValue::Str(u)) => Some(clone_bytes(u)),
        Some(_) => {
            return None;
        },
    };
    Some(Page { records, next_cursor })
}

/// The mathematical view of a walker.
pub ghost struct WalkerV {
    pub set_name: Seq<u8>,
    pub page_size_hint: u64,
    pub records: Seq<Seq<(Seq<u8>, JsonVal)>>,
    pub cursor: Option<Seq<u8>>,
}

/// Drives the pagination of exactly one collection.
pub struct PageWalker {
    pub set_name: Vec<u8>,
    pub page_size_hint: u64,
    pub records: Vec<Record>,
    pub cursor: Option<Vec<u8>>,
}

impl View for PageWalker {
    type V = WalkerV;

    open spec fn view(&self) -> WalkerV {
        WalkerV {
            set_name: self.set_name@,
            page_size_hint: self.page_size_hint,
            records: records_models(self.records@),
            cursor: match self.cursor {
                None => None,
                Some(u) => Some(u@),
            },
        }
    }
}

/// The listing address of a collection: the synthetic first cursor.
pub open spec fn spec_listing_url(target: Seq<u8>, api: Seq<u8>, set_name: Seq<u8>) -> Seq<u8> {
    target + spec_api_data_path() + api + spec_slash() + set_name + spec_count_query()
}

/// Builds the listing address of a collection.
pub fn listing_url(target: &Vec<u8>, api: &Vec<u8>, set_name: &Vec<u8>) -> (r: Vec<u8>)
    ensures
        r@ == spec_listing_url(target@, api@, set_name@),
{
    let mut r: Vec<u8> = Vec::new();
    crate::json::push_bytes(&mut r, target);
    let chunk = api_data_path();
    crate::json::push_bytes(&mut r, &chunk);
    crate::json::push_bytes(&mut r, api);
    let sep = slash();
    crate::json::push_bytes(&mut r, &sep);
    crate::json::push_bytes(&mut r, set_name);
    let q = count_query();
    crate::json::push_bytes(&mut r, &q);
    assert(r@ =~= spec_listing_url(target@, api@, set_name@));
    r
}

/// Merging one page: records are appended in order, the page's cursor is
/// adopted.
pub open spec fn spec_apply_page(w: WalkerV, p: PageV) -> WalkerV {
    WalkerV { records: w.records + p.records, cursor: p.next, ..w }
}

/// One response, as the walker judges it: a non-success status fails the
/// walk with that status; an unreadable body, or one that is not a page,
/// fails it with none; a page is merged.
pub open spec fn spec_walk_step(w: WalkerV, status: u16, body: Seq<u8>) -> Result<
    WalkerV,
    ErrorKind,
> {
    if status != 200 {
        Err(ErrorKind::PageFetch { status: Some(status) })
    } else {
        match spec_parse_document(body) {
            None => Err(ErrorKind::PageFetch { status: None }),
            Some(doc) => match spec_page_of(doc) {
                None => Err(ErrorKind::PageFetch { status: None }),
                Some(p) => Ok(spec_apply_page(w, p)),
            },
        }
    }
}

impl PageWalker {
    /// A fresh walk: no records, and the listing address as the first
    /// cursor.
    pub fn start(set_name: Vec<u8>, target: &Vec<u8>, api: &Vec<u8>, page_size_hint: u64) -> (r:
        Self)
        ensures
            r@.set_name == set_name@,
            r@.page_size_hint == page_size_hint,
            r@.records == Seq::<Seq<(Seq<u8>, JsonVal)>>::empty(),
            r@.cursor == Some(spec_listing_url(target@, api@, set_name@)),
    {
        let url = listing_url(target, api, &set_name);
        let r = PageWalker { set_name, page_size_hint, records: Vec::new(), cursor: Some(url) };
        proof {
            assert(records_models(r.records@) =~= Seq::<Seq<(Seq<u8>, JsonVal)>>::empty());
        }
        r
    }

    /// The address to request next; none when the walk is complete.
    pub fn next_request(&self) -> (r: Option<Vec<u8>>)
        ensures
            r is Some <==> self@.cursor is Some,
            r matches Some(u) ==> self@.cursor == Some(u@),
    {
        match &self.cursor {
            None => None,
            Some(u) => Some(clone_bytes(u)),
        }
    }

    /// The page-size preference to send with every request.
    pub fn prefer_value(&self) -> (r: Vec<u8>)
        ensures
            r@ == spec_prefer_prefix() + crate::model::spec_decimal(self.page_size_hint as int),
    {
        let mut r = prefer_prefix();
        crate::model::push_decimal(&mut r, self.page_size_hint);
        r
    }

    /// Judges one response: exactly `spec_walk_step`. On an error the walk
    /// is abandoned and the walker unchanged; on success the page is merged
    /// and the cursor replaced.
    pub fn on_response(&mut self, status: u16, body: &Vec<u8>) -> (r: Result<(), ErrorKind>)
        requires
            old(self)@.cursor is Some,
        ensures
            r matches Ok(()) ==> spec_walk_step(old(self)@, status, body@) == Ok::<
                WalkerV,
                ErrorKind,
            >(final(self)@),
            r matches Err(e) ==> spec_walk_step(old(self)@, status, body@) == Err::<
                WalkerV,
                ErrorKind,
            >(e) && final(self)@ == old(self)@,
    {
        if status != 200 {
            return Err(ErrorKind::PageFetch { status: Some(status) });
        }
        let doc = match parse_document(body) {
            None => {
                return Err(ErrorKind::PageFetch { status: None });
            },
            Some(doc) => doc,
        };
        let mut page = match page_from_document(&doc) {
            None => {
                return Err(ErrorKind::PageFetch { status: None });
            },
            Some(page) => page,
        };
        let ghost w0 = self@;
        let ghost pv = page@;
        self.records.append(&mut page.records);
        self.cursor = page.next_cursor;
        proof {
            assert(records_models(self.records@) =~= w0.records + pv.records);
            assert(self@ == spec_apply_page(w0, pv));
        }
        Ok(())
    }

    /// Whether the server has signalled the end of the pagination.
    pub fn done(&self) -> (r: bool)
        ensures
            r == (self@.cursor is None),
    {
        match &self.cursor {
            None => true,
            Some(_) => false,
        }
    }

    /// The merged result of a completed walk: every record of every page,
    /// in arrival order, and the count set to their number.
    pub fn finish(self) -> (r: HarvestResult)
        requires
            self@.cursor is None,
        ensures
            r.wf(),
            r.set_name@ == self@.set_name,
            records_models(r.records@) == self@.records,
            r.record_count == self@.records.len(),
    {
        let count = self.records.len();
        HarvestResult { set_name: self.set_name, records: self.records, record_count: count }
    }
}

/// Running a walk over a sequence of pages, page by page.
pub open spec fn spec_run_pages(w: WalkerV, pages: Seq<PageV>) -> WalkerV
    decreases pages.len(),
{
    if pages.len() == 0 {
        w
    } else {
        spec_run_pages(spec_apply_page(w, pages[0]), pages.skip(1))
    }
}

/// The concatenation of the pages' records, in page order.
pub open spec fn spec_concat_pages(pages: Seq<PageV>) -> Seq<Seq<(Seq<u8>, JsonVal)>>
    decreases pages.len(),
{
    if pages.len() == 0 {
        Seq::empty()
    } else {
        pages[0].records + spec_concat_pages(pages.skip(1))
    }
}

/// The total number of records across the pages.
pub open spec fn spec_total_records(pages: Seq<PageV>) -> int
    decreases pages.len(),
{
    if pages.len() == 0 {
        0
    } else {
        pages[0].records.len() + spec_total_records(pages.skip(1))
    }
}

/// A walk appends exactly the pages' records, in order, and ends on the
/// last page's cursor.
pub proof fn lemma_run_pages(w: WalkerV, pages: Seq<PageV>)
    ensures
        spec_run_pages(w, pages).records == w.records + spec_concat_pages(pages),
        spec_run_pages(w, pages).cursor == (if pages.len() == 0 {
            w.cursor
        } else {
            pages.last().next
        }),
        spec_run_pages(w, pages).set_name == w.set_name,
        spec_concat_pages(pages).len() == spec_total_records(pages),
    decreases pages.len(),
{
    if pages.len() == 0 {
        assert(w.records + spec_concat_pages(pages) =~= w.records);
    } else {
        let w1 = spec_apply_page(w, pages[0]);
        lemma_run_pages(w1, pages.skip(1));
        assert(pages.len() == 1 ==> pages.skip(1).len() == 0 && pages.last() == pages[0]);
        assert(pages.len() > 1 ==> pages.skip(1).last() == pages.last());
        assert((w.records + pages[0].records) + spec_concat_pages(pages.skip(1)) =~= w.records + (
        pages[0].records + spec_concat_pages(pages.skip(1))));
    }
}

/// For pages of which exactly the last lacks a next cursor, a walk from the
/// start state merges the concatenation of all their records, in order, the
/// count is their total, and the walk terminates: no cursor is left.
pub proof fn lemma_walk_merges_pages(w: WalkerV, pages: Seq<PageV>)
    requires
        w.records.len() == 0,
        pages.len() > 0,
        forall|k: int| 0 <= k < pages.len() - 1 ==> pages[k].next is Some,
        pages.last().next is None,
    ensures
        spec_run_pages(w, pages).records == spec_concat_pages(pages),
        spec_run_pages(w, pages).records.len() == spec_total_records(pages),
        spec_run_pages(w, pages).cursor is None,
        spec_run_pages(w, pages).set_name == w.set_name,
{
    lemma_run_pages(w, pages);
    assert(w.records + spec_concat_pages(pages) =~= spec_concat_pages(pages));
}

} // verus!
