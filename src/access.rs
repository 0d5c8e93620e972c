//! The generic store accessor: point lookup by key and listing by
//! classification, for any storable record type.
//!
//! The store is reached by the caller. Each operation is split in two: a
//! request that this module builds, and the store's reply that it turns into
//! records.
use vstd::prelude::*;
use crate::attr::{set_kv, AttrMap, AttrModel};
use crate::error::{fault_error, fault_error_spec, AccessError, StoreFault};
use crate::record::{
    created_of, decoded_as, itemtype_attr, pk_attr, sk_attr, string_attr, Dataset, Storable,
};

verus! {

/// The name of the index that groups items by classification.
pub open spec fn itemtype_index() -> Seq<char> {
    "itemtype-index"@
}

/// The key condition of a listing by classification.
pub open spec fn itemtype_condition() -> Seq<char> {
    "itemtype = :itemtype"@
}

/// The placeholder that the key condition binds to the classification.
pub open spec fn itemtype_placeholder() -> Seq<char> {
    ":itemtype"@
}

/// A point read of one item by its composite key.
#[derive(Debug, Clone)]
pub struct GetRequest {
    pub table: String,
    pub key: AttrMap,
}

/// A query of one page of items through a secondary index.
#[derive(Debug, Clone)]
pub struct QueryRequest {
    pub table: String,
    pub index: String,
    pub key_condition: String,
    pub values: AttrMap,
    /// Where the page starts: the continuation of an earlier page, if any.
    pub start_key: Option<AttrMap>,
}

/// One page of a query's reply.
#[derive(Debug, Clone)]
pub struct QueryPage {
    pub items: Vec<AttrMap>,
    /// Where the next page starts, if the store holds more.
    pub last_key: Option<AttrMap>,
}

/// One page of decoded records.
#[derive(Debug, Clone)]
pub struct Page<T> {
    pub items: Vec<T>,
    /// Where the next page starts, if the store holds more.
    pub next: Option<AttrMap>,
}

/// The key map of a point read: `pk` and `sk` bound to the two strings.
pub open spec fn key_map(pk: Seq<char>, sk: Seq<char>) -> Seq<(Seq<char>, AttrModel)> {
    seq![("pk"@, AttrModel::S(pk)), ("sk"@, AttrModel::S(sk))]
}

/// The value map of a listing: the placeholder bound to the classification.
pub open spec fn class_values(itemtype: Seq<char>) -> Seq<(Seq<char>, AttrModel)> {
    seq![(itemtype_placeholder(), AttrModel::S(itemtype))]
}

/// Builds the point read of the item whose key is that of `rec`.
pub fn get_item_request<T: Storable>(rec: &T, table: &str) -> (r: GetRequest)
    ensures
        r.table@ == table@,
        r.key@ == key_map(T::pk_spec(rec@), T::sk_spec(rec@)),
{
    let mut key = AttrMap::new();
    set_kv(&mut key, "pk".to_owned(), rec.pk());
    set_kv(&mut key, "sk".to_owned(), rec.sk());
    assert(key@ =~= key_map(T::pk_spec(rec@), T::sk_spec(rec@)));
    GetRequest { table: table.to_owned(), key }
}

/// Builds the query of one page of the items that share the classification
/// of `rec`, starting at `start` where it is given.
pub fn query_by_itemtype<T: Storable>(rec: &T, table: &str, start: Option<AttrMap>) -> (r:
    QueryRequest)
    ensures
        r.table@ == table@,
        r.index@ == itemtype_index(),
        r.key_condition@ == itemtype_condition(),
        r.values@ == class_values(T::itemtype_spec(rec@)),
        r.start_key == start,
{
    let mut values = AttrMap::new();
    set_kv(&mut values, ":itemtype".to_owned(), rec.itemtype());
    assert(values@ =~= class_values(T::itemtype_spec(rec@)));
    QueryRequest {
        table: table.to_owned(),
        index: "itemtype-index".to_owned(),
        key_condition: "itemtype = :itemtype".to_owned(),
        values,
        start_key: start,
    }
}

/// What a point read yields, from the store's reply: the decoded item on a
/// hit, the empty record on a miss, the store's fault as an access error.
pub open spec fn get_outcome<T: Storable>(
    reply: Result<Option<AttrMap>, StoreFault>,
    r: Result<T, AccessError>,
) -> bool {
    match reply {
        Err(f) => r == Err::<T, AccessError>(fault_error_spec(f)),
        Ok(None) => r is Ok && r->Ok_0@ == T::empty_spec(),
        Ok(Some(m)) => decoded_as(r, T::decode_spec(m@)),
    }
}

/// Turns the reply to a point read into a record: the decoded item on a hit,
/// the empty record on a miss.
pub fn get_item<T: Storable>(reply: Result<Option<AttrMap>, StoreFault>) -> (r: Result<
    T,
    AccessError,
>)
    ensures
        get_outcome(reply, r),
{
    match reply {
        Err(f) => Err(fault_error(f)),
        Ok(None) => Ok(T::empty()),
        Ok(Some(m)) => T::decode(&m),
    }
}

/// The views of a sequence of records.
pub open spec fn views<T: View>(s: Seq<T>) -> Seq<T::V> {
    s.map_values(|t: T| t@)
}

/// Decoding a sequence of store items, in order: the records, or the
/// mismatch of the first item that does not decode.
pub open spec fn decode_all<T: Storable>(ms: Seq<Seq<(Seq<char>, AttrModel)>>) -> Result<
    Seq<T::V>,
    Seq<char>,
>
    decreases ms.len(),
{
    if ms.len() == 0 {
        Ok(Seq::empty())
    } else {
        match decode_all::<T>(ms.drop_last()) {
            Err(e) => Err(e),
            Ok(vs) => match T::decode_spec(ms.last()) {
                Ok(v) => Ok(vs.push(v)),
                Err(e) => Err(e),
            },
        }
    }
}

/// The attribute views of a sequence of store items.
pub open spec fn item_views(items: Seq<AttrMap>) -> Seq<Seq<(Seq<char>, AttrModel)>> {
    items.map_values(|m: AttrMap| m@)
}

/// What a listing yields, from the store's reply: the page's items decoded in
/// the store's order, and its continuation.
pub open spec fn query_outcome<T: Storable>(
    reply: Result<QueryPage, StoreFault>,
    r: Result<Page<T>, AccessError>,
) -> bool {
    match reply {
        Err(f) => r == Err::<Page<T>, AccessError>(fault_error_spec(f)),
        Ok(page) => match decode_all::<T>(item_views(page.items@)) {
            Ok(vs) => r is Ok && views(r->Ok_0.items@) == vs && r->Ok_0.next == page.last_key,
            Err(field) => r is Err && r->Err_0 is SchemaMismatch && r->Err_0->SchemaMismatch_field@
                == field,
        },
    }
}

/// Decodes every item of one page of a query's reply, keeping the store's
/// order, and hands on the page's continuation.
pub fn query_items<T: Storable>(reply: Result<QueryPage, StoreFault>) -> (r: Result<
    Page<T>,
    AccessError,
>)
    ensures
        query_outcome(reply, r),
{
    let page = match reply {
        Err(f) => return Err(fault_error(f)),
        Ok(page) => page,
    };
    let ghost ms = item_views(page.items@);
    let mut out: Vec<T> = Vec::new();
    let mut i: usize = 0;
    assert(ms.take(0) =~= Seq::<Seq<(Seq<char>, AttrModel)>>::empty());
    assert(views(out@) =~= Seq::<T::V>::empty());
    while i < page.items.len()
        invariant
            i <= page.items.len(),
            ms == item_views(page.items@),
            reply == Ok::<QueryPage, StoreFault>(page),
            decode_all::<T>(ms.take(i as int)) == Ok::<Seq<T::V>, Seq<char>>(views(out@)),
        decreases page.items.len() - i,
    {
        assert(ms.take(i as int + 1).drop_last() =~= ms.take(i as int));
        assert(ms.take(i as int + 1).last() == page.items@[i as int]@);
        match T::decode(&page.items[i]) {
            Ok(v) => {
                let ghost before = out@;
                out.push(v);
                assert(views(out@) =~= views(before).push(v@));
            },
            Err(e) => {
                proof {
                    assert(decode_all::<T>(ms.take(i as int + 1)) == Err::<Seq<T::V>, Seq<char>>(
                        T::decode_spec(page.items@[i as int]@)->Err_0,
                    ));
                    lemma_decode_all_err_extends::<T>(ms, i as int + 1);
                }
                return Err(e);
            },
        }
        i = i + 1;
    }
    assert(ms.take(i as int) =~= ms);
    Ok(Page { items: out, next: page.last_key })
}

/// Once a prefix fails to decode, every longer prefix fails with the same
/// mismatch.
proof fn lemma_decode_all_err_extends<T: Storable>(ms: Seq<Seq<(Seq<char>, AttrModel)>>, k: int)
    requires
        0 <= k <= ms.len(),
        decode_all::<T>(ms.take(k)) is Err,
    ensures
        decode_all::<T>(ms) == decode_all::<T>(ms.take(k)),
    decreases ms.len() - k,
{
    if k < ms.len() {
        assert(ms.take(k + 1).drop_last() =~= ms.take(k));
        lemma_decode_all_err_extends::<T>(ms, k + 1);
    } else {
        assert(ms.take(k) =~= ms);
    }
}

/// A point read that finds an item holding the requested key and the other
/// declared attributes yields a record whose key is the requested one and
/// whose other fields are the stored attributes.
pub proof fn lemma_get_hit_round_trip(
    pk: Seq<char>,
    sk: Seq<char>,
    item: AttrMap,
    r: Result<Dataset, AccessError>,
)
    requires
        string_attr(item@, pk_attr()) == Some(pk),
        string_attr(item@, sk_attr()) == Some(sk),
        string_attr(item@, itemtype_attr()) is Some,
        created_of(item@) is Ok,
        get_outcome::<Dataset>(Ok(Some(item)), r),
    ensures
        r is Ok,
        r->Ok_0.pk@ == pk,
        r->Ok_0.sk@ == sk,
        Some(r->Ok_0.itemtype@) == string_attr(item@, itemtype_attr()),
        Ok::<Option<u64>, ()>(r->Ok_0.created) == created_of(item@),
{
}

/// A point read that finds no item yields the empty record, never an error.
pub proof fn lemma_get_miss_is_empty<T: Storable>(r: Result<T, AccessError>)
    requires
        get_outcome::<T>(Ok(None), r),
    ensures
        r is Ok,
        r->Ok_0@ == T::empty_spec(),
{
}

/// A listing whose page holds no item yields no record.
pub proof fn lemma_query_empty<T: Storable>(page: QueryPage, r: Result<Page<T>, AccessError>)
    requires
        page.items@.len() == 0,
        query_outcome::<T>(Ok(page), r),
    ensures
        r is Ok,
        r->Ok_0.items@.len() == 0,
{
    assert(item_views(page.items@) =~= Seq::<Seq<(Seq<char>, AttrModel)>>::empty());
    assert(views(r->Ok_0.items@).len() == r->Ok_0.items@.len());
}

/// Where every item decodes, decoding them all gives each one's record, in
/// order.
proof fn lemma_decode_all_ok<T: Storable>(ms: Seq<Seq<(Seq<char>, AttrModel)>>)
    requires
        forall|i: int| 0 <= i < ms.len() ==> T::decode_spec(#[trigger] ms[i]) is Ok,
    ensures
        decode_all::<T>(ms) is Ok,
        decode_all::<T>(ms)->Ok_0.len() == ms.len(),
        forall|i: int|
            0 <= i < ms.len() ==> decode_all::<T>(ms)->Ok_0[i] == T::decode_spec(
                #[trigger] ms[i],
            )->Ok_0,
    decreases ms.len(),
{
    if ms.len() > 0 {
        let d = ms.drop_last();
        assert forall|i: int| 0 <= i < d.len() implies T::decode_spec(#[trigger] d[i]) is Ok by {
            assert(d[i] == ms[i]);
        }
        lemma_decode_all_ok::<T>(d);
        assert forall|i: int| 0 <= i < ms.len() implies decode_all::<T>(ms)->Ok_0[i]
            == T::decode_spec(#[trigger] ms[i])->Ok_0 by {
            if i < d.len() {
                assert(d[i] == ms[i]);
            }
        }
    }
}

/// A listing whose page holds `n` items that all decode yields exactly `n`
/// records, the i-th being the i-th item decoded: the store's order is kept.
pub proof fn lemma_query_keeps_items<T: Storable>(page: QueryPage, r: Result<Page<T>, AccessError>)
    requires
        forall|i: int|
            0 <= i < page.items@.len() ==> T::decode_spec(#[trigger] page.items@[i]@) is Ok,
        query_outcome::<T>(Ok(page), r),
    ensures
        r is Ok,
        r->Ok_0.items@.len() == page.items@.len(),
        forall|i: int|
            0 <= i < page.items@.len() ==> (#[trigger] r->Ok_0.items@[i])@ == T::decode_spec(
                page.items@[i]@,
            )->Ok_0,
        r->Ok_0.next == page.last_key,
{
    let ms = item_views(page.items@);
    assert forall|i: int| 0 <= i < ms.len() implies T::decode_spec(#[trigger] ms[i]) is Ok by {
        assert(ms[i] == page.items@[i]@);
    }
    lemma_decode_all_ok::<T>(ms);
    let out = r->Ok_0.items@;
    assert(views(out).len() == out.len());
    assert forall|i: int| 0 <= i < page.items@.len() implies (#[trigger] out[i])@
        == T::decode_spec(page.items@[i]@)->Ok_0 by {
        assert(views(out)[i] == out[i]@);
        assert(ms[i] == page.items@[i]@);
    }
}

} // verus!
