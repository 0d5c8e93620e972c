//! The action dispatcher: from an inbound action to a store call, and from
//! the store's reply to the response.
use vstd::prelude::*;
use crate::access::{
    class_values, get_item, get_item_request, get_outcome, itemtype_condition, itemtype_index,
    key_map, query_by_itemtype, query_items, query_outcome, GetRequest, Page, QueryPage,
    QueryRequest,
};
use crate::attr::AttrMap;
use crate::error::{AccessError, StoreFault};
use crate::record::{dataset_class, Dataset, Storable};

verus! {

/// An inbound action.
#[derive(Debug, Clone)]
pub enum Actions {
    /// List every dataset entry.
    GetDatasets,
    /// Fetch the entry with this composite key.
    GetItem { pk: String, sk: String },
}

/// The table that holds the relations.
pub const RELATIONS_TABLE: &'static str = "relations";

/// Reads an action from its tag and the key fields that came with it.
///
/// `GetDatasets` lists; `GetByKey` (also spelt `GetItem`) fetches, and needs
/// both `pk` and `sk`. Anything else is a malformed request.
pub fn parse_action(tag: &str, pk: Option<String>, sk: Option<String>) -> (r: Result<
    Actions,
    AccessError,
>)
    ensures
        tag@ == "GetDatasets"@ ==> r == Ok::<Actions, AccessError>(Actions::GetDatasets),
        (tag@ == "GetByKey"@ || tag@ == "GetItem"@) ==> match (pk, sk) {
            (Some(p), Some(s)) => r is Ok && r->Ok_0 is GetItem && r->Ok_0->GetItem_pk@ == p@
                && r->Ok_0->GetItem_sk@ == s@,
            _ => r == Err::<Actions, AccessError>(AccessError::MalformedRequest),
        },
        !(tag@ == "GetDatasets"@ || tag@ == "GetByKey"@ || tag@ == "GetItem"@) ==> r == Err::<
            Actions,
            AccessError,
        >(AccessError::MalformedRequest),
{
    proof {
        reveal_strlit("GetDatasets");
        reveal_strlit("GetByKey");
        reveal_strlit("GetItem");
        assert("GetDatasets"@ != "GetByKey"@ && "GetDatasets"@ != "GetItem"@) by {
            assert("GetDatasets"@.len() != "GetByKey"@.len());
            assert("GetDatasets"@.len() != "GetItem"@.len());
        }
    }
    let t = tag.to_owned();
    if t == "GetDatasets".to_owned() {
        Ok(Actions::GetDatasets)
    } else if t == "GetByKey".to_owned() || t == "GetItem".to_owned() {
        match (pk, sk) {
            (Some(p), Some(s)) => Ok(Actions::GetItem { pk: p, sk: s }),
            _ => Err(AccessError::MalformedRequest),
        }
    } else {
        Err(AccessError::MalformedRequest)
    }
}

/// The call that the store must answer for an action.
#[derive(Debug, Clone)]
pub enum StoreCall {
    Get(GetRequest),
    Query(QueryRequest),
}

/// What the store answered.
#[derive(Debug, Clone)]
pub enum StoreReply {
    /// The answer to a point read: the item, if there is one.
    Item(Option<AttrMap>),
    /// The answer to a query.
    Page(QueryPage),
}

/// The response to an action.
#[derive(Debug, Clone)]
pub struct CustomOutput {
    /// The fetched key, for a point read; empty for a listing.
    pub message: String,
    /// The fetched entry, for a point read; the empty entry for a listing.
    pub dataset: Dataset,
    /// The listed entries, for a listing; empty for a point read.
    pub datasets: Vec<Dataset>,
    /// Where the next page of a listing starts, if there is more.
    pub next: Option<AttrMap>,
}

/// Decides which store call serves `action`, against `table`.
pub fn plan_action(action: &Actions, table: &str) -> (r: StoreCall)
    ensures
        match action {
            Actions::GetDatasets => r is Query && r->Query_0.table@ == table@
                && r->Query_0.index@ == itemtype_index() && r->Query_0.key_condition@
                == itemtype_condition() && r->Query_0.values@ == class_values(dataset_class())
                && r->Query_0.start_key is None,
            Actions::GetItem { pk, sk } => r is Get && r->Get_0.table@ == table@ && r->Get_0.key@
                == key_map(pk@, sk@),
        },
{
    match action {
        Actions::GetDatasets => {
            let mut ds = Dataset::default();
            ds.itemtype = "dataset".to_owned();
            StoreCall::Query(query_by_itemtype(&ds, table, None))
        },
        Actions::GetItem { pk, sk } => {
            let mut ds = Dataset::default();
            ds.pk = pk.clone();
            ds.sk = sk.clone();
            StoreCall::Get(get_item_request(&ds, table))
        },
    }
}

/// Whether `reply` answers the call that `action` makes: a fault answers any
/// call.
pub open spec fn answers_spec(action: &Actions, reply: &Result<StoreReply, StoreFault>) -> bool {
    match reply {
        Err(_) => true,
        Ok(StoreReply::Item(_)) => action is GetItem,
        Ok(StoreReply::Page(_)) => action is GetDatasets,
    }
}

/// Tells whether `reply` answers the call that `action` makes.
pub fn answers(action: &Actions, reply: &Result<StoreReply, StoreFault>) -> (r: bool)
    ensures
        r == answers_spec(action, reply),
{
    match reply {
        Err(_) => true,
        Ok(StoreReply::Item(_)) => action.is_get_item(),
        Ok(StoreReply::Page(_)) => !action.is_get_item(),
    }
}

impl Actions {
    /// Whether this is a point read.
    pub fn is_get_item(&self) -> (r: bool)
        ensures
            r == self is GetItem,
    {
        match self {
            Actions::GetItem { .. } => true,
            Actions::GetDatasets => false,
        }
    }
}

/// The point-read part of a reply; a query's answer is no answer to it.
pub open spec fn item_reply(reply: Result<StoreReply, StoreFault>) -> Result<Option<AttrMap>, StoreFault> {
    match reply {
        Err(f) => Err(f),
        Ok(StoreReply::Item(it)) => Ok(it),
        Ok(StoreReply::Page(_)) => Err(StoreFault::Rejected),
    }
}

/// The query part of a reply; a point read's answer is no answer to it.
pub open spec fn page_reply(reply: Result<StoreReply, StoreFault>) -> Result<QueryPage, StoreFault> {
    match reply {
        Err(f) => Err(f),
        Ok(StoreReply::Page(p)) => Ok(p),
        Ok(StoreReply::Item(_)) => Err(StoreFault::Rejected),
    }
}

/// What the response to `action` is, given the store's `reply`.
pub open spec fn response_spec(
    action: Actions,
    reply: Result<StoreReply, StoreFault>,
    r: Result<CustomOutput, AccessError>,
) -> bool {
    match action {
        Actions::GetItem { pk, sk } => match r {
            Ok(out) => out.message@ == pk@ && out.datasets@.len() == 0 && out.next is None
                && get_outcome::<Dataset>(item_reply(reply), Ok(out.dataset)),
            Err(e) => get_outcome::<Dataset>(item_reply(reply), Err(e)),
        },
        Actions::GetDatasets => match r {
            Ok(out) => out.message@ == Seq::<char>::empty() && out.dataset@ == Dataset::empty_spec()
                && query_outcome::<Dataset>(
                page_reply(reply),
                Ok((Page { items: out.datasets, next: out.next })),
            ),
            Err(e) => query_outcome::<Dataset>(page_reply(reply), Err(e)),
        },
    }
}

/// Builds the response to `action` from the store's `reply`.
///
/// A point read echoes its partition key as the message and carries the
/// fetched entry, or the empty entry where there is none. A listing carries
/// the decoded entries in the store's order. Store faults and decode failures
/// are passed on.
pub fn handle_reply(action: Actions, reply: Result<StoreReply, StoreFault>) -> (r: Result<
    CustomOutput,
    AccessError,
>)
    requires
        answers_spec(&action, &reply),
    ensures
        response_spec(action, reply, r),
{
    match action {
        Actions::GetItem { pk, sk } => {
            let item = match reply {
                Err(f) => Err(f),
                Ok(StoreReply::Item(it)) => Ok(it),
                Ok(StoreReply::Page(_)) => Err(StoreFault::Rejected),
            };
            match get_item::<Dataset>(item) {
                Ok(dataset) => Ok(CustomOutput { message: pk, dataset, datasets: Vec::new(), next: None }),
                Err(e) => Err(e),
            }
        },
        Actions::GetDatasets => {
            let page = match reply {
                Err(f) => Err(f),
                Ok(StoreReply::Page(p)) => Ok(p),
                Ok(StoreReply::Item(_)) => Err(StoreFault::Rejected),
            };
            match query_items::<Dataset>(page) {
                Ok(p) => Ok(
                    CustomOutput {
                        message: String::new(),
                        dataset: Dataset::default(),
                        datasets: p.items,
                        next: p.next,
                    },
                ),
                Err(e) => Err(e),
            }
        },
    }
}

} // verus!
