use relations_store::access::{
    get_item, get_item_request, query_by_itemtype, query_items, QueryPage,
};
use relations_store::attr::{set_kv, AttrMap, AttrValue};
use relations_store::dispatch::{
    answers, handle_reply, parse_action, plan_action, Actions, StoreCall, StoreReply,
    RELATIONS_TABLE,
};
use relations_store::error::{AccessError, StoreFault};
use relations_store::number::parse_u64;
use relations_store::record::{Dataset, Storable};

fn item(pk: &str, sk: &str, itemtype: &str) -> AttrMap {
    let mut m = AttrMap::new();
    set_kv(&mut m, "pk".to_string(), pk.to_string());
    set_kv(&mut m, "sk".to_string(), sk.to_string());
    set_kv(&mut m, "itemtype".to_string(), itemtype.to_string());
    m
}

fn string_of(m: &AttrMap, name: &str) -> Option<String> {
    match m.get(&name.to_string()) {
        Some(AttrValue::S(s)) => Some(s.clone()),
        _ => None,
    }
}

/// A table of items, searched the way the store answers the two calls.
fn answer(table: &[AttrMap], call: &StoreCall) -> StoreReply {
    match call {
        StoreCall::Get(req) => {
            let pk = string_of(&req.key, "pk");
            let sk = string_of(&req.key, "sk");
            let hit = table
                .iter()
                .find(|m| string_of(m, "pk") == pk && string_of(m, "sk") == sk)
                .cloned();
            StoreReply::Item(hit)
        }
        StoreCall::Query(req) => {
            let class = string_of(&req.values, ":itemtype");
            let items = table
                .iter()
                .filter(|m| string_of(m, "itemtype") == class)
                .cloned()
                .collect();
            StoreReply::Page(QueryPage { items, last_key: None })
        }
    }
}

fn run(table: &[AttrMap], tag: &str, pk: Option<&str>, sk: Option<&str>) -> relations_store::dispatch::CustomOutput {
    let action = parse_action(tag, pk.map(String::from), sk.map(String::from)).unwrap();
    let call = plan_action(&action, RELATIONS_TABLE);
    let reply = Ok(answer(table, &call));
    assert!(answers(&action, &reply));
    handle_reply(action, reply).unwrap()
}

fn is_empty_dataset(d: &Dataset) -> bool {
    d.pk.is_empty() && d.sk.is_empty() && d.itemtype.is_empty() && d.created == Some(0)
}

#[test]
fn get_by_key_returns_the_stored_item() {
    let table = vec![item("c4c", "c4c", "dataset")];
    let out = run(&table, "GetByKey", Some("c4c"), Some("c4c"));
    assert_eq!(out.message, "c4c");
    assert_eq!(out.dataset.pk, "c4c");
    assert_eq!(out.dataset.sk, "c4c");
    assert_eq!(out.dataset.itemtype, "dataset");
    assert_eq!(out.dataset.created, None);
    assert!(out.datasets.is_empty());
}

#[test]
fn get_datasets_lists_every_dataset() {
    let table = vec![
        item("a", "a", "dataset"),
        item("b", "b", "dataset"),
        item("c", "c", "relation"),
    ];
    let out = run(&table, "GetDatasets", None, None);
    assert_eq!(out.datasets.len(), 2);
    assert_eq!(out.datasets[0].pk, "a");
    assert_eq!(out.datasets[1].pk, "b");
    assert!(is_empty_dataset(&out.dataset));
    assert_eq!(out.message, "");
}

#[test]
fn get_by_missing_key_gives_the_empty_entry() {
    let table = vec![item("c4c", "c4c", "dataset")];
    let out = run(&table, "GetByKey", Some("missing"), Some("missing"));
    assert!(is_empty_dataset(&out.dataset));
    assert_eq!(out.message, "missing");
    assert!(out.datasets.is_empty());
}

#[test]
fn get_item_tag_is_accepted() {
    let action = parse_action("GetItem", Some("x".to_string()), Some("y".to_string())).unwrap();
    match action {
        Actions::GetItem { pk, sk } => {
            assert_eq!(pk, "x");
            assert_eq!(sk, "y");
        }
        Actions::GetDatasets => panic!("wrong action"),
    }
}

#[test]
fn unknown_action_is_malformed() {
    let r = parse_action("DeleteAll", None, None);
    assert!(matches!(r, Err(AccessError::MalformedRequest)));
}

#[test]
fn get_by_key_without_sort_key_is_malformed() {
    let r = parse_action("GetByKey", Some("x".to_string()), None);
    assert!(matches!(r, Err(AccessError::MalformedRequest)));
}

#[test]
fn key_request_binds_pk_and_sk() {
    let mut ds = Dataset::default();
    ds.pk = "p1".to_string();
    ds.sk = "s1".to_string();
    let req = get_item_request(&ds, "relations");
    assert_eq!(req.table, "relations");
    assert_eq!(req.key.entries.len(), 2);
    assert_eq!(string_of(&req.key, "pk").as_deref(), Some("p1"));
    assert_eq!(string_of(&req.key, "sk").as_deref(), Some("s1"));
}

#[test]
fn listing_request_uses_the_index() {
    let mut ds = Dataset::default();
    ds.itemtype = "dataset".to_string();
    let req = query_by_itemtype(&ds, "relations", None);
    assert_eq!(req.index, "itemtype-index");
    assert_eq!(req.key_condition, "itemtype = :itemtype");
    assert_eq!(string_of(&req.values, ":itemtype").as_deref(), Some("dataset"));
    assert!(req.start_key.is_none());
}

#[test]
fn plan_for_listing_asks_for_datasets() {
    match plan_action(&Actions::GetDatasets, RELATIONS_TABLE) {
        StoreCall::Query(req) => {
            assert_eq!(req.table, "relations");
            assert_eq!(string_of(&req.values, ":itemtype").as_deref(), Some("dataset"));
        }
        StoreCall::Get(_) => panic!("wrong call"),
    }
}

#[test]
fn hit_decodes_every_declared_field() {
    let mut m = item("p", "s", "dataset");
    m.insert("created".to_string(), AttrValue::N("1700000000".to_string()));
    set_kv(&mut m, "extra".to_string(), "ignored".to_string());
    let d: Dataset = get_item(Ok(Some(m))).unwrap();
    assert_eq!(d.pk, "p");
    assert_eq!(d.sk, "s");
    assert_eq!(d.itemtype, "dataset");
    assert_eq!(d.created, Some(1_700_000_000));
}

#[test]
fn miss_gives_the_empty_record() {
    let d: Dataset = get_item(Ok(None)).unwrap();
    assert!(is_empty_dataset(&d));
}

#[test]
fn missing_required_field_is_a_schema_mismatch() {
    let mut m = AttrMap::new();
    set_kv(&mut m, "pk".to_string(), "p".to_string());
    set_kv(&mut m, "itemtype".to_string(), "dataset".to_string());
    let r: Result<Dataset, AccessError> = get_item(Ok(Some(m)));
    match r {
        Err(AccessError::SchemaMismatch { field }) => assert_eq!(field, "sk"),
        other => panic!("unexpected {:?}", other),
    }
}

#[test]
fn wrong_kind_of_value_is_a_schema_mismatch() {
    let mut m = item("p", "s", "dataset");
    set_kv(&mut m, "created".to_string(), "yesterday".to_string());
    match Dataset::decode(&m) {
        Err(AccessError::SchemaMismatch { field }) => assert_eq!(field, "created"),
        other => panic!("unexpected {:?}", other),
    }
    let mut n = item("p", "s", "dataset");
    n.insert("pk".to_string(), AttrValue::N("5".to_string()));
    match Dataset::decode(&n) {
        Err(AccessError::SchemaMismatch { field }) => assert_eq!(field, "pk"),
        other => panic!("unexpected {:?}", other),
    }
}

#[test]
fn store_faults_are_surfaced() {
    let r: Result<Dataset, AccessError> = get_item(Err(StoreFault::Unavailable));
    assert!(matches!(r, Err(AccessError::StoreUnavailable)));
    let q: Result<_, AccessError> = query_items::<Dataset>(Err(StoreFault::Rejected));
    assert!(matches!(q, Err(AccessError::StoreRejected)));
    let h = handle_reply(Actions::GetDatasets, Err(StoreFault::Unavailable));
    assert!(matches!(h, Err(AccessError::StoreUnavailable)));
}

#[test]
fn empty_page_gives_no_records() {
    let page = QueryPage { items: Vec::new(), last_key: None };
    let p = query_items::<Dataset>(Ok(page)).unwrap();
    assert!(p.items.is_empty());
    assert!(p.next.is_none());
}

#[test]
fn page_keeps_order_and_continuation() {
    let mut last = AttrMap::new();
    set_kv(&mut last, "pk".to_string(), "z".to_string());
    let page = QueryPage {
        items: vec![item("b", "1", "dataset"), item("a", "2", "dataset"), item("c", "3", "dataset")],
        last_key: Some(last),
    };
    let p = query_items::<Dataset>(Ok(page)).unwrap();
    let keys: Vec<&str> = p.items.iter().map(|d| d.pk.as_str()).collect();
    assert_eq!(keys, vec!["b", "a", "c"]);
    let next = p.next.unwrap();
    assert_eq!(string_of(&next, "pk").as_deref(), Some("z"));
}

#[test]
fn page_with_a_bad_item_fails() {
    let mut bad = AttrMap::new();
    set_kv(&mut bad, "pk".to_string(), "x".to_string());
    let page = QueryPage { items: vec![item("a", "1", "dataset"), bad], last_key: None };
    match query_items::<Dataset>(Ok(page)) {
        Err(AccessError::SchemaMismatch { field }) => assert_eq!(field, "sk"),
        Ok(_) => panic!("decoded a bad item"),
        Err(e) => panic!("unexpected {:?}", e),
    }
}

#[test]
fn later_entry_shadows_earlier() {
    let mut m = AttrMap::new();
    set_kv(&mut m, "pk".to_string(), "old".to_string());
    set_kv(&mut m, "pk".to_string(), "new".to_string());
    assert_eq!(string_of(&m, "pk").as_deref(), Some("new"));
    assert!(m.get(&"sk".to_string()).is_none());
}

#[test]
fn decimal_text_reads_as_u64() {
    assert_eq!(parse_u64(&"0".to_string()), Some(0));
    assert_eq!(parse_u64(&"42".to_string()), Some(42));
    assert_eq!(parse_u64(&"18446744073709551615".to_string()), Some(u64::MAX));
    assert_eq!(parse_u64(&"18446744073709551616".to_string()), None);
    assert_eq!(parse_u64(&"".to_string()), None);
    assert_eq!(parse_u64(&"12a".to_string()), None);
    assert_eq!(parse_u64(&"-1".to_string()), None);
}

#[test]
fn identity_of_a_record() {
    let d = Dataset { pk: "p".to_string(), sk: "s".to_string(), itemtype: "t".to_string(), created: None };
    assert_eq!(d.pk(), "p");
    assert_eq!(d.sk(), "s");
    assert_eq!(d.itemtype(), "t");
    assert!(is_empty_dataset(&Dataset::empty()));
}

#[test]
fn mismatched_reply_is_not_an_answer() {
    let reply: Result<StoreReply, StoreFault> = Ok(StoreReply::Item(None));
    assert!(!answers(&Actions::GetDatasets, &reply));
    assert!(answers(&Actions::GetDatasets, &Err(StoreFault::Rejected)));
}
