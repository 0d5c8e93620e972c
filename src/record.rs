//! Storable records: their identity, their empty value, and their codec.
use vstd::prelude::*;
use crate::attr::{lookup, AttrMap, AttrModel, AttrValue};
use crate::error::AccessError;
use crate::number::{parse_u64, u64_of_text};

verus! {

/// Whether a decode result agrees with what the codec's specification gives:
/// the record's view on success, the name of the offending attribute on a
/// schema mismatch.
pub open spec fn decoded_as<T: View>(r: Result<T, AccessError>, s: Result<T::V, Seq<char>>) -> bool {
    match r {
        Ok(v) => s == Ok::<T::V, Seq<char>>(v@),
        Err(AccessError::SchemaMismatch { field }) => s == Err::<T::V, Seq<char>>(field@),
        Err(_) => false,
    }
}

/// A record type that the store can hold.
///
/// It reports its partition key, sort key and classification, has an empty
/// value whose identity fields are all empty, and decodes from an attribute
/// map.
pub trait Storable: Sized + View {
    /// The partition key of a record.
    spec fn pk_spec(v: Self::V) -> Seq<char>;

    /// The sort key of a record.
    spec fn sk_spec(v: Self::V) -> Seq<char>;

    /// The classification of a record.
    spec fn itemtype_spec(v: Self::V) -> Seq<char>;

    /// The empty record.
    spec fn empty_spec() -> Self::V;

    /// What decoding an attribute map gives: a record, or the name of the
    /// attribute that does not fit the schema.
    spec fn decode_spec(m: Seq<(Seq<char>, AttrModel)>) -> Result<Self::V, Seq<char>>;

    fn pk(&self) -> (r: String)
        ensures
            r@ == Self::pk_spec(self@),
    ;

    fn sk(&self) -> (r: String)
        ensures
            r@ == Self::sk_spec(self@),
    ;

    fn itemtype(&self) -> (r: String)
        ensures
            r@ == Self::itemtype_spec(self@),
    ;

    /// The empty record, which stands for "no such item" in point lookups.
    fn empty() -> (r: Self)
        ensures
            r@ == Self::empty_spec(),
            Self::pk_spec(r@) == Seq::<char>::empty(),
            Self::sk_spec(r@) == Seq::<char>::empty(),
            Self::itemtype_spec(r@) == Seq::<char>::empty(),
    ;

    /// Decodes a store item.
    fn decode(m: &AttrMap) -> (r: Result<Self, AccessError>)
        ensures
            decoded_as(r, Self::decode_spec(m@)),
    ;
}

/// A dataset entry of the relations table.
#[derive(Debug, Clone)]
pub struct Dataset {
    pub pk: String,
    pub sk: String,
    pub itemtype: String,
    /// When the entry was created, where the item records it.
    pub created: Option<u64>,
}

/// The mathematical form of a [`Dataset`].
pub struct DatasetModel {
    pub pk: Seq<char>,
    pub sk: Seq<char>,
    pub itemtype: Seq<char>,
    pub created: Option<u64>,
}

impl View for Dataset {
    type V = DatasetModel;

    open spec fn view(&self) -> DatasetModel {
        DatasetModel { pk: self.pk@, sk: self.sk@, itemtype: self.itemtype@, created: self.created }
    }
}

/// The classification that dataset entries carry.
pub open spec fn dataset_class() -> Seq<char> {
    "dataset"@
}

pub open spec fn pk_attr() -> Seq<char> {
    "pk"@
}

pub open spec fn sk_attr() -> Seq<char> {
    "sk"@
}

pub open spec fn itemtype_attr() -> Seq<char> {
    "itemtype"@
}

pub open spec fn created_attr() -> Seq<char> {
    "created"@
}

/// The string bound to `name` in `m`, if `m` binds it to a string.
pub open spec fn string_attr(m: Seq<(Seq<char>, AttrModel)>, name: Seq<char>) -> Option<Seq<char>> {
    match lookup(m, name) {
        Some(AttrModel::S(s)) => Some(s),
        _ => None,
    }
}

/// The creation time in `m`: absent where `m` has no `created` attribute,
/// `Err` where it has one that is not a `u64` in decimal.
pub open spec fn created_of(m: Seq<(Seq<char>, AttrModel)>) -> Result<Option<u64>, ()> {
    match lookup(m, created_attr()) {
        None => Ok(None),
        Some(AttrModel::N(t)) => match u64_of_text(t) {
            Some(v) => Ok(Some(v)),
            None => Err(()),
        },
        Some(AttrModel::S(_)) => Err(()),
    }
}

/// Decoding a dataset: `pk`, `sk` and `itemtype` are required strings, in that
/// order of checking; `created` is an optional number; other attributes are
/// ignored.
pub open spec fn decode_dataset(m: Seq<(Seq<char>, AttrModel)>) -> Result<DatasetModel, Seq<char>> {
    if string_attr(m, pk_attr()) is None {
        Err(pk_attr())
    } else if string_attr(m, sk_attr()) is None {
        Err(sk_attr())
    } else if string_attr(m, itemtype_attr()) is None {
        Err(itemtype_attr())
    } else if created_of(m) is Err {
        Err(created_attr())
    } else {
        Ok(
            DatasetModel {
                pk: string_attr(m, pk_attr())->Some_0,
                sk: string_attr(m, sk_attr())->Some_0,
                itemtype: string_attr(m, itemtype_attr())->Some_0,
                created: created_of(m)->Ok_0,
            },
        )
    }
}

/// The string attribute `name` of `m`, or the schema mismatch that names it.
fn required_string(m: &AttrMap, name: &str) -> (r: Result<String, AccessError>)
    ensures
        match r {
            Ok(s) => string_attr(m@, name@) == Some(s@),
            Err(AccessError::SchemaMismatch { field }) => string_attr(m@, name@) is None
                && field@ == name@,
            Err(_) => false,
        },
{
    let key = name.to_owned();
    match m.get(&key) {
        Some(AttrValue::S(s)) => Ok(s.clone()),
        _ => Err(AccessError::SchemaMismatch { field: key }),
    }
}

/// The optional number attribute `created` of `m`.
fn optional_created(m: &AttrMap) -> (r: Result<Option<u64>, AccessError>)
    ensures
        match r {
            Ok(c) => created_of(m@) == Ok::<Option<u64>, ()>(c),
            Err(AccessError::SchemaMismatch { field }) => created_of(m@) is Err
                && field@ == created_attr(),
            Err(_) => false,
        },
{
    let key = "created".to_owned();
    match m.get(&key) {
        None => Ok(None),
        Some(AttrValue::N(t)) => match parse_u64(t) {
            Some(v) => Ok(Some(v)),
            None => Err(AccessError::SchemaMismatch { field: key }),
        },
        Some(AttrValue::S(_)) => Err(AccessError::SchemaMismatch { field: key }),
    }
}

/// A store item that lacks one of the required attributes `pk`, `sk` or
/// `itemtype` does not decode: decoding fails with a schema mismatch.
pub proof fn lemma_missing_field_mismatch(m: AttrMap, field: Seq<char>, r: Result<Dataset, AccessError>)
    requires
        field == pk_attr() || field == sk_attr() || field == itemtype_attr(),
        lookup(m@, field) is None,
        decoded_as(r, Dataset::decode_spec(m@)),
    ensures
        r is Err,
        r->Err_0 is SchemaMismatch,
{
}

impl Default for Dataset {
    /// The empty dataset: all identity fields empty, created at time zero.
    fn default() -> (r: Dataset)
        ensures
            r@ == (DatasetModel {
                pk: Seq::<char>::empty(),
                sk: Seq::<char>::empty(),
                itemtype: Seq::<char>::empty(),
                created: Some(0u64),
            }),
    {
        Dataset { pk: String::new(), sk: String::new(), itemtype: String::new(), created: Some(0) }
    }
}

impl Storable for Dataset {
    open spec fn pk_spec(v: DatasetModel) -> Seq<char> {
        v.pk
    }

    open spec fn sk_spec(v: DatasetModel) -> Seq<char> {
        v.sk
    }

    open spec fn itemtype_spec(v: DatasetModel) -> Seq<char> {
        v.itemtype
    }

    open spec fn empty_spec() -> DatasetModel {
        DatasetModel {
            pk: Seq::<char>::empty(),
            sk: Seq::<char>::empty(),
            itemtype: Seq::<char>::empty(),
            created: Some(0u64),
        }
    }

    open spec fn decode_spec(m: Seq<(Seq<char>, AttrModel)>) -> Result<DatasetModel, Seq<char>> {
        decode_dataset(m)
    }

    fn pk(&self) -> (r: String) {
        self.pk.clone()
    }

    fn sk(&self) -> (r: String) {
        self.sk.clone()
    }

    fn itemtype(&self) -> (r: String) {
        self.itemtype.clone()
    }

    fn empty() -> (r: Dataset) {
        Dataset::default()
    }

    fn decode(m: &AttrMap) -> (r: Result<Dataset, AccessError>) {
        let pk = match required_string(m, "pk") {
            Ok(s) => s,
            Err(e) => return Err(e),
        };
        let sk = match required_string(m, "sk") {
            Ok(s) => s,
            Err(e) => return Err(e),
        };
        let itemtype = match required_string(m, "itemtype") {
            Ok(s) => s,
            Err(e) => return Err(e),
        };
        let created = match optional_created(m) {
            Ok(c) => c,
            Err(e) => return Err(e),
        };
        Ok(Dataset { pk, sk, itemtype, created })
    }
}

} // verus!
