//! Attribute values and attribute maps: the store's untyped item form.
use vstd::prelude::*;

verus! {

/// One attribute value as the store carries it.
#[derive(Debug, Clone)]
pub enum AttrValue {
    /// A string scalar.
    S(String),
    /// A number, in the store's decimal text form.
    N(String),
}

/// The mathematical form of an [`AttrValue`].
pub enum AttrModel {
    S(Seq<char>),
    N(Seq<char>),
}

impl View for AttrValue {
    type V = AttrModel;

    open spec fn view(&self) -> AttrModel {
        match self {
            AttrValue::S(s) => AttrModel::S(s@),
            AttrValue::N(n) => AttrModel::N(n@),
        }
    }
}

/// The value bound to `name` in a list of entries: a later entry for a name
/// shadows an earlier one.
pub open spec fn lookup(entries: Seq<(Seq<char>, AttrModel)>, name: Seq<char>) -> Option<AttrModel>
    decreases entries.len(),
{
    if entries.len() == 0 {
        None
    } else if entries.last().0 == name {
        Some(entries.last().1)
    } else {
        lookup(entries.drop_last(), name)
    }
}

/// An attribute map: names bound to attribute values.
///
/// Entries keep the order in which they were added; where a name occurs more
/// than once, the last entry for it is the one that counts.
#[derive(Debug, Clone)]
pub struct AttrMap {
    pub entries: Vec<(String, AttrValue)>,
}

impl View for AttrMap {
    type V = Seq<(Seq<char>, AttrModel)>;

    open spec fn view(&self) -> Seq<(Seq<char>, AttrModel)> {
        self.entries@.map_values(|e: (String, AttrValue)| (e.0@, e.1@))
    }
}

impl AttrMap {
    /// The value bound to `name`, if any.
    pub open spec fn get_spec(&self, name: Seq<char>) -> Option<AttrModel> {
        lookup(self@, name)
    }

    /// An empty map.
    pub fn new() -> (r: AttrMap)
        ensures
            r@ == Seq::<(Seq<char>, AttrModel)>::empty(),
    {
        let r = AttrMap { entries: Vec::new() };
        assert(r@ =~= Seq::<(Seq<char>, AttrModel)>::empty());
        r
    }

    /// Binds `name` to `value`, shadowing any earlier binding of `name`.
    pub fn insert(&mut self, name: String, value: AttrValue)
        ensures
            final(self)@ == old(self)@.push((name@, value@)),
            final(self).get_spec(name@) == Some(value@),
            forall|other: Seq<char>|
                other != name@ ==> #[trigger] final(self).get_spec(other) == old(self).get_spec(other),
    {
        let ghost n = name@;
        let ghost v = value@;
        self.entries.push((name, value));
        assert(self@ =~= old(self)@.push((n, v)));
        assert(self@.drop_last() =~= old(self)@);
    }

    /// The value bound to `name`, if any.
    pub fn get(&self, name: &String) -> (r: Option<&AttrValue>)
        ensures
            match r {
                Some(v) => self.get_spec(name@) == Some(v@),
                None => self.get_spec(name@) is None,
            },
    {
        let mut i: usize = self.entries.len();
        assert(self@.take(i as int) =~= self@);
        while i > 0
            invariant
                i <= self.entries.len(),
                lookup(self@, name@) == lookup(self@.take(i as int), name@),
            decreases i,
        {
            i = i - 1;
            assert(self@.take(i as int + 1).drop_last() =~= self@.take(i as int));
            if self.entries[i].0 == *name {
                return Some(&self.entries[i].1);
            }
        }
        None
    }
}

/// Adds the string attribute `key: val` to `item`.
pub fn set_kv(item: &mut AttrMap, key: String, val: String)
    ensures
        final(item)@ == old(item)@.push((key@, AttrModel::S(val@))),
        final(item).get_spec(key@) == Some(AttrModel::S(val@)),
        forall|other: Seq<char>|
            other != key@ ==> #[trigger] final(item).get_spec(other) == old(item).get_spec(other),
{
    item.insert(key, AttrValue::S(val));
}

} // verus!
