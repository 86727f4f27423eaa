//! Session metadata sent to the remote grid: arbitrary key/value pairs used
//! purely for identification, carried by an extension command whose endpoint
//! and payload this module pins down. Attaching it is best-effort for the
//! interaction; building it is exact.

use vstd::prelude::*;
use crate::text::str_eq;

verus! {

/// The map an association list denotes: a later pair with the same key
/// shadows an earlier one, as repeated insertion would.
pub open spec fn assoc_map(fields: Seq<(String, String)>) -> Map<Seq<char>, Seq<char>>
    decreases fields.len(),
{
    if fields.len() == 0 {
        Map::empty()
    } else {
        assoc_map(fields.drop_last()).insert(fields.last().0@, fields.last().1@)
    }
}

/// Entries past `upto` never mention `key`, so they cannot change what the
/// map holds at `key`.
proof fn lemma_assoc_map_agree(fields: Seq<(String, String)>, key: Seq<char>, upto: int)
    requires
        0 <= upto <= fields.len(),
        forall|j: int| upto <= j < fields.len() ==> (#[trigger] fields[j]).0@ != key,
    ensures
        assoc_map(fields).contains_key(key) == assoc_map(fields.take(upto)).contains_key(key),
        assoc_map(fields).contains_key(key) ==> assoc_map(fields)[key] == assoc_map(
            fields.take(upto),
        )[key],
    decreases fields.len() - upto,
{
    if upto == fields.len() {
        assert(fields.take(upto) =~= fields);
    } else {
        assert(fields.take(upto + 1).drop_last() =~= fields.take(upto));
        assert(fields.take(upto + 1).last() == fields[upto]);
        lemma_assoc_map_agree(fields, key, upto + 1);
    }
}

/// The metadata payload of the grid's extension command.
pub struct WebgridMetadataCommand {
    pub fields: Vec<(String, String)>,
}

impl View for WebgridMetadataCommand {
    type V = Map<Seq<char>, Seq<char>>;

    open spec fn view(&self) -> Map<Seq<char>, Seq<char>> {
        assoc_map(self.fields@)
    }
}

impl WebgridMetadataCommand {
    /// An empty metadata payload.
    pub fn new() -> (r: Self)
        ensures
            r@ == Map::<Seq<char>, Seq<char>>::empty(),
            r.fields@.len() == 0,
    {
        WebgridMetadataCommand { fields: Vec::new() }
    }

    /// A payload holding the one given field.
    pub fn with_field(key: String, value: String) -> (r: Self)
        ensures
            r@ == Map::<Seq<char>, Seq<char>>::empty().insert(key@, value@),
    {
        let mut instance = Self::new();
        instance.add(key, value);
        instance
    }

    /// Insert or replace: afterwards the metadata maps `key` to `value` and
    /// holds every other key unchanged.
    pub fn add(&mut self, key: String, value: String)
        ensures
            final(self)@ == old(self)@.insert(key@, value@),
    {
        self.fields.push((key, value));
        proof {
            assert(self.fields@.drop_last() =~= old(self).fields@);
        }
    }

    /// What the metadata holds at `key`, scanning so that the latest `add`
    /// wins.
    pub fn lookup(&self, key: &str) -> (r: Option<&String>)
        ensures
            r is Some <==> self@.contains_key(key@),
            r matches Some(v) ==> self@.contains_key(key@) && v@ == self@[key@],
    {
        let n: usize = self.fields.len();
        let mut i: usize = n;
        while i > 0
            invariant
                0 <= i <= n,
                n == self.fields@.len(),
                forall|j: int| i <= j < n ==> (#[trigger] self.fields@[j]).0@ != key@,
            decreases i,
        {
            i = i - 1;
            let pair = &self.fields[i];
            if str_eq(pair.0.as_str(), key) {
                proof {
                    lemma_assoc_map_agree(self.fields@, key@, i + 1);
                    assert(self.fields@.take(i + 1).drop_last() =~= self.fields@.take(i as int));
                    assert(self.fields@.take(i + 1).last() == self.fields@[i as int]);
                }
                return Some(&pair.1);
            }
        }
        proof {
            lemma_assoc_map_agree(self.fields@, key@, 0);
            assert(self.fields@.take(0) =~= Seq::<(String, String)>::empty());
        }
        None
    }

    /// The grid endpoint the metadata command is posted to.
    pub fn endpoint_path(&self) -> (r: &'static str)
        ensures
            r@ == "/webgrid/metadata"@,
    {
        "/webgrid/metadata"
    }
}

} // verus!
