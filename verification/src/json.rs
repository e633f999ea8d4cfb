//! A small JSON document model.
//!
//! The wire protocol of the confirmation service is JSON; this module gives
//! the library its own tree type for it, so that encoding and decoding are
//! ordinary verified functions. Objects keep their fields as an ordered
//! list of pairs, and the only numbers the model carries are the unsigned
//! integers the protocol uses (selected indexes, numeric timestamps).

use vstd::prelude::*;

verus! {

broadcast use
    vstd::std_specs::vec::axiom_vec_index_decreases,
    vstd::std_specs::vec::axiom_vec_decreases_to_view,
    vstd::seq::axiom_seq_index_decreases,
    vstd::seq::axiom_seq_subrange_decreases,
;

/// A JSON value.
#[derive(Debug, PartialEq)]
pub enum Json {
    Null,
    Bool(bool),
    UInt(u64),
    Str(String),
    Arr(Vec<Json>),
    Obj(Vec<(String, Json)>),
    /// A value outside this model: a negative or fractional number.
    /// Such values are only ever carried through, never produced or read.
    Other,
}

/// The mathematical shape of a [`Json`] value.
#[verifier::ext_equal]
pub ghost enum JsonV {
    Null,
    Bool(bool),
    UInt(u64),
    Str(Seq<char>),
    Arr(Seq<JsonV>),
    Obj(Seq<(Seq<char>, JsonV)>),
    Other,
}

/// The mathematical value of a [`Json`] tree.
pub open spec fn jv(j: Json) -> JsonV
    decreases j,
{
    match j {
        Json::Null => JsonV::Null,
        Json::Bool(b) => JsonV::Bool(b),
        Json::UInt(n) => JsonV::UInt(n),
        Json::Str(s) => JsonV::Str(s@),
        Json::Arr(items) => JsonV::Arr(jv_seq(items@)),
        Json::Obj(fields) => JsonV::Obj(jv_fields(fields@)),
        Json::Other => JsonV::Other,
    }
}

/// The mathematical values of a sequence of [`Json`] trees.
pub open spec fn jv_seq(s: Seq<Json>) -> Seq<JsonV>
    decreases s,
{
    if s.len() == 0 {
        Seq::empty()
    } else {
        seq![jv(s[0])] + jv_seq(s.drop_first())
    }
}

/// The mathematical values of a list of object fields.
pub open spec fn jv_fields(s: Seq<(String, Json)>) -> Seq<(Seq<char>, JsonV)>
    decreases s,
{
    if s.len() == 0 {
        Seq::empty()
    } else {
        seq![(s[0].0@, jv(s[0].1))] + jv_fields(s.drop_first())
    }
}

/// `jv_seq` maps the sequence element by element.
pub proof fn lemma_jv_seq(s: Seq<Json>)
    ensures
        jv_seq(s).len() == s.len(),
        forall|i: int| 0 <= i < s.len() ==> jv_seq(s)[i] == jv(s[i]),
    decreases s.len(),
{
    if s.len() > 0 {
        lemma_jv_seq(s.drop_first());
    }
}

/// `jv_fields` maps the field list element by element.
pub proof fn lemma_jv_fields(s: Seq<(String, Json)>)
    ensures
        jv_fields(s).len() == s.len(),
        forall|i: int| 0 <= i < s.len() ==> jv_fields(s)[i] == (s[i].0@, jv(s[i].1)),
    decreases s.len(),
{
    if s.len() > 0 {
        lemma_jv_fields(s.drop_first());
    }
}

/// The value of the first field named `key`, if any.
pub open spec fn spec_lookup(fields: Seq<(Seq<char>, JsonV)>, key: Seq<char>) -> Option<JsonV>
    decreases fields.len(),
{
    if fields.len() == 0 {
        None
    } else if fields[0].0 == key {
        Some(fields[0].1)
    } else {
        spec_lookup(fields.drop_first(), key)
    }
}

/// Looks a field up in an object's field list: the first pair whose name
/// equals `key`, as [`spec_lookup`] states.
pub fn lookup<'a>(fields: &'a Vec<(String, Json)>, key: &String) -> (r: Option<&'a Json>)
    ensures
        match r {
            Some(j) => spec_lookup(jv_fields(fields@), key@) == Some(jv(*j)),
            None => spec_lookup(jv_fields(fields@), key@) is None,
        },
{
    let ghost all = jv_fields(fields@);
    proof {
        lemma_jv_fields(fields@);
        assert(all.skip(0) =~= all);
    }
    let mut i: usize = 0;
    while i < fields.len()
        invariant
            0 <= i <= fields@.len(),
            all == jv_fields(fields@),
            all.len() == fields@.len(),
            forall|k: int| 0 <= k < all.len() ==> all[k] == (fields@[k].0@, jv(fields@[k].1)),
            spec_lookup(all, key@) == spec_lookup(all.skip(i as int), key@),
        decreases fields@.len() - i,
    {
        proof {
            assert(all.skip(i as int)[0] == all[i as int]);
        }
        if fields[i].0 == *key {
            return Some(&fields[i].1);
        }
        proof {
            assert(all.skip(i as int).drop_first() =~= all.skip(i + 1 as int));
        }
        i = i + 1;
    }
    proof {
        assert(all.skip(fields@.len() as int) =~= Seq::empty());
    }
    None
}

impl Json {
    /// A copy of the tree, equal to it as a value.
    #[verifier::loop_isolation(false)]
    pub fn duplicate(&self) -> (r: Json)
        ensures
            jv(r) == jv(*self),
        decreases *self,
    {
        match self {
            Json::Null => Json::Null,
            Json::Bool(b) => Json::Bool(*b),
            Json::UInt(n) => Json::UInt(*n),
            Json::Str(s) => Json::Str(clone_string(s)),
            Json::Arr(items) => {
                let mut out: Vec<Json> = Vec::new();
                let mut i: usize = 0;
                while i < items.len()
                    invariant
                        0 <= i <= items@.len(),
                        out@.len() == i,
                        forall|k: int| 0 <= k < i ==> jv(out@[k]) == jv(items@[k]),
                    decreases items@.len() - i,
                {
                    let d = items[i].duplicate();
                    out.push(d);
                    i = i + 1;
                }
                proof {
                    lemma_jv_seq(out@);
                    lemma_jv_seq(items@);
                    assert(jv_seq(out@) =~= jv_seq(items@));
                }
                Json::Arr(out)
            },
            Json::Obj(fields) => {
                let mut out: Vec<(String, Json)> = Vec::new();
                let mut i: usize = 0;
                while i < fields.len()
                    invariant
                        0 <= i <= fields@.len(),
                        out@.len() == i,
                        forall|k: int| 0 <= k < i ==> out@[k].0@ == fields@[k].0@
                            && jv(out@[k].1) == jv(fields@[k].1),
                    decreases fields@.len() - i,
                {
                    let name = clone_string(&fields[i].0);
                    let value = fields[i].1.duplicate();
                    out.push((name, value));
                    i = i + 1;
                }
                proof {
                    lemma_jv_fields(out@);
                    lemma_jv_fields(fields@);
                    assert(jv_fields(out@) =~= jv_fields(fields@));
                }
                Json::Obj(out)
            },
            Json::Other => Json::Other,
        }
    }
}

/// A copy of a string with the same characters.
pub fn clone_string(s: &String) -> (r: String)
    ensures
        r@ == s@,
{
    s.as_str().to_owned()
}

} // verus!
