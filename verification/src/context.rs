use vstd::prelude::*;
use crate::json::{
    fields_model, find_member, lemma_member_index, member, set_member, with_member,
    Json, JsonValue,
};

verus! {

/// The state that the agents of a run share: named JSON values.
pub struct LabContext {
    entries: Vec<(String, JsonValue)>,
}

impl View for LabContext {
    type V = Seq<(Seq<char>, Json)>;

    closed spec fn view(&self) -> Seq<(Seq<char>, Json)> {
        fields_model(self.entries@)
    }
}

impl LabContext {
    /// The value stored under `key`.
    pub open spec fn lookup(self, key: Seq<char>) -> Option<Json> {
        member(self@, key)
    }

    /// An empty context.
    pub fn new() -> (r: LabContext)
        ensures
            r@ == Seq::<(Seq<char>, Json)>::empty(),
    {
        let r = LabContext { entries: Vec::new() };
        assert(r@ =~= Seq::<(Seq<char>, Json)>::empty());
        r
    }

    /// A context holding `entries`, in order.
    pub fn from_entries(entries: Vec<(String, JsonValue)>) -> (r: LabContext)
        ensures
            r@ == fields_model(entries@),
    {
        LabContext { entries }
    }

    /// The entries of the context, in order.
    pub fn entries(&self) -> (r: &Vec<(String, JsonValue)>)
        ensures
            fields_model(r@) == self@,
    {
        &self.entries
    }

    /// The value stored under `key`.
    pub fn get(&self, key: &str) -> (r: Option<&JsonValue>)
        ensures
            match r {
                Some(v) => self.lookup(key@) == Some(v.model()),
                None => self.lookup(key@) is None,
            },
    {
        let k = String::from_str(key);
        proof {
            lemma_member_index(self@, key@);
        }
        match find_member(&self.entries, &k) {
            Some(i) => Some(&self.entries[i].1),
            None => None,
        }
    }

    /// Stores `v` under `key`, replacing what was there.
    pub fn set(&mut self, key: &str, v: JsonValue)
        ensures
            final(self)@ == with_member(old(self)@, key@, v.model()),
    {
        set_member(&mut self.entries, key, v);
    }
}

} // verus!
