//! An auxiliary container for assembling the optional parameter fields of a
//! request descriptor: header, query and form mappings, each keyed uniquely.

use vstd::prelude::*;

verus! {

/// The character-level view of a key/value pair list.
pub open spec fn pairs_view(v: Seq<(String, String)>) -> Seq<(Seq<char>, Seq<char>)> {
    v.map_values(|p: (String, String)| (p.0@, p.1@))
}

/// The character-level view of an optional key/value pair list.
pub open spec fn opt_pairs_view(v: Option<Vec<(String, String)>>) -> Option<
    Seq<(Seq<char>, Seq<char>)>,
> {
    match v {
        Some(pairs) => Some(pairs_view(pairs@)),
        None => None,
    }
}

/// Each key appears at most once within one mapping.
pub open spec fn unique_keys(pairs: Seq<(Seq<char>, Seq<char>)>) -> bool {
    forall|i: int, j: int| 0 <= i < j < pairs.len() ==> pairs[i].0 != pairs[j].0
}

/// A builder convenience for a descriptor's optional parameter fields.  It
/// holds no invariant beyond each key being unique within its own mapping.
pub struct Parameters {
    pub headers: Option<Vec<(String, String)>>,
    pub query: Option<Vec<(String, String)>>,
    pub form: Option<Vec<(String, String)>>,
}

impl Parameters {
    /// Every mapping that is present keeps its keys unique.
    pub open spec fn wf(self) -> bool {
        &&& match self.headers {
            Some(h) => unique_keys(pairs_view(h@)),
            None => true,
        }
        &&& match self.query {
            Some(q) => unique_keys(pairs_view(q@)),
            None => true,
        }
        &&& match self.form {
            Some(f) => unique_keys(pairs_view(f@)),
            None => true,
        }
    }

    /// A bundle with every mapping absent.
    pub fn new() -> (r: Self)
        ensures
            r.headers is None,
            r.query is None,
            r.form is None,
            r.wf(),
    {
        Self { headers: None, query: None, form: None }
    }

    /// Sets the header mapping, leaving the other fields as they were.
    pub fn headers(self, headers: Vec<(String, String)>) -> (r: Self)
        requires
            unique_keys(pairs_view(headers@)),
        ensures
            r.headers == Some(headers),
            r.query == self.query,
            r.form == self.form,
            self.wf() ==> r.wf(),
    {
        Self { headers: Some(headers), ..self }
    }

    /// Sets the query mapping, leaving the other fields as they were.
    pub fn query(self, query: Vec<(String, String)>) -> (r: Self)
        requires
            unique_keys(pairs_view(query@)),
        ensures
            r.query == Some(query),
            r.headers == self.headers,
            r.form == self.form,
            self.wf() ==> r.wf(),
    {
        Self { query: Some(query), ..self }
    }

    /// Sets the form mapping, leaving the other fields as they were.
    pub fn form(self, form: Vec<(String, String)>) -> (r: Self)
        requires
            unique_keys(pairs_view(form@)),
        ensures
            r.form == Some(form),
            r.headers == self.headers,
            r.query == self.query,
            self.wf() ==> r.wf(),
    {
        Self { form: Some(form), ..self }
    }
}

} // verus!
