//! The response shim: a status, descriptive info, and for a non-empty result
//! the serialized records with one `(id, content digest)` pair per record.

use crate::schema::ModelSchema;
use crate::value::{models, Record, ValueModel};
use vstd::prelude::*;

verus! {

/// Whether the request succeeded.
#[derive(Clone, Copy, Debug, PartialEq, Eq, Structural)]
pub enum Status {
    Successful,
    Failed,
}

/// What a response is about.
#[derive(Debug)]
pub struct Info {
    pub model_name: String,
    pub action: String,
    pub target: String,
    pub extra: String,
}

/// Why a response could not be built from records.
#[derive(Debug, PartialEq, Eq)]
pub enum ResponseError {
    /// The record at `index` has no text field named `id`.
    MissingId { index: usize },
    /// The digest of the record at `index` could not be computed.
    Digest { index: usize },
}

/// Whether `pair` holds the id and the content digest of an instance, the id
/// being the text of its first identity field.
pub open spec fn describes_pair(
    schema: &ModelSchema,
    values: Seq<ValueModel>,
    pair: (String, String),
) -> bool {
    &&& exists|k: int|
        {
            &&& 0 <= k < schema.fields@.len()
            &&& #[trigger] schema.is_id_at(values, k)
            &&& values[k] == ValueModel::Str(pair.0@)
            &&& forall|j: int| 0 <= j < k ==> !#[trigger] schema.is_id_at(values, j)
        }
    &&& schema.content_digest(values) == Some(pair.1@)
}

/// Whether an instance has an identity field.
pub open spec fn has_id(schema: &ModelSchema, values: Seq<ValueModel>) -> bool {
    exists|k: int| 0 <= k < schema.fields@.len() && #[trigger] schema.is_id_at(values, k)
}

/// Whether an instance has an id and a content digest.
pub open spec fn pairable(schema: &ModelSchema, values: Seq<ValueModel>) -> bool {
    &&& has_id(schema, values)
    &&& schema.content_digest(values) is Some
}

/// A response to a request.
#[derive(Debug)]
pub struct EightFishResponse {
    status: Status,
    info: Info,
    pair_list: Option<Vec<(String, String)>>,
    results: Option<String>,
}

impl EightFishResponse {
    pub closed spec fn status_spec(&self) -> Status {
        self.status
    }

    pub closed spec fn info_spec(&self) -> &Info {
        &self.info
    }

    pub closed spec fn pair_list_spec(&self) -> Option<Seq<(String, String)>> {
        match self.pair_list {
            Some(p) => Some(p@),
            None => None,
        }
    }

    pub closed spec fn results_spec(&self) -> Option<String> {
        self.results
    }

    /// A response for `records`, of type `schema`, whose serialized form is
    /// `serialized`. With no records it carries neither pairs nor results;
    /// otherwise it carries the serialized text and, for each record in
    /// order, its id and content digest.
    pub fn new(
        status: Status,
        info: Info,
        schema: &ModelSchema,
        records: &Vec<Record>,
        serialized: String,
    ) -> (r: Result<EightFishResponse, ResponseError>)
        requires
            forall|i: int|
                0 <= i < records@.len() ==> (#[trigger] records@[i]).values@.len()
                    == schema.fields@.len(),
        ensures
            match r {
                Ok(resp) => {
                    &&& resp.status_spec() == status
                    &&& resp.info_spec() == &info
                    &&& records@.len() == 0 ==> resp.pair_list_spec() is None
                        && resp.results_spec() is None
                    &&& records@.len() > 0 ==> {
                        &&& resp.results_spec() == Some(serialized)
                        &&& resp.pair_list_spec() matches Some(p) && p.len() == records@.len()
                            && forall|i: int|
                            0 <= i < p.len() ==> describes_pair(
                                schema,
                                models(records@[i].values@),
                                #[trigger] p[i],
                            )
                    }
                },
                Err(ResponseError::MissingId { index }) => {
                    &&& index < records@.len()
                    &&& !has_id(schema, models(records@[index as int].values@))
                    &&& forall|j: int|
                        0 <= j < index ==> pairable(schema, models(#[trigger] records@[j].values@))
                },
                Err(ResponseError::Digest { index }) => {
                    &&& index < records@.len()
                    &&& has_id(schema, models(records@[index as int].values@))
                    &&& schema.content_digest(models(records@[index as int].values@)) is None
                    &&& forall|j: int|
                        0 <= j < index ==> pairable(schema, models(#[trigger] records@[j].values@))
                },
            },
    {
        if records.len() == 0 {
            return Ok(EightFishResponse { status, info, pair_list: None, results: None });
        }
        let mut pairs: Vec<(String, String)> = Vec::new();
        for i in 0..records.len()
            invariant
                forall|j: int|
                    0 <= j < records@.len() ==> (#[trigger] records@[j]).values@.len()
                        == schema.fields@.len(),
                pairs@.len() == i,
                forall|j: int|
                    0 <= j < i ==> describes_pair(
                        schema,
                        models(records@[j].values@),
                        #[trigger] pairs@[j],
                    ),
        {
            let rec = &records[i];
            proof {
                assert forall|j: int| 0 <= j < i implies pairable(
                    schema,
                    models(#[trigger] records@[j].values@),
                ) by {
                    assert(describes_pair(schema, models(records@[j].values@), pairs@[j]));
                }
            }
            let id = match schema.id(rec) {
                Some(id) => id,
                None => {
                    return Err(ResponseError::MissingId { index: i });
                },
            };
            let digest = match schema.calc_hash(rec) {
                Ok(h) => h,
                Err(_) => {
                    return Err(ResponseError::Digest { index: i });
                },
            };
            let ghost id_v = id@;
            let ghost digest_v = digest@;
            let ghost before = pairs@;
            pairs.push((id, digest));
            assert(pairs@[i as int].0@ == id_v && pairs@[i as int].1@ == digest_v);
            assert forall|j: int| 0 <= j < i implies #[trigger] pairs@[j] == before[j] by {}
            let ghost vals = models(records@[i as int].values@);
            assert(describes_pair(schema, vals, pairs@[i as int]));
        }
        Ok(EightFishResponse { status, info, pair_list: Some(pairs), results: Some(serialized) })
    }

    /// The response status.
    pub fn status(&self) -> (r: Status)
        ensures
            r == self.status_spec(),
    {
        self.status
    }

    /// Sets the response status.
    pub fn set_status(&mut self, status: Status)
        ensures
            final(self).status_spec() == status,
            final(self).info_spec() == old(self).info_spec(),
            final(self).pair_list_spec() == old(self).pair_list_spec(),
            final(self).results_spec() == old(self).results_spec(),
    {
        self.status = status;
    }

    /// The response info.
    pub fn info(&self) -> (r: &Info)
        ensures
            r == self.info_spec(),
    {
        &self.info
    }

    /// Sets the response info.
    pub fn set_info(&mut self, info: Info)
        ensures
            final(self).info_spec() == &info,
            final(self).status_spec() == old(self).status_spec(),
            final(self).pair_list_spec() == old(self).pair_list_spec(),
            final(self).results_spec() == old(self).results_spec(),
    {
        self.info = info;
    }

    /// The `(id, content digest)` pairs, one per record.
    pub fn pair_list(&self) -> (r: &Option<Vec<(String, String)>>)
        ensures
            match *r {
                Some(p) => self.pair_list_spec() == Some(p@),
                None => self.pair_list_spec() is None,
            },
    {
        &self.pair_list
    }

    /// The serialized records.
    pub fn results(&self) -> (r: &Option<String>)
        ensures
            *r == self.results_spec(),
    {
        &self.results
    }

    /// Sets the serialized records.
    pub fn set_results(&mut self, results: Option<String>)
        ensures
            final(self).results_spec() == results,
            final(self).status_spec() == old(self).status_spec(),
            final(self).info_spec() == old(self).info_spec(),
            final(self).pair_list_spec() == old(self).pair_list_spec(),
    {
        self.results = results;
    }
}

} // verus!
