//! The sample route: its query and result shapes, and its handler.

use crate::connection::ConnectionSlot;
use crate::error::GatewayError;
use crate::outside::{
    decimal, decimal_text, decode_form, form_pairs, json_quoted, parse_u32, parsed_u32,
    percent_decode, percent_decoded, quote_json,
};
use vstd::prelude::*;

verus! {

/// The query that the sample route reads.
#[derive(Debug, Clone, PartialEq, Eq)]
pub struct SampleQuery {
    pub query: Option<String>,
}

/// The record that the sample route returns.
#[derive(Debug, Clone, PartialEq, Eq)]
pub struct Sample {
    pub id: u32,
    pub title: String,
    pub body: String,
}

/// The JSON object for a sample, with its fields in declaration order.
pub open spec fn sample_json(id: u32, title: Seq<char>, body: Seq<char>) -> Seq<char> {
    "{\"id\":"@ + decimal_text(id as nat) + ",\"title\":"@ + json_quoted(title) + ",\"body\":"@
        + json_quoted(body) + "}"@
}

impl Sample {
    /// The sample as a JSON object.
    pub fn to_json(&self) -> (r: String)
        ensures
            r@ == sample_json(self.id, self.title@, self.body@),
    {
        let mut out = String::from_str("{\"id\":");
        let id = decimal(self.id);
        out.append(id.as_str());
        out.append(",\"title\":");
        let title = match quote_json(self.title.as_str()) {
            Ok(t) => t,
            Err(e) => e,
        };
        out.append(title.as_str());
        out.append(",\"body\":");
        let body = match quote_json(self.body.as_str()) {
            Ok(t) => t,
            Err(e) => e,
        };
        out.append(body.as_str());
        out.append("}");
        proof {
            assert(out@ =~= sample_json(self.id, self.title@, self.body@));
        }
        out
    }
}

/// The values given for `key`, in order.
pub open spec fn values_for(pairs: Seq<(Seq<char>, Seq<char>)>, key: Seq<char>) -> Seq<Seq<char>>
    decreases pairs.len(),
{
    if pairs.len() == 0 {
        Seq::empty()
    } else {
        let prev = values_for(pairs.drop_last(), key);
        if pairs.last().0 == key {
            prev.push(pairs.last().1)
        } else {
            prev
        }
    }
}

/// The text of an optional query; an absent query reads as empty.
pub open spec fn query_text(query: Option<Seq<char>>) -> Seq<char> {
    match query {
        Some(q) => q,
        None => Seq::empty(),
    }
}

/// The `query` field that a query text decodes to: absent, given once, or
/// refused (`None`) when the text does not decode or gives the field twice.
pub open spec fn sample_query_field(query: Option<Seq<char>>) -> Option<Option<Seq<char>>> {
    match form_pairs(query_text(query)) {
        None => None,
        Some(pairs) => {
            let values = values_for(pairs, "query"@);
            if values.len() == 0 {
                Some(None)
            } else if values.len() == 1 {
                Some(Some(values[0]))
            } else {
                None
            }
        },
    }
}

impl SampleQuery {
    /// Decodes the sample query from the request's query text.
    pub fn decode(query: &Option<String>) -> (r: Result<SampleQuery, GatewayError>)
        ensures
            match r {
                Ok(q) => sample_query_field(query.deep_view()) == Some(q.query.deep_view()),
                Err(e) => sample_query_field(query.deep_view()) is None && e is Decode,
            },
    {
        let empty = String::new();
        let text = match query {
            Some(q) => q,
            None => &empty,
        };
        assert(text@ == query_text(query.deep_view()));
        let pairs = match decode_form(text.as_str()) {
            Some(p) => p,
            None => {
                return Err(GatewayError::Decode(String::from_str("Failed to deserialize query string")));
            },
        };
        let key = String::from_str("query");
        let ghost pv = pairs.deep_view();
        let mut found: Option<String> = None;
        let mut count: usize = 0;
        let mut k: usize = 0;
        while k < pairs.len()
            invariant
                pv == pairs.deep_view(),
                key@ == "query"@,
                k <= pairs.len(),
                count <= k,
                count == values_for(pv.subrange(0, k as int), key@).len(),
                count == 0 ==> found is None,
                count > 0 ==> (found matches Some(v) && v@ == values_for(
                    pv.subrange(0, k as int),
                    key@,
                )[0]),
            decreases pairs.len() - k,
        {
            let ghost before = values_for(pv.subrange(0, k as int), key@);
            proof {
                assert(pv.subrange(0, k + 1).drop_last() =~= pv.subrange(0, k as int));
                assert(pv.subrange(0, k + 1).last() == pv[k as int]);
                assert(pv[k as int] == (pairs@[k as int].0@, pairs@[k as int].1@));
            }
            if pairs[k].0 == key {
                if count == 0 {
                    found = Some(pairs[k].1.clone());
                }
                count = count + 1;
                proof {
                    assert(values_for(pv.subrange(0, k + 1), key@) == before.push(pv[k as int].1));
                }
            }
            k = k + 1;
        }
        proof {
            assert(pv.subrange(0, pairs.len() as int) =~= pv);
        }
        if count > 1 {
            Err(GatewayError::Decode(String::from_str("duplicate field `query`")))
        } else {
            Ok(SampleQuery { query: found })
        }
    }
}

/// What the sample route answers: the JSON of its record, or the status of its
/// failure. Its one path parameter must decode to a `u32`, its query must
/// decode, and the store connection must be established.
pub open spec fn sample_outcome(
    params: Seq<(Seq<char>, Seq<char>)>,
    query: Option<Seq<char>>,
    established: bool,
) -> Result<Seq<char>, u16> {
    if params.len() != 1 {
        Err(500)
    } else if percent_decoded(params[0].1) is None {
        Err(400)
    } else if parsed_u32(percent_decoded(params[0].1)->0) is None {
        Err(400)
    } else if sample_query_field(query) is None {
        Err(400)
    } else if !established {
        Err(500)
    } else {
        Ok(sample_json(1, "title"@, "body"@))
    }
}

/// Decodes the sample route's path parameter: exactly one, percent-decoded,
/// spelling a `u32`.
fn sample_id(params: &Vec<(String, String)>) -> (r: Result<u32, GatewayError>)
    ensures
        match r {
            Ok(id) => {
                &&& params@.len() == 1
                &&& percent_decoded(params@[0].1@) matches Some(t)
                &&& parsed_u32(t) == Some(id)
            },
            Err(e) => {
                ||| params@.len() != 1 && e is Handler
                ||| params@.len() == 1 && e is Decode && (percent_decoded(params@[0].1@) matches Some(
                    t,
                ) ==> parsed_u32(t) is None)
            },
        },
{
    if params.len() != 1 {
        return Err(GatewayError::Handler(String::from_str("Wrong number of path arguments")));
    }
    let text = match percent_decode(params[0].1.as_str()) {
        Some(t) => t,
        None => {
            return Err(GatewayError::Decode(String::from_str("Invalid UTF-8 in path parameter")));
        },
    };
    match parse_u32(text.as_str()) {
        Some(id) => Ok(id),
        None => Err(GatewayError::Decode(String::from_str("Cannot parse path parameter to a `u32`"))),
    }
}

/// The sample route's handler: it decodes its path parameter and query, needs
/// the store connection, and returns a fixed record.
pub fn sample<C: Clone>(
    slot: &ConnectionSlot<C>,
    params: &Vec<(String, String)>,
    query: &Option<String>,
) -> (r: Result<Sample, GatewayError>)
    ensures
        match r {
            Ok(s) => {
                &&& sample_outcome(params.deep_view(), query.deep_view(), slot.is_established())
                    == Ok::<Seq<char>, u16>(sample_json(s.id, s.title@, s.body@))
                &&& s.id == 1 && s.title@ == "title"@ && s.body@ == "body"@
            },
            Err(e) => sample_outcome(params.deep_view(), query.deep_view(), slot.is_established())
                == Err::<Seq<char>, u16>(crate::error::status_of(e)),
        },
        sample_outcome(params.deep_view(), query.deep_view(), slot.is_established()) == Err::<
            Seq<char>,
            u16,
        >(500) && params@.len() == 1 ==> r == Err::<Sample, GatewayError>(GatewayError::NotEstablished),
{
    let ghost pv = params.deep_view();
    assert(params@.len() == 1 ==> pv[0].1 == params@[0].1@);
    let _id = match sample_id(params) {
        Ok(id) => id,
        Err(e) => {
            return Err(e);
        },
    };
    let _query = match SampleQuery::decode(query) {
        Ok(q) => q,
        Err(e) => {
            return Err(e);
        },
    };
    let _connection = match slot.get_connection() {
        Ok(c) => c,
        Err(e) => {
            return Err(e);
        },
    };
    Ok(Sample { id: 1, title: String::from_str("title"), body: String::from_str("body") })
}

} // verus!
