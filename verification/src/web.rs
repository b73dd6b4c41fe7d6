use vstd::prelude::*;
use std::sync::Arc;
use crate::text::{int_text, push_char, push_int, push_str};

verus! {

/// Calls `Arc::clone`, which makes another pointer to the same allocation,
/// so the value seen through the result is the value seen through `a`.
#[verifier::external_body]
pub(crate) fn share<T>(a: &Arc<T>) -> (res: Arc<T>)
    ensures
        res == *a,
{
    Arc::clone(a)
}

/// A client of one of the node's REST APIs: the base address that request
/// paths are resolved against.
pub struct WebClient {
    pub endpoint: String,
}

/// HTTP verbs used by the API bindings.
#[derive(Clone, Copy, Debug, PartialEq, Eq, Structural)]
pub enum HttpMethod {
    Get,
    Post,
    Put,
    Delete,
}

/// One REST call, as the bindings decide it: the verb, the path (relative to
/// the client's base address, or absolute where the binding formats it so),
/// and whether a JSON payload goes with it.
pub struct ApiRequest {
    pub method: HttpMethod,
    pub path: String,
    pub json_body: bool,
}

/// The text of one `name=value` query pair.
pub open spec fn query_pair(name: Seq<char>, value: int) -> Seq<char> {
    name + seq!['='] + int_text(value)
}

/// A query string with one more pair: pairs are joined with `&`.
pub open spec fn query_append(query: Seq<char>, pair: Seq<char>) -> Seq<char> {
    if query.len() == 0 {
        pair
    } else {
        query + seq!['&'] + pair
    }
}

/// The query string after `put(name, value)`: an absent value adds nothing.
pub open spec fn query_put(query: Seq<char>, name: Seq<char>, value: Option<i32>) -> Seq<char> {
    match value {
        Some(v) => query_append(query, query_pair(name, v as int)),
        None => query,
    }
}

/// Builds the query part of a URL from optional integer parameters.
/// Parameter names are plain identifiers and values are decimal integers, so
/// no character of them needs percent-encoding.
pub struct QueryParamsBuilder {
    text: String,
}

impl View for QueryParamsBuilder {
    type V = Seq<char>;

    closed spec fn view(&self) -> Seq<char> {
        self.text@
    }
}

impl QueryParamsBuilder {
    /// An empty query.
    pub fn new() -> (q: Self)
        ensures
            q@ == Seq::<char>::empty(),
    {
        QueryParamsBuilder { text: String::new() }
    }

    /// Adds `name=value` when `value` is present.
    pub fn put(self, name: &str, value: Option<i32>) -> (q: Self)
        ensures
            q@ == query_put(self@, name@, value),
    {
        match value {
            Some(v) => {
                let mut text = self.text;
                if !text.as_str().is_empty() {
                    push_char(&mut text, '&');
                }
                push_str(&mut text, name);
                push_char(&mut text, '=');
                push_int(&mut text, v);
                proof {
                    assert(text@ =~= query_append(self@, query_pair(name@, v as int)));
                }
                QueryParamsBuilder { text }
            },
            None => self,
        }
    }

    /// The query text.
    pub fn build(self) -> (s: String)
        ensures
            s@ == self@,
    {
        self.text
    }
}

/// `path`, followed by `?query` when the query is not empty.
pub open spec fn with_query(path: Seq<char>, query: Seq<char>) -> Seq<char> {
    if query.len() == 0 {
        path
    } else {
        path + seq!['?'] + query
    }
}

} // verus!
