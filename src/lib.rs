//! Requests to and replies from a JSON-RPC daemon, their wire form, and the extraction
//! of a reply's outcome.
use vstd::prelude::*;

pub mod json;
pub mod number;
pub mod error;
pub mod laws;

use crate::error::{
    opt_tree, DecodeError, Error, ErrorView, Field, FromJson, RpcError,
    RpcErrorView,
};
use crate::json::{
    members_of,
    json_as_null, json_as_num, json_as_object, json_as_str, json_get, json_i64,
    json_object, json_string, json_tree, lookup, JsonTree,
};
use crate::number::{int_text, parse_i64, parse_i64_text};

verus! {

/// A JSON-RPC request object
#[derive(Debug, Clone, PartialEq)]
pub struct Request {
    /// The name of the RPC call
    pub method: String,
    /// Parameters to the RPC call
    pub params: strason::Json,
    /// Identifier for this Request, which should appear in the response
    pub id: strason::Json,
    /// jsonrpc field, MUST be "2.0"
    pub jsonrpc: Option<String>,
}

/// A JSON-RPC response object
#[derive(Debug, Clone, PartialEq)]
pub struct Response {
    /// A result if there is one
    pub result: Option<strason::Json>,
    /// An error if there is one
    pub error: Option<RpcError>,
    /// Identifier for this Request, which should match that of the request
    pub id: strason::Json,
    /// jsonrpc field, MUST be "2.0"
    pub jsonrpc: Option<String>,
}

/// The content of a request: its text fields as characters, its values as trees.
pub ghost struct RequestView {
    pub method: Seq<char>,
    pub params: JsonTree,
    pub id: JsonTree,
    pub jsonrpc: Option<Seq<char>>,
}

/// The content of a response: its text fields as characters, its values as trees.
pub ghost struct ResponseView {
    pub result: Option<JsonTree>,
    pub error: Option<RpcErrorView>,
    pub id: JsonTree,
    pub jsonrpc: Option<Seq<char>>,
}

/// The characters of an optional string.
pub open spec fn opt_text(s: Option<String>) -> Option<Seq<char>> {
    match s {
        Some(v) => Some(v@),
        None => None,
    }
}

impl View for Request {
    type V = RequestView;

    open spec fn view(&self) -> RequestView {
        RequestView {
            method: self.method@,
            params: json_tree(self.params),
            id: json_tree(self.id),
            jsonrpc: opt_text(self.jsonrpc),
        }
    }
}

impl View for Response {
    type V = ResponseView;

    open spec fn view(&self) -> ResponseView {
        ResponseView {
            result: opt_tree(self.result),
            error: match self.error {
                Some(e) => Some(e@),
                None => None,
            },
            id: json_tree(self.id),
            jsonrpc: opt_text(self.jsonrpc),
        }
    }
}

// ---- wire form ----

/// A member `key` holding `o`, or no member at all where `o` is absent.
pub open spec fn opt_member(key: Seq<char>, o: Option<JsonTree>) -> Seq<(Seq<char>, JsonTree)> {
    match o {
        Some(t) => seq![(key, t)],
        None => seq![],
    }
}

/// An optional text as an optional string node.
pub open spec fn opt_str_tree(o: Option<Seq<char>>) -> Option<JsonTree> {
    match o {
        Some(s) => Some(JsonTree::Str(s)),
        None => None,
    }
}

/// The wire object of a request: `method`, `params`, `id`, then `jsonrpc` where present.
pub open spec fn encode_request(q: RequestView) -> JsonTree {
    JsonTree::Object(
        seq![("method"@, JsonTree::Str(q.method)), ("params"@, q.params), ("id"@, q.id)]
            + opt_member("jsonrpc"@, opt_str_tree(q.jsonrpc)),
    )
}

/// The wire object of an error: `code`, `message`, then `data` where present.
pub open spec fn encode_rpc_error(e: RpcErrorView) -> JsonTree {
    JsonTree::Object(
        seq![("code"@, JsonTree::Number(int_text(e.code as int))), ("message"@, JsonTree::Str(e.message))]
            + opt_member("data"@, e.data),
    )
}

/// The wire object of a response: `result` and `error` where present, `id`, then
/// `jsonrpc` where present.
pub open spec fn encode_response(s: ResponseView) -> JsonTree {
    JsonTree::Object(
        opt_member("result"@, s.result) + opt_member(
            "error"@,
            match s.error {
                Some(e) => Some(encode_rpc_error(e)),
                None => None,
            },
        ) + seq![("id"@, s.id)] + opt_member("jsonrpc"@, opt_str_tree(s.jsonrpc)),
    )
}

/// An optional text member: absent or null is `None`, a string is its text, anything
/// else is refused.
pub open spec fn decode_opt_text(o: Option<JsonTree>, f: Field) -> Result<Option<Seq<char>>, DecodeError> {
    match o {
        None => Ok(None),
        Some(JsonTree::Null) => Ok(None),
        Some(JsonTree::Str(s)) => Ok(Some(s)),
        Some(_) => Err(DecodeError::WrongType(f)),
    }
}

/// Reading a request: an object with a string `method`, any `params` and `id`, and an
/// optional text `jsonrpc`; the first failing member, in that order, decides the error.
pub open spec fn decode_request(t: JsonTree) -> Result<RequestView, DecodeError> {
    if !(t is Object) {
        Err(DecodeError::NotAnObject)
    } else {
        match lookup(t, "method"@) {
            None => Err(DecodeError::MissingField(Field::Method)),
            Some(JsonTree::Str(m)) => match lookup(t, "params"@) {
                None => Err(DecodeError::MissingField(Field::Params)),
                Some(p) => match lookup(t, "id"@) {
                    None => Err(DecodeError::MissingField(Field::Id)),
                    Some(i) => match decode_opt_text(lookup(t, "jsonrpc"@), Field::Jsonrpc) {
                        Err(e) => Err(e),
                        Ok(v) => Ok(RequestView { method: m, params: p, id: i, jsonrpc: v }),
                    },
                },
            },
            Some(_) => Err(DecodeError::WrongType(Field::Method)),
        }
    }
}

/// Reading an error: an object with a number `code` that fits in `i64`, a string
/// `message`, and any `data` where present.
pub open spec fn decode_rpc_error(t: JsonTree) -> Result<RpcErrorView, DecodeError> {
    if !(t is Object) {
        Err(DecodeError::WrongType(Field::Error))
    } else {
        match lookup(t, "code"@) {
            None => Err(DecodeError::MissingField(Field::Code)),
            Some(JsonTree::Number(n)) => match parse_i64_text(n) {
                None => Err(DecodeError::WrongType(Field::Code)),
                Some(c) => match lookup(t, "message"@) {
                    None => Err(DecodeError::MissingField(Field::Message)),
                    Some(JsonTree::Str(m)) => Ok(
                        RpcErrorView { code: c as i64, message: m, data: lookup(t, "data"@) },
                    ),
                    Some(_) => Err(DecodeError::WrongType(Field::Message)),
                },
            },
            Some(_) => Err(DecodeError::WrongType(Field::Code)),
        }
    }
}

/// The error member of a response: absent or null is `None`.
pub open spec fn decode_opt_error(o: Option<JsonTree>) -> Result<Option<RpcErrorView>, DecodeError> {
    match o {
        None => Ok(None),
        Some(JsonTree::Null) => Ok(None),
        Some(t) => match decode_rpc_error(t) {
            Ok(e) => Ok(Some(e)),
            Err(d) => Err(d),
        },
    }
}

/// Reading a response: an object with an optional `error`, a required `id`, an optional
/// text `jsonrpc`, and any `result` where present (a null `result` is kept as such).
pub open spec fn decode_response(t: JsonTree) -> Result<ResponseView, DecodeError> {
    if !(t is Object) {
        Err(DecodeError::NotAnObject)
    } else {
        match decode_opt_error(lookup(t, "error"@)) {
            Err(d) => Err(d),
            Ok(e) => match lookup(t, "id"@) {
                None => Err(DecodeError::MissingField(Field::Id)),
                Some(i) => match decode_opt_text(lookup(t, "jsonrpc"@), Field::Jsonrpc) {
                    Err(d) => Err(d),
                    Ok(v) => Ok(ResponseView { result: lookup(t, "result"@), error: e, id: i, jsonrpc: v }),
                },
            },
        }
    }
}

// ---- outcome extraction ----

/// The outcome of a response read as a `T`: the daemon's error first, then the
/// decoded result, and a distinct failure when neither is present.
pub open spec fn extraction<T: FromJson>(s: ResponseView) -> Result<<T as DeepView>::V, ErrorView> {
    match s.error {
        Some(e) => Err(ErrorView::Rpc(e)),
        None => match s.result {
            None => Err(ErrorView::NoErrorOrResult),
            Some(t) => match T::decode_spec(t) {
                Ok(v) => Ok(v),
                Err(d) => Err(ErrorView::Json(d)),
            },
        },
    }
}

/// The content of an extraction's outcome.
pub open spec fn outcome<T: DeepView>(r: Result<T, Error>) -> Result<<T as DeepView>::V, ErrorView> {
    match r {
        Ok(v) => Ok(v.deep_view()),
        Err(e) => Err(e@),
    }
}

impl Response {
    /// Extract the result from a response
    pub fn result<T: FromJson>(&self) -> (r: Result<T, Error>)
        ensures
            outcome(r) == extraction::<T>(self@),
    {
        if let Some(e) = &self.error {
            return Err(Error::Rpc(e.duplicate()));
        }
        match &self.result {
            Some(res) => match T::from_json(res) {
                Ok(v) => Ok(v),
                Err(d) => Err(Error::Json(d)),
            },
            None => Err(Error::NoErrorOrResult),
        }
    }

    /// Extract the result from a response, consuming the response; the outcome is the
    /// one that `result` gives on the same response
    pub fn into_result<T: FromJson>(self) -> (r: Result<T, Error>)
        ensures
            outcome(r) == extraction::<T>(self@),
            self.error is Some ==> r == Err::<T, Error>(Error::Rpc(self.error->0)),
    {
        if let Some(e) = self.error {
            return Err(Error::Rpc(e));
        }
        match &self.result {
            Some(res) => match T::from_json(res) {
                Ok(v) => Ok(v),
                Err(d) => Err(Error::Json(d)),
            },
            None => Err(Error::NoErrorOrResult),
        }
    }

    /// Return the RPC error, if there was one, but do not check the result
    pub fn check_error(self) -> (r: Result<(), Error>)
        ensures
            r is Ok <==> self.error is None,
            self.error is Some ==> r == Err::<(), Error>(Error::Rpc(self.error->0)),
    {
        if let Some(e) = self.error {
            Err(Error::Rpc(e))
        } else {
            Ok(())
        }
    }

    /// Returns whether or not the `result` field is empty
    pub fn is_none(&self) -> (r: bool)
        ensures
            r == self.result is None,
    {
        self.result.is_none()
    }
}

/// The text of the member `key` of `j`, where it may be absent or null.
fn read_opt_text(j: &strason::Json, key: &str, f: Field) -> (r: Result<Option<String>, DecodeError>)
    ensures
        match r {
            Ok(o) => decode_opt_text(lookup(json_tree(*j), key@), f) == Ok::<
                Option<Seq<char>>,
                DecodeError,
            >(opt_text(o)),
            Err(e) => decode_opt_text(lookup(json_tree(*j), key@), f) == Err::<
                Option<Seq<char>>,
                DecodeError,
            >(e),
        },
{
    match json_get(j, key) {
        None => Ok(None),
        Some(v) => {
            if json_as_null(v).is_some() {
                Ok(None)
            } else {
                match json_as_str(v) {
                    Some(s) => Ok(Some(s.to_owned())),
                    None => Err(DecodeError::WrongType(f)),
                }
            }
        },
    }
}

impl Request {
    /// The wire object of this request
    pub fn encode(&self) -> (r: strason::Json)
        ensures
            json_tree(r) == encode_request(self@),
    {
        let mut members: Vec<(String, strason::Json)> = Vec::new();
        members.push(("method".to_owned(), json_string(self.method.clone())));
        members.push(("params".to_owned(), self.params.clone()));
        members.push(("id".to_owned(), self.id.clone()));
        if let Some(v) = &self.jsonrpc {
            members.push(("jsonrpc".to_owned(), json_string(v.clone())));
        }
        proof {
            if let JsonTree::Object(m) = encode_request(self@) {
                assert(members_of(members@) =~= m);
            }
        }
        json_object(members)
    }

    /// Read a request from its wire object
    pub fn decode(j: &strason::Json) -> (r: Result<Request, DecodeError>)
        ensures
            match r {
                Ok(q) => decode_request(json_tree(*j)) == Ok::<RequestView, DecodeError>(q@),
                Err(e) => decode_request(json_tree(*j)) == Err::<RequestView, DecodeError>(e),
            },
    {
        if json_as_object(j).is_none() {
            return Err(DecodeError::NotAnObject);
        }
        let method = match json_get(j, "method") {
            None => return Err(DecodeError::MissingField(Field::Method)),
            Some(v) => match json_as_str(v) {
                Some(s) => s.to_owned(),
                None => return Err(DecodeError::WrongType(Field::Method)),
            },
        };
        let params = match json_get(j, "params") {
            None => return Err(DecodeError::MissingField(Field::Params)),
            Some(v) => v.clone(),
        };
        let id = match json_get(j, "id") {
            None => return Err(DecodeError::MissingField(Field::Id)),
            Some(v) => v.clone(),
        };
        let jsonrpc = match read_opt_text(j, "jsonrpc", Field::Jsonrpc) {
            Ok(o) => o,
            Err(e) => return Err(e),
        };
        Ok(Request { method, params, id, jsonrpc })
    }
}

impl RpcError {
    /// The wire object of this error
    pub fn encode(&self) -> (r: strason::Json)
        ensures
            json_tree(r) == encode_rpc_error(self@),
    {
        let mut members: Vec<(String, strason::Json)> = Vec::new();
        members.push(("code".to_owned(), json_i64(self.code)));
        members.push(("message".to_owned(), json_string(self.message.clone())));
        if let Some(d) = &self.data {
            members.push(("data".to_owned(), d.clone()));
        }
        proof {
            if let JsonTree::Object(m) = encode_rpc_error(self@) {
                assert(members_of(members@) =~= m);
            }
        }
        json_object(members)
    }

    /// Read an error from its wire object
    pub fn decode(j: &strason::Json) -> (r: Result<RpcError, DecodeError>)
        ensures
            match r {
                Ok(e) => decode_rpc_error(json_tree(*j)) == Ok::<RpcErrorView, DecodeError>(e@),
                Err(d) => decode_rpc_error(json_tree(*j)) == Err::<RpcErrorView, DecodeError>(d),
            },
    {
        if json_as_object(j).is_none() {
            return Err(DecodeError::WrongType(Field::Error));
        }
        let code = match json_get(j, "code") {
            None => return Err(DecodeError::MissingField(Field::Code)),
            Some(v) => match json_as_num(v) {
                Some(text) => match parse_i64(text) {
                    Some(c) => c,
                    None => return Err(DecodeError::WrongType(Field::Code)),
                },
                None => return Err(DecodeError::WrongType(Field::Code)),
            },
        };
        let message = match json_get(j, "message") {
            None => return Err(DecodeError::MissingField(Field::Message)),
            Some(v) => match json_as_str(v) {
                Some(s) => s.to_owned(),
                None => return Err(DecodeError::WrongType(Field::Message)),
            },
        };
        let data = match json_get(j, "data") {
            None => None,
            Some(v) => Some(v.clone()),
        };
        Ok(RpcError { code, message, data })
    }
}

impl Response {
    /// The wire object of this response
    pub fn encode(&self) -> (r: strason::Json)
        ensures
            json_tree(r) == encode_response(self@),
    {
        let mut members: Vec<(String, strason::Json)> = Vec::new();
        if let Some(v) = &self.result {
            members.push(("result".to_owned(), v.clone()));
        }
        if let Some(e) = &self.error {
            members.push(("error".to_owned(), e.encode()));
        }
        members.push(("id".to_owned(), self.id.clone()));
        if let Some(v) = &self.jsonrpc {
            members.push(("jsonrpc".to_owned(), json_string(v.clone())));
        }
        proof {
            if let JsonTree::Object(m) = encode_response(self@) {
                assert(members_of(members@) =~= m);
            }
        }
        json_object(members)
    }

    /// Read a response from its wire object
    pub fn decode(j: &strason::Json) -> (r: Result<Response, DecodeError>)
        ensures
            match r {
                Ok(s) => decode_response(json_tree(*j)) == Ok::<ResponseView, DecodeError>(s@),
                Err(e) => decode_response(json_tree(*j)) == Err::<ResponseView, DecodeError>(e),
            },
    {
        if json_as_object(j).is_none() {
            return Err(DecodeError::NotAnObject);
        }
        let error = match json_get(j, "error") {
            None => None,
            Some(v) => {
                if json_as_null(v).is_some() {
                    None
                } else {
                    match RpcError::decode(v) {
                        Ok(e) => Some(e),
                        Err(d) => return Err(d),
                    }
                }
            },
        };
        let id = match json_get(j, "id") {
            None => return Err(DecodeError::MissingField(Field::Id)),
            Some(v) => v.clone(),
        };
        let jsonrpc = match read_opt_text(j, "jsonrpc", Field::Jsonrpc) {
            Ok(o) => o,
            Err(e) => return Err(e),
        };
        let result = match json_get(j, "result") {
            None => None,
            Some(v) => Some(v.clone()),
        };
        Ok(Response { result, error, id, jsonrpc })
    }
}

} // verus!
