//! The daemon's structured error, decode failures, and the caller-visible error.
use vstd::prelude::*;
use crate::json::{json_as_array, json_as_str, json_tree, JsonTree};

verus! {

/// A member of the wire object that a decode failure points at.
#[derive(Clone, Copy, Debug, PartialEq, Eq, Structural)]
pub enum Field {
    Method,
    Params,
    Id,
    Jsonrpc,
    Result,
    Error,
    Code,
    Message,
    Data,
}

/// Why a wire value could not be read.
#[derive(Clone, Copy, Debug, PartialEq, Eq, Structural)]
pub enum DecodeError {
    /// The value is not an object.
    NotAnObject,
    /// A required member is absent.
    MissingField(Field),
    /// A member is present with the wrong shape.
    WrongType(Field),
    /// A result does not have the shape of the requested type.
    Mismatch,
}

/// A structured error reported by the daemon.
#[derive(Clone, Debug, PartialEq)]
pub struct RpcError {
    /// The error code
    pub code: i64,
    /// A human-readable description
    pub message: String,
    /// Further structured information, if any
    pub data: Option<strason::Json>,
}

/// The content of an error: its message as characters, its data as a tree.
pub ghost struct RpcErrorView {
    pub code: i64,
    pub message: Seq<char>,
    pub data: Option<JsonTree>,
}

/// The tree of an optional value.
pub open spec fn opt_tree(j: Option<strason::Json>) -> Option<JsonTree> {
    match j {
        Some(v) => Some(json_tree(v)),
        None => None,
    }
}

impl View for RpcError {
    type V = RpcErrorView;

    open spec fn view(&self) -> RpcErrorView {
        RpcErrorView { code: self.code, message: self.message@, data: opt_tree(self.data) }
    }
}

/// A copy of an optional value holding the same tree.
pub(crate) fn clone_opt_json(j: &Option<strason::Json>) -> (r: Option<strason::Json>)
    ensures
        opt_tree(r) == opt_tree(*j),
{
    match j {
        Some(v) => Some(v.clone()),
        None => None,
    }
}

impl RpcError {
    /// A copy holding the same code, message and data.
    pub fn duplicate(&self) -> (r: RpcError)
        ensures
            r@ == self@,
    {
        RpcError { code: self.code, message: self.message.clone(), data: clone_opt_json(&self.data) }
    }
}

/// What can go wrong when extracting the outcome of a reply.
#[derive(Clone, Debug, PartialEq)]
pub enum Error {
    /// The daemon reported an error
    Rpc(RpcError),
    /// A wire value could not be decoded
    Json(DecodeError),
    /// The reply held neither a result nor an error
    NoErrorOrResult,
}

/// The content of an extraction failure.
pub ghost enum ErrorView {
    Rpc(RpcErrorView),
    Json(DecodeError),
    NoErrorOrResult,
}

impl View for Error {
    type V = ErrorView;

    open spec fn view(&self) -> ErrorView {
        match self {
            Error::Rpc(e) => ErrorView::Rpc(e@),
            Error::Json(d) => ErrorView::Json(*d),
            Error::NoErrorOrResult => ErrorView::NoErrorOrResult,
        }
    }
}

/// A type that a result payload can be decoded into.
pub trait FromJson: Sized + DeepView {
    /// The outcome of decoding the tree `t`.
    spec fn decode_spec(t: JsonTree) -> Result<<Self as DeepView>::V, DecodeError>;

    fn from_json(j: &strason::Json) -> (r: Result<Self, DecodeError>)
        ensures
            match r {
                Ok(v) => Self::decode_spec(json_tree(*j)) == Ok::<<Self as DeepView>::V, DecodeError>(
                    v.deep_view(),
                ),
                Err(e) => Self::decode_spec(json_tree(*j)) == Err::<<Self as DeepView>::V, DecodeError>(
                    e,
                ),
            },
    ;
}

impl FromJson for String {
    open spec fn decode_spec(t: JsonTree) -> Result<Seq<char>, DecodeError> {
        match t {
            JsonTree::Str(s) => Ok(s),
            _ => Err(DecodeError::Mismatch),
        }
    }

    fn from_json(j: &strason::Json) -> (r: Result<String, DecodeError>) {
        match json_as_str(j) {
            Some(s) => Ok(s.to_owned()),
            None => Err(DecodeError::Mismatch),
        }
    }
}

/// Every element of `items` is a string node.
pub open spec fn all_strings(items: Seq<JsonTree>) -> bool {
    forall|i: int| 0 <= i < items.len() ==> (#[trigger] items[i]) is Str
}

impl FromJson for Vec<String> {
    open spec fn decode_spec(t: JsonTree) -> Result<Seq<Seq<char>>, DecodeError> {
        match t {
            JsonTree::Array(items) => if all_strings(items) {
                Ok(items.map_values(|x: JsonTree| x->Str_0))
            } else {
                Err(DecodeError::Mismatch)
            },
            _ => Err(DecodeError::Mismatch),
        }
    }

    fn from_json(j: &strason::Json) -> (r: Result<Vec<String>, DecodeError>) {
        let items = match json_as_array(j) {
            Some(items) => items,
            None => return Err(DecodeError::Mismatch),
        };
        let ghost trees = items@.map_values(|e: strason::Json| json_tree(e));
        let mut out: Vec<String> = Vec::new();
        let mut i: usize = 0;
        while i < items.len()
            invariant
                i <= items@.len(),
                trees == items@.map_values(|e: strason::Json| json_tree(e)),
                json_tree(*j) == JsonTree::Array(trees),
                out@.len() == i,
                forall|k: int| 0 <= k < i ==> (#[trigger] trees[k]) is Str && out@[k]@ == trees[k]->Str_0,
            decreases items@.len() - i,
        {
            match json_as_str(&items[i]) {
                Some(s) => out.push(s.to_owned()),
                None => {
                    assert(!(trees[i as int] is Str));
                    return Err(DecodeError::Mismatch);
                },
            }
            i = i + 1;
        }
        assert(out.deep_view() =~= trees.map_values(|x: JsonTree| x->Str_0));
        Ok(out)
    }
}

} // verus!
