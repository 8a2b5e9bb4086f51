//! Laws relating the wire form and the extraction of outcomes.
use vstd::prelude::*;
use crate::error::{Error, ErrorView, FromJson, RpcErrorView};
use crate::json::{first_member, lookup, JsonTree};
use crate::number::{lemma_int_text_round_trip, int_text};
use crate::{
    decode_request, decode_response, decode_rpc_error, encode_request, encode_response,
    encode_rpc_error, extraction, outcome, RequestView, ResponseView,
};

verus! {

proof fn lemma_keys_distinct()
    ensures
        "method"@ != "params"@,
        "method"@ != "id"@,
        "method"@ != "jsonrpc"@,
        "params"@ != "id"@,
        "params"@ != "jsonrpc"@,
        "id"@ != "jsonrpc"@,
        "result"@ != "error"@,
        "result"@ != "id"@,
        "result"@ != "jsonrpc"@,
        "error"@ != "id"@,
        "error"@ != "jsonrpc"@,
        "code"@ != "message"@,
        "code"@ != "data"@,
        "message"@ != "data"@,
{
    reveal_strlit("method");
    reveal_strlit("params");
    reveal_strlit("id");
    reveal_strlit("jsonrpc");
    reveal_strlit("result");
    reveal_strlit("error");
    reveal_strlit("code");
    reveal_strlit("message");
    reveal_strlit("data");
    assert("method"@[0] != "params"@[0]);
    assert("method"@[0] != "id"@[0]);
    assert("method"@[0] != "jsonrpc"@[0]);
    assert("params"@[0] != "id"@[0]);
    assert("params"@[0] != "jsonrpc"@[0]);
    assert("id"@[0] != "jsonrpc"@[0]);
    assert("result"@[0] != "error"@[0]);
    assert("result"@[0] != "id"@[0]);
    assert("result"@[0] != "jsonrpc"@[0]);
    assert("error"@[0] != "id"@[0]);
    assert("error"@[0] != "jsonrpc"@[0]);
    assert("code"@[0] != "message"@[0]);
    assert("code"@[0] != "data"@[0]);
    assert("message"@[0] != "data"@[0]);
}

/// Looking up a key that the first member does not carry looks in the rest.
proof fn lemma_first_member_skip(m: Seq<(Seq<char>, JsonTree)>, key: Seq<char>)
    requires
        m.len() > 0,
        m[0].0 != key,
    ensures
        first_member(m, key) == first_member(m.skip(1), key),
{
}

/// A key that no member carries is not found.
proof fn lemma_first_member_absent(m: Seq<(Seq<char>, JsonTree)>, key: Seq<char>)
    requires
        forall|i: int| 0 <= i < m.len() ==> (#[trigger] m[i]).0 != key,
    ensures
        first_member(m, key) is None,
    decreases m.len(),
{
    if m.len() > 0 {
        assert(m[0].0 != key);
        lemma_first_member_absent(m.skip(1), key);
    }
}

/// Decoding the wire object of a request gives back the same request, whether or not
/// it carries a version tag.
pub proof fn lemma_request_round_trip(q: RequestView)
    ensures
        decode_request(encode_request(q)) == Ok::<RequestView, crate::error::DecodeError>(q),
{
    lemma_keys_distinct();
    let t = encode_request(q);
    let m = t->Object_0;
    assert(m[0].0 == "method"@);
    assert(m.skip(1)[0].0 == "params"@);
    assert(m.skip(1).skip(1)[0].0 == "id"@);
    let rest = m.skip(1).skip(1).skip(1);
    assert(lookup(t, "method"@) == Some(JsonTree::Str(q.method)));
    lemma_first_member_skip(m, "params"@);
    assert(lookup(t, "params"@) == Some(q.params));
    lemma_first_member_skip(m, "id"@);
    lemma_first_member_skip(m.skip(1), "id"@);
    assert(lookup(t, "id"@) == Some(q.id));
    lemma_first_member_skip(m, "jsonrpc"@);
    lemma_first_member_skip(m.skip(1), "jsonrpc"@);
    lemma_first_member_skip(m.skip(1).skip(1), "jsonrpc"@);
    match q.jsonrpc {
        Some(v) => {
            assert(rest[0] == ("jsonrpc"@, JsonTree::Str(v)));
            assert(lookup(t, "jsonrpc"@) == Some(JsonTree::Str(v)));
        },
        None => {
            assert(rest.len() == 0);
            assert(lookup(t, "jsonrpc"@) is None);
        },
    }
}

/// Decoding the wire object of an error gives back the same error.
proof fn lemma_rpc_error_round_trip(e: RpcErrorView)
    ensures
        decode_rpc_error(encode_rpc_error(e)) == Ok::<RpcErrorView, crate::error::DecodeError>(e),
{
    lemma_keys_distinct();
    lemma_int_text_round_trip(e.code);
    let t = encode_rpc_error(e);
    let m = t->Object_0;
    assert(m[0].0 == "code"@);
    assert(lookup(t, "code"@) == Some(JsonTree::Number(int_text(e.code as int))));
    lemma_first_member_skip(m, "message"@);
    assert(m.skip(1)[0] == ("message"@, JsonTree::Str(e.message)));
    assert(lookup(t, "message"@) == Some(JsonTree::Str(e.message)));
    lemma_first_member_skip(m, "data"@);
    lemma_first_member_skip(m.skip(1), "data"@);
    let rest = m.skip(1).skip(1);
    match e.data {
        Some(d) => {
            assert(rest[0] == ("data"@, d));
        },
        None => {
            assert(rest.len() == 0);
        },
    }
    assert(lookup(t, "data"@) == e.data);
    assert((e.code as int) as i64 == e.code);
}

/// Decoding the wire object of a response gives back the same response, an error with
/// nested data included.
pub proof fn lemma_response_round_trip(s: ResponseView)
    ensures
        decode_response(encode_response(s)) == Ok::<ResponseView, crate::error::DecodeError>(s),
{
    lemma_keys_distinct();
    let t = encode_response(s);
    let m = t->Object_0;
    let err_tree = match s.error {
        Some(e) => Some(encode_rpc_error(e)),
        None => None,
    };
    // Every member of the object, with the key it carries.
    let r_part = crate::opt_member("result"@, s.result);
    let e_part = crate::opt_member("error"@, err_tree);
    let j_part = crate::opt_member("jsonrpc"@, crate::opt_str_tree(s.jsonrpc));
    assert(m =~= r_part + e_part + seq![("id"@, s.id)] + j_part);
    // result
    match s.result {
        Some(v) => assert(m[0] == ("result"@, v)),
        None => {},
    }
    assert(lookup(t, "result"@) == s.result) by {
        if s.result is None {
            assert forall|i: int| 0 <= i < m.len() implies (#[trigger] m[i]).0 != "result"@ by {
                if i < e_part.len() {
                } else if i == e_part.len() {
                } else {
                }
            }
            lemma_first_member_absent(m, "result"@);
        }
    }
    let m1 = m.skip(r_part.len() as int);
    assert(m1 =~= e_part + seq![("id"@, s.id)] + j_part);
    assert(first_member(m, "error"@) == first_member(m1, "error"@)) by {
        if r_part.len() == 1 {
            lemma_first_member_skip(m, "error"@);
        } else {
            assert(m1 =~= m);
        }
    }
    assert(first_member(m, "id"@) == first_member(m1, "id"@)) by {
        if r_part.len() == 1 {
            lemma_first_member_skip(m, "id"@);
        } else {
            assert(m1 =~= m);
        }
    }
    assert(first_member(m, "jsonrpc"@) == first_member(m1, "jsonrpc"@)) by {
        if r_part.len() == 1 {
            lemma_first_member_skip(m, "jsonrpc"@);
        } else {
            assert(m1 =~= m);
        }
    }
    // error
    match s.error {
        Some(e) => {
            assert(m1[0] == ("error"@, encode_rpc_error(e)));
            lemma_rpc_error_round_trip(e);
        },
        None => {},
    }
    let m2 = m1.skip(e_part.len() as int);
    assert(m2 =~= seq![("id"@, s.id)] + j_part);
    assert(first_member(m1, "error"@) == err_tree) by {
        if e_part.len() == 0 {
            assert(m2 =~= m1);
            assert(m2[0].0 == "id"@);
            lemma_first_member_skip(m2, "error"@);
            assert forall|i: int| 0 <= i < m2.skip(1).len() implies (#[trigger] m2.skip(1)[i]).0
                != "error"@ by {
                assert(m2.skip(1) =~= j_part);
            }
            lemma_first_member_absent(m2.skip(1), "error"@);
        }
    }
    assert(first_member(m1, "id"@) == first_member(m2, "id"@)) by {
        if e_part.len() == 1 {
            lemma_first_member_skip(m1, "id"@);
        } else {
            assert(m2 =~= m1);
        }
    }
    assert(first_member(m1, "jsonrpc"@) == first_member(m2, "jsonrpc"@)) by {
        if e_part.len() == 1 {
            lemma_first_member_skip(m1, "jsonrpc"@);
        } else {
            assert(m2 =~= m1);
        }
    }
    // id and jsonrpc
    assert(m2[0] == ("id"@, s.id));
    lemma_first_member_skip(m2, "jsonrpc"@);
    assert(m2.skip(1) =~= j_part);
    match s.jsonrpc {
        Some(v) => assert(j_part[0] == ("jsonrpc"@, JsonTree::Str(v))),
        None => {},
    }
    assert(lookup(t, "id"@) == Some(s.id));
}

/// When a response carries an error, extraction yields that error, whatever the result.
pub proof fn lemma_error_takes_precedence<T: FromJson>(s: ResponseView)
    requires
        s.error is Some,
    ensures
        extraction::<T>(s) == Err::<<T as DeepView>::V, ErrorView>(ErrorView::Rpc(s.error->0)),
{
}

/// A response with neither a result nor an error yields the distinct no-payload failure.
pub proof fn lemma_no_payload<T: FromJson>(s: ResponseView)
    requires
        s.result is None,
        s.error is None,
    ensures
        extraction::<T>(s) == Err::<<T as DeepView>::V, ErrorView>(ErrorView::NoErrorOrResult),
{
}

/// Borrowing and consuming extraction agree: outcomes that `Response::result` and
/// `Response::into_result` give on responses of the same content are equal.
pub proof fn lemma_borrowing_matches_consuming<T: FromJson>(
    s: ResponseView,
    borrowed: Result<T, Error>,
    consumed: Result<T, Error>,
)
    requires
        outcome(borrowed) == extraction::<T>(s),
        outcome(consumed) == extraction::<T>(s),
    ensures
        outcome(borrowed) == outcome(consumed),
{
}

} // verus!
