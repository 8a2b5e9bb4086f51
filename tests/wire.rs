use clightningrpc::error::{DecodeError, Error, Field, RpcError};
use clightningrpc::{Request, Response};
use strason::Json;

fn sample_error() -> RpcError {
    RpcError { code: -77, message: "test4".to_owned(), data: Some(From::from(true)) }
}

#[test]
fn request_serialize_round_trip() {
    let original = Request {
        method: "test".to_owned(),
        params: From::from(vec![
            ("a".to_string(), From::from(())),
            ("b".to_string(), From::from(false)),
            ("c".to_string(), From::from(true)),
            ("d".to_string(), From::from("test2")),
        ]),
        id: From::from("69"),
        jsonrpc: Some(String::from("2.0")),
    };

    let ser = original.encode();
    let des = Request::decode(&ser).unwrap();

    assert_eq!(original, des);
}

#[test]
fn response_serialize_round_trip() {
    let original_err = sample_error();

    let original = Response {
        result: Some(From::<Vec<Json>>::from(vec![
            From::from(()),
            From::from(false),
            From::from(true),
            From::from("test2"),
        ])),
        error: Some(original_err),
        id: From::from(101),
        jsonrpc: Some(String::from("2.0")),
    };

    let ser = original.encode();
    let des = Response::decode(&ser).unwrap();

    assert_eq!(original, des);
}

#[test]
fn response_is_none() {
    let joanna = Response {
        result: Some(From::from(true)),
        error: None,
        id: From::from(81),
        jsonrpc: Some(String::from("2.0")),
    };

    let bill = Response {
        result: None,
        error: None,
        id: From::from(66),
        jsonrpc: Some(String::from("2.0")),
    };

    assert!(!joanna.is_none());
    assert!(bill.is_none());
}

#[test]
fn response_extract() {
    let obj = vec!["Mary", "had", "a", "little", "lamb"];
    let response = Response {
        result: Some(Json::from_serialize(&obj).unwrap()),
        error: None,
        id: From::from(()),
        jsonrpc: Some(String::from("2.0")),
    };
    let recovered1: Vec<String> = response.result().unwrap();
    assert!(response.clone().check_error().is_ok());
    let recovered2: Vec<String> = response.into_result().unwrap();
    assert_eq!(obj, recovered1);
    assert_eq!(obj, recovered2);
}

#[test]
fn request_round_trip_without_version() {
    let original = Request {
        method: "getinfo".to_owned(),
        params: From::from(Vec::<Json>::new()),
        id: From::from(7u64),
        jsonrpc: None,
    };
    let ser = original.encode();
    assert!(ser.get("jsonrpc").is_none());
    assert_eq!(ser.get("method").and_then(|m| m.string()), Some("getinfo"));
    assert_eq!(Request::decode(&ser).unwrap(), original);
}

#[test]
fn response_round_trip_with_nested_data_and_null_result() {
    let nested: Json = From::from(vec![
        ("inner".to_string(), From::<Vec<Json>>::from(vec![From::from(1i64), From::from("x")])),
    ]);
    let original = Response {
        result: Some(From::from(())),
        error: Some(RpcError { code: i64::MIN, message: String::new(), data: Some(nested) }),
        id: From::from("abc"),
        jsonrpc: None,
    };
    let des = Response::decode(&original.encode()).unwrap();
    assert_eq!(des, original);
}

#[test]
fn error_code_written_in_decimal() {
    let response = Response {
        result: None,
        error: Some(sample_error()),
        id: From::from(1),
        jsonrpc: None,
    };
    let ser = response.encode();
    let code = ser.get("error").and_then(|e| e.get("code")).and_then(|c| c.num());
    assert_eq!(code, Some("-77"));
    assert!(ser.get("result").is_none());
}

#[test]
fn error_code_read_from_text() {
    let wire: Json = From::from(vec![
        ("error".to_string(), From::from(vec![
            ("code".to_string(), From::from(-32601i64)),
            ("message".to_string(), From::from("no such method")),
        ])),
        ("id".to_string(), From::from(3)),
    ]);
    let response = Response::decode(&wire).unwrap();
    let err = response.error.clone().unwrap();
    assert_eq!(err.code, -32601);
    assert_eq!(err.message, "no such method");
    assert!(err.data.is_none());
    assert!(response.result.is_none());
    assert!(response.jsonrpc.is_none());
}

#[test]
fn error_takes_precedence_over_result() {
    let response = Response {
        result: Some(From::<Vec<Json>>::from(vec![
            From::from(()),
            From::from(false),
            From::from(true),
            From::from("test2"),
        ])),
        error: Some(sample_error()),
        id: From::from(101),
        jsonrpc: Some(String::from("2.0")),
    };
    assert_eq!(response.result::<Vec<String>>(), Err(Error::Rpc(sample_error())));
    assert_eq!(response.clone().into_result::<Vec<String>>(), Err(Error::Rpc(sample_error())));
    assert_eq!(response.check_error(), Err(Error::Rpc(sample_error())));
}

#[test]
fn neither_result_nor_error() {
    let response = Response { result: None, error: None, id: From::from(66), jsonrpc: None };
    assert_eq!(response.result::<String>(), Err(Error::NoErrorOrResult));
    assert!(response.clone().check_error().is_ok());
    assert_eq!(response.into_result::<String>(), Err(Error::NoErrorOrResult));
}

#[test]
fn result_of_wrong_shape() {
    let response = Response {
        result: Some(From::from(true)),
        error: None,
        id: From::from(81),
        jsonrpc: None,
    };
    assert!(!response.is_none());
    assert_eq!(response.result::<Vec<String>>(), Err(Error::Json(DecodeError::Mismatch)));
    assert_eq!(response.result::<String>(), Err(Error::Json(DecodeError::Mismatch)));
    let mixed = Response {
        result: Some(From::<Vec<Json>>::from(vec![From::from("a"), From::from(2)])),
        error: None,
        id: From::from(82),
        jsonrpc: None,
    };
    assert_eq!(mixed.clone().result::<Vec<String>>(), Err(Error::Json(DecodeError::Mismatch)));
    assert_eq!(mixed.into_result::<Vec<String>>(), Err(Error::Json(DecodeError::Mismatch)));
}

#[test]
fn string_result() {
    let response = Response {
        result: Some(From::from("done")),
        error: None,
        id: From::from(5),
        jsonrpc: None,
    };
    assert_eq!(response.result::<String>(), Ok("done".to_string()));
    assert_eq!(response.into_result::<String>(), Ok("done".to_string()));
}

#[test]
fn request_decode_errors() {
    let not_object: Json = From::from("x");
    assert_eq!(Request::decode(&not_object), Err(DecodeError::NotAnObject));

    let no_method: Json = From::from(vec![("params".to_string(), From::from(()))]);
    assert_eq!(Request::decode(&no_method), Err(DecodeError::MissingField(Field::Method)));

    let bad_method: Json = From::from(vec![("method".to_string(), From::from(4))]);
    assert_eq!(Request::decode(&bad_method), Err(DecodeError::WrongType(Field::Method)));

    let no_params: Json = From::from(vec![("method".to_string(), From::from("m"))]);
    assert_eq!(Request::decode(&no_params), Err(DecodeError::MissingField(Field::Params)));

    let no_id: Json = From::from(vec![
        ("method".to_string(), From::from("m")),
        ("params".to_string(), From::from(())),
    ]);
    assert_eq!(Request::decode(&no_id), Err(DecodeError::MissingField(Field::Id)));

    let bad_version: Json = From::from(vec![
        ("method".to_string(), From::from("m")),
        ("params".to_string(), From::from(())),
        ("id".to_string(), From::from(1)),
        ("jsonrpc".to_string(), From::from(2)),
    ]);
    assert_eq!(Request::decode(&bad_version), Err(DecodeError::WrongType(Field::Jsonrpc)));

    let null_version: Json = From::from(vec![
        ("method".to_string(), From::from("m")),
        ("params".to_string(), From::from(())),
        ("id".to_string(), From::from(1)),
        ("jsonrpc".to_string(), From::from(())),
    ]);
    assert_eq!(Request::decode(&null_version).unwrap().jsonrpc, None);
}

#[test]
fn response_decode_errors() {
    let not_object: Json = From::<Vec<Json>>::from(vec![From::from(1)]);
    assert_eq!(Response::decode(&not_object), Err(DecodeError::NotAnObject));

    let no_id: Json = From::from(vec![("result".to_string(), From::from(1))]);
    assert_eq!(Response::decode(&no_id), Err(DecodeError::MissingField(Field::Id)));

    let bad_error: Json = From::from(vec![
        ("error".to_string(), From::from("oops")),
        ("id".to_string(), From::from(1)),
    ]);
    assert_eq!(Response::decode(&bad_error), Err(DecodeError::WrongType(Field::Error)));

    let no_code: Json = From::from(vec![
        ("error".to_string(), From::from(vec![("message".to_string(), From::from("m"))])),
        ("id".to_string(), From::from(1)),
    ]);
    assert_eq!(Response::decode(&no_code), Err(DecodeError::MissingField(Field::Code)));

    let big_code: Json = From::from(vec![
        ("error".to_string(), From::from(vec![("code".to_string(), From::from(u64::MAX))])),
        ("id".to_string(), From::from(1)),
    ]);
    assert_eq!(Response::decode(&big_code), Err(DecodeError::WrongType(Field::Code)));

    let no_message: Json = From::from(vec![
        ("error".to_string(), From::from(vec![("code".to_string(), From::from(1))])),
        ("id".to_string(), From::from(1)),
    ]);
    assert_eq!(Response::decode(&no_message), Err(DecodeError::MissingField(Field::Message)));

    let bad_message: Json = From::from(vec![
        ("error".to_string(), From::from(vec![
            ("code".to_string(), From::from(1)),
            ("message".to_string(), From::from(false)),
        ])),
        ("id".to_string(), From::from(1)),
    ]);
    assert_eq!(Response::decode(&bad_message), Err(DecodeError::WrongType(Field::Message)));

    let null_error: Json = From::from(vec![
        ("result".to_string(), From::from(true)),
        ("error".to_string(), From::from(())),
        ("id".to_string(), From::from(1)),
    ]);
    let decoded = Response::decode(&null_error).unwrap();
    assert!(decoded.error.is_none());
    assert_eq!(decoded.result, Some(From::from(true)));
}

#[test]
fn error_duplicate_keeps_fields() {
    let e = sample_error();
    assert_eq!(e.duplicate(), e);
    let wire = e.encode();
    assert_eq!(RpcError::decode(&wire), Ok(e));
}
