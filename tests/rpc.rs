use mm2_rpc::batch::batch_response;
use mm2_rpc::dispatch::{dispatcher, DispatcherRes};
use mm2_rpc::gate::{auth, check_single_request, AuthError, RpcError};
use mm2_rpc::registry::{is_offloaded_method, is_public_method, is_registered_method, registered_method_names};
use mm2_rpc::request::{Incoming, RpcConfig, RpcRequest};
use mm2_rpc::response::{error_document, error_document_from_quoted, error_response, RpcResponse};
use mm2_rpc::transport::{cors_origin, member_outcome, read_http_request, single_response, OnceFlag};

fn request(text: &str) -> RpcRequest {
    RpcRequest::from_json(serde_json::from_str(text).unwrap())
}

fn config(password: Option<&str>) -> RpcConfig {
    RpcConfig::from_fields(password.map(String::from), None, None)
}

fn text(b: &[u8]) -> String {
    String::from_utf8(b.to_vec()).unwrap()
}

#[test]
fn request_fields_are_read() {
    let r = request(r#"{"method":"buy","userpass":"pw","base":"KMD"}"#);
    assert_eq!(r.method.as_deref(), Some("buy"));
    assert_eq!(r.userpass.as_deref(), Some("pw"));
    let r = request(r#"{"method":5,"userpass":true}"#);
    assert_eq!(r.method, None);
    assert_eq!(r.userpass, None);
}

#[test]
fn config_from_conf_document() {
    let conf: serde_json::Value =
        serde_json::from_str(r#"{"rpc_password":"secret","rpc_local_only":false,"rpc_cors":"*"}"#).unwrap();
    let c = RpcConfig::from_conf(&conf);
    assert_eq!(c.password.as_deref(), Some("secret"));
    assert!(!c.local_only);
    assert_eq!(c.cors.as_deref(), Some("*"));
    let c = RpcConfig::from_conf(&serde_json::from_str("{}").unwrap());
    assert!(c.local_only);
    assert_eq!(c.password, None);
}

#[test]
fn public_methods_skip_credentials() {
    let cfg = config(Some("secret"));
    for m in ["version", "help", "orderbook", "getprice", "stats_swap_status"] {
        let with_wrong = request(&format!(r#"{{"method":"{}","userpass":"wrong"}}"#, m));
        let without = request(&format!(r#"{{"method":"{}"}}"#, m));
        assert_eq!(auth(&with_wrong, &cfg), Ok(()));
        assert_eq!(auth(&without, &cfg), Ok(()));
    }
    assert_eq!(auth(&request(r#"{"userpass":"x"}"#), &cfg), Ok(()));
}

#[test]
fn wrong_credential_is_invalid() {
    let cfg = config(Some("secret"));
    assert_eq!(auth(&request(r#"{"method":"setprice","userpass":"wrong"}"#), &cfg), Err(AuthError::InvalidCredential));
    assert_eq!(auth(&request(r#"{"method":"setprice","userpass":"secret"}"#), &cfg), Ok(()));
    let unset = config(None);
    assert_eq!(auth(&request(r#"{"method":"setprice","userpass":"secret"}"#), &unset), Err(AuthError::InvalidCredential));
}

#[test]
fn missing_credential() {
    let cfg = config(Some("secret"));
    assert_eq!(auth(&request(r#"{"method":"withdraw"}"#), &cfg), Err(AuthError::MissingCredential));
    assert_eq!(auth(&request(r#"{"method":"withdraw","userpass":12}"#), &cfg), Err(AuthError::MissingCredential));
}

#[test]
fn registry_lookups_are_exact() {
    assert!(is_registered_method(&"setprice".to_string()));
    assert!(!is_registered_method(&"SetPrice".to_string()));
    assert!(!is_registered_method(&"setpric".to_string()));
    assert!(!is_registered_method(&String::new()));
    assert!(is_offloaded_method(&"import_swaps".to_string()));
    assert!(is_offloaded_method(&"recover_funds_of_swap".to_string()));
    assert!(!is_offloaded_method(&"buy".to_string()));
    assert!(is_public_method(&None));
    assert!(!is_public_method(&Some("stop".to_string())));
    assert!(is_public_method(&Some("bogus".to_string())));
}

#[test]
fn dispatcher_matches_and_hands_back() {
    let r = request(r#"{"method":"import_swaps","swaps":[]}"#);
    match dispatcher(r) {
        DispatcherRes::Match(route, back) => {
            assert_eq!(route.method, "import_swaps");
            assert!(route.offload);
            assert_eq!(back.json["swaps"], serde_json::Value::Array(vec![]));
        },
        DispatcherRes::NoMatch(_) => panic!("import_swaps is registered"),
    }
    for t in [r#"{"method":"bogus","x":1}"#, r#"{"method":""}"#, r#"{"method":7}"#, r#"{}"#] {
        let sent: serde_json::Value = serde_json::from_str(t).unwrap();
        match dispatcher(RpcRequest::from_json(sent.clone())) {
            DispatcherRes::NoMatch(back) => assert_eq!(back.json, sent),
            DispatcherRes::Match(..) => panic!("no handler expected for {}", t),
        }
    }
}

#[test]
fn local_only_refuses_before_credentials() {
    let cfg = config(Some("secret"));
    let right = check_single_request(request(r#"{"method":"setprice","userpass":"secret"}"#), &cfg, false);
    let wrong = check_single_request(request(r#"{"method":"setprice","userpass":"wrong"}"#), &cfg, false);
    assert!(matches!(right, Err(RpcError::LocalOnly)));
    assert!(matches!(wrong, Err(RpcError::LocalOnly)));
    let open = RpcConfig::from_fields(Some("secret".to_string()), Some(false), None);
    let remote = check_single_request(request(r#"{"method":"setprice","userpass":"secret"}"#), &open, false);
    assert!(remote.is_ok());
}

#[test]
fn version_needs_no_credential() {
    let cfg = config(Some("secret"));
    for loopback in [true, false] {
        match check_single_request(request(r#"{"method":"version"}"#), &cfg, loopback) {
            Ok((route, _)) => {
                assert_eq!(route.method, "version");
                assert!(!route.offload);
            },
            Err(e) => panic!("version refused: {:?}", e),
        }
    }
}

#[test]
fn setprice_with_wrong_userpass() {
    let cfg = config(Some("secret"));
    let r = check_single_request(request(r#"{"method":"setprice","userpass":"wrong"}"#), &cfg, true);
    let e = match r {
        Err(e) => e,
        Ok(_) => panic!("wrong credential accepted"),
    };
    assert!(matches!(e, RpcError::InvalidCredential));
    let resp = error_response(&e);
    assert_eq!(resp.status, 500);
    let body = text(&resp.body);
    assert_eq!(body, r#"{"error":"Userpass is invalid!"}"#);
    assert!(!body.contains("wrong"));
}

#[test]
fn batch_with_unknown_member() {
    let cfg = config(Some("secret"));
    let incoming = read_http_request(true, br#"[{"method":"version"},{"method":"bogus"}]"#).unwrap();
    let members = match incoming {
        Incoming::Batch(members) => members,
        Incoming::Single(_) => panic!("an array is a batch"),
    };
    assert_eq!(members.len(), 2);
    let mut outcomes = Vec::new();
    for m in members {
        let r = check_single_request(m, &cfg, true).map(|(_route, _req)| RpcResponse {
            status: 200,
            headers: Vec::new(),
            body: br#"{"result":"2.0"}"#.to_vec(),
        });
        outcomes.push(member_outcome(r));
    }
    let resp = batch_response(&outcomes);
    assert_eq!(resp.status, 200);
    let v: serde_json::Value = serde_json::from_slice(&resp.body).unwrap();
    let items = v.as_array().unwrap();
    assert_eq!(items.len(), 2);
    assert_eq!(items[0]["result"], "2.0");
    assert_eq!(items[1]["error"], "No such method: bogus");
}

#[test]
fn batch_keeps_order_and_isolates_failures() {
    let outcomes = vec![
        Ok(br#"{"a":1}"#.to_vec()),
        Err("handler exploded".to_string()),
        Ok(b"not json".to_vec()),
        Ok(b"[2]".to_vec()),
    ];
    let resp = batch_response(&outcomes);
    assert_eq!(resp.status, 200);
    assert_eq!(text(&resp.body), r#"[{"a":1},{"error":"handler exploded"},null,[2]]"#);
    let empty = batch_response(&Vec::new());
    assert_eq!(text(&empty.body), "[]");
    let one = batch_response(&vec![Ok(b"7".to_vec())]);
    assert_eq!(text(&one.body), "[7]");
}

#[test]
fn error_documents() {
    assert_eq!(text(&error_document_from_quoted(Some(b"\"x\"".to_vec()))), r#"{"error":"x"}"#);
    assert_eq!(text(&error_document_from_quoted(None)), r#"{"error":null}"#);
    assert_eq!(text(&error_document(r#"say "hi""#)), r#"{"error":"say \"hi\""}"#);
    let unknown = error_response(&RpcError::UnknownMethod(None));
    assert_eq!(text(&unknown.body), r#"{"error":"No such method: null"}"#);
    let verb = error_response(&RpcError::UnsupportedVerb);
    assert_eq!(text(&verb.body), r#"{"error":"Only POST requests are supported!"}"#);
    let missing = error_response(&RpcError::MissingCredential);
    assert_eq!(text(&missing.body), r#"{"error":"Userpass is not set!"}"#);
    let local = error_response(&RpcError::LocalOnly);
    assert_eq!(text(&local.body), r#"{"error":"Selected method can be called from localhost only!"}"#);
    let fault = error_response(&RpcError::HandlerFault("disk full".to_string()));
    assert_eq!(fault.status, 500);
    assert_eq!(text(&fault.body), r#"{"error":"disk full"}"#);
}

#[test]
fn http_request_reading() {
    assert!(matches!(read_http_request(true, b"{not json"), Err(RpcError::MalformedBody(_))));
    assert!(matches!(read_http_request(false, b"{not json"), Err(RpcError::MalformedBody(_))));
    assert!(matches!(read_http_request(false, br#"{"method":"version"}"#), Err(RpcError::UnsupportedVerb)));
    match read_http_request(true, br#"{"method":"version"}"#) {
        Ok(Incoming::Single(r)) => assert_eq!(r.method.as_deref(), Some("version")),
        other => panic!("unexpected {:?}", other),
    }
}

#[test]
fn cors_header_value() {
    assert_eq!(cors_origin(&config(None)).as_deref(), Some("http://localhost:3000"));
    let set = RpcConfig::from_fields(None, None, Some("https://dex.example".to_string()));
    assert_eq!(cors_origin(&set).as_deref(), Some("https://dex.example"));
    let bad = RpcConfig::from_fields(None, None, Some("a\nb".to_string()));
    assert_eq!(cors_origin(&bad), None);
}

#[test]
fn once_flag_sets_once() {
    let mut f = OnceFlag::new();
    assert!(!f.is_set());
    assert!(f.pin().is_ok());
    assert!(f.is_set());
    assert!(f.pin().is_err());
    assert!(f.is_set());
}

#[test]
fn registry_is_enumerable() {
    let names = registered_method_names();
    assert_eq!(names.len(), 51);
    for n in &names {
        assert!(is_registered_method(&n.to_string()));
        assert_eq!(names.iter().filter(|m| *m == n).count(), 1);
    }
    assert!(names.contains(&"version"));
    assert!(names.contains(&"help"));
}

#[test]
fn single_responses() {
    let handler = RpcResponse {
        status: 500,
        headers: vec![("content-type".to_string(), b"application/json".to_vec())],
        body: br#"{"error":"no such coin"}"#.to_vec(),
    };
    let ok = single_response(Ok(handler));
    assert_eq!(ok.status, 500);
    assert_eq!(ok.headers, vec![("content-type".to_string(), b"application/json".to_vec())]);
    assert_eq!(text(&ok.body), r#"{"error":"no such coin"}"#);
    let member = member_outcome(Ok(RpcResponse { status: 201, headers: Vec::new(), body: b"[1]".to_vec() }));
    assert_eq!(member, Ok(b"[1]".to_vec()));
    let err = single_response(Err(RpcError::HandlerFault("boom".to_string())));
    assert_eq!(err.status, 500);
    assert_eq!(text(&err.body), r#"{"error":"boom"}"#);
}

#[test]
fn unknown_private_looking_method_is_not_found() {
    let cfg = config(Some("secret"));
    let r = check_single_request(request(r#"{"method":"bogus"}"#), &cfg, false);
    match r {
        Err(RpcError::UnknownMethod(Some(m))) => assert_eq!(m, "bogus"),
        other => panic!("unexpected {:?}", other.map(|(route, _)| route)),
    }
    let r = check_single_request(request(r#"{"userpass":"secret"}"#), &cfg, true);
    assert!(matches!(r, Err(RpcError::UnknownMethod(None))));
}

#[test]
fn http_batch_body_reads_members_in_order() {
    match read_http_request(true, br#"[{"method":"buy","userpass":"pw"},{"method":"sell"},3]"#) {
        Ok(Incoming::Batch(members)) => {
            assert_eq!(members.len(), 3);
            assert_eq!(members[0].method.as_deref(), Some("buy"));
            assert_eq!(members[0].userpass.as_deref(), Some("pw"));
            assert_eq!(members[1].method.as_deref(), Some("sell"));
            assert_eq!(members[1].userpass, None);
            assert_eq!(members[2].json, serde_json::Value::from(3));
            assert_eq!(members[2].method, None);
        },
        other => panic!("unexpected {:?}", other),
    }
}
