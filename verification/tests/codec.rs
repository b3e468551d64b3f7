use mta_hooks::{
    decode, decode_modification, decode_request, decode_response, encode, encode_modification,
    encode_request, encode_response, Action, Address, AddressParameters, Client, Context,
    DecodeError, Envelope, Family, Json, Message, Modification, Parameters, Protocol, Queue,
    Request, Response, Sasl, Server, Shape, SmtpResponse, Stage, Tls, Wire,
};

fn sample_parameters() -> Parameters {
    let mut parameters = Parameters::new();
    parameters.insert("size".to_string(), Some("54321".to_string()));
    parameters.insert("body".to_string(), None);
    parameters
}

fn every_modification() -> Vec<Modification> {
    vec![
        Modification::change_from("a@example.org".to_string()),
        Modification::change_from_with_params("a@example.org".to_string(), sample_parameters()),
        Modification::add_recipient("b@example.org".to_string()),
        Modification::add_recipient_with_params("b@example.org".to_string(), sample_parameters()),
        Modification::delete_recipient("c@example.org".to_string()),
        Modification::replace_contents("body\r\n".to_string()),
        Modification::add_header("X-A".to_string(), "1".to_string()),
        Modification::insert_header(0, "X-B".to_string(), "2".to_string()),
        Modification::change_header(4294967295, "X-C".to_string(), "3".to_string()),
        Modification::delete_header(7, "X-D".to_string()),
    ]
}

fn full_request() -> Request {
    let mut from_parameters = AddressParameters::new();
    from_parameters.insert("size".to_string(), "12345".to_string());
    Request {
        context: Context {
            stage: Stage::Data,
            client: Client {
                ip: "192.168.1.1".to_string(),
                port: 34567,
                ptr: Some("mail.example.com".to_string()),
                helo: None,
                active_connections: 1,
            },
            sasl: Some(Sasl { login: "user".to_string(), method: Some("plain".to_string()) }),
            tls: Some(Tls {
                version: "1.3".to_string(),
                cipher: "TLS_AES_256_GCM_SHA384".to_string(),
                bits: Some(256),
                issuer: Some("Let's Encrypt".to_string()),
                subject: None,
            }),
            server: Server { name: Some("Stalwart".to_string()), port: 25, ip: None },
            queue: Some(Queue { id: "1234567890".to_string() }),
            protocol: Protocol { version: 1 },
        },
        envelope: Some(Envelope {
            from: Address {
                address: "john@example.com".to_string(),
                parameters: Some(from_parameters),
            },
            to: vec![
                Address { address: "bill@foobar.com".to_string(), parameters: None },
                Address {
                    address: "jane@foobar.com".to_string(),
                    parameters: Some(AddressParameters::new()),
                },
            ],
        }),
        message: Some(Message {
            headers: vec![
                ("From".to_string(), "John Doe <john@example.com>".to_string()),
                ("Subject".to_string(), "Hello, \"World\"!".to_string()),
            ],
            server_headers: vec![("Received".to_string(), "from mail.example.com".to_string())],
            contents: "Hello, World!\r\n".to_string(),
            size: 12345,
        }),
    }
}

#[test]
fn every_modification_survives_the_round_trip_through_text() {
    for modification in every_modification() {
        let text = encode_modification(&modification);
        assert_eq!(decode_modification(&text), Ok(modification));
    }
}

#[test]
fn every_modification_survives_the_round_trip_through_json() {
    for modification in every_modification() {
        let tree = modification.to_json();
        assert_eq!(Modification::from_json(&tree), Ok(modification));
    }
}

#[test]
fn modifications_are_written_with_the_discriminant_first() {
    assert_eq!(
        encode_modification(&Modification::add_header("X-Test".to_string(), "v".to_string())),
        r#"{"type":"addHeader","name":"X-Test","value":"v"}"#
    );
    assert_eq!(
        encode_modification(&Modification::insert_header(1, "X".to_string(), "y".to_string())),
        r#"{"type":"insertHeader","index":1,"name":"X","value":"y"}"#
    );
    assert_eq!(
        encode_modification(&Modification::change_header(4, "X".to_string(), "y".to_string())),
        r#"{"type":"changeHeader","index":4,"name":"X","value":"y"}"#
    );
    assert_eq!(
        encode_modification(&Modification::delete_header(1, "X-Mailer".to_string())),
        r#"{"type":"deleteHeader","index":1,"name":"X-Mailer"}"#
    );
    assert_eq!(
        encode_modification(&Modification::delete_recipient("a@b.c".to_string())),
        r#"{"type":"deleteRecipient","value":"a@b.c"}"#
    );
    assert_eq!(
        encode_modification(&Modification::replace_contents("x".to_string())),
        r#"{"type":"replaceContents","value":"x"}"#
    );
    assert_eq!(
        encode_modification(&Modification::change_from("a@b.c".to_string())),
        r#"{"type":"changeFrom","value":"a@b.c","parameters":{}}"#
    );
    assert_eq!(
        encode_modification(&Modification::add_recipient_with_params(
            "a@b.c".to_string(),
            sample_parameters()
        )),
        r#"{"type":"addRecipient","value":"a@b.c","parameters":{"size":"54321","body":null}}"#
    );
}

#[test]
fn unknown_discriminant_names_the_allowed_kinds() {
    let error = decode_modification(r#"{"type": "bogus", "value": "x"}"#).unwrap_err();
    assert_eq!(
        error,
        DecodeError::UnknownVariant { found: "bogus".to_string(), family: Family::Modification }
    );
    assert_eq!(
        Family::Modification.names(),
        vec![
            "changeFrom",
            "addRecipient",
            "deleteRecipient",
            "replaceContents",
            "addHeader",
            "insertHeader",
            "changeHeader",
            "deleteHeader"
        ]
    );
    assert_eq!(
        error.message(),
        "unknown variant `bogus`, expected one of `changeFrom`, `addRecipient`, \
         `deleteRecipient`, `replaceContents`, `addHeader`, `insertHeader`, `changeHeader`, \
         `deleteHeader`"
    );
}

#[test]
fn discriminant_is_matched_as_it_stands() {
    assert_eq!(
        decode_modification(r#"{"type": "AddHeader", "name": "a", "value": "b"}"#),
        Err(DecodeError::UnknownVariant {
            found: "AddHeader".to_string(),
            family: Family::Modification
        })
    );
}

#[test]
fn missing_discriminant_is_a_missing_field() {
    assert_eq!(
        decode_modification(r#"{"name": "a", "value": "b"}"#),
        Err(DecodeError::MissingField { field: "type", owner: "Modification" })
    );
}

#[test]
fn missing_field_names_the_field_and_the_variant() {
    assert_eq!(
        decode_modification(r#"{"type": "addHeader", "name": "a"}"#),
        Err(DecodeError::MissingField { field: "value", owner: "addHeader" })
    );
    assert_eq!(
        decode_modification(r#"{"type": "insertHeader", "name": "a", "value": "b"}"#),
        Err(DecodeError::MissingField { field: "index", owner: "insertHeader" })
    );
    assert_eq!(
        decode_modification(r#"{"type": "deleteHeader", "index": 1}"#),
        Err(DecodeError::MissingField { field: "name", owner: "deleteHeader" })
    );
    assert_eq!(
        decode_modification(r#"{"type": "changeFrom"}"#),
        Err(DecodeError::MissingField { field: "value", owner: "changeFrom" })
    );
    assert_eq!(
        DecodeError::MissingField { field: "value", owner: "addHeader" }.message(),
        "missing field `value` of `addHeader`"
    );
}

#[test]
fn text_that_is_not_json_is_malformed() {
    assert_eq!(decode_modification("{"), Err(DecodeError::Malformed));
    assert_eq!(decode_request(""), Err(DecodeError::Malformed));
    assert_eq!(decode_response("{\"action\": accept}"), Err(DecodeError::Malformed));
    assert_eq!(DecodeError::Malformed.message(), "the text is not JSON");
}

#[test]
fn wrong_json_types_are_schema_violations() {
    assert_eq!(
        decode_modification("[]"),
        Err(DecodeError::SchemaViolation { at: "Modification", expected: Shape::Object })
    );
    assert_eq!(
        decode_modification(r#"{"type": 1}"#),
        Err(DecodeError::SchemaViolation { at: "type", expected: Shape::Text })
    );
    assert_eq!(
        decode_modification(r#"{"type": "addHeader", "name": null, "value": "b"}"#),
        Err(DecodeError::SchemaViolation { at: "name", expected: Shape::Text })
    );
    assert_eq!(
        decode_modification(r#"{"type": "deleteHeader", "index": -1, "name": "a"}"#),
        Err(DecodeError::SchemaViolation { at: "index", expected: Shape::Unsigned32 })
    );
    assert_eq!(
        decode_modification(r#"{"type": "deleteHeader", "index": 4294967296, "name": "a"}"#),
        Err(DecodeError::SchemaViolation { at: "index", expected: Shape::Unsigned32 })
    );
    assert_eq!(
        decode_modification(r#"{"type": "deleteHeader", "index": 1.0, "name": "a"}"#),
        Err(DecodeError::SchemaViolation { at: "index", expected: Shape::Unsigned32 })
    );
    assert_eq!(
        decode_modification(r#"{"type": "changeFrom", "value": "a", "parameters": [1]}"#),
        Err(DecodeError::SchemaViolation { at: "parameters", expected: Shape::Object })
    );
    assert_eq!(
        DecodeError::SchemaViolation { at: "index", expected: Shape::Unsigned32 }.message(),
        "invalid value at `index`, expected an integer from 0 to 4294967295"
    );
}

#[test]
fn index_takes_the_whole_range_of_u32() {
    assert_eq!(
        decode_modification(r#"{"type": "deleteHeader", "index": 4294967295, "name": "a"}"#),
        Ok(Modification::delete_header(4294967295, "a".to_string()))
    );
    assert_eq!(
        decode_modification(r#"{"type": "deleteHeader", "index": 0, "name": "a"}"#),
        Ok(Modification::delete_header(0, "a".to_string()))
    );
}

#[test]
fn unknown_fields_are_ignored() {
    assert_eq!(
        decode_modification(r#"{"extra": [1, 2], "type": "addHeader", "name": "a", "value": "b", "more": {}}"#),
        Ok(Modification::add_header("a".to_string(), "b".to_string()))
    );
    let response = decode_response(r#"{"action": "discard", "note": "x"}"#).unwrap();
    assert_eq!(response, Response::discard());
}

#[test]
fn lenient_parameters_coerce_every_kind_of_value() {
    let json = r#"{"type": "changeFrom", "value": "a", "parameters": {
        "text": "high", "count": 54321, "below": -17, "real": 1.5, "yes": true, "no": false,
        "nothing": null, "list": [1, "two", null], "nested": {"k": [true]}
    }}"#;
    match decode_modification(json).unwrap() {
        Modification::ChangeFrom { value, parameters } => {
            assert_eq!(value, "a");
            assert_eq!(parameters.len(), 9);
            assert_eq!(parameters.get("text"), Some(&Some("high".to_string())));
            assert_eq!(parameters.get("count"), Some(&Some("54321".to_string())));
            assert_eq!(parameters.get("below"), Some(&Some("-17".to_string())));
            assert_eq!(parameters.get("real"), Some(&Some("1.5".to_string())));
            assert_eq!(parameters.get("yes"), Some(&Some("true".to_string())));
            assert_eq!(parameters.get("no"), Some(&Some("false".to_string())));
            assert_eq!(parameters.get("nothing"), Some(&None));
            assert_eq!(parameters.get("list"), Some(&Some("[1,\"two\",null]".to_string())));
            assert_eq!(parameters.get("nested"), Some(&Some("{\"k\":[true]}".to_string())));
            assert_eq!(parameters.get("absent"), None);
            assert_eq!(parameters.name_at(0), "text");
            assert_eq!(parameters.name_at(8), "nested");
        }
        _ => panic!("Expected ChangeFrom modification"),
    }
}

#[test]
fn absent_parameters_are_empty_for_a_modification_and_none_for_an_address() {
    for json in [
        r#"{"type": "changeFrom", "value": "a", "parameters": null}"#,
        r#"{"type": "changeFrom", "value": "a"}"#,
        r#"{"type": "changeFrom", "value": "a", "parameters": {}}"#,
    ] {
        assert_eq!(
            decode_modification(json),
            Ok(Modification::change_from("a".to_string())),
            "{}",
            json
        );
    }
    for json in [r#"{"address": "a", "parameters": null}"#, r#"{"address": "a"}"#] {
        let address: Address = decode(json).unwrap();
        assert_eq!(address, Address { address: "a".to_string(), parameters: None });
    }
    let address: Address = decode(r#"{"address": "a", "parameters": {}}"#).unwrap();
    assert_eq!(
        address,
        Address { address: "a".to_string(), parameters: Some(AddressParameters::new()) }
    );
}

#[test]
fn strict_parameters_coerce_scalars_and_refuse_the_rest() {
    let address: Address = decode(
        r#"{"address": "a", "parameters": {"size": 12345, "orcpt": "rfc822; b", "flag": true, "ratio": 0.25, "low": -3}}"#,
    )
    .unwrap();
    let parameters = address.parameters.unwrap();
    assert_eq!(parameters.len(), 5);
    assert_eq!(parameters.get("size"), Some(&"12345".to_string()));
    assert_eq!(parameters.get("orcpt"), Some(&"rfc822; b".to_string()));
    assert_eq!(parameters.get("flag"), Some(&"true".to_string()));
    assert_eq!(parameters.get("ratio"), Some(&"0.25".to_string()));
    assert_eq!(parameters.get("low"), Some(&"-3".to_string()));

    let refused = Err(DecodeError::SchemaViolation { at: "parameters", expected: Shape::Scalar });
    assert_eq!(decode::<Address>(r#"{"address": "a", "parameters": {"x": [1]}}"#), refused);
    assert_eq!(decode::<Address>(r#"{"address": "a", "parameters": {"x": {}}}"#), refused);
    assert_eq!(decode::<Address>(r#"{"address": "a", "parameters": {"x": null}}"#), refused);
    assert_eq!(
        decode::<Address>(r#"{"address": "a", "parameters": {"ok": 1, "x": [], "y": {}}}"#),
        refused
    );
    assert_eq!(
        decode::<Address>(r#"{"address": "a", "parameters": "x"}"#),
        Err(DecodeError::SchemaViolation { at: "parameters", expected: Shape::Object })
    );
    assert_eq!(
        DecodeError::SchemaViolation { at: "parameters", expected: Shape::Scalar }.message(),
        "invalid value at `parameters`, expected a string, a number or a boolean"
    );
}

#[test]
fn stage_is_read_in_any_case_and_written_in_lower_case() {
    for token in ["DATA", "data", "DaTa", "dATA"] {
        assert_eq!(Stage::from_token(token), Ok(Stage::Data));
        let text = format!("\"{}\"", token);
        assert_eq!(decode::<Stage>(&text), Ok(Stage::Data));
    }
    assert_eq!(encode(&Stage::Data), "\"data\"");
    let all = [
        (Stage::Connect, "connect", "CONNECT"),
        (Stage::Ehlo, "ehlo", "EHLO"),
        (Stage::Auth, "auth", "AUTH"),
        (Stage::Mail, "mail", "MAIL"),
        (Stage::Rcpt, "rcpt", "RCPT"),
        (Stage::Data, "data", "DATA"),
    ];
    for (stage, lower, upper) in all {
        assert_eq!(stage.token(), lower);
        assert_eq!(Stage::from_token(lower), Ok(stage));
        assert_eq!(Stage::from_token(upper), Ok(stage));
        assert_eq!(Stage::from_json(&stage.to_json()), Ok(stage));
    }
}

#[test]
fn unknown_stage_names_the_upper_case_tokens() {
    let error = decode::<Stage>("\"quit\"").unwrap_err();
    assert_eq!(
        error,
        DecodeError::UnknownVariant { found: "quit".to_string(), family: Family::Stage }
    );
    assert_eq!(
        error.message(),
        "unknown variant `quit`, expected one of `CONNECT`, `EHLO`, `AUTH`, `MAIL`, `RCPT`, `DATA`"
    );
    assert_eq!(
        Stage::from_token("dat\u{e4}"),
        Err(DecodeError::UnknownVariant { found: "dat\u{e4}".to_string(), family: Family::Stage })
    );
    assert_eq!(
        Stage::from_token("DATAX"),
        Err(DecodeError::UnknownVariant { found: "DATAX".to_string(), family: Family::Stage })
    );
    assert_eq!(
        decode::<Stage>("5"),
        Err(DecodeError::SchemaViolation { at: "stage", expected: Shape::Text })
    );
}

#[test]
fn action_is_read_and_written_as_its_lower_case_token() {
    let all = [
        (Action::Accept, "accept"),
        (Action::Discard, "discard"),
        (Action::Reject, "reject"),
        (Action::Quarantine, "quarantine"),
    ];
    for (action, token) in all {
        assert_eq!(action.token(), token);
        assert_eq!(Action::from_token(token), Ok(action));
        assert_eq!(encode(&action), format!("\"{}\"", token));
    }
    let error = Action::from_token("Accept").unwrap_err();
    assert_eq!(
        error,
        DecodeError::UnknownVariant { found: "Accept".to_string(), family: Family::Action }
    );
    assert_eq!(
        error.message(),
        "unknown variant `Accept`, expected one of `accept`, `discard`, `reject`, `quarantine`"
    );
}

#[test]
fn request_survives_the_round_trip_and_omits_no_populated_field() {
    let request = full_request();
    let text = encode_request(&request);
    assert_eq!(decode_request(&text), Ok(request.clone()));

    let tree = Json::parse(&text).unwrap();
    assert_eq!(tree, request.to_json());
    let context = tree.get("context").unwrap();
    for name in ["stage", "client", "sasl", "tls", "server", "queue", "protocol"] {
        assert!(context.get(name).is_some(), "{}", name);
    }
    let client = context.get("client").unwrap();
    assert_eq!(client.get("ptr"), Some(&Json::Text("mail.example.com".to_string())));
    assert_eq!(client.get("helo"), Some(&Json::Null));
    assert_eq!(client.get("activeConnections"), Some(&Json::Number(mta_hooks::Number::Unsigned(1))));
    let tls = context.get("tls").unwrap();
    for name in ["version", "cipher", "cipherBits", "certIssuer"] {
        assert!(tls.get(name).is_some(), "{}", name);
    }
    assert_eq!(tls.get("certSubject"), None);
    let envelope = tree.get("envelope").unwrap();
    assert!(envelope.get("from").unwrap().get("parameters").is_some());
    let message = tree.get("message").unwrap();
    for name in ["headers", "serverHeaders", "contents", "size"] {
        assert!(message.get(name).is_some(), "{}", name);
    }
}

#[test]
fn request_text_keeps_the_order_of_the_fields() {
    let request = Request {
        context: Context {
            stage: Stage::Connect,
            client: Client {
                ip: "10.0.0.1".to_string(),
                port: 65535,
                ptr: None,
                helo: None,
                active_connections: 0,
            },
            sasl: None,
            tls: None,
            server: Server { name: None, port: 0, ip: None },
            queue: None,
            protocol: Protocol { version: 4294967295 },
        },
        envelope: None,
        message: None,
    };
    assert_eq!(
        encode_request(&request),
        "{\"context\":{\"stage\":\"connect\",\"client\":{\"ip\":\"10.0.0.1\",\"port\":65535,\
         \"ptr\":null,\"helo\":null,\"activeConnections\":0},\"server\":{\"name\":null,\
         \"port\":0,\"ip\":null},\"protocol\":{\"version\":4294967295}}}"
    );
    assert_eq!(decode_request(&encode_request(&request)), Ok(request));
}

#[test]
fn message_without_server_headers_omits_them_and_reads_them_as_empty() {
    let message = Message {
        headers: vec![("A".to_string(), "b".to_string())],
        server_headers: vec![],
        contents: "c".to_string(),
        size: 1,
    };
    assert_eq!(encode(&message), r#"{"headers":[["A","b"]],"contents":"c","size":1}"#);
    assert_eq!(decode::<Message>(&encode(&message)), Ok(message));
    assert_eq!(
        decode::<Message>(r#"{"headers":[],"serverHeaders":null,"contents":"","size":0}"#),
        Err(DecodeError::SchemaViolation { at: "serverHeaders", expected: Shape::Array })
    );
}

#[test]
fn headers_are_pairs_of_strings() {
    let refused = Err(DecodeError::SchemaViolation { at: "header", expected: Shape::Pair });
    assert_eq!(decode::<Message>(r#"{"headers":[["A"]],"contents":"","size":0}"#), refused);
    assert_eq!(
        decode::<Message>(r#"{"headers":[["A","b","c"]],"contents":"","size":0}"#),
        refused
    );
    assert_eq!(decode::<Message>(r#"{"headers":[["A",1]],"contents":"","size":0}"#), refused);
    assert_eq!(decode::<Message>(r#"{"headers":["A"],"contents":"","size":0}"#), refused);
    assert_eq!(
        decode::<Message>(r#"{"headers":{},"contents":"","size":0}"#),
        Err(DecodeError::SchemaViolation { at: "headers", expected: Shape::Array })
    );
    assert_eq!(
        DecodeError::SchemaViolation { at: "header", expected: Shape::Pair }.message(),
        "invalid value at `header`, expected an array of two strings"
    );
}

#[test]
fn records_report_the_first_field_in_their_order_that_fails() {
    assert_eq!(
        decode::<Client>(r#"{"port": "x"}"#),
        Err(DecodeError::MissingField { field: "ip", owner: "Client" })
    );
    assert_eq!(
        decode::<Client>(r#"{"ip": "1.2.3.4", "port": "x"}"#),
        Err(DecodeError::SchemaViolation { at: "port", expected: Shape::Unsigned16 })
    );
    assert_eq!(
        decode::<Client>(r#"{"ip": "1.2.3.4", "port": 65536, "activeConnections": 1}"#),
        Err(DecodeError::SchemaViolation { at: "port", expected: Shape::Unsigned16 })
    );
    assert_eq!(
        decode::<Client>(r#"{"ip": "1.2.3.4", "port": 25}"#),
        Err(DecodeError::MissingField { field: "activeConnections", owner: "Client" })
    );
    assert_eq!(
        decode::<Client>(r#"{"ip": "1.2.3.4", "port": 25, "ptr": 7, "activeConnections": 1}"#),
        Err(DecodeError::SchemaViolation { at: "ptr", expected: Shape::Text })
    );
    assert_eq!(
        decode_request(r#"{"envelope": {}}"#),
        Err(DecodeError::MissingField { field: "context", owner: "Request" })
    );
    assert_eq!(
        decode_request(r#"{"context": 3}"#),
        Err(DecodeError::SchemaViolation { at: "Context", expected: Shape::Object })
    );
    assert_eq!(
        decode_request("7"),
        Err(DecodeError::SchemaViolation { at: "Request", expected: Shape::Object })
    );
    assert_eq!(
        DecodeError::SchemaViolation { at: "Request", expected: Shape::Object }.message(),
        "invalid value at `Request`, expected an object"
    );
}

#[test]
fn optional_fields_take_null_for_absent() {
    let client: Client =
        decode(r#"{"ip": "1.2.3.4", "port": 25, "ptr": null, "activeConnections": 3}"#).unwrap();
    assert_eq!(
        client,
        Client {
            ip: "1.2.3.4".to_string(),
            port: 25,
            ptr: None,
            helo: None,
            active_connections: 3
        }
    );
    let tls: Tls = decode(r#"{"version": "1.2", "cipher": "x", "cipherBits": null}"#).unwrap();
    assert_eq!(
        tls,
        Tls { version: "1.2".to_string(), cipher: "x".to_string(), bits: None, issuer: None, subject: None }
    );
    assert_eq!(encode(&tls), r#"{"version":"1.2","cipher":"x"}"#);
    let sasl: Sasl = decode(r#"{"login": "u"}"#).unwrap();
    assert_eq!(sasl, Sasl { login: "u".to_string(), method: None });
    assert_eq!(encode(&sasl), r#"{"login":"u"}"#);
    let request = decode_request(
        r#"{"context": {"stage": "ehlo", "client": {"ip": "::1", "port": 1, "activeConnections": 2},
            "sasl": null, "tls": null, "server": {"port": 25}, "queue": null,
            "protocol": {"version": 1}}, "envelope": null, "message": null}"#,
    )
    .unwrap();
    assert_eq!(request.context.stage, Stage::Ehlo);
    assert_eq!(request.context.sasl, None);
    assert_eq!(request.context.tls, None);
    assert_eq!(request.context.queue, None);
    assert_eq!(request.context.server, Server { name: None, port: 25, ip: None });
    assert_eq!(request.envelope, None);
    assert_eq!(request.message, None);
}

#[test]
fn response_fields_have_their_defaults() {
    assert_eq!(decode_response(r#"{"action": "accept"}"#), Ok(Response::accept()));
    assert_eq!(Response::default(), Response::accept());
    assert_eq!(
        decode_response(r#"{"action": "reject", "response": {}}"#),
        Ok(Response {
            action: Action::Reject,
            response: Some(SmtpResponse::default()),
            modifications: vec![]
        })
    );
    assert_eq!(
        SmtpResponse::default(),
        SmtpResponse { status: None, enhanced_status: None, message: None, disconnect: false }
    );
    assert_eq!(
        decode_response(r#"{"action": "reject", "response": {"disconnect": null}}"#),
        Err(DecodeError::SchemaViolation { at: "disconnect", expected: Shape::Boolean })
    );
    assert_eq!(
        decode_response(r#"{"action": "accept", "modifications": null}"#),
        Err(DecodeError::SchemaViolation { at: "modifications", expected: Shape::Array })
    );
    assert_eq!(
        decode_response(r#"{"modifications": []}"#),
        Err(DecodeError::MissingField { field: "action", owner: "Response" })
    );
    assert_eq!(
        DecodeError::SchemaViolation { at: "disconnect", expected: Shape::Boolean }.message(),
        "invalid value at `disconnect`, expected a boolean"
    );
}

#[test]
fn response_builders_make_what_they_say() {
    assert_eq!(
        Response::accept(),
        Response { action: Action::Accept, response: None, modifications: vec![] }
    );
    assert_eq!(
        Response::discard(),
        Response { action: Action::Discard, response: None, modifications: vec![] }
    );
    assert_eq!(
        Response::quarantine(),
        Response { action: Action::Quarantine, response: None, modifications: vec![] }
    );
    assert_eq!(
        Response::reject(550, "No".to_string()),
        Response {
            action: Action::Reject,
            response: Some(SmtpResponse {
                status: Some(550),
                enhanced_status: None,
                message: Some("No".to_string()),
                disconnect: false
            }),
            modifications: vec![]
        }
    );
    let modified = Response::reject(550, "No".to_string()).with_modifications(every_modification());
    assert_eq!(modified.action, Action::Reject);
    assert_eq!(modified.response, Response::reject(550, "No".to_string()).response);
    assert_eq!(modified.modifications, every_modification());
}

#[test]
fn response_is_written_in_the_order_of_its_fields() {
    assert_eq!(
        encode_response(&Response::accept()),
        r#"{"action":"accept","response":null,"modifications":[]}"#
    );
    assert_eq!(
        encode_response(
            &Response::reject(550, "No \"spam\"".to_string())
                .with_modifications(vec![Modification::delete_header(1, "X".to_string())])
        ),
        "{\"action\":\"reject\",\"response\":{\"status\":550,\"enhancedStatus\":null,\
         \"message\":\"No \\\"spam\\\"\",\"disconnect\":false},\
         \"modifications\":[{\"type\":\"deleteHeader\",\"index\":1,\"name\":\"X\"}]}"
    );
}

#[test]
fn response_survives_the_round_trip() {
    let responses = vec![
        Response::accept(),
        Response::discard(),
        Response::quarantine(),
        Response::reject(451, "later".to_string()),
        Response::accept().with_modifications(every_modification()),
        Response {
            action: Action::Reject,
            response: Some(SmtpResponse {
                status: Some(65535),
                enhanced_status: Some("5.7.1".to_string()),
                message: None,
                disconnect: true,
            }),
            modifications: vec![],
        },
    ];
    for response in responses {
        assert_eq!(decode_response(&encode_response(&response)), Ok(response.clone()));
        assert_eq!(Response::from_json(&response.to_json()), Ok(response));
    }
}

#[test]
fn first_modification_that_fails_gives_the_error() {
    assert_eq!(
        decode_response(
            r#"{"action": "accept", "modifications": [
                {"type": "addHeader", "name": "a", "value": "b"},
                {"type": "nope"},
                {"type": "addHeader"}
            ]}"#
        ),
        Err(DecodeError::UnknownVariant { found: "nope".to_string(), family: Family::Modification })
    );
}

#[test]
fn a_name_that_comes_twice_counts_where_it_comes_last() {
    assert_eq!(
        decode_modification(r#"{"type": "addHeader", "name": "a", "value": "b", "name": "c"}"#),
        Ok(Modification::add_header("c".to_string(), "b".to_string()))
    );
    match decode_modification(
        r#"{"type": "changeFrom", "value": "a", "parameters": {"x": 1, "y": 2, "x": 3}}"#,
    )
    .unwrap()
    {
        Modification::ChangeFrom { parameters, .. } => {
            assert_eq!(parameters.len(), 2);
            assert_eq!(parameters.name_at(0), "x");
            assert_eq!(parameters.value_at(0), &Some("3".to_string()));
            assert_eq!(parameters.name_at(1), "y");
        }
        _ => panic!("Expected ChangeFrom modification"),
    }
}

#[test]
fn documented_request_is_written_again_with_every_populated_field() {
    let json = r#"{
    "context": {
        "stage": "DATA",
        "sasl": {
            "login": "user",
            "method": "plain"
        },
        "client": {
            "ip": "192.168.1.1",
            "port": 34567,
            "ptr": "mail.example.com",
            "helo": "mail.example.com",
            "activeConnections": 1
        },
        "tls": {
            "version": "1.3",
            "cipher": "TLS_AES_256_GCM_SHA384",
            "cipherBits": 256,
            "certIssuer": "Let's Encrypt",
            "certSubject": "mail.example.com"
        },
        "server": {
            "name": "Stalwart",
            "port": 25,
            "ip": "192.168.2.2"
        },
        "queue": {
            "id": "1234567890"
        },
        "protocol": {
            "version": 1
        }
    },
    "envelope": {
        "from": {
            "address": "john@example.com",
            "parameters": {
                "size": "12345"
            }
        },
        "to": [
            {
                "address": "bill@foobar.com",
                "parameters": {
                    "orcpt": "rfc822; b@foobar.com"
                }
            },
            {
                "address": "jane@foobar.com",
                "parameters": null
            }
        ]
    },
    "message": {
        "headers": [
            [
                "From",
                "John Doe <john@example.com>"
            ],
            [
                "To",
                "Bill <bill@foobar.com>, Jane <jane@foobar.com>"
            ],
            [
                "Subject",
                "Hello, World!"
            ]
        ],
        "serverHeaders": [
            [
                "Received",
                "from mail.example.com (mail.example.com [192.168.1.1]) by mail.foobar.com (Stalwart) with ESMTPS id 1234567890"
            ]
        ],
        "contents": "Hello, World!\r\n",
        "size": 12345
    }
}"#;

    let request = decode_request(json).expect("the sample decodes");
    assert_eq!(request.context.client.active_connections, 1);
    assert_eq!(request.envelope.as_ref().map(|e| e.to.len()), Some(2));
    assert_eq!(request.message.as_ref().map(|m| m.headers.len()), Some(3));

    let text = encode_request(&request);
    assert_eq!(decode_request(&text), Ok(request));

    let read = Json::parse(json).unwrap();
    let written = Json::parse(&text).unwrap();
    let read_context = read.get("context").unwrap();
    let written_context = written.get("context").unwrap();
    assert_eq!(read_context.get("stage"), Some(&Json::Text("DATA".to_string())));
    assert_eq!(written_context.get("stage"), Some(&Json::Text("data".to_string())));
    for name in ["sasl", "client", "tls", "server", "queue", "protocol"] {
        assert!(read_context.get(name).is_some(), "{}", name);
        assert_eq!(written_context.get(name), read_context.get(name), "{}", name);
    }
    assert_eq!(written.get("message"), read.get("message"));
    let envelope = written.get("envelope").unwrap();
    assert_eq!(envelope.get("from"), read.get("envelope").unwrap().get("from"));
    match (envelope.get("to"), read.get("envelope").unwrap().get("to")) {
        (Some(Json::Array(written_to)), Some(Json::Array(read_to))) => {
            assert_eq!(written_to.len(), 2);
            assert_eq!(written_to[0], read_to[0]);
            assert_eq!(written_to[1].get("address"), read_to[1].get("address"));
            assert_eq!(read_to[1].get("parameters"), Some(&Json::Null));
            assert_eq!(written_to[1].get("parameters"), None);
        }
        _ => panic!("the recipients are an array"),
    }
}

#[test]
fn every_shape_and_family_has_its_words() {
    let shapes = [
        (Shape::Object, "an object"),
        (Shape::Array, "an array"),
        (Shape::Pair, "an array of two strings"),
        (Shape::Text, "a string"),
        (Shape::Boolean, "a boolean"),
        (Shape::Unsigned16, "an integer from 0 to 65535"),
        (Shape::Unsigned32, "an integer from 0 to 4294967295"),
        (Shape::Size, "an integer from 0 that fits the word of the machine"),
        (Shape::Scalar, "a string, a number or a boolean"),
    ];
    for (shape, words) in shapes {
        assert_eq!(shape.words(), words);
        assert_eq!(
            DecodeError::SchemaViolation { at: "x", expected: shape }.message(),
            format!("invalid value at `x`, expected {}", words)
        );
    }
    assert_eq!(Family::Stage.listed(), "`CONNECT`, `EHLO`, `AUTH`, `MAIL`, `RCPT`, `DATA`");
    assert_eq!(Family::Action.listed(), "`accept`, `discard`, `reject`, `quarantine`");
    assert_eq!(Family::Stage.names(), vec!["CONNECT", "EHLO", "AUTH", "MAIL", "RCPT", "DATA"]);
    assert_eq!(Family::Action.names(), vec!["accept", "discard", "reject", "quarantine"]);
}

#[test]
fn size_takes_what_fits_the_word_of_the_machine() {
    let text = format!(r#"{{"headers":[],"contents":"","size":{}}}"#, usize::MAX);
    assert_eq!(decode::<Message>(&text).map(|m| m.size), Ok(usize::MAX));
    assert_eq!(
        decode::<Message>(r#"{"headers":[],"contents":"","size":-1}"#),
        Err(DecodeError::SchemaViolation { at: "size", expected: Shape::Size })
    );
    assert_eq!(
        decode::<Message>(r#"{"headers":[],"contents":"","size":1.5}"#),
        Err(DecodeError::SchemaViolation { at: "size", expected: Shape::Size })
    );
    assert_eq!(
        decode::<Message>(r#"{"headers":[],"contents":"","size":"1"}"#),
        Err(DecodeError::SchemaViolation { at: "size", expected: Shape::Size })
    );
}
