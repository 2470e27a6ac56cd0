use chat_relay::relay::{
    handle_upstream, parse_chat_request, ChatResponse, UpstreamEvent, STATUS_BAD_GATEWAY,
    STATUS_INTERNAL_ERROR,
};

#[test]
fn hello_exchange_end_to_end() {
    let request = parse_chat_request("{\"message\":\"hello\"}").expect("inbound body parses");
    assert_eq!(request.message, "hello");
    let outbound = chat_relay::encode::build_upstream_body(&request.message);
    assert!(outbound.contains("{\"role\":\"user\",\"content\":\"hello\"}"));
    let upstream_echo = "{\"choices\":[{\"message\":{\"content\":\"hi there\"}}]}".to_string();
    let reply = handle_upstream(UpstreamEvent::Response(200, upstream_echo))
        .expect("a successful upstream response relays");
    assert_eq!(reply.message, "hi there");
    assert_eq!(
        chat_relay::encode::build_response_body(&reply.message),
        "{\"message\":\"hi there\"}"
    );
}

#[test]
fn success_relays_provider_content() {
    let body = "{\"choices\":[{\"message\":{\"content\":\"hi there\"}}]}".to_string();
    let r = handle_upstream(UpstreamEvent::Response(200, body));
    match r {
        Ok(ChatResponse { message }) => assert_eq!(message, "hi there"),
        Err(_) => panic!("expected a successful relay"),
    }
}

#[test]
fn success_relays_other_content_unchanged() {
    let body = "{\"choices\":[{\"message\":{\"content\":\"The chain keeps \\\"state\\\".\"}}]}"
        .to_string();
    let r = handle_upstream(UpstreamEvent::Response(201, body));
    match r {
        Ok(ChatResponse { message }) => assert_eq!(message, "The chain keeps \"state\"."),
        Err(_) => panic!("expected a successful relay"),
    }
}

#[test]
fn upstream_rejection_is_a_gateway_error() {
    let body = "{\"choices\":[{\"message\":{\"content\":\"ignored\"}}]}".to_string();
    let r = handle_upstream(UpstreamEvent::Response(404, body));
    match r {
        Ok(_) => panic!("expected a gateway error"),
        Err(e) => {
            assert_eq!(e.status, STATUS_BAD_GATEWAY);
            assert_eq!(e.message, "OpenAI API error");
        }
    }
}

#[test]
fn upstream_server_error_is_a_gateway_error() {
    let r = handle_upstream(UpstreamEvent::Response(500, "not even json".to_string()));
    match r {
        Ok(_) => panic!("expected a gateway error"),
        Err(e) => {
            assert_eq!(e.status, STATUS_BAD_GATEWAY);
            assert_eq!(e.message, "OpenAI API error");
        }
    }
}

#[test]
fn missing_content_degrades_to_fallback() {
    let body = "{\"choices\":[{\"message\":{}}]}".to_string();
    let r = handle_upstream(UpstreamEvent::Response(200, body));
    match r {
        Ok(ChatResponse { message }) => {
            assert_eq!(message, "Sorry, I couldn't process that request.")
        }
        Err(_) => panic!("expected a degraded success"),
    }
}

#[test]
fn empty_choices_degrades_to_fallback() {
    let r = handle_upstream(UpstreamEvent::Response(200, "{\"choices\":[]}".to_string()));
    match r {
        Ok(ChatResponse { message }) => {
            assert_eq!(message, "Sorry, I couldn't process that request.")
        }
        Err(_) => panic!("expected a degraded success"),
    }
}

#[test]
fn non_string_content_degrades_to_fallback() {
    let body = "{\"choices\":[{\"message\":{\"content\":7}}]}".to_string();
    let r = handle_upstream(UpstreamEvent::Response(200, body));
    match r {
        Ok(ChatResponse { message }) => {
            assert_eq!(message, "Sorry, I couldn't process that request.")
        }
        Err(_) => panic!("expected a degraded success"),
    }
}

#[test]
fn unparseable_success_body_is_an_internal_error() {
    let r = handle_upstream(UpstreamEvent::Response(200, "not json".to_string()));
    match r {
        Ok(_) => panic!("expected an internal error"),
        Err(e) => assert_eq!(e.status, STATUS_INTERNAL_ERROR),
    }
}

#[test]
fn transport_failure_is_an_internal_error() {
    let r = handle_upstream(UpstreamEvent::TransportFailure("connection refused".to_string()));
    match r {
        Ok(_) => panic!("expected an internal error"),
        Err(e) => {
            assert_eq!(e.status, STATUS_INTERNAL_ERROR);
            assert_eq!(e.message, "connection refused");
        }
    }
}

#[test]
fn inbound_body_with_message_parses() {
    let r = parse_chat_request("{\"message\":\"hello\"}");
    match r {
        Some(request) => assert_eq!(request.message, "hello"),
        None => panic!("expected a parsed request"),
    }
}

#[test]
fn inbound_body_with_extra_members_parses() {
    let r = parse_chat_request("{\"message\":\"hello\",\"id\":3}");
    match r {
        Some(request) => assert_eq!(request.message, "hello"),
        None => panic!("expected a parsed request"),
    }
}

#[test]
fn inbound_body_without_message_is_rejected() {
    assert!(parse_chat_request("{\"msg\":\"hello\"}").is_none());
}

#[test]
fn inbound_body_with_non_string_message_is_rejected() {
    assert!(parse_chat_request("{\"message\":5}").is_none());
}

#[test]
fn inbound_non_object_body_is_rejected() {
    assert!(parse_chat_request("[\"hello\"]").is_none());
}

#[test]
fn inbound_malformed_body_is_rejected() {
    assert!(parse_chat_request("{\"message\":").is_none());
}
