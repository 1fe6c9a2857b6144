use hap_core::accessories::{Accessories, Accessory, AccessoryDatabase};
use hap_core::event::EventEmitter;
use hap_core::handler::{
    map_json_outcome, Context, HandlerError, HandlerExt, JsonHandler, TlvHandler,
};
use hap_core::handshake::HandshakeSequencer;
use hap_core::http::{ContentType, HttpResponse};
use hap_core::tlv::{
    tlv_decode, Encodable, ErrorContainer, ERROR_AUTHENTICATION, ERROR_UNKNOWN, TAG_ERROR,
    TAG_STATE,
};

fn context_with(aids: &[u64]) -> Context {
    Context {
        controller_id: None,
        accessory_database: AccessoryDatabase {
            accessories: aids.iter().map(|aid| Accessory { aid: *aid }).collect(),
        },
        event_emitter: EventEmitter::new(),
    }
}

fn ok(r: Result<HttpResponse, HandlerError>) -> HttpResponse {
    match r {
        Ok(resp) => resp,
        Err(_) => panic!("handler refused the transport"),
    }
}

#[test]
fn accessory_listing_serializes_database() {
    let mut ctx = context_with(&[1]);
    let mut handler: JsonHandler<Accessories> = JsonHandler::from(Accessories::new());
    let resp = ok(handler.handle("/accessories", Vec::new(), &mut ctx));
    assert_eq!(resp.status, 200);
    assert!(matches!(resp.content_type, ContentType::Json));
    let body = String::from_utf8(resp.body).unwrap();
    // well-formed JSON with the accessory entry in it
    let parsed: serde_json::Value = serde_json::from_str(&body).unwrap();
    assert_eq!(parsed["accessories"][0]["aid"], serde_json::Value::from(1u64));
    assert!(body.contains("\"aid\":1"));
    assert_eq!(body, "{\"accessories\":[{\"aid\":1}]}");
}

#[test]
fn accessory_listing_formats_every_identifier() {
    let mut ctx = context_with(&[0, 42, u64::MAX]);
    let mut handler: JsonHandler<Accessories> = JsonHandler::from(Accessories::new());
    let resp = ok(handler.handle("/accessories", Vec::new(), &mut ctx));
    let body = String::from_utf8(resp.body).unwrap();
    assert_eq!(
        body,
        "{\"accessories\":[{\"aid\":0},{\"aid\":42},{\"aid\":18446744073709551615}]}"
    );
}

#[test]
fn accessory_listing_of_empty_database() {
    let mut ctx = context_with(&[]);
    let mut handler: JsonHandler<Accessories> = JsonHandler::from(Accessories::new());
    let resp = ok(handler.handle("/accessories", Vec::new(), &mut ctx));
    assert_eq!(resp.status, 200);
    assert_eq!(String::from_utf8(resp.body).unwrap(), "{\"accessories\":[]}");
}

#[test]
fn truncated_tlv_body_answers_200_with_error_container() {
    let mut ctx = context_with(&[]);
    let mut handler: TlvHandler<HandshakeSequencer> = TlvHandler::from(HandshakeSequencer::new());
    // the header declares five value bytes but only one follows
    let body = vec![TAG_STATE, 5, 1];
    let resp = ok(handler.handle("/pair-setup", body, &mut ctx));
    assert_eq!(resp.status, 200);
    assert!(matches!(resp.content_type, ContentType::Tlv));
    let items = tlv_decode(&resp.body).expect("response body is well-formed TLV");
    assert_eq!(items.len(), 2);
    assert_eq!(items[0].tag, TAG_STATE);
    assert_eq!(items[0].value, vec![0]);
    assert_eq!(items[1].tag, TAG_ERROR);
    assert_eq!(items[1].value, vec![ERROR_UNKNOWN]);
}

#[test]
fn missing_state_item_is_a_parse_error() {
    let mut ctx = context_with(&[]);
    let mut handler: TlvHandler<HandshakeSequencer> = TlvHandler::from(HandshakeSequencer::new());
    let body = vec![9, 2, 170, 187];
    let resp = ok(handler.handle("/pair-setup", body, &mut ctx));
    assert_eq!(resp.status, 200);
    let items = tlv_decode(&resp.body).unwrap();
    assert_eq!(items[1].tag, TAG_ERROR);
    assert_eq!(items[1].value, vec![ERROR_UNKNOWN]);
}

#[test]
fn handshake_steps_in_sequence_are_answered_in_sequence() {
    let mut ctx = context_with(&[]);
    let mut handler: TlvHandler<HandshakeSequencer> = TlvHandler::from(HandshakeSequencer::new());
    for step in [1u8, 3, 5] {
        let resp = ok(handler.handle("/pair-setup", vec![TAG_STATE, 1, step], &mut ctx));
        assert_eq!(resp.status, 200);
        assert_eq!(resp.body, vec![TAG_STATE, 1, step + 1]);
    }
    // replaying a finished step is refused inside the payload, still 200
    let resp = ok(handler.handle("/pair-setup", vec![TAG_STATE, 1, 1], &mut ctx));
    assert_eq!(resp.status, 200);
    let items = tlv_decode(&resp.body).unwrap();
    assert_eq!(items[0].tag, TAG_STATE);
    assert_eq!(items[0].value, vec![1]);
    assert_eq!(items[1].tag, TAG_ERROR);
    assert_eq!(items[1].value, vec![ERROR_AUTHENTICATION]);
}

#[test]
fn out_of_order_step_is_refused_without_advancing() {
    let mut ctx = context_with(&[]);
    let mut handler: TlvHandler<HandshakeSequencer> = TlvHandler::from(HandshakeSequencer::new());
    let resp = ok(handler.handle("/pair-setup", vec![TAG_STATE, 1, 3], &mut ctx));
    assert_eq!(resp.status, 200);
    let items = tlv_decode(&resp.body).unwrap();
    assert_eq!(items[1].tag, TAG_ERROR);
    assert_eq!(items[1].value, vec![ERROR_AUTHENTICATION]);
    // the expected first step still goes through afterwards
    let resp = ok(handler.handle("/pair-setup", vec![TAG_STATE, 1, 1], &mut ctx));
    assert_eq!(resp.body, vec![TAG_STATE, 1, 2]);
}

#[test]
fn json_error_with_declared_status_maps_to_exactly_that_status() {
    let resp = map_json_outcome(Err(HandlerError::HttpStatus(404)));
    assert_eq!(resp.status, 404);
    assert!(matches!(resp.content_type, ContentType::Empty));
    assert!(resp.body.is_empty());
}

#[test]
fn unclassified_json_error_maps_to_500_without_detail() {
    let resp = map_json_outcome(Err(HandlerError::Internal(String::from("secret detail"))));
    assert_eq!(resp.status, 500);
    assert!(resp.body.is_empty());
}

#[test]
fn successful_json_outcome_passes_through() {
    let resp = map_json_outcome(Ok(hap_core::http::json_response(vec![123, 125], 200)));
    assert_eq!(resp.status, 200);
    assert_eq!(resp.body, vec![123, 125]);
}

#[test]
fn tlv_decode_splits_items_and_rejects_truncation() {
    assert_eq!(tlv_decode(&Vec::new()).unwrap().len(), 0);
    assert!(tlv_decode(&vec![6]).is_none());
    assert!(tlv_decode(&vec![6, 1]).is_none());
    let items = tlv_decode(&vec![6, 0, 7, 2, 3, 4]).unwrap();
    assert_eq!(items.len(), 2);
    assert_eq!(items[0].tag, 6);
    assert_eq!(items[0].value, Vec::<u8>::new());
    assert_eq!(items[1].tag, 7);
    assert_eq!(items[1].value, vec![3, 4]);
}

#[test]
fn error_container_encodes_state_then_code() {
    let encoded = ErrorContainer::new(2, ERROR_UNKNOWN).encode();
    assert_eq!(encoded, vec![TAG_STATE, 1, 2, TAG_ERROR, 1, ERROR_UNKNOWN]);
}
