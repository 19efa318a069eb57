use xplane_web_api::websocket::{
    handle_incoming_frame, All, AllOrList, ClientMessage, CommandSelection, CommandSetActive,
    CommandSetActiveParams, CommandSubscribeParams, CommandUnsubscribeParams, DatarefIndex,
    DatarefSelection, DatarefSetValuesParams, DatarefSubscribeParams, DatarefUnsubscribeParams,
    DatarefValueSet, FrameOutcome, IncomingFrame, WebSocketApiClient, WebSocketApiError,
    DEFAULT_WS_API_URL,
};

fn selection(id: u64) -> DatarefSelection {
    DatarefSelection { id, index: None }
}

#[test]
fn default_ws_url_points_at_local_api_v3() {
    assert_eq!(DEFAULT_WS_API_URL, "ws://localhost:8086/api/v3");
}

#[test]
fn first_request_id_is_one() {
    let mut client = WebSocketApiClient::new(());
    let message = client.prepare_dataref_subscribe_values(vec![selection(7)]);
    assert_eq!(message.req_id(), 1);
    assert_eq!(
        message,
        ClientMessage::DatarefSubscribeValues {
            req_id: 1,
            params: DatarefSubscribeParams { datarefs: vec![selection(7)] },
        }
    );
}

#[test]
fn request_ids_count_up_across_helpers() {
    let mut client = WebSocketApiClient::new(());
    let ids: Vec<u64> = vec![
        client.prepare_dataref_subscribe_values(vec![]).req_id(),
        client
            .prepare_dataref_unsubscribe_values(AllOrList::All(All::All))
            .req_id(),
        client.prepare_dataref_set_values(vec![]).req_id(),
        client.prepare_command_subscribe_is_active(vec![]).req_id(),
        client
            .prepare_command_unsubscribe_is_active(AllOrList::List(vec![]))
            .req_id(),
        client.prepare_command_set_is_active(vec![]).req_id(),
    ];
    assert_eq!(ids, vec![1, 2, 3, 4, 5, 6]);
}

#[test]
fn set_next_req_id_is_used_by_the_next_helper() {
    let mut client = WebSocketApiClient::new(());
    client.set_next_req_id(41);
    assert_eq!(client.prepare_command_subscribe_is_active(vec![]).req_id(), 41);
    assert_eq!(client.prepare_command_subscribe_is_active(vec![]).req_id(), 42);
}

#[test]
fn request_ids_saturate_at_max() {
    let mut client = WebSocketApiClient::new(());
    client.set_next_req_id(u64::MAX - 1);
    assert_eq!(client.prepare_dataref_set_values(vec![]).req_id(), u64::MAX - 1);
    assert_eq!(client.prepare_dataref_set_values(vec![]).req_id(), u64::MAX);
    assert_eq!(client.prepare_dataref_set_values(vec![]).req_id(), u64::MAX);
}

#[test]
fn helpers_build_the_matching_request() {
    let mut client = WebSocketApiClient::new(());
    let unsubscribe = client.prepare_dataref_unsubscribe_values(AllOrList::List(vec![
        DatarefSelection { id: 3, index: Some(DatarefIndex::Multiple(vec![0, 2])) },
    ]));
    assert_eq!(
        unsubscribe,
        ClientMessage::DatarefUnsubscribeValues {
            req_id: 1,
            params: DatarefUnsubscribeParams {
                datarefs: AllOrList::List(vec![DatarefSelection {
                    id: 3,
                    index: Some(DatarefIndex::Multiple(vec![0, 2])),
                }]),
            },
        }
    );
    let set = client.prepare_dataref_set_values(vec![DatarefValueSet {
        id: 9,
        value: serde_json::Value::from(1.5),
        index: Some(4),
    }]);
    assert_eq!(
        set,
        ClientMessage::DatarefSetValues {
            req_id: 2,
            params: DatarefSetValuesParams {
                datarefs: vec![DatarefValueSet {
                    id: 9,
                    value: serde_json::Value::from(1.5),
                    index: Some(4),
                }],
            },
        }
    );
    let subscribe = client.prepare_command_subscribe_is_active(vec![CommandSelection { id: 5 }]);
    assert_eq!(
        subscribe,
        ClientMessage::CommandSubscribeIsActive {
            req_id: 3,
            params: CommandSubscribeParams { commands: vec![CommandSelection { id: 5 }] },
        }
    );
    let unsubscribe_all = client.prepare_command_unsubscribe_is_active(AllOrList::All(All::All));
    assert_eq!(
        unsubscribe_all,
        ClientMessage::CommandUnsubscribeIsActive {
            req_id: 4,
            params: CommandUnsubscribeParams { commands: AllOrList::All(All::All) },
        }
    );
    let activate = client.prepare_command_set_is_active(vec![CommandSetActive {
        id: 5,
        is_active: true,
        duration_bits: Some(2.5f64.to_bits()),
    }]);
    assert_eq!(
        activate,
        ClientMessage::CommandSetIsActive {
            req_id: 5,
            params: CommandSetActiveParams {
                commands: vec![CommandSetActive {
                    id: 5,
                    is_active: true,
                    duration_bits: Some(2.5f64.to_bits()),
                }],
            },
        }
    );
}

#[test]
fn client_keeps_its_stream() {
    let mut client = WebSocketApiClient::new(vec![1u8]);
    client.stream_mut().push(2);
    let _ = client.prepare_dataref_subscribe_values(vec![]);
    assert_eq!(client.into_stream(), vec![1u8, 2]);
}

#[test]
fn dataref_value_set_clone_keeps_the_value() {
    let first = DatarefValueSet { id: 1, value: serde_json::Value::from(vec![1, 2, 3]), index: None };
    let copy = first.clone();
    assert_eq!(copy, first);
}

#[test]
fn text_frame_is_a_payload() {
    match handle_incoming_frame(IncomingFrame::Text("{\"type\":\"result\"}".to_string())) {
        FrameOutcome::Payload(text) => assert_eq!(text, "{\"type\":\"result\"}"),
        _ => panic!("text frame should be a payload"),
    }
}

#[test]
fn binary_utf8_frame_is_a_decoded_payload() {
    let bytes = "héllo".as_bytes().to_vec();
    match handle_incoming_frame(IncomingFrame::Binary(bytes)) {
        FrameOutcome::Payload(text) => assert_eq!(text, "héllo"),
        _ => panic!("UTF-8 binary frame should be a payload"),
    }
}

#[test]
fn binary_invalid_utf8_frame_fails() {
    match handle_incoming_frame(IncomingFrame::Binary(vec![0x7b, 0xff, 0xfe])) {
        FrameOutcome::Failed(WebSocketApiError::BinaryUtf8 { source }) => {
            assert_eq!(source.valid_up_to(), 1);
            assert_eq!(source, std::str::from_utf8(&[0x7b, 0xff, 0xfe]).unwrap_err());
        }
        _ => panic!("invalid UTF-8 should fail"),
    }
}

#[test]
fn control_and_raw_frames_are_skipped() {
    for frame in [IncomingFrame::Ping, IncomingFrame::Pong, IncomingFrame::Frame] {
        assert!(matches!(handle_incoming_frame(frame), FrameOutcome::Skip));
    }
}

#[test]
fn close_and_stream_end_close_the_exchange() {
    assert!(matches!(handle_incoming_frame(IncomingFrame::Close), FrameOutcome::Closed));
    assert!(matches!(handle_incoming_frame(IncomingFrame::StreamEnded), FrameOutcome::Closed));
}

#[test]
fn transport_failure_is_reported() {
    let error = tokio_tungstenite::tungstenite::Error::AlreadyClosed;
    match handle_incoming_frame(IncomingFrame::TransportFailed(error)) {
        FrameOutcome::Failed(WebSocketApiError::Transport { source }) => assert!(matches!(
            source,
            tokio_tungstenite::tungstenite::Error::AlreadyClosed
        )),
        _ => panic!("transport failure should be reported"),
    }
    let io = std::io::Error::new(std::io::ErrorKind::ConnectionReset, "reset");
    let error = tokio_tungstenite::tungstenite::Error::Io(io);
    assert!(matches!(
        handle_incoming_frame(IncomingFrame::TransportFailed(error)),
        FrameOutcome::Failed(WebSocketApiError::Transport { .. })
    ));
}

#[test]
fn remote_close_ends_the_exchange() {
    let closed = tokio_tungstenite::tungstenite::Error::ConnectionClosed;
    assert!(matches!(
        handle_incoming_frame(IncomingFrame::TransportFailed(closed)),
        FrameOutcome::Closed
    ));
    let reset = tokio_tungstenite::tungstenite::Error::Protocol(
        tokio_tungstenite::tungstenite::error::ProtocolError::ResetWithoutClosingHandshake,
    );
    assert!(matches!(
        handle_incoming_frame(IncomingFrame::TransportFailed(reset)),
        FrameOutcome::Closed
    ));
}

#[test]
fn messages_of_websocket_errors() {
    let closed = tokio_tungstenite::tungstenite::Error::ConnectionClosed;
    assert_eq!(
        WebSocketApiError::Transport { source: closed }.message(),
        "Failed to send or receive websocket message: Connection closed normally"
    );
    let source = serde_json::from_str::<u64>("x").unwrap_err();
    let expected = format!("Failed to deserialize websocket payload `x`: {source}");
    assert_eq!(
        WebSocketApiError::Deserialize { payload: "x".to_string(), source }.message(),
        expected
    );
    let source = std::str::from_utf8(&[0xffu8]).unwrap_err();
    let expected = format!("Failed to parse UTF-8 websocket binary payload: {source}");
    assert_eq!(WebSocketApiError::BinaryUtf8 { source }.message(), expected);
}

#[test]
fn skipped_frames_before_a_text_frame_change_nothing() {
    let frames = vec![
        IncomingFrame::Ping,
        IncomingFrame::Pong,
        IncomingFrame::Frame,
        IncomingFrame::Text("{}".to_string()),
        IncomingFrame::Close,
    ];
    let mut taken = 0;
    let mut decided = None;
    for frame in frames {
        taken += 1;
        match handle_incoming_frame(frame) {
            FrameOutcome::Skip => continue,
            outcome => {
                decided = Some(outcome);
                break;
            }
        }
    }
    assert_eq!(taken, 4);
    assert!(matches!(decided, Some(FrameOutcome::Payload(text)) if text == "{}"));
}
