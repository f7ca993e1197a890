use event_relay::dispatch::{
    plan_emissions, dispatch, Payload, SendEventRequest, ValidationError, MAX_CHANNELS,
};
use event_relay::transport::Transport;
use serde_json::Value;

fn chans(names: &[&str]) -> Vec<String> {
    names.iter().map(|s| s.to_string()).collect()
}

#[test]
fn single_channel_object_payload() {
    let v: Value = serde_json::from_str("{\"k\":1}").unwrap();
    let req = SendEventRequest {
        channel: Some("x".to_string()),
        channels: None,
        payload: Payload::Scalar(v.clone()),
    };
    let plan = plan_emissions(&req).unwrap();
    assert_eq!(plan.len(), 1);
    assert_eq!(plan[0].channel, "x");
    assert_eq!(plan[0].payload, v);
}

#[test]
fn single_channel_array_payload_sent_whole() {
    let whole: Value = serde_json::from_str("[1,2,3]").unwrap();
    let elems = match &whole {
        Value::Array(items) => items.clone(),
        _ => unreachable!(),
    };
    let req = SendEventRequest {
        channel: Some("x".to_string()),
        channels: None,
        payload: Payload::Array { whole: whole.clone(), elems },
    };
    let plan = plan_emissions(&req).unwrap();
    assert_eq!(plan.len(), 1);
    assert_eq!(plan[0].channel, "x");
    assert_eq!(plan[0].payload, whole);
}

#[test]
fn multi_channel_array_payload_truncates() {
    let whole: Value = serde_json::from_str("[1,2]").unwrap();
    let elems = match &whole {
        Value::Array(items) => items.clone(),
        _ => unreachable!(),
    };
    let req = SendEventRequest {
        channel: None,
        channels: Some(chans(&["a", "b", "c"])),
        payload: Payload::Array { whole, elems },
    };
    let plan = plan_emissions(&req).unwrap();
    assert_eq!(plan.len(), 2);
    assert_eq!(plan[0].channel, "a");
    assert_eq!(plan[0].payload, Value::from(1));
    assert_eq!(plan[1].channel, "b");
    assert_eq!(plan[1].payload, Value::from(2));
    assert!(plan.iter().all(|e| e.channel != "c"));
}

#[test]
fn multi_channel_array_payload_drops_extra_items() {
    let whole: Value = serde_json::from_str("[1,2,3,4]").unwrap();
    let elems = match &whole {
        Value::Array(items) => items.clone(),
        _ => unreachable!(),
    };
    let req = SendEventRequest {
        channel: None,
        channels: Some(chans(&["a", "b"])),
        payload: Payload::Array { whole, elems },
    };
    let plan = plan_emissions(&req).unwrap();
    assert_eq!(plan.len(), 2);
    assert_eq!(plan[0].payload, Value::from(1));
    assert_eq!(plan[1].payload, Value::from(2));
}

#[test]
fn multi_channel_scalar_payload_broadcasts() {
    let v = Value::from("hi");
    let req = SendEventRequest {
        channel: None,
        channels: Some(chans(&["a", "b"])),
        payload: Payload::Scalar(v.clone()),
    };
    let plan = plan_emissions(&req).unwrap();
    assert_eq!(plan.len(), 2);
    assert_eq!(plan[0].channel, "a");
    assert_eq!(plan[0].payload, v);
    assert_eq!(plan[1].channel, "b");
    assert_eq!(plan[1].payload, v);
}

#[test]
fn at_most_hundred_channels_accepted() {
    let names: Vec<String> = (0..MAX_CHANNELS).map(|i| format!("c{}", i)).collect();
    let req = SendEventRequest {
        channel: None,
        channels: Some(names),
        payload: Payload::Scalar(Value::from(0)),
    };
    let plan = plan_emissions(&req).unwrap();
    assert_eq!(plan.len(), MAX_CHANNELS);
}

#[test]
fn too_many_channels_rejected() {
    let names: Vec<String> = (0..MAX_CHANNELS + 1).map(|i| format!("c{}", i)).collect();
    let req = SendEventRequest {
        channel: None,
        channels: Some(names),
        payload: Payload::Scalar(Value::from(0)),
    };
    assert!(matches!(plan_emissions(&req), Err(ValidationError::TooManyChannels)));
}

#[test]
fn both_channel_forms_rejected() {
    let req = SendEventRequest {
        channel: Some("x".to_string()),
        channels: Some(chans(&["a"])),
        payload: Payload::Scalar(Value::Null),
    };
    assert!(matches!(plan_emissions(&req), Err(ValidationError::ChannelForm)));
}

#[test]
fn neither_channel_form_rejected() {
    let req = SendEventRequest { channel: None, channels: None, payload: Payload::Scalar(Value::Null) };
    assert!(matches!(plan_emissions(&req), Err(ValidationError::ChannelForm)));
}

#[test]
fn dispatch_counts_emissions_without_listeners() {
    let (_svc, io) = socketioxide::SocketIo::new_svc();
    let transport = Transport { io };
    let req = SendEventRequest {
        channel: None,
        channels: Some(chans(&["a", "b"])),
        payload: Payload::Scalar(Value::from("hi")),
    };
    assert_eq!(dispatch(&transport, &req), Ok(2));
}

#[test]
fn dispatch_rejects_before_emitting() {
    let (_svc, io) = socketioxide::SocketIo::new_svc();
    let transport = Transport { io };
    let req = SendEventRequest { channel: None, channels: None, payload: Payload::Scalar(Value::Null) };
    assert_eq!(dispatch(&transport, &req), Err(ValidationError::ChannelForm));
}
