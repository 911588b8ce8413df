use geoify::nlp::endpoint::{identify, NlpIdentifyRequest};
use geoify::slack::connection_open;
use geoify::slack::protocol::WSConnectResponse;

#[test]
fn connection_open_gives_url() {
    let response = WSConnectResponse { ok: true, url: "wss://wss-primary.slack.com/link/?ticket=1".into(), error: None };
    assert_eq!(connection_open(response).unwrap(), "wss://wss-primary.slack.com/link/?ticket=1");
}

#[test]
fn connection_open_refused_with_reason() {
    let response = WSConnectResponse { ok: false, url: String::new(), error: Some("not_authed".into()) };
    let err = connection_open(response).unwrap_err();
    assert_eq!(err.error, "not_authed");
    assert_eq!(err.message(), "Failed to get websocket url: not_authed");
}

#[test]
fn connection_open_refused_without_reason() {
    let response = WSConnectResponse { ok: false, url: "ignored".into(), error: None };
    let err = connection_open(response).unwrap_err();
    assert_eq!(err.error, "");
    assert_eq!(err.message(), "Failed to get websocket url: ");
}

#[test]
fn identify_answers_tokyo() {
    let response = identify(&NlpIdentifyRequest { message: "What time is it in Paris?".into() });
    assert_eq!(response.city, "tokyo");
    assert!(response.time);
    assert!(response.weather);
}
