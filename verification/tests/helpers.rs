use shodan_client::error::{ClientError, ErrorKind};
use shodan_client::helpers::{handle_error_shodan, Channel, KeyAction, KeyEvent, KeyLoad, Report};
use shodan_client::response::{classify, conclude, Exchange, Fault, Response};

fn answer(status: u16, reason: &str, body: &str) -> Response {
    Response { status, reason: String::from(reason), headers: Vec::new(), body: String::from(body) }
}

#[test]
fn a_load_starts_by_probing() {
    let load = KeyLoad::start();
    assert_eq!(load, KeyLoad::Probing);
    assert_eq!(load.action(), KeyAction::Probe);
    assert_eq!(load.outcome(), None);
}

#[test]
fn a_missing_file_is_not_found_and_nothing_is_read() {
    let load = KeyLoad::start().advance(KeyEvent::Probed(false));
    assert_eq!(load, KeyLoad::Failed(ClientError::NotFound));
    assert_eq!(load.action(), KeyAction::Stop);
    let later = load.clone().advance(KeyEvent::Read(Some(String::from("KEY"))));
    assert_eq!(later, KeyLoad::Failed(ClientError::NotFound));
    let later = later.advance(KeyEvent::Probed(true));
    assert_eq!(later, KeyLoad::Failed(ClientError::NotFound));
    assert_eq!(later.action(), KeyAction::Stop);
    assert_eq!(later.outcome(), Some(Err(ClientError::NotFound)));
}

#[test]
fn a_file_that_exists_is_read_next() {
    let load = KeyLoad::start().advance(KeyEvent::Probed(true));
    assert_eq!(load, KeyLoad::Reading);
    assert_eq!(load.action(), KeyAction::Read);
    assert_eq!(load.outcome(), None);
}

#[test]
fn the_key_is_the_content_as_it_is() {
    let load = KeyLoad::start().advance(KeyEvent::Probed(true)).advance(KeyEvent::Read(Some(String::from(" KEY \n"))));
    assert_eq!(load.action(), KeyAction::Stop);
    assert_eq!(load.outcome(), Some(Ok(String::from(" KEY \n"))));
}

#[test]
fn an_empty_file_is_an_empty_key() {
    let load = KeyLoad::start().advance(KeyEvent::Probed(true)).advance(KeyEvent::Read(Some(String::new())));
    assert_eq!(load.outcome(), Some(Ok(String::new())));
}

#[test]
fn a_file_that_cannot_be_read_is_a_read_error() {
    let load = KeyLoad::start().advance(KeyEvent::Probed(true)).advance(KeyEvent::Read(None));
    assert_eq!(load, KeyLoad::Failed(ClientError::ReadError));
    assert_eq!(load.action(), KeyAction::Stop);
    assert_eq!(load.outcome(), Some(Err(ClientError::ReadError)));
}

#[test]
fn an_event_that_was_not_asked_for_changes_nothing() {
    let load = KeyLoad::start().advance(KeyEvent::Read(Some(String::from("KEY"))));
    assert_eq!(load, KeyLoad::Probing);
    let load = load.advance(KeyEvent::Read(None));
    assert_eq!(load, KeyLoad::Probing);
    let load = load.advance(KeyEvent::Probed(true)).advance(KeyEvent::Probed(false));
    assert_eq!(load, KeyLoad::Reading);
}

#[test]
fn a_loaded_key_stays_loaded() {
    let load = KeyLoad::Loaded(String::from("KEY"));
    let load = load.advance(KeyEvent::Probed(false)).advance(KeyEvent::Read(None));
    assert_eq!(load, KeyLoad::Loaded(String::from("KEY")));
}

#[test]
fn report_of_an_answer() {
    let report = handle_error_shodan(&Ok(answer(200, "OK", "{\"ip\": \"8.8.8.8\"}")));
    assert_eq!(
        report,
        Report { channel: Channel::Output, text: String::from("Status: 200 OK\nBody:\n{\"ip\": \"8.8.8.8\"}") }
    );
}

#[test]
fn report_of_an_answer_that_is_no_success() {
    let report = handle_error_shodan(&Ok(answer(401, "Unauthorized", "")));
    assert_eq!(report.channel, Channel::Output);
    assert_eq!(report.text, "Status: 401 Unauthorized\nBody:\n");
}

#[test]
fn report_writes_the_status_in_decimal() {
    for (status, text) in [(0u16, "0"), (7, "7"), (10, "10"), (99, "99"), (100, "100"), (404, "404"), (1000, "1000"), (65535, "65535")] {
        let report = handle_error_shodan(&Ok(answer(status, "x", "y")));
        assert_eq!(report.text, format!("Status: {} x\nBody:\ny", text));
    }
}

#[test]
fn report_of_each_error() {
    let cases = [
        (ClientError::NotFound, "Error: configuration error: credential file not found"),
        (ClientError::ReadError, "Error: configuration error: credential file unreadable"),
        (ClientError::Encoding, "Error: configuration error: input cannot be encoded"),
        (ClientError::Connect, "Error: transport error: connection failed"),
        (ClientError::Timeout, "Error: transport error: timed out"),
        (ClientError::Protocol, "Error: transport error: exchange broke off"),
    ];
    for (error, text) in cases {
        let report = handle_error_shodan(&Err(error));
        assert_eq!(report, Report { channel: Channel::Error, text: String::from(text) });
        assert_eq!(format!("Error: {}", error.describe()), text);
    }
}

#[test]
fn kinds_of_errors() {
    assert_eq!(ClientError::NotFound.kind(), ErrorKind::Configuration);
    assert_eq!(ClientError::ReadError.kind(), ErrorKind::Configuration);
    assert_eq!(ClientError::Encoding.kind(), ErrorKind::Configuration);
    assert_eq!(ClientError::Connect.kind(), ErrorKind::Transport);
    assert_eq!(ClientError::Timeout.kind(), ErrorKind::Transport);
    assert_eq!(ClientError::Protocol.kind(), ErrorKind::Transport);
}

#[test]
fn an_answer_is_a_success_whatever_its_status() {
    for status in [200u16, 204, 301, 401, 404, 500] {
        let response = answer(status, "r", "body");
        assert_eq!(conclude(Exchange::Answered(response.clone())), Ok(response));
    }
}

fn fault(unbuilt: bool, timed_out: bool, unconnected: bool) -> Fault {
    Fault { unbuilt, timed_out, unconnected }
}

#[test]
fn a_failed_exchange_is_a_transport_error() {
    let cases = [
        (fault(false, false, true), ClientError::Connect),
        (fault(false, true, false), ClientError::Timeout),
        (fault(false, false, false), ClientError::Protocol),
    ];
    for (fault, error) in cases {
        let result: Result<Response, ClientError> = conclude(Exchange::Failed(fault));
        assert_eq!(result, Err(error));
        assert_eq!(error.kind(), ErrorKind::Transport);
    }
}

#[test]
fn a_connection_that_timed_out_is_a_timeout() {
    assert_eq!(classify(fault(false, true, true)), ClientError::Timeout);
}

#[test]
fn a_request_that_cannot_be_built_is_a_configuration_error() {
    for (timed_out, unconnected) in [(false, false), (false, true), (true, false), (true, true)] {
        let result: Result<Response, ClientError> =
            conclude(Exchange::Failed(fault(true, timed_out, unconnected)));
        assert_eq!(result, Err(ClientError::Encoding));
    }
    assert_eq!(ClientError::Encoding.kind(), ErrorKind::Configuration);
}

#[test]
fn conclude_hands_over_any_payload() {
    assert_eq!(conclude(Exchange::Answered(7u8)), Ok(7u8));
    assert_eq!(conclude(Exchange::Answered(String::from("stream"))), Ok(String::from("stream")));
}
