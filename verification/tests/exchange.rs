use openweather::display::lines;
use openweather::error::{ClientError, ErrorKind};
use openweather::exchange::{begin, step, Action, Event, Stage};
use openweather::report::Report;

fn tokyo() -> Report {
    Report {
        name: String::from("Tokyo"),
        timezone: 32400,
        dt: 1_700_000_000,
        temp: String::from("15.2"),
        temp_max: String::from("17"),
        temp_min: String::from("13.1"),
        humidity: 60,
    }
}

fn failure(kind: ErrorKind, message: &str) -> Action {
    Action::Fail(ClientError { kind, message: String::from(message) })
}

#[test]
fn begins_with_the_request() {
    assert_eq!(
        begin("Tokyo", "k"),
        (
            Stage::AwaitingStatus,
            Action::Get(String::from(
                "https://api.openweathermap.org/data/2.5/weather?q=Tokyo&appid=k&units=metric&lang=ja"
            ))
        )
    );
}

#[test]
fn ok_response_with_a_report_delivers_it() {
    let (stage, action) = step(Stage::AwaitingStatus, Event::Status(200));
    assert_eq!((stage, action), (Stage::AwaitingReport, Action::DecodeReport));
    assert_eq!(step(stage, Event::Report(tokyo())), (Stage::Closed, Action::Deliver(tokyo())));
}

#[test]
fn delivered_report_keeps_every_field() {
    let report = Report {
        name: String::from("São Paulo"),
        timezone: -10800,
        dt: -1,
        temp: String::from("-0.5"),
        temp_max: String::from("1000000"),
        temp_min: String::from("-273.15"),
        humidity: u32::MAX,
    };
    match step(Stage::AwaitingReport, Event::Report(report.clone())).1 {
        Action::Deliver(delivered) => {
            assert_eq!(delivered.name, "São Paulo");
            assert_eq!(delivered.timezone, -10800);
            assert_eq!(delivered.dt, -1);
            assert_eq!(delivered.temp, "-0.5");
            assert_eq!(delivered.temp_max, "1000000");
            assert_eq!(delivered.temp_min, "-273.15");
            assert_eq!(delivered.humidity, u32::MAX);
        }
        other => panic!("expected a report, got {:?}", other),
    }
}

#[test]
fn other_status_fails_with_the_body() {
    let body = "{\"cod\":\"404\",\"message\":\"city not found\"}";
    let (stage, action) = step(Stage::AwaitingStatus, Event::Status(404));
    assert_eq!((stage, action), (Stage::AwaitingMessage, Action::ReadMessage));
    assert_eq!(
        step(stage, Event::Message(String::from(body))),
        (Stage::Closed, failure(ErrorKind::Api, body))
    );
}

#[test]
fn only_status_200_calls_for_a_report() {
    for status in [0u16, 100, 199, 201, 204, 301, 400, 401, 404, 429, 500, 503, u16::MAX] {
        assert_eq!(
            step(Stage::AwaitingStatus, Event::Status(status)),
            (Stage::AwaitingMessage, Action::ReadMessage)
        );
    }
    assert_eq!(
        step(Stage::AwaitingStatus, Event::Status(200)),
        (Stage::AwaitingReport, Action::DecodeReport)
    );
}

#[test]
fn empty_body_of_a_failed_response_is_an_empty_message() {
    assert_eq!(
        step(Stage::AwaitingMessage, Event::Message(String::new())),
        (Stage::Closed, failure(ErrorKind::Api, ""))
    );
}

#[test]
fn ok_response_without_a_report_is_a_decode_failure() {
    let reason = "missing field `main` at line 1 column 2";
    let (stage, _) = step(Stage::AwaitingStatus, Event::Status(200));
    assert_eq!(
        step(stage, Event::Malformed(String::from(reason))),
        (Stage::Closed, failure(ErrorKind::Decode, reason))
    );
}

#[test]
fn transport_failure_ends_the_exchange_at_any_stage() {
    for stage in [Stage::AwaitingStatus, Stage::AwaitingReport, Stage::AwaitingMessage] {
        assert_eq!(
            step(stage, Event::Failed(String::from("connection refused"))),
            (Stage::Closed, failure(ErrorKind::Transport, "connection refused"))
        );
    }
}

#[test]
fn closed_exchange_asks_for_nothing() {
    let events = [
        Event::Status(200),
        Event::Status(404),
        Event::Report(tokyo()),
        Event::Malformed(String::from("x")),
        Event::Message(String::from("x")),
        Event::Failed(String::from("x")),
    ];
    for event in events {
        assert_eq!(step(Stage::Closed, event), (Stage::Closed, Action::Nothing));
    }
}

#[test]
fn events_that_answer_nothing_change_nothing() {
    let stray = [
        (Stage::AwaitingStatus, Event::Report(tokyo())),
        (Stage::AwaitingStatus, Event::Malformed(String::from("x"))),
        (Stage::AwaitingStatus, Event::Message(String::from("x"))),
        (Stage::AwaitingReport, Event::Status(200)),
        (Stage::AwaitingReport, Event::Message(String::from("x"))),
        (Stage::AwaitingMessage, Event::Status(404)),
        (Stage::AwaitingMessage, Event::Report(tokyo())),
        (Stage::AwaitingMessage, Event::Malformed(String::from("x"))),
    ];
    for (stage, event) in stray {
        assert_eq!(step(stage, event), (stage, Action::Nothing));
    }
}

#[test]
fn whole_exchange_for_tokyo() {
    let (stage, action) = begin("Tokyo", "k");
    assert!(matches!(action, Action::Get(_)));
    let (stage, action) = step(stage, Event::Status(200));
    assert_eq!(action, Action::DecodeReport);
    let (stage, action) = step(stage, Event::Report(tokyo()));
    assert_eq!(action, Action::Deliver(tokyo()));
    assert_eq!(stage, Stage::Closed);
    assert_eq!(step(stage, Event::Status(200)), (Stage::Closed, Action::Nothing));
}

#[test]
fn tokyo_from_request_to_lines() {
    let asked = "Tokyo";
    let (stage, action) = begin(asked, "k");
    assert!(matches!(action, Action::Get(_)));
    let (stage, action) = step(stage, Event::Status(200));
    assert_eq!(action, Action::DecodeReport);
    let answer = Report {
        name: String::from("Tokyo"),
        timezone: 32400,
        dt: 1_700_000_000,
        temp: 15.2f32.to_string(),
        temp_max: 17.0f32.to_string(),
        temp_min: 13.1f32.to_string(),
        humidity: 60,
    };
    let (stage, action) = step(stage, Event::Report(answer));
    assert_eq!(stage, Stage::Closed);
    let report = match action {
        Action::Deliver(report) => report,
        other => panic!("expected a report, got {:?}", other),
    };
    assert_eq!(
        lines(&report, asked),
        Some(vec![
            String::from("城市: Tokyo"),
            String::from("当前时刻: 2023-11-15 07:13:20 +09:00"),
            String::from("当前温度: 15.2°C"),
            String::from("最高温度: 17°C"),
            String::from("最低温度： 13.1°C"),
            String::from("湿度: 60%"),
        ])
    );
}

#[test]
fn city_not_found_from_request_to_message() {
    let (stage, _) = begin("Atlantis", "k");
    let (stage, action) = step(stage, Event::Status(404));
    assert_eq!(action, Action::ReadMessage);
    let body = "{\"cod\":\"404\",\"message\":\"city not found\"}";
    match step(stage, Event::Message(String::from(body))) {
        (Stage::Closed, Action::Fail(error)) => {
            assert_eq!(error.kind, ErrorKind::Api);
            assert_eq!(error.message(), body);
        }
        other => panic!("expected a failure, got {:?}", other),
    }
}
