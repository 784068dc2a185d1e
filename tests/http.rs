use rpizw_rover::{
    handle, invalid_json, respond, Command, ResponsePayload, RoverError, SpeedRequest, Stage,
    Step, Wheel, STATUS_BAD_REQUEST, STATUS_OK, STATUS_SERVER_ERROR,
};

#[test]
fn success_payload_encodes_as_json() {
    assert_eq!(ResponsePayload::success().to_json(), "{\"success\":true}");
    let r = ResponsePayload::success().to_response();
    assert_eq!(r.status, 200);
    assert_eq!(r.body, "{\"success\":true}");
}

#[test]
fn error_payload_escapes_its_message() {
    let p = ResponsePayload::error(String::from("say \"hi\"\n"));
    assert_eq!(p.to_json(), "{\"success\":false,\"error\":\"say \\\"hi\\\"\\n\"}");
    let p = ResponsePayload::error(String::from("\u{1}tab\t\\/\u{1f}"));
    assert_eq!(p.to_json(), "{\"success\":false,\"error\":\"\\u0001tab\\t\\\\/\\u001f\"}");
    let p = ResponsePayload::error(String::from("plain"));
    assert_eq!(p.to_json(), "{\"success\":false,\"error\":\"plain\"}");
}

#[test]
fn hardware_failure_is_a_server_error() {
    let r = respond(Err(RoverError::new(
        Stage::Duty(Wheel::Right),
        String::from("No such file or directory"),
    )));
    assert_eq!(r.status, STATUS_SERVER_ERROR);
    assert_eq!(r.body, "{\"success\":false,\"error\":\"failed to set duty on right wheel\"}");
    let r = respond(Ok(()));
    assert_eq!(r.status, STATUS_OK);
    assert_eq!(r.body, "{\"success\":true}");
}

#[test]
fn malformed_speed_body_is_a_bad_request() {
    let reason = match serde_json::from_str::<serde_json::Value>("not json") {
        Ok(_) => panic!("decoded a malformed body"),
        Err(e) => e.to_string(),
    };
    let (r, _) = handle(Err(reason.clone()));
    assert_eq!(r.status, 400);
    assert_eq!(r.body, format!("{{\"success\":false,\"error\":\"invalid json: {}\"}}", reason));
    let r = invalid_json("expected value at line 1 column 1");
    assert_eq!(r.status, STATUS_BAD_REQUEST);
    assert_eq!(
        r.body,
        "{\"success\":false,\"error\":\"invalid json: expected value at line 1 column 1\"}"
    );
}

#[test]
fn speed_request_drives_wheels_with_mirrored_duty() {
    let v: serde_json::Value = serde_json::from_str("{\"left\": 50, \"right\": -50}").unwrap();
    let req = SpeedRequest {
        left: v["left"].as_i64().unwrap() as i8,
        right: v["right"].as_i64().unwrap() as i8,
    };
    assert_eq!(req, SpeedRequest { left: 50, right: -50 });
    assert_eq!(
        Step::speed_steps(req.left, req.right),
        vec![Step::SetDuty(Wheel::Left, 1_250_000), Step::SetDuty(Wheel::Right, 1_250_000)]
    );
    assert_eq!(ResponsePayload::success().to_json(), "{\"success\":true}");
}

#[test]
fn command_without_pwm_chip_reports_creation_failure() {
    // This machine has no PWM chip, so constructing the rover is what fails.
    let (r, _) = handle(Ok(Command::Stop));
    assert_eq!(r.status, 500);
    assert_eq!(r.body, "{\"success\":false,\"error\":\"failed to create left wheel\"}");
}
