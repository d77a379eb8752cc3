use onekey_core::correlator::RequestCorrelator;
use onekey_core::error::CallError;
use onekey_core::sidecar::{
    judge_line, receive_lines, CallAction, CallEvent, CallPhase, LineVerdict, SidecarCall,
    SidecarError, SidecarRequest, SidecarResponse,
};
use serde_json::Value;

fn value(text: &str) -> Value {
    serde_json::from_str(text).unwrap()
}

fn lines(texts: &[&str]) -> Vec<String> {
    texts.iter().map(|t| t.to_string()).collect()
}

fn sidecar_error(code: i32, message: &str) -> CallError {
    CallError::Sidecar { code, message: message.to_string() }
}

#[test]
fn correlator_starts_at_one_and_rises() {
    let mut ids = RequestCorrelator::new();
    assert_eq!(ids.last_id(), 0);
    assert!(!ids.is_exhausted());
    assert_eq!(ids.next_id(), 1);
    assert_eq!(ids.next_id(), 2);
    assert_eq!(ids.next_id(), 3);
    assert_eq!(ids.last_id(), 3);
}

#[test]
fn correlator_gives_distinct_ids() {
    let mut ids = RequestCorrelator::new();
    let mut seen: Vec<u64> = Vec::new();
    for _ in 0..1000 {
        let id = ids.next_id();
        assert!(!seen.contains(&id));
        seen.push(id);
    }
    assert_eq!(seen.len(), 1000);
    assert_eq!(seen[999], 1000);
}

#[test]
fn request_line_without_params() {
    let request = SidecarRequest { id: 1, method: "test".to_string(), params: None };
    assert_eq!(request.to_line(), "{\"id\":1,\"method\":\"test\",\"params\":null}");
}

#[test]
fn request_line_with_params() {
    let request = SidecarRequest {
        id: 18446744073709551615,
        method: "initialize".to_string(),
        params: Some(value("{\"nodeUrl\":\"http://localhost:8080\"}")),
    };
    assert_eq!(
        request.to_line(),
        "{\"id\":18446744073709551615,\"method\":\"initialize\",\"params\":{\"nodeUrl\":\"http://localhost:8080\"}}"
    );
}

#[test]
fn request_line_is_one_line() {
    let request = SidecarRequest {
        id: 2,
        method: "a\nb\r\u{2028}".to_string(),
        params: Some(value("[\"x\\ny\"]")),
    };
    let line = request.to_line();
    assert!(!line.contains('\n'));
    assert!(!line.contains('\r'));
    assert_eq!(value(&line), value("{\"id\":2,\"method\":\"a\\nb\\r\u{2028}\",\"params\":[\"x\\ny\"]}"));
}

#[test]
fn sidecar_happy_path() {
    let mut ids = RequestCorrelator::new();
    let mut call = SidecarCall::new("test", None);
    assert_eq!(call.current_phase(), CallPhase::Spawning);
    assert_eq!(
        call.step(&mut ids, CallEvent::Spawned),
        CallAction::Send("{\"id\":1,\"method\":\"test\",\"params\":null}".to_string())
    );
    assert_eq!(call.current_phase(), CallPhase::Sending);
    assert_eq!(call.step(&mut ids, CallEvent::Sent), CallAction::Read);
    assert_eq!(call.current_phase(), CallPhase::Receiving);
    assert_eq!(
        call.step(&mut ids, CallEvent::Line("{\"type\":\"ready\"}".to_string())),
        CallAction::Read
    );
    assert_eq!(
        call.step(&mut ids, CallEvent::Line("{\"id\":1,\"result\":{\"ok\":true}}".to_string())),
        CallAction::Return(Ok(value("{\"ok\":true}")))
    );
    assert_eq!(call.current_phase(), CallPhase::Finished);
    assert_eq!(ids.last_id(), 1);
}

#[test]
fn sidecar_happy_path_over_the_whole_output() {
    let output = lines(&["{\"ready\":true}", "{\"id\":1,\"result\":{\"ok\":true}}"]);
    assert_eq!(receive_lines(&output, 1), Ok(value("{\"ok\":true}")));
}

#[test]
fn sidecar_error_path() {
    let output = lines(&["{\"id\":1,\"error\":{\"code\":400,\"message\":\"bad params\"}}"]);
    assert_eq!(receive_lines(&output, 1), Err(sidecar_error(400, "bad params")));

    let mut ids = RequestCorrelator::new();
    let mut call = SidecarCall::new("test", None);
    call.step(&mut ids, CallEvent::Spawned);
    call.step(&mut ids, CallEvent::Sent);
    assert_eq!(
        call.step(
            &mut ids,
            CallEvent::Line("{\"id\":1,\"error\":{\"code\":400,\"message\":\"bad params\"}}".to_string())
        ),
        CallAction::Return(Err(sidecar_error(400, "bad params")))
    );
    assert_eq!(call.current_phase(), CallPhase::Finished);
}

#[test]
fn no_response_path() {
    assert_eq!(receive_lines(&Vec::new(), 1), Err(CallError::NoResponse));
    assert_eq!(receive_lines(&lines(&["", "   ", "{\"ready\":1}"]), 1), Err(CallError::NoResponse));

    let mut ids = RequestCorrelator::new();
    let mut call = SidecarCall::new("test", None);
    call.step(&mut ids, CallEvent::Spawned);
    call.step(&mut ids, CallEvent::Sent);
    assert_eq!(call.step(&mut ids, CallEvent::Closed), CallAction::Return(Err(CallError::NoResponse)));
    assert_eq!(call.current_phase(), CallPhase::Finished);
}

#[test]
fn spawn_failure_ends_the_call_and_takes_no_id() {
    let mut ids = RequestCorrelator::new();
    let mut call = SidecarCall::new("test", None);
    assert_eq!(call.step(&mut ids, CallEvent::SpawnFailed), CallAction::Return(Err(CallError::Spawn)));
    assert_eq!(call.current_phase(), CallPhase::Finished);
    assert_eq!(ids.last_id(), 0);
}

#[test]
fn stream_failures_are_protocol_errors() {
    let mut ids = RequestCorrelator::new();
    let mut call = SidecarCall::new("test", None);
    call.step(&mut ids, CallEvent::Spawned);
    assert_eq!(call.step(&mut ids, CallEvent::SendFailed), CallAction::Return(Err(CallError::Protocol)));

    let mut call = SidecarCall::new("test", None);
    call.step(&mut ids, CallEvent::Spawned);
    call.step(&mut ids, CallEvent::Sent);
    assert_eq!(call.step(&mut ids, CallEvent::ReadFailed), CallAction::Return(Err(CallError::Protocol)));
    assert_eq!(ids.last_id(), 2);
}

#[test]
fn events_out_of_turn_end_the_call() {
    let mut ids = RequestCorrelator::new();
    let mut call = SidecarCall::new("test", None);
    assert_eq!(
        call.step(&mut ids, CallEvent::Line("{\"result\":1}".to_string())),
        CallAction::Return(Err(CallError::Protocol))
    );
    assert_eq!(call.current_phase(), CallPhase::Finished);
    assert_eq!(call.step(&mut ids, CallEvent::Spawned), CallAction::Return(Err(CallError::Protocol)));
    assert_eq!(call.current_phase(), CallPhase::Finished);
    assert_eq!(ids.last_id(), 0);
}

#[test]
fn second_call_gets_the_next_id() {
    let mut ids = RequestCorrelator::new();
    let mut first = SidecarCall::new("createAccount", None);
    first.step(&mut ids, CallEvent::Spawned);
    let mut second = SidecarCall::new("deployAccount", Some(value("{\"a\":[1,2]}")));
    assert_eq!(
        second.step(&mut ids, CallEvent::Spawned),
        CallAction::Send("{\"id\":2,\"method\":\"deployAccount\",\"params\":{\"a\":[1,2]}}".to_string())
    );
}

#[test]
fn blank_lines_are_skipped() {
    assert_eq!(judge_line("", 1), LineVerdict::Skip);
    assert_eq!(judge_line(" \t\r", 1), LineVerdict::Skip);
    assert_eq!(judge_line("\u{a0}\u{2003}\u{3000}\u{85}\u{1680}\u{2028}\u{205f}", 1), LineVerdict::Skip);
    assert_eq!(judge_line("\u{200b}", 1), LineVerdict::Failed(CallError::Protocol));
}

#[test]
fn ready_lines_are_skipped() {
    assert_eq!(judge_line("{\"type\":\"ready\"}", 1), LineVerdict::Skip);
    assert_eq!(judge_line("not json but \"ready\" all the same", 1), LineVerdict::Skip);
    assert_eq!(judge_line("{\"id\":1,\"result\":\"ready\"}", 1), LineVerdict::Skip);
    assert_eq!(judge_line("\"ready\"", 1), LineVerdict::Skip);
    assert_eq!(judge_line("ready", 1), LineVerdict::Failed(CallError::Protocol));
    assert_eq!(judge_line("{\"result\":\"ready \"}", 1), LineVerdict::Answer(value("\"ready \"")));
}

#[test]
fn lines_that_are_no_response_are_protocol_errors() {
    for line in [
        "starting up",
        "{\"id\":1,\"result\":",
        "123",
        "\"text\"",
        "null",
        "[1,{\"ok\":true},null]",
        "{\"id\":\"1\",\"result\":1}",
        "{\"id\":-1,\"result\":1}",
        "{\"id\":1.5,\"result\":1}",
        "{\"id\":18446744073709551616,\"result\":1}",
        "{\"error\":\"bad\"}",
        "{\"error\":{\"code\":400}}",
        "{\"error\":{\"message\":\"m\"}}",
        "{\"error\":{\"code\":\"400\",\"message\":\"m\"}}",
        "{\"error\":{\"code\":2147483648,\"message\":\"m\"}}",
        "{\"error\":{\"code\":-2147483649,\"message\":\"m\"}}",
        "{\"error\":{\"code\":1,\"message\":null}}",
        "{\"error\":{\"code\":1,\"message\":\"m\",\"data\":5}}",
    ] {
        assert_eq!(judge_line(line, 1), LineVerdict::Failed(CallError::Protocol), "{}", line);
        assert_eq!(receive_lines(&lines(&["", line, "{\"result\":1}"]), 1), Err(CallError::Protocol));
    }
}

#[test]
fn error_wins_over_result() {
    assert_eq!(
        judge_line("{\"result\":1,\"error\":{\"code\":-32600,\"message\":\"m\",\"data\":\"d\"}}", 1),
        LineVerdict::Failed(sidecar_error(-32600, "m"))
    );
    assert_eq!(
        judge_line("{\"error\":{\"code\":2147483647,\"message\":\"\",\"data\":null,\"more\":1}}", 1),
        LineVerdict::Failed(sidecar_error(2147483647, ""))
    );
    assert_eq!(
        judge_line("{\"error\":{\"code\":-2147483648,\"message\":\"low\"}}", 1),
        LineVerdict::Failed(sidecar_error(-2147483648, "low"))
    );
}

#[test]
fn response_with_neither_result_nor_error_is_read_past() {
    assert_eq!(judge_line("{}", 1), LineVerdict::Skip);
    assert_eq!(judge_line("{\"id\":1}", 1), LineVerdict::Skip);
    assert_eq!(judge_line("{\"id\":null,\"error\":null}", 1), LineVerdict::Skip);
    assert_eq!(
        receive_lines(&lines(&["{\"id\":7}", "{\"id\":7,\"result\":[1,2]}", "garbage"]), 7),
        Ok(value("[1,2]"))
    );
}

#[test]
fn null_result_answers_the_call() {
    assert_eq!(judge_line("{\"id\":1,\"result\":null}", 1), LineVerdict::Answer(Value::Null));
    assert_eq!(judge_line("{\"result\":null}", 1), LineVerdict::Answer(Value::Null));
    assert_eq!(
        judge_line("{\"id\":null,\"result\":null,\"error\":null}", 1),
        LineVerdict::Answer(Value::Null)
    );
    assert_eq!(
        judge_line("{\"id\":1,\"result\":null,\"error\":{\"code\":3,\"message\":\"m\"}}", 1),
        LineVerdict::Failed(sidecar_error(3, "m"))
    );
    assert_eq!(
        SidecarResponse::from_value(&value("{\"id\":1,\"result\":null}")),
        Some(SidecarResponse { id: Some(1), result: Some(Value::Null), error: None })
    );

    let mut ids = RequestCorrelator::new();
    let mut call = SidecarCall::new("test", None);
    call.step(&mut ids, CallEvent::Spawned);
    call.step(&mut ids, CallEvent::Sent);
    assert_eq!(
        call.step(&mut ids, CallEvent::Line("{\"id\":1,\"result\":null}".to_string())),
        CallAction::Return(Ok(Value::Null))
    );
    assert_eq!(receive_lines(&lines(&["{\"id\":1,\"result\":null}"]), 1), Ok(Value::Null));
}

#[test]
fn response_to_another_request_is_passed_over() {
    assert_eq!(judge_line("{\"id\":7,\"result\":{\"ok\":true}}", 1), LineVerdict::Skip);
    assert_eq!(judge_line("{\"id\":0,\"result\":1}", 1), LineVerdict::Skip);
    assert_eq!(
        judge_line("{\"id\":7,\"error\":{\"code\":400,\"message\":\"bad params\"}}", 1),
        LineVerdict::Skip
    );
    assert_eq!(
        judge_line("{\"id\":7,\"result\":{\"ok\":true}}", 7),
        LineVerdict::Answer(value("{\"ok\":true}"))
    );
    assert_eq!(
        receive_lines(&lines(&["{\"id\":7,\"result\":{\"ok\":true}}"]), 1),
        Err(CallError::NoResponse)
    );
    assert_eq!(
        receive_lines(
            &lines(&["{\"id\":7,\"result\":1}", "{\"id\":2,\"result\":2}", "{\"id\":1,\"result\":3}"]),
            2
        ),
        Ok(value("2"))
    );
    // A line that is no response is a protocol error whatever identifier it names.
    assert_eq!(
        judge_line("{\"id\":7,\"error\":\"bad\"}", 1),
        LineVerdict::Failed(CallError::Protocol)
    );

    let mut ids = RequestCorrelator::new();
    let mut call = SidecarCall::new("test", None);
    assert_eq!(call.current_identifier(), 0);
    call.step(&mut ids, CallEvent::Spawned);
    assert_eq!(call.current_identifier(), 1);
    call.step(&mut ids, CallEvent::Sent);
    assert_eq!(
        call.step(&mut ids, CallEvent::Line("{\"id\":7,\"result\":{\"ok\":true}}".to_string())),
        CallAction::Read
    );
    assert_eq!(call.current_phase(), CallPhase::Receiving);
    assert_eq!(call.current_identifier(), 1);
    assert_eq!(call.step(&mut ids, CallEvent::Closed), CallAction::Return(Err(CallError::NoResponse)));
}

#[test]
fn second_call_matches_its_own_identifier() {
    let mut ids = RequestCorrelator::new();
    let mut first = SidecarCall::new("test", None);
    first.step(&mut ids, CallEvent::Spawned);
    let mut second = SidecarCall::new("test", None);
    second.step(&mut ids, CallEvent::Spawned);
    second.step(&mut ids, CallEvent::Sent);
    assert_eq!(second.current_identifier(), 2);
    assert_eq!(
        second.step(&mut ids, CallEvent::Line("{\"id\":1,\"result\":\"first\"}".to_string())),
        CallAction::Read
    );
    assert_eq!(
        second.step(&mut ids, CallEvent::Line("{\"id\":2,\"result\":\"second\"}".to_string())),
        CallAction::Return(Ok(value("\"second\"")))
    );
}

#[test]
fn results_of_every_kind_are_returned_as_they_came() {
    assert_eq!(judge_line("{\"result\":false}", 1), LineVerdict::Answer(value("false")));
    assert_eq!(judge_line("{\"result\":0}", 1), LineVerdict::Answer(value("0")));
    assert_eq!(judge_line("{\"result\":1.25}", 1), LineVerdict::Answer(value("1.25")));
    assert_eq!(judge_line("{\"result\":\"\"}", 1), LineVerdict::Answer(value("\"\"")));
    assert_eq!(judge_line(" {\"result\" : [ ] , \"extra\" : 1} ", 1), LineVerdict::Answer(value("[]")));
    assert_eq!(
        judge_line("{\"id\":18446744073709551615,\"result\":{\"a\":{\"b\":null}}}", u64::MAX),
        LineVerdict::Answer(value("{\"a\":{\"b\":null}}"))
    );
}

#[test]
fn first_verdict_decides() {
    assert_eq!(
        receive_lines(&lines(&[
            "{\"result\":1}",
            "{\"error\":{\"code\":1,\"message\":\"late\"}}"
        ]), 1),
        Ok(value("1"))
    );
    assert_eq!(
        receive_lines(&lines(&[
            "{\"error\":{\"code\":1,\"message\":\"first\"}}",
            "{\"result\":1}"
        ]), 1),
        Err(sidecar_error(1, "first"))
    );
}

#[test]
fn response_from_value() {
    assert_eq!(
        SidecarResponse::from_value(&value("{\"id\":3,\"result\":{\"ok\":true}}")),
        Some(SidecarResponse { id: Some(3), result: Some(value("{\"ok\":true}")), error: None })
    );
    assert_eq!(
        SidecarResponse::from_value(&value(
            "{\"error\":{\"code\":5,\"message\":\"m\",\"data\":\"d\"}}"
        )),
        Some(SidecarResponse {
            id: None,
            result: None,
            error: Some(SidecarError { code: 5, message: "m".to_string(), data: Some("d".to_string()) }),
        })
    );
    assert_eq!(SidecarResponse::from_value(&value("[]")), None);
    assert_eq!(SidecarError::from_value(&value("{\"code\":1}")), None);
}

#[test]
fn verdict_of_a_response() {
    let answer = SidecarResponse { id: Some(1), result: Some(value("7")), error: None };
    assert!(answer.answers(1));
    assert!(!answer.answers(2));
    assert_eq!(answer.clone().verdict(2), LineVerdict::Skip);
    assert_eq!(answer.verdict(1), LineVerdict::Answer(value("7")));
    let failure = SidecarResponse {
        id: Some(1),
        result: Some(value("7")),
        error: Some(SidecarError { code: 9, message: "no".to_string(), data: None }),
    };
    assert_eq!(failure.verdict(1), LineVerdict::Failed(sidecar_error(9, "no")));
    let neither = SidecarResponse { id: None, result: None, error: None };
    assert!(neither.answers(1));
    assert_eq!(neither.verdict(1), LineVerdict::Skip);
    let null = SidecarResponse { id: None, result: Some(Value::Null), error: None };
    assert_eq!(null.verdict(5), LineVerdict::Answer(Value::Null));
}
