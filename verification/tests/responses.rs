use koreanbots_rs::blocking;
use koreanbots_rs::error::{ClientError, ErrorKind};
use koreanbots_rs::model::response::{
    is_success_code, settle, settle_update, Data, Response, ResponseUpdate,
};
use koreanbots_rs::model::{Bot, State, Status, User, VoteCheck};
use koreanbots_rs::request::Method;

fn ack(code: usize, message: &str) -> ResponseUpdate {
    ResponseUpdate { code, message: message.to_string(), version: 1 }
}

fn bot() -> Bot {
    Bot {
        id: "387548561816027138".to_string(),
        flags: 1 | 4,
        name: "wonder".to_string(),
        tag: "0001".to_string(),
        avatar: None,
        owners: vec![User {
            id: "285185716240252929".to_string(),
            flags: 0,
            github: Some("someone".to_string()),
            tag: "0002".to_string(),
            username: "someone".to_string(),
            bots: vec!["387548561816027138".to_string()],
        }],
        lib: "discord.js".to_string(),
        prefix: "!".to_string(),
        votes: 10,
        servers: 20,
        intro: "intro".to_string(),
        desc: "desc".to_string(),
        web: String::new(),
        git: String::new(),
        url: "https://example.com".to_string(),
        discord: String::new(),
        category: vec!["관리".to_string()],
        vanity: None,
        bg: String::new(),
        banner: String::new(),
        status: Some(Status::Online),
        state: State::Okay,
    }
}

#[test]
fn success_codes_are_the_two_hundreds() {
    for code in [200usize, 201, 204, 250, 299] {
        assert!(is_success_code(code), "{code}");
    }
    for code in [0usize, 1, 100, 199, 300, 301, 400, 401, 404, 429, 500, usize::MAX] {
        assert!(!is_success_code(code), "{code}");
    }
}

#[test]
fn heartbeat_acknowledgment_is_returned() {
    let request = blocking::Client::new("KOREANBOTS_TOKEN").update_servers("X", 42).unwrap();
    assert_eq!(request.method, Method::Post);
    assert_eq!(request.url, "https://koreanbots.dev/api/v2/bots/X/stats");
    assert_eq!(
        request.body.unwrap().entries(),
        &vec![("servers".to_string(), "42".to_string())]
    );

    let body: serde_json::Value =
        serde_json::from_str("{\"code\":200,\"message\":\"ok\",\"version\":1}").unwrap();
    let decoded = ResponseUpdate {
        code: body["code"].as_u64().unwrap() as usize,
        message: body["message"].as_str().unwrap().to_string(),
        version: body["version"].as_u64().unwrap() as usize,
    };
    let settled = settle_update(Ok(decoded)).unwrap();
    assert_eq!(settled.code, 200);
    assert_eq!(settled.message, "ok");
    assert_eq!(settled.version, 1);
}

#[test]
fn a_refused_update_is_handed_on_as_it_came() {
    let request = blocking::Client::new("KOREANBOTS_TOKEN").update_servers("X", 42).unwrap();
    assert_eq!(request.url, "https://koreanbots.dev/api/v2/bots/X/stats");
    let result = settle_update(Ok(ack(401, "unauthorized"))).unwrap();
    assert_eq!(result.code, 401);
    assert_eq!(result.message, "unauthorized");
    assert_eq!(result.version, 1);
}

#[test]
fn an_acknowledgment_is_handed_on_whatever_its_code() {
    for code in [0usize, 199, 200, 204, 299, 300, 400, 401, 404, 429, 500, usize::MAX] {
        let given = ResponseUpdate { code, message: "m".to_string(), version: 7 };
        assert_eq!(settle_update(Ok(given.clone())), Ok(given));
    }
}

#[test]
fn undecodable_update_is_a_deserialization_error() {
    let result = settle_update(Err("missing field `code`".to_string()));
    assert_eq!(result, Err(ClientError::Deserialize("missing field `code`".to_string())));
    assert_eq!(result.unwrap_err().kind(), ErrorKind::Deserialization);
}

#[test]
fn a_decoded_read_with_a_success_code_is_the_result() {
    let envelope = Response { code: 200, data: bot(), version: 1 };
    assert_eq!(settle(Ok(envelope.clone()), None), Ok(envelope.clone()));
    assert_eq!(settle(Ok(envelope.clone()), Some(ack(200, "ok"))), Ok(envelope.clone()));
    assert_eq!(settle(Ok(envelope.clone()), Some(ack(500, "odd"))), Ok(envelope));
}

#[test]
fn a_decoded_read_with_another_code_is_handed_on_as_it_came() {
    let envelope = Response { code: 404, data: VoteCheck { voted: false, last_vote: 0 }, version: 3 };
    assert_eq!(settle(Ok(envelope.clone()), None), Ok(envelope.clone()));
    assert_eq!(settle(Ok(envelope.clone()), Some(ack(404, "not found"))), Ok(envelope));
}

#[test]
fn a_decoded_read_keeps_every_field() {
    let envelope = Response { code: 200, data: bot(), version: 1 };
    let settled = settle(Ok(envelope), None).unwrap();
    assert_eq!(settled.code, 200);
    assert_eq!(settled.version, 1);
    assert_eq!(settled.data, bot());
}

#[test]
fn a_failure_envelope_is_an_application_error() {
    let result: Result<Response<Bot>, ClientError> =
        settle(Err("missing field `data`".to_string()), Some(ack(404, "not found")));
    assert_eq!(
        result,
        Err(ClientError::Application { code: 404, message: "not found".to_string(), version: 1 })
    );
    assert_eq!(result.unwrap_err().kind(), ErrorKind::Application);
    let failure = ResponseUpdate { code: 500, message: String::new(), version: 9 };
    let result: Result<Response<Bot>, ClientError> = settle(Err("eof".to_string()), Some(failure));
    assert_eq!(
        result,
        Err(ClientError::Application { code: 500, message: String::new(), version: 9 })
    );
}

#[test]
fn an_unexpected_shape_is_a_deserialization_error() {
    let result: Result<Response<Data<Vec<Bot>>>, ClientError> =
        settle(Err("missing field `data`".to_string()), None);
    assert_eq!(result, Err(ClientError::Deserialize("missing field `data`".to_string())));
    let result: Result<Response<Bot>, ClientError> =
        settle(Err("missing field `data`".to_string()), Some(ack(200, "ok")));
    assert_eq!(result, Err(ClientError::Deserialize("missing field `data`".to_string())));
}

#[test]
fn each_error_has_its_class() {
    assert_eq!(ClientError::InvalidToken.kind(), ErrorKind::Configuration);
    assert_eq!(ClientError::InvalidUrl.kind(), ErrorKind::Configuration);
    assert_eq!(ClientError::MissingParameter.kind(), ErrorKind::Configuration);
    assert_eq!(ClientError::Transport("timed out".to_string()).kind(), ErrorKind::Transport);
    assert_eq!(ClientError::Deserialize("eof".to_string()).kind(), ErrorKind::Deserialization);
    assert_eq!(
        ClientError::Application { code: 500, message: "x".to_string(), version: 1 }.kind(),
        ErrorKind::Application
    );
}
