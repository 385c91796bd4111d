use mpihole::plib::config::PiServer;
use mpihole::plib::pihole::Pihole;
use mpihole::protocol::{Answer, Command, Method, Outcome, Reply, Step};

fn sent(step: Step) -> mpihole::protocol::Request {
    match step {
        Step::Send(r) => r,
        Step::Done(_) => panic!("expected a request"),
    }
}

fn reply(status: u16, body: &str) -> Option<Reply> {
    Some(Reply { status, body: body.to_string() })
}

fn logged_in(sid: &str) -> Pihole {
    let mut p = Pihole::new("http://localhost", "password");
    p.sid = Some(sid.to_string());
    p
}

#[test]
fn test_pihole_new() {
    let pihole = Pihole::new("http://localhost", "password");
    assert_eq!(pihole.base_url, "http://localhost");
    assert_eq!(pihole.passwd, "password");
    assert!(pihole.sid.is_none());
}

#[test]
fn test_pihole_from_cfg() {
    let cfg = PiServer {
        base_url: "http://localhost".to_string(),
        api_key: "password".to_string(),
    };
    let pihole = Pihole::from_cfg(&cfg);
    assert_eq!(pihole.base_url, "http://localhost");
    assert_eq!(pihole.passwd, "password");
    assert!(pihole.sid.is_none());
}

#[test]
fn test_build_url() {
    let pihole = Pihole::new("http://localhost", "password");
    let url = pihole.build_url();
    assert_eq!(url, "http://localhost/api");
}

#[test]
fn new_strips_trailing_slashes() {
    let pihole = Pihole::new("http://localhost//", "pw");
    assert_eq!(pihole.base_url, "http://localhost");
}

#[test]
fn no_login_refuses_every_command_without_request() {
    let p = Pihole::new("http://localhost", "password");
    let cmds = [
        Command::Status,
        Command::Enable,
        Command::Disable(300),
        Command::Summary,
        Command::Version,
        Command::TopDomains(None),
        Command::TopClients(Some(3)),
        Command::Upstreams,
        Command::QueryTypes,
        Command::RecentBlocked(None),
        Command::OverTimeData,
        Command::AllQueries,
    ];
    for c in cmds {
        assert!(matches!(p.prepare(c), Step::Done(Outcome::AuthFailure)), "{:?}", c);
    }
}

#[test]
fn login_request_posts_password() {
    let p = Pihole::new("http://localhost", "pass\"word");
    let r = sent(p.auth());
    assert_eq!(r.method, Method::Post);
    assert_eq!(r.url, "http://localhost/api/auth");
    assert_eq!(r.body.as_deref(), Some("{\"password\":\"pass\\\"word\"}"));
    assert!(r.session.is_none());
}

#[test]
fn wrong_password_is_auth_failure() {
    let mut p = Pihole::new("http://localhost", "wrong");
    let o = p.complete(Command::Authenticate, &reply(200, "{\"error\":\"no\"}"));
    assert!(matches!(o, Outcome::AuthFailure));
    assert!(p.sid.is_none());
    let o = p.complete(Command::Authenticate, &reply(200, "{\"session\":{\"valid\":false,\"sid\":null}}"));
    assert!(matches!(o, Outcome::AuthFailure));
    assert!(p.sid.is_none());
}

#[test]
fn login_stores_token_and_later_requests_carry_it() {
    let mut p = Pihole::new("http://localhost", "password");
    let o = p.complete(Command::Authenticate, &reply(200, "{\"session\":{\"sid\":\"abc\"}}"));
    assert!(matches!(o, Outcome::Success(Answer::Authenticated)));
    assert_eq!(p.sid.as_deref(), Some("abc"));
    let r = sent(p.status());
    assert_eq!(r.method, Method::Get);
    assert_eq!(r.url, "http://localhost/api/dns/blocking");
    assert_eq!(r.session.as_deref(), Some("abc"));
    let r = sent(p.summary());
    assert_eq!(r.url, "http://localhost/api/stats/summary");
    assert_eq!(r.session.as_deref(), Some("abc"));
}

#[test]
fn login_reply_not_json_is_protocol_error() {
    let mut p = Pihole::new("http://localhost", "password");
    let o = p.complete(Command::Authenticate, &reply(200, "<html>"));
    assert!(matches!(o, Outcome::ProtocolError(m) if m == "the reply is not JSON"));
    assert!(p.sid.is_none());
}

#[test]
fn unauthorized_reply_drops_the_token() {
    let mut p = logged_in("abc");
    let o = p.complete(Command::Summary, &reply(401, "{}"));
    assert!(matches!(o, Outcome::AuthFailure));
    assert!(p.sid.is_none());
    assert!(matches!(p.summary(), Step::Done(Outcome::AuthFailure)));
}

#[test]
fn unreachable_keeps_the_token() {
    let mut p = logged_in("abc");
    let o = p.complete(Command::Status, &None);
    assert!(matches!(o, Outcome::Unreachable));
    assert_eq!(p.sid.as_deref(), Some("abc"));
}

#[test]
fn enable_and_disable_bodies() {
    let p = logged_in("s");
    let r = sent(p.enable());
    assert_eq!(r.method, Method::Post);
    assert_eq!(r.url, "http://localhost/api/dns/blocking");
    assert_eq!(r.body.as_deref(), Some("{\"blocking\":true,\"timer\":null}"));
    let r = sent(p.disable(300));
    assert_eq!(r.body.as_deref(), Some("{\"blocking\":false,\"timer\":300}"));
    let r = sent(p.disable(0));
    assert_eq!(r.body.as_deref(), Some("{\"blocking\":false,\"timer\":0}"));
}

#[test]
fn blocking_state_from_reply() {
    let mut p = logged_in("s");
    let o = p.complete(Command::Disable(300), &reply(200, "{\"blocking\":\"disabled\",\"timer\":300}"));
    assert!(matches!(o, Outcome::Success(Answer::State(v)) if v == serde_json::Value::from("disabled")));
    let o = p.complete(Command::Status, &reply(200, "{\"blocking\":\"enabled\"}"));
    assert!(matches!(o, Outcome::Success(Answer::State(v)) if v == serde_json::Value::from("enabled")));
    let o = p.complete(Command::Status, &reply(200, "{\"blocking\":\"failed\"}"));
    assert!(matches!(o, Outcome::Success(Answer::State(v)) if v == serde_json::Value::from("failed")));
    let o = p.complete(Command::Enable, &reply(200, "{\"blocking\":true}"));
    assert!(matches!(o, Outcome::Success(Answer::State(v)) if v == serde_json::Value::from(true)));
    let o = p.complete(Command::Status, &reply(200, "{\"timer\":null}"));
    assert!(matches!(o, Outcome::ProtocolError(m) if m == "the reply holds no blocking state"));
}

#[test]
fn login_request_carries_held_token() {
    let p = logged_in("old");
    let r = sent(p.auth());
    assert_eq!(r.url, "http://localhost/api/auth");
    assert_eq!(r.session.as_deref(), Some("old"));
}

#[test]
fn login_body_escapes_control_characters() {
    let p = Pihole::new("http://localhost", "a\u{1}\n\\\u{7f}\u{e9}");
    let r = sent(p.auth());
    assert_eq!(r.body.as_deref(), Some("{\"password\":\"a\\u0001\\n\\\\\u{7f}\u{e9}\"}"));
}

#[test]
fn top_items_defaults_to_twenty_five() {
    let p = logged_in("s");
    assert_eq!(sent(p.top_items(None)).url, "http://localhost/api/stats/top_domains?count=25");
    assert_eq!(sent(p.top_items(Some(0))).url, "http://localhost/api/stats/top_domains?count=25");
    assert_eq!(sent(p.top_items(Some(7))).url, "http://localhost/api/stats/top_domains?count=7");
    assert_eq!(sent(p.top_clients(None)).url, "http://localhost/api/stats/top_clients?count=25");
    assert_eq!(
        sent(p.recent_blocked(Some(10))).url,
        "http://localhost/api/stats/recent_blocked?count=10"
    );
}

#[test]
fn other_paths() {
    let p = logged_in("s");
    assert_eq!(sent(p.version()).url, "http://localhost/api/info/version");
    assert_eq!(sent(p.get_upstreams()).url, "http://localhost/api/stats/upstreams");
    assert_eq!(sent(p.get_query_types()).url, "http://localhost/api/stats/query_types");
    assert_eq!(sent(p.over_time_data_10_mins()).url, "http://localhost/api/overTimeData10mins");
    assert_eq!(sent(p.get_all_queries()).url, "http://localhost/api/queries");
}

#[test]
fn document_reply_is_handed_on() {
    let mut p = logged_in("s");
    let o = p.complete(Command::Summary, &reply(200, "{\"queries\":{\"total\":12}}"));
    match o {
        Outcome::Success(Answer::Document(v)) => {
            assert_eq!(v["queries"]["total"], serde_json::Value::from(12));
        }
        _ => panic!("expected a document"),
    }
    let o = p.complete(Command::Summary, &reply(200, "not json"));
    assert!(matches!(o, Outcome::ProtocolError(_)));
}
