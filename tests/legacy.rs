use mpihole::pihole::Pihole;
use mpihole::protocol::{Answer, Command, Method, Outcome, Reply, Step};

fn url_of(step: Step) -> String {
    match step {
        Step::Send(r) => {
            assert_eq!(r.method, Method::Get);
            assert!(r.body.is_none());
            assert!(r.session.is_none());
            r.url
        }
        Step::Done(_) => panic!("expected a request"),
    }
}

fn reply(body: &str) -> Option<Reply> {
    Some(Reply { status: 200, body: body.to_string() })
}

#[test]
fn legacy_disable_request() {
    let p = Pihole::new("http://pi.local/", "KEY");
    assert_eq!(url_of(p.disable(300)), "http://pi.local/api.php?auth=KEY&disable=300");
    assert_eq!(url_of(p.enable()), "http://pi.local/api.php?auth=KEY&enable");
    assert_eq!(url_of(p.summary()), "http://pi.local/api.php?auth=KEY&summaryRaw");
}

#[test]
fn legacy_disable_reply_states() {
    let p = Pihole::new("http://pi.local", "KEY");
    let o = p.complete(Command::Disable(300), &reply("{\"status\":\"disabled\"}"));
    assert!(matches!(o, Outcome::Success(Answer::Blocking(false))));
    let o = p.complete(Command::Disable(300), &reply("{\"status\":\"enabled\"}"));
    assert!(matches!(o, Outcome::Success(Answer::Blocking(true))));
}

#[test]
fn legacy_bad_status_is_protocol_error() {
    let p = Pihole::new("http://pi.local", "KEY");
    let o = p.complete(Command::Enable, &reply("{\"status\":\"maybe\"}"));
    assert!(matches!(o, Outcome::ProtocolError(_)));
    let o = p.complete(Command::Enable, &reply("[]"));
    assert!(matches!(o, Outcome::ProtocolError(_)));
    let o = p.complete(Command::Enable, &reply("garbage"));
    assert!(matches!(o, Outcome::ProtocolError(m) if m == "the reply is not JSON"));
    let o = p.complete(Command::Enable, &None);
    assert!(matches!(o, Outcome::Unreachable));
}

#[test]
fn legacy_login_is_implicit() {
    let p = Pihole::new("http://pi.local", "KEY");
    assert!(matches!(p.prepare(Command::Authenticate), Step::Done(Outcome::Success(Answer::Authenticated))));
    let url = url_of(p.prepare(Command::Status));
    assert_eq!(url, "http://pi.local/api.php?auth=KEY&status");
}

#[test]
fn legacy_counts_default_to_twenty_five() {
    let p = Pihole::new("http://pi.local", "KEY");
    assert_eq!(url_of(p.prepare(Command::TopDomains(None))), "http://pi.local/api.php?auth=KEY&topItems=25");
    assert_eq!(url_of(p.prepare(Command::TopDomains(Some(0)))), "http://pi.local/api.php?auth=KEY&topItems=25");
    assert_eq!(url_of(p.prepare(Command::TopClients(Some(5)))), "http://pi.local/api.php?auth=KEY&topClients=5");
    assert_eq!(url_of(p.prepare(Command::RecentBlocked(None))), "http://pi.local/api.php?auth=KEY&recentBlocked=25");
    assert_eq!(url_of(p.prepare(Command::Upstreams)), "http://pi.local/api.php?auth=KEY&getForwardDestinations");
    assert_eq!(url_of(p.prepare(Command::QueryTypes)), "http://pi.local/api.php?auth=KEY&getQueryTypes");
    assert_eq!(url_of(p.prepare(Command::Version)), "http://pi.local/api.php?auth=KEY&versions");
}
