use mpihole::plib::config::{PiConfig, PiServer};
use mpihole::prompt::{
    add_new_servers, check_num_resp, check_yes, choice_of, revise_servers, Revision, ServerChoice,
};
use mpihole::text::{parse_usize, trim_spaces, trim_trailing_slashes};

#[test]
fn yes_answers() {
    assert!(check_yes("y"));
    assert!(check_yes("  yes\n"));
    assert!(check_yes("YES"));
    assert!(check_yes("Y\r\n"));
    assert!(!check_yes("Yes"));
    assert!(!check_yes(""));
    assert!(!check_yes("n"));
}

#[test]
fn number_answers() {
    assert_eq!(check_num_resp(" 2\n"), Some(2));
    assert_eq!(check_num_resp("+3"), Some(3));
    assert_eq!(check_num_resp("x"), None);
    assert_eq!(check_num_resp(""), None);
    assert_eq!(check_num_resp("-1"), None);
    assert_eq!(check_num_resp("18446744073709551615"), Some(usize::MAX));
    assert_eq!(check_num_resp("18446744073709551616"), None);
}

#[test]
fn parse_matches_std() {
    for s in ["0", "007", "+", "+5", "12a", "99999999999999999999", " 1", "42"] {
        assert_eq!(parse_usize(s), s.parse::<usize>().ok(), "{}", s);
    }
}

#[test]
fn trim_matches_std() {
    for s in ["  a b \t", "\u{3000}x\u{2029}", "", "   ", "abc"] {
        assert_eq!(trim_spaces(s), s.trim());
    }
}

#[test]
fn choices() {
    assert_eq!(choice_of("1\n"), Some(ServerChoice::Modify));
    assert_eq!(choice_of("2"), Some(ServerChoice::Delete));
    assert_eq!(choice_of(" 3 "), Some(ServerChoice::Keep));
    assert_eq!(choice_of("4"), None);
    assert_eq!(choice_of("0"), None);
    assert_eq!(choice_of("one"), None);
}

#[test]
fn revising_servers() {
    let servers = vec![
        PiServer::new("http://a", "1"),
        PiServer::new("http://b", "2"),
        PiServer::new("http://c", "3"),
        PiServer::new("http://d", "4"),
    ];
    let revs = vec![Revision::Keep, Revision::Delete, Revision::Modify(PiServer::new("http://e/", "5"))];
    let out = revise_servers(servers, revs);
    let urls: Vec<&str> = out.iter().map(|s| s.base_url.as_str()).collect();
    assert_eq!(urls, vec!["http://a", "http://e", "http://d"]);
    assert_eq!(out[1].api_key, "5");
}

#[test]
fn adding_servers_keeps_order() {
    let mut c = PiConfig::new();
    c.add_server(PiServer::new("http://a", "1"));
    add_new_servers(&mut c, vec![PiServer::new("http://b", "2"), PiServer::new("http://c", "3")]);
    let urls: Vec<&str> = c.servers.iter().map(|s| s.base_url.as_str()).collect();
    assert_eq!(urls, vec!["http://a", "http://b", "http://c"]);
}

#[test]
fn server_record_strips_trailing_slashes_only() {
    let s = PiServer::new("http://host/admin///", "key");
    assert_eq!(s.base_url, "http://host/admin");
    assert_eq!(s.api_key, "key");
    assert_eq!(trim_trailing_slashes("///"), "");
}
