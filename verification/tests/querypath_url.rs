use ilias::address::Address;
use ilias::querypath::{join_querypath, room_for, split_querypath, Querypath};
use ilias::ILIAS_URL;
use reqwest::Url;

#[test]
fn joining_path_and_query() {
    assert_eq!(join_querypath("/ilias.php", Some("a=b&c=d")), "/ilias.php?a=b&c=d");
    assert_eq!(join_querypath("/ilias.php", None), "/ilias.php");
    assert_eq!(join_querypath("/ilias.php", Some("")), "/ilias.php?");
    assert_eq!(join_querypath("", Some("")), "?");
    assert_eq!(join_querypath("", None), "");
}

#[test]
fn parting_an_address() {
    assert_eq!(split_querypath("/ilias.php?a=b&c=d"), ("/ilias.php", Some("a=b&c=d")));
    assert_eq!(split_querypath("/ilias.php"), ("/ilias.php", None));
    assert_eq!(split_querypath("/ilias.php?"), ("/ilias.php", Some("")));
    assert_eq!(split_querypath("a?b?c"), ("a", Some("b?c")));
    assert_eq!(split_querypath("??"), ("", Some("?")));
    assert_eq!(split_querypath(""), ("", None));
}

#[test]
fn every_address_round_trips() {
    for address in [
        "a?b?c",
        "/goto.php?target=https://host/x?y=1&z=?",
        "/goto.php?target=ass_1&client_id=produktiv",
        "ilias.php?cmd=x%20y",
        "?",
        "/a/b?",
        "/goto.php",
        "",
    ] {
        let (path, query) = split_querypath(address);
        assert_eq!(join_querypath(path, query), address);
    }
}

#[test]
fn url_gives_its_path_and_query() {
    let url = Url::parse("https://ilias.studium.kit.edu/ilias.php?ref_id=1&cmd=view").unwrap();
    assert_eq!(url.get_querypath(), "/ilias.php?ref_id=1&cmd=view");
    let bare = Url::parse(ILIAS_URL).unwrap();
    assert_eq!(bare.get_querypath(), "/");
    let plain = Url::parse("https://ilias.studium.kit.edu/goto.php").unwrap();
    assert_eq!(plain.get_querypath(), "/goto.php");
    let empty = Url::parse("https://ilias.studium.kit.edu/goto.php?").unwrap();
    assert_eq!(empty.get_querypath(), "/goto.php?");
}

#[test]
fn url_takes_a_path_and_query() {
    let mut url = Url::parse(ILIAS_URL).unwrap();
    url.set_querypath("/goto.php?target=ass_1&client_id=produktiv");
    assert_eq!(url.as_str(), "https://ilias.studium.kit.edu/goto.php?target=ass_1&client_id=produktiv");
    assert_eq!(url.get_querypath(), "/goto.php?target=ass_1&client_id=produktiv");
    url.set_querypath("/login.php");
    assert_eq!(url.as_str(), "https://ilias.studium.kit.edu/login.php");
    assert_eq!(url.query(), None);
    assert_eq!(url.get_querypath(), "/login.php");
}

#[test]
fn canonical_address_drops_scheme_and_host() {
    let a = Address::canonicalize("https://ilias.studium.kit.edu/ilias.php?ref_id=1&cmd=x%20y");
    assert_eq!(a.as_request_target(), "/ilias.php?ref_id=1&cmd=x%20y");
    assert_eq!(Address::canonicalize("https://ilias.studium.kit.edu/goto.php").as_request_target(), "/goto.php");
    assert_eq!(Address::canonicalize("http://host:8080/a/b?c").as_request_target(), "/a/b?c");
    assert_eq!(Address::canonicalize("https://host").as_request_target(), "");
    assert_eq!(Address::canonicalize("https://host?x=1").as_request_target(), "?x=1");
    assert_eq!(Address::canonicalize("https://").as_request_target(), "");
    assert_eq!(Address::canonicalize("git+ssh://host/repo").as_request_target(), "/repo");
}

#[test]
fn canonical_address_drops_the_fragment() {
    assert_eq!(Address::canonicalize("http://host:8080/a/b?c#d").as_request_target(), "/a/b?c");
    assert_eq!(Address::canonicalize("https://host#top").as_request_target(), "");
    assert_eq!(Address::canonicalize("ilias.php?a=1#frag#more").as_request_target(), "ilias.php?a=1");
    assert_eq!(Address::canonicalize("#only").as_request_target(), "");
    assert_eq!(Address::canonicalize("http://a#b/c").as_request_target(), "");
}

#[test]
fn scheme_begins_with_a_letter() {
    for link in ["1://h/p", "+x://h/p", "-://h/p", ".a://h/p", "1http://host/path?q"] {
        assert_eq!(Address::canonicalize(link).as_request_target(), link);
    }
    assert_eq!(Address::canonicalize("a1+-.://h/p").as_request_target(), "/p");
}

#[test]
fn canonical_address_keeps_relative_links() {
    for link in [
        "ilias.php?b=2&a=1",
        "/goto.php?target=ass_1&client_id=produktiv",
        "goto.php?target=https://example.org/x",
        "",
        "?",
        "mailto:someone",
        "://x",
        "a b/ä?ö=%zz",
        "a?b?c",
    ] {
        assert_eq!(Address::canonicalize(link).as_request_target(), link);
    }
}

#[test]
fn canonical_address_round_trips() {
    for link in [
        "https://ilias.studium.kit.edu/ilias.php?z=1&a=%2F",
        "x://y/z://w",
        "ilias.php",
        "https://host/a#https://other/b",
        "a#b",
    ] {
        let once = Address::canonicalize(link);
        let twice = Address::canonicalize(once.as_request_target());
        assert_eq!(once, twice);
        assert_eq!(twice.as_request_target(), once.querypath);
    }
}

#[test]
fn url_takes_a_query_with_a_question_mark() {
    let mut url = Url::parse(ILIAS_URL).unwrap();
    url.set_querypath("/goto.php?target=a?b");
    assert_eq!(url.path(), "/goto.php");
    assert_eq!(url.query(), Some("target=a?b"));
    assert_eq!(url.get_querypath(), "/goto.php?target=a?b");
}

#[test]
fn url_without_room_stays_as_it_was() {
    let mut url = Url::parse("https://ilias.studium.kit.edu/here?there=1#frag").unwrap();
    let long = "a".repeat(357_913_942);
    url.set_querypath(&long);
    assert_eq!(url.as_str(), "https://ilias.studium.kit.edu/here?there=1#frag");
    assert!(!room_for(&url, 357_913_942));
    assert!(!room_for(&url, 357_913_938));
    assert!(room_for(&url, 357_913_000));
    assert!(room_for(&url, 0));
}
