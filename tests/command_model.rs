use httpie_lite::error::ArgError;
use httpie_lite::intent::{parse_arguments, RequestIntent, Verb};
use httpie_lite::kv::{parse_kv_pair, KvPair};
use httpie_lite::url::parse_url;

fn words(ws: &[&str]) -> Vec<String> {
    ws.iter().map(|w| w.to_string()).collect()
}

#[test]
fn url_without_scheme_is_rejected() {
    assert!(matches!(parse_url("abc"), Err(ArgError::InvalidUrl(u)) if u == "abc"));
}

#[test]
fn absolute_urls_are_accepted() {
    assert_eq!(parse_url("http://abc.xyz").unwrap(), "http://abc.xyz");
    assert_eq!(parse_url("https://httpbin.org/post").unwrap(), "https://httpbin.org/post");
}

#[test]
fn url_without_host_is_rejected() {
    assert!(matches!(parse_url("data:text/plain,Stuff"), Err(ArgError::InvalidUrl(_))));
    assert!(matches!(parse_url(""), Err(ArgError::InvalidUrl(_))));
}

#[test]
fn token_without_equals_is_rejected() {
    assert!(matches!(parse_kv_pair("a"), Err(ArgError::InvalidKeyValuePair(t)) if t == "a"));
}

#[test]
fn token_with_empty_key_is_rejected() {
    assert!(matches!(parse_kv_pair("=1"), Err(ArgError::InvalidKeyValuePair(_))));
    assert!(matches!(parse_kv_pair(""), Err(ArgError::InvalidKeyValuePair(_))));
}

#[test]
fn simple_pair_is_split() {
    let p = parse_kv_pair("a=1").unwrap();
    assert_eq!(p.k, "a");
    assert_eq!(p.v, "1");
}

#[test]
fn first_equals_wins() {
    let p = parse_kv_pair("a=b=c").unwrap();
    assert_eq!(p.k, "a");
    assert_eq!(p.v, "b=c");
}

#[test]
fn empty_value_is_kept() {
    let p = parse_kv_pair("key=").unwrap();
    assert_eq!(p.k, "key");
    assert_eq!(p.v, "");
}

#[test]
fn pair_parses_through_from_str() {
    let p: KvPair = "name=café".parse().unwrap();
    assert_eq!(p.k, "name");
    assert_eq!(p.v, "café");
    assert!("novalue".parse::<KvPair>().is_err());
}

#[test]
fn get_without_url_is_a_usage_error() {
    assert!(matches!(parse_arguments(&words(&["get"])), Err(ArgError::UsageError)));
    assert!(matches!(parse_arguments(&words(&[])), Err(ArgError::UsageError)));
}

#[test]
fn unknown_subcommand_is_a_usage_error() {
    assert!(matches!(
        parse_arguments(&words(&["put", "https://example.com"])),
        Err(ArgError::UsageError)
    ));
}

#[test]
fn flag_is_a_usage_error() {
    assert!(matches!(
        parse_arguments(&words(&["get", "--verbose", "https://example.com"])),
        Err(ArgError::UsageError)
    ));
}

#[test]
fn get_with_extra_argument_is_a_usage_error() {
    assert!(matches!(
        parse_arguments(&words(&["get", "https://example.com", "a=1"])),
        Err(ArgError::UsageError)
    ));
}

#[test]
fn get_command_is_parsed() {
    let r = parse_arguments(&words(&["get", "https://example.com"])).unwrap();
    assert_eq!(r.verb, Verb::Get);
    assert_eq!(r.url, "https://example.com");
    assert!(r.body.is_empty());
}

#[test]
fn post_command_is_parsed() {
    let r = parse_arguments(&words(&["post", "https://example.com", "a=1", "b=x=y"])).unwrap();
    assert_eq!(r.verb, Verb::Post);
    assert_eq!(r.url, "https://example.com");
    assert_eq!(r.body.len(), 2);
    assert_eq!((r.body[0].k.as_str(), r.body[0].v.as_str()), ("a", "1"));
    assert_eq!((r.body[1].k.as_str(), r.body[1].v.as_str()), ("b", "x=y"));
}

#[test]
fn post_with_bad_url_is_an_invalid_url() {
    assert!(matches!(
        parse_arguments(&words(&["post", "abc", "a"])),
        Err(ArgError::InvalidUrl(_))
    ));
}

#[test]
fn post_with_bad_token_is_an_invalid_pair() {
    assert!(matches!(
        parse_arguments(&words(&["post", "https://example.com", "a=1", "b"])),
        Err(ArgError::InvalidKeyValuePair(_))
    ));
}

#[test]
fn intent_from_parts_checks_each_part() {
    let ok = RequestIntent::from_parts(Verb::Post, "http://abc.xyz", &words(&["k=v"])).unwrap();
    assert_eq!(ok.body[0].k, "k");
    assert!(matches!(
        RequestIntent::from_parts(Verb::Get, "http://abc.xyz", &words(&["k=v"])),
        Err(ArgError::UsageError)
    ));
    assert!(matches!(
        RequestIntent::from_parts(Verb::Get, "abc", &words(&[])),
        Err(ArgError::InvalidUrl(_))
    ));
}

#[test]
fn errors_describe_themselves() {
    assert_eq!(
        ArgError::UsageError.describe(),
        "usage: get <url> | post <url> [key=value ...]"
    );
    assert_eq!(
        ArgError::InvalidUrl("abc".to_string()).describe(),
        "invalid URL (expected an absolute URL with a host): abc"
    );
    let e = parse_kv_pair("novalue").unwrap_err();
    assert_eq!(e.describe(), "Failed to parse novalue (expected key=value with a non-empty key)");
}

#[test]
fn from_str_follows_the_pair_rules() {
    assert!(matches!("=1".parse::<KvPair>(), Err(ArgError::InvalidKeyValuePair(t)) if t == "=1"));
    assert!("".parse::<KvPair>().is_err());
    assert!("abc".parse::<KvPair>().is_err());
    let p: KvPair = "a=".parse().unwrap();
    assert_eq!((p.k.as_str(), p.v.as_str()), ("a", ""));
    let p: KvPair = "a==b".parse().unwrap();
    assert_eq!((p.k.as_str(), p.v.as_str()), ("a", "=b"));
}

#[test]
fn from_str_agrees_with_parse_kv_pair() {
    for t in ["a=1", "a=b=c", "x", "=y", "k="] {
        let a = t.parse::<KvPair>();
        let b = parse_kv_pair(t);
        assert_eq!(a.is_ok(), b.is_ok());
        if let (Ok(a), Ok(b)) = (a, b) {
            assert_eq!((a.k, a.v), (b.k, b.v));
        }
    }
}
