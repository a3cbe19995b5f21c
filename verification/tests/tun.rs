use clash_verge::document::{Document, Scalar, Value};
use clash_verge::enhance::tun::use_tun;

fn flag(b: bool) -> Value {
    Value::Scalar(Scalar::Bool(b))
}

fn text(s: &str) -> Value {
    Value::Scalar(Scalar::Str(s.to_string()))
}

fn map(entries: Vec<(&str, Value)>) -> Document {
    let mut m = Document::new();
    for (key, value) in entries {
        m.set(key.to_string(), value);
    }
    m
}

fn normalised_dns() -> Document {
    map(vec![("enable", flag(true)), ("ipv6", flag(true)), ("enhanced-mode", text("redir-host"))])
}

#[test]
fn empty_sections_with_tunnel_off() {
    let base = map(vec![("tun", Value::Mapping(Document::new())), ("dns", Value::Mapping(Document::new()))]);

    let result = use_tun(base, false);

    let expected = map(
        vec![
            ("tun", Value::Mapping(map(vec![("enable", flag(false))]))),
            ("dns", Value::Mapping(normalised_dns())),
        ],
    );
    assert_eq!(result, expected);
}

#[test]
fn dns_is_normalised_for_either_flag() {
    let base = map(vec![("mode", text("rule")), ("dns", Value::Mapping(map(vec![("ipv6", flag(false))])))]);
    let on = use_tun(base.clone(), true);
    let off = use_tun(base, false);

    assert_eq!(on.get("dns"), off.get("dns"));
    let dns = on.get("dns").unwrap().as_mapping().unwrap();
    assert_eq!(dns.get("enable"), Some(&flag(true)));
    assert_eq!(dns.get("ipv6"), Some(&flag(true)));
    assert_eq!(dns.get("enhanced-mode"), Some(&text("redir-host")));

    assert_eq!(on.get("tun").unwrap().as_mapping().unwrap().get("enable"), Some(&flag(true)));
    assert_eq!(off.get("tun").unwrap().as_mapping().unwrap().get("enable"), Some(&flag(false)));
    assert_eq!(on.get("mode"), off.get("mode"));
    assert_eq!(on.len(), off.len());
    assert_ne!(on, off);
}

#[test]
fn missing_sections_are_added_at_the_end() {
    let result = use_tun(map(vec![("mtu", Value::Scalar(Scalar::Int(7890)))]), true);
    let expected = map(
        vec![
            ("mtu", Value::Scalar(Scalar::Int(7890))),
            ("tun", Value::Mapping(map(vec![("enable", flag(true))]))),
            ("dns", Value::Mapping(normalised_dns())),
        ],
    );
    assert_eq!(result, expected);
}

#[test]
fn other_settings_of_the_sections_stay() {
    let base = map(
        vec![
            ("dns", Value::Mapping(map(vec![("nameserver", Value::Sequence(vec![text("1.1.1.1")])), ("enable", flag(false))]))),
            ("tun", Value::Mapping(map(vec![("stack", text("gvisor")), ("enable", flag(true))]))),
        ],
    );
    let result = use_tun(base, false);
    let expected = map(
        vec![
            (
                "dns",
                Value::Mapping(
                    map(
                        vec![
                            ("nameserver", Value::Sequence(vec![text("1.1.1.1")])),
                            ("enable", flag(true)),
                            ("ipv6", flag(true)),
                            ("enhanced-mode", text("redir-host")),
                        ],
                    ),
                ),
            ),
            ("tun", Value::Mapping(map(vec![("stack", text("gvisor")), ("enable", flag(false))]))),
        ],
    );
    assert_eq!(result, expected);
}

#[test]
fn a_section_that_is_no_mapping_starts_empty() {
    let base = map(vec![("tun", text("yes")), ("dns", Value::Sequence(vec![]))]);
    let result = use_tun(base, true);
    let expected = map(
        vec![
            ("tun", Value::Mapping(map(vec![("enable", flag(true))]))),
            ("dns", Value::Mapping(normalised_dns())),
        ],
    );
    assert_eq!(result, expected);
}

#[test]
fn the_toggle_is_idempotent() {
    let once = use_tun(map(vec![("a", flag(true))]), true);
    let twice = use_tun(once.clone(), true);
    assert_eq!(once, twice);
}
