use uap_dict::parser_source_document::{
    DeviceParserSource, OsParserSource, ParserSourceDocument, UserAgentParserSource,
};
use uap_dict::parser_target_documents::{
    apply_regex_flag, convert_device_rules, convert_os_rules, convert_user_agent_rules,
    DeviceParserTarget, OsParserTarget, UserAgentParserTarget,
};

fn s(v: &str) -> String {
    v.to_string()
}

fn device(regex: &str) -> DeviceParserSource {
    DeviceParserSource {
        regex: s(regex),
        regex_flag: None,
        device_replacement: None,
        brand_replacement: None,
        model_replacement: None,
    }
}

fn os(regex: &str) -> OsParserSource {
    OsParserSource {
        regex: s(regex),
        regex_flag: None,
        os_replacement: None,
        os_v1_replacement: None,
        os_v2_replacement: None,
        os_v3_replacement: None,
        os_v4_replacement: None,
    }
}

fn user_agent(regex: &str) -> UserAgentParserSource {
    UserAgentParserSource {
        regex: s(regex),
        regex_flag: None,
        family_replacement: None,
        v1_replacement: None,
        v2_replacement: None,
    }
}

#[test]
fn regex_without_flag_is_unchanged() {
    assert_eq!(apply_regex_flag(None, s("a(b)c")), "a(b)c");
    assert_eq!(apply_regex_flag(None, s("")), "");
}

#[test]
fn regex_with_flag_is_wrapped() {
    assert_eq!(apply_regex_flag(Some(s("i")), s("foo")), "(?i:foo)");
    assert_eq!(apply_regex_flag(Some(s("im")), s("a|b")), "(?im:a|b)");
    assert_eq!(apply_regex_flag(Some(s("")), s("x")), "(?:x)");
    assert_eq!(apply_regex_flag(Some(s("i")), s("")), "(?i:)");
}

#[test]
fn device_rule_example() {
    let mut src = device("foo");
    src.regex_flag = Some(s("i"));
    src.brand_replacement = Some(s("X"));
    let t: DeviceParserTarget = src.into();
    assert_eq!(t.regex, "(?i:foo)");
    assert_eq!(t.device_replacement, "$1");
    assert_eq!(t.brand_replacement, "X");
    assert_eq!(t.model_replacement, "$1");
}

#[test]
fn os_rule_example() {
    let t: OsParserTarget = os("bar").into();
    assert_eq!(t.regex, "bar");
    assert_eq!(t.os_replacement, "$1");
    assert_eq!(t.os_v1_replacement, "$2");
    assert_eq!(t.os_v2_replacement, "$3");
    assert_eq!(t.os_v3_replacement, "$4");
    assert_eq!(t.os_v4_replacement, "$5");
}

#[test]
fn user_agent_rule_example() {
    let mut src = user_agent("baz");
    src.regex_flag = Some(s("x"));
    src.v1_replacement = Some(s("$9"));
    let t: UserAgentParserTarget = src.into();
    assert_eq!(t.regex, "(?x:baz)");
    assert_eq!(t.family_replacement, "$1");
    assert_eq!(t.v1_replacement, "$9");
    assert_eq!(t.v2_replacement, "$3");
}

#[test]
fn device_defaults() {
    let t = DeviceParserTarget::from_source(device("d"));
    assert_eq!(t.regex, "d");
    assert_eq!(t.device_replacement, "$1");
    assert_eq!(t.brand_replacement, "$2");
    assert_eq!(t.model_replacement, "$1");
}

#[test]
fn user_agent_defaults() {
    let t = UserAgentParserTarget::from_source(user_agent("u"));
    assert_eq!(t.regex, "u");
    assert_eq!(t.family_replacement, "$1");
    assert_eq!(t.v1_replacement, "$2");
    assert_eq!(t.v2_replacement, "$3");
}

#[test]
fn device_explicit_values_kept() {
    let src = DeviceParserSource {
        regex: s("r"),
        regex_flag: None,
        device_replacement: Some(s("Phone")),
        brand_replacement: Some(s("")),
        model_replacement: Some(s("$3")),
    };
    let t = DeviceParserTarget::from_source(src);
    assert_eq!(t.device_replacement, "Phone");
    assert_eq!(t.brand_replacement, "");
    assert_eq!(t.model_replacement, "$3");
}

#[test]
fn os_explicit_values_kept() {
    let src = OsParserSource {
        regex: s("r"),
        regex_flag: Some(s("i")),
        os_replacement: Some(s("Linux")),
        os_v1_replacement: Some(s("a")),
        os_v2_replacement: Some(s("b")),
        os_v3_replacement: Some(s("c")),
        os_v4_replacement: Some(s("d")),
    };
    let t = OsParserTarget::from_source(src);
    assert_eq!(t.regex, "(?i:r)");
    assert_eq!(t.os_replacement, "Linux");
    assert_eq!(t.os_v1_replacement, "a");
    assert_eq!(t.os_v2_replacement, "b");
    assert_eq!(t.os_v3_replacement, "c");
    assert_eq!(t.os_v4_replacement, "d");
}

#[test]
fn os_partly_given() {
    let mut src = os("r");
    src.os_v2_replacement = Some(s("$7"));
    let t = OsParserTarget::from(src);
    assert_eq!(t.os_replacement, "$1");
    assert_eq!(t.os_v1_replacement, "$2");
    assert_eq!(t.os_v2_replacement, "$7");
    assert_eq!(t.os_v3_replacement, "$4");
    assert_eq!(t.os_v4_replacement, "$5");
}

#[test]
fn user_agent_explicit_values_kept() {
    let src = UserAgentParserSource {
        regex: s("r"),
        regex_flag: None,
        family_replacement: Some(s("Firefox")),
        v1_replacement: Some(s("1")),
        v2_replacement: Some(s("2")),
    };
    let t = UserAgentParserTarget::from_source(src);
    assert_eq!(t.family_replacement, "Firefox");
    assert_eq!(t.v1_replacement, "1");
    assert_eq!(t.v2_replacement, "2");
}

#[test]
fn lists_keep_their_order() {
    let mut second = device("two");
    second.regex_flag = Some(s("i"));
    let out = convert_device_rules(vec![device("one"), second, device("three")]);
    assert_eq!(out.len(), 3);
    assert_eq!(out[0].regex, "one");
    assert_eq!(out[1].regex, "(?i:two)");
    assert_eq!(out[2].regex, "three");

    let out = convert_os_rules(vec![os("a"), os("b")]);
    assert_eq!(out.len(), 2);
    assert_eq!(out[0].regex, "a");
    assert_eq!(out[1].regex, "b");

    let out = convert_user_agent_rules(vec![user_agent("x"), user_agent("y")]);
    assert_eq!(out.len(), 2);
    assert_eq!(out[0].regex, "x");
    assert_eq!(out[1].regex, "y");
    assert_eq!(out[1].v2_replacement, "$3");
}

#[test]
fn empty_lists_give_empty_lists() {
    let doc = ParserSourceDocument {
        device_parsers: Vec::new(),
        os_parsers: Vec::new(),
        user_agent_parsers: Vec::new(),
    };
    assert!(convert_device_rules(doc.device_parsers).is_empty());
    assert!(convert_os_rules(doc.os_parsers).is_empty());
    assert!(convert_user_agent_rules(doc.user_agent_parsers).is_empty());
}
