use auth_test::assembler::{assemble, resolve_result, AuthStatus};
use auth_test::codec::{
    decode, decode_attributes, decode_text, encode, encode_attributes, encode_text,
};
use auth_test::delivery::{
    attach_result, contains_query, deliver_inline, deliver_out_of_band, JWT_CONTENT_TYPE,
};
use auth_test::error::{ConfigError, ProviderError};
use auth_test::policy::Config;
use auth_test::routes::{rocket, Method};
use auth_test::start::{start_authentication, StartAuthRequest};

fn config(with_session: bool) -> Config {
    Config {
        server_url: "https://as.example".to_string(),
        with_session,
        attributes: vec![
            ("name".to_string(), "Jan de Vries".to_string()),
            ("email".to_string(), "jan@example.org".to_string()),
        ],
    }
}

fn names(list: &[&str]) -> Vec<String> {
    list.iter().map(|s| s.to_string()).collect()
}

fn segments(url: &str) -> Vec<String> {
    let rest = url.strip_prefix("https://as.example/browser/").expect("base and route");
    rest.split('/').map(|s| s.to_string()).collect()
}

#[test]
fn encode_gives_url_safe_base64() {
    assert_eq!(encode(&[0xfb, 0xff]), "-_8=");
    assert_eq!(encode(b"hello"), "aGVsbG8=");
    assert_eq!(encode(&[]), "");
}

#[test]
fn decode_inverts_encode() {
    let samples: Vec<Vec<u8>> = vec![vec![], vec![0], vec![0xfb, 0xff], (0..=255).collect()];
    for b in samples {
        assert_eq!(decode(&encode(&b)).unwrap(), b);
    }
    assert_eq!(decode("-_8=").unwrap(), vec![0xfb, 0xff]);
}

#[test]
fn decode_rejects_other_alphabet() {
    assert!(matches!(decode("+/8="), Err(ProviderError::Decode(_))));
    assert!(matches!(decode("a@b="), Err(ProviderError::Decode(_))));
    assert!(matches!(decode("abcde"), Err(ProviderError::Decode(_))));
}

#[test]
fn attributes_round_trip() {
    for list in [names(&[]), names(&["name"]), names(&["name", "email", "name"])] {
        let token = encode_attributes(&list).unwrap();
        assert_eq!(decode_attributes(&token).unwrap(), list);
    }
    assert_eq!(encode_attributes(&names(&["name"])).unwrap(), "WyJuYW1lIl0=");
    assert_eq!(encode_attributes(&names(&["name", "email"])).unwrap(), "WyJuYW1lIiwiZW1haWwiXQ==");
}

#[test]
fn decode_attributes_names_failing_stage() {
    assert!(matches!(decode_attributes("%%%"), Err(ProviderError::Decode(_))));
    assert!(matches!(decode_attributes("bm90IGpzb24="), Err(ProviderError::Json(_))));
}

#[test]
fn text_round_trip() {
    for s in ["https://rp.example/done", "", "https://rp.example/ü?x=1&y=2"] {
        assert_eq!(decode_text(&encode_text(s)).unwrap(), s);
    }
    assert_eq!(encode_text("https://rp.example/done"), "aHR0cHM6Ly9ycC5leGFtcGxlL2RvbmU=");
}

#[test]
fn decode_text_names_failing_stage() {
    assert!(matches!(decode_text("!"), Err(ProviderError::Decode(_))));
    assert!(matches!(decode_text("__4="), Err(ProviderError::Utf(_))));
}

#[test]
fn policy_lookup_and_verify() {
    let c = config(false);
    assert_eq!(c.lookup(&"email".to_string()), Some("jan@example.org".to_string()));
    assert_eq!(c.lookup(&"phone".to_string()), None);
    assert!(c.verify_attributes(&names(&["name", "email"])).is_ok());
    assert!(c.verify_attributes(&names(&[])).is_ok());
    match c.verify_attributes(&names(&["name", "phone", "age"])) {
        Err(ConfigError::UnknownAttribute(n)) => assert_eq!(n, "phone"),
        other => panic!("unexpected {:?}", other),
    }
}

#[test]
fn policy_first_entry_wins() {
    let mut c = config(false);
    c.attributes.push(("name".to_string(), "Other".to_string()));
    assert_eq!(c.lookup(&"name".to_string()), Some("Jan de Vries".to_string()));
}

#[test]
fn map_attributes_keeps_request_order() {
    let c = config(false);
    let v = c.map_attributes(&names(&["email", "name"])).unwrap();
    assert_eq!(
        v,
        vec![
            ("email".to_string(), "jan@example.org".to_string()),
            ("name".to_string(), "Jan de Vries".to_string()),
        ]
    );
    match c.map_attributes(&names(&["email", "phone"])) {
        Err(ConfigError::UnknownAttribute(n)) => assert_eq!(n, "phone"),
        other => panic!("unexpected {:?}", other),
    }
}

#[test]
fn assemble_with_and_without_session() {
    let r = assemble(&config(true), &names(&["name"])).unwrap();
    assert_eq!(r.status, AuthStatus::Success);
    assert_eq!(r.attributes, Some(vec![("name".to_string(), "Jan de Vries".to_string())]));
    assert_eq!(r.session_url, Some("https://as.example/session/update".to_string()));
    let r = assemble(&config(false), &names(&["name"])).unwrap();
    assert_eq!(r.session_url, None);
}

#[test]
fn assemble_passes_policy_refusal_on() {
    match assemble(&config(true), &names(&["phone"])) {
        Err(ProviderError::Config(ConfigError::UnknownAttribute(n))) => assert_eq!(n, "phone"),
        other => panic!("unexpected {:?}", other),
    }
}

#[test]
fn resolve_result_from_token() {
    let token = encode_attributes(&names(&["email"])).unwrap();
    let r = resolve_result(&config(false), &token).unwrap();
    assert_eq!(r.attributes, Some(vec![("email".to_string(), "jan@example.org".to_string())]));
    assert!(matches!(resolve_result(&config(false), "***"), Err(ProviderError::Decode(_))));
    assert!(matches!(resolve_result(&config(false), "bm90IGpzb24="), Err(ProviderError::Json(_))));
    let bad = encode_attributes(&names(&["phone"])).unwrap();
    assert!(matches!(resolve_result(&config(false), &bad), Err(ProviderError::Config(_))));
}

#[test]
fn tie_break_on_query() {
    assert!(!contains_query("https://rp.example/done"));
    assert!(contains_query("https://rp.example/done?x=1"));
    assert_eq!(attach_result("https://rp.example/done", "TOK"), "https://rp.example/done?result=TOK");
    assert_eq!(
        attach_result("https://rp.example/done?x=1", "TOK"),
        "https://rp.example/done?x=1&result=TOK"
    );
}

#[test]
fn deliver_inline_decodes_continuation() {
    let r = deliver_inline(&encode_text("https://rp.example/done?s=2"), "TOK").unwrap();
    assert_eq!(r.location, "https://rp.example/done?s=2&result=TOK");
    assert!(matches!(deliver_inline("#", "TOK"), Err(ProviderError::Decode(_))));
    assert!(matches!(deliver_inline("__4=", "TOK"), Err(ProviderError::Utf(_))));
}

#[test]
fn out_of_band_redirects_to_bare_continuation() {
    let plan = deliver_out_of_band(
        &encode_text("https://rp.example/done"),
        &encode_text("https://rp.example/cb"),
        "TOK",
    )
    .unwrap();
    assert_eq!(plan.redirect.location, "https://rp.example/done");
    assert_eq!(plan.push.url, "https://rp.example/cb");
    assert_eq!(plan.push.body, "TOK");
    assert_eq!(plan.push.content_type, JWT_CONTENT_TYPE);
    assert_eq!(JWT_CONTENT_TYPE, "application/jwt");
}

#[test]
fn out_of_band_redirect_ignores_unreachable_callback() {
    // The callback points nowhere reachable; the redirect is the same as for a
    // reachable one, since it is fixed before any push.
    let good = deliver_out_of_band(
        &encode_text("https://rp.example/done"),
        &encode_text("https://rp.example/cb"),
        "TOK",
    )
    .unwrap();
    let bad = deliver_out_of_band(
        &encode_text("https://rp.example/done"),
        &encode_text("http://127.0.0.1:1/unreachable"),
        "TOK",
    )
    .unwrap();
    assert_eq!(good.redirect.location, bad.redirect.location);
}

#[test]
fn out_of_band_decode_errors() {
    let cont = encode_text("https://rp.example/done");
    assert!(matches!(deliver_out_of_band("*", &cont, "T"), Err(ProviderError::Decode(_))));
    assert!(matches!(deliver_out_of_band(&cont, "*", "T"), Err(ProviderError::Decode(_))));
    assert!(matches!(deliver_out_of_band(&cont, "__4=", "T"), Err(ProviderError::Utf(_))));
}

#[test]
fn start_rejects_unknown_attribute() {
    let request = StartAuthRequest {
        attributes: names(&["name", "phone"]),
        continuation: "https://rp.example/done".to_string(),
        attr_url: None,
    };
    match start_authentication(&config(false), &request) {
        Err(ProviderError::Config(ConfigError::UnknownAttribute(n))) => assert_eq!(n, "phone"),
        other => panic!("unexpected {:?}", other),
    }
}

#[test]
fn start_url_without_callback() {
    let request = StartAuthRequest {
        attributes: names(&["name"]),
        continuation: "https://rp.example/done".to_string(),
        attr_url: None,
    };
    let response = start_authentication(&config(false), &request).unwrap();
    assert_eq!(
        response.client_url,
        "https://as.example/browser/WyJuYW1lIl0=/aHR0cHM6Ly9ycC5leGFtcGxlL2RvbmU="
    );
}

#[test]
fn start_url_with_callback() {
    let request = StartAuthRequest {
        attributes: names(&["name"]),
        continuation: "https://rp.example/done".to_string(),
        attr_url: Some("https://rp.example/cb".to_string()),
    };
    let response = start_authentication(&config(false), &request).unwrap();
    assert_eq!(
        response.client_url,
        "https://as.example/browser/WyJuYW1lIl0=/aHR0cHM6Ly9ycC5leGFtcGxlL2RvbmU=/aHR0cHM6Ly9ycC5leGFtcGxlL2Ni"
    );
}

#[test]
fn end_to_end_inline() {
    let c = config(false);
    let request = StartAuthRequest {
        attributes: names(&["name"]),
        continuation: "https://rp.example/done".to_string(),
        attr_url: None,
    };
    let url = start_authentication(&c, &request).unwrap().client_url;
    let parts = segments(&url);
    assert_eq!(parts.len(), 2);
    let result = resolve_result(&c, &parts[0]).unwrap();
    assert_eq!(result.status, AuthStatus::Success);
    assert_eq!(result.attributes, Some(vec![("name".to_string(), "Jan de Vries".to_string())]));
    // The sealed token stands in for what the signing capability returns.
    let redirect = deliver_inline(&parts[1], "SEALED").unwrap();
    assert_eq!(redirect.location, "https://rp.example/done?result=SEALED");
}

#[test]
fn end_to_end_out_of_band() {
    let c = config(true);
    let request = StartAuthRequest {
        attributes: names(&["email", "name"]),
        continuation: "https://rp.example/done?lang=nl".to_string(),
        attr_url: Some("https://rp.example/cb".to_string()),
    };
    let url = start_authentication(&c, &request).unwrap().client_url;
    let parts = segments(&url);
    assert_eq!(parts.len(), 3);
    let result = resolve_result(&c, &parts[0]).unwrap();
    assert_eq!(result.session_url, Some("https://as.example/session/update".to_string()));
    let plan = deliver_out_of_band(&parts[1], &parts[2], "SEALED").unwrap();
    assert_eq!(plan.redirect.location, "https://rp.example/done?lang=nl");
    assert_eq!(plan.push.url, "https://rp.example/cb");
}

#[test]
fn route_table_lists_the_four_routes() {
    let table: Vec<(Method, String)> = rocket().into_iter().map(|r| (r.method, r.path)).collect();
    assert_eq!(
        table,
        vec![
            (Method::Post, "/start_authentication".to_string()),
            (Method::Get, "/browser/<attributes>/<continuation>".to_string()),
            (Method::Get, "/browser/<attributes>/<continuation>/<attr_url>".to_string()),
            (Method::Post, "/session/update?<typedata..>".to_string()),
        ]
    );
}
