use totpgen::config::TokenConfig;
use totpgen::output::{render_output, FormatError};

fn record(format: Option<&str>) -> TokenConfig {
    TokenConfig {
        secret: String::from("potato"),
        digits: 6,
        timestep: 30,
        format: format.map(String::from),
    }
}

#[test]
fn without_a_template_the_token_is_printed() {
    let text = render_output("mail", &record(None), "909468", false).unwrap();
    assert_eq!(text, "909468");
}

#[test]
fn formatting_can_be_ignored() {
    let config = record(Some("Your code is {token}"));
    assert_eq!(
        render_output("mail", &config, "909468", true).unwrap(),
        "909468"
    );
    assert_eq!(
        render_output("mail", &record(None), "909468", true).unwrap(),
        "909468"
    );
    // Not even a template that cannot be expanded is looked at.
    assert_eq!(
        render_output("mail", &record(Some("{")), "909468", true).unwrap(),
        "909468"
    );
}

#[test]
fn template_with_the_token() {
    let config = record(Some("Your code is {token}"));
    assert_eq!(
        render_output("mail", &config, "909468", false).unwrap(),
        "Your code is 909468"
    );
}

#[test]
fn template_with_every_variable() {
    let config = record(Some("{id}/{secret}/{digits}/{timestep}/{token}"));
    assert_eq!(
        render_output("mail", &config, "909468", false).unwrap(),
        "mail/potato/6/30/909468"
    );
}

#[test]
fn template_with_numbers_of_many_digits() {
    let config = TokenConfig {
        secret: String::from("s"),
        digits: 19,
        timestep: u64::MAX,
        format: Some(String::from("{digits} {timestep}")),
    };
    assert_eq!(
        render_output("x", &config, "0", false).unwrap(),
        "19 18446744073709551615"
    );
}

#[test]
fn template_without_variables() {
    let config = record(Some("no code today"));
    assert_eq!(
        render_output("mail", &config, "909468", false).unwrap(),
        "no code today"
    );
    assert_eq!(
        render_output("mail", &record(Some("")), "909468", false).unwrap(),
        ""
    );
}

#[test]
fn template_with_escaped_braces() {
    let config = record(Some("{{{token}}}"));
    assert_eq!(
        render_output("mail", &config, "909468", false).unwrap(),
        "{909468}"
    );
}

#[test]
fn template_with_width_and_alignment() {
    assert_eq!(
        render_output("mail", &record(Some("[{token:>8}]")), "909468", false).unwrap(),
        "[  909468]"
    );
    assert_eq!(
        render_output("mail", &record(Some("[{token:<8}]")), "909468", false).unwrap(),
        "[909468  ]"
    );
    assert_eq!(
        render_output("mail", &record(Some("[{id:*^8}]")), "mail", false).unwrap(),
        "[**mail**]"
    );
}

#[test]
fn template_with_an_unknown_variable() {
    let result = render_output("mail", &record(Some("{code}")), "909468", false);
    assert!(matches!(result, Err(FormatError::UnknownVariable(_))));
}

#[test]
fn template_that_is_malformed() {
    for template in ["{", "}", "{token", "token}", "{}", "{token{id}}"] {
        let result = render_output("mail", &record(Some(template)), "909468", false);
        assert!(matches!(result, Err(FormatError::Invalid(_))));
    }
}

#[test]
fn template_that_asks_for_a_number_form() {
    let result = render_output("mail", &record(Some("{token:x}")), "909468", false);
    assert!(matches!(result, Err(FormatError::Type(_))));
    let result = render_output("mail", &record(Some("{token:+}")), "909468", false);
    assert!(matches!(result, Err(FormatError::Type(_))));
}

#[test]
fn template_with_text_beyond_ascii() {
    let config = record(Some("cód: {token} ✓ {id}"));
    assert_eq!(
        render_output("bänk", &config, "909468", false).unwrap(),
        "cód: 909468 ✓ bänk"
    );
}

#[test]
fn format_error_carries_the_reason() {
    match render_output("mail", &record(Some("{code}")), "909468", false) {
        Err(FormatError::UnknownVariable(reason)) => assert_eq!(reason, "Invalid key: code"),
        other => panic!("unexpected: {:?}", other),
    }
}
