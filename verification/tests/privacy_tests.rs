use aiql_core::json::JsonValue;
use aiql_core::privacy::SimplePrivacyGuard;

#[test]
fn scrubs_email_and_card() {
    let g = SimplePrivacyGuard::try_new().unwrap();
    assert_eq!(
        g.scrub_prompt("Find orders of john.doe@example.com paid with 4111 1111 1111 1111"),
        "Find orders of [EMAIL] paid with [CARD]"
    );
    assert_eq!(g.scrub_prompt("nothing personal"), "nothing personal");
}

#[test]
fn masks_nested_strings_only() {
    let g = SimplePrivacyGuard::try_new().unwrap();
    let data = JsonValue::Array(vec![
        JsonValue::Object(vec![
            ("email".to_string(), JsonValue::String("a@b.io".to_string())),
            ("age".to_string(), JsonValue::Number("41".to_string())),
            ("tags".to_string(), JsonValue::Array(vec![JsonValue::String("x@y.com and z".to_string()), JsonValue::Null])),
        ]),
        JsonValue::Bool(true),
    ]);
    let masked = g.mask_results(&data);
    let text = format!("{:?}", masked);
    assert_eq!(
        text,
        format!(
            "{:?}",
            JsonValue::Array(vec![
                JsonValue::Object(vec![
                    ("email".to_string(), JsonValue::String("[EMAIL]".to_string())),
                    ("age".to_string(), JsonValue::Number("41".to_string())),
                    ("tags".to_string(), JsonValue::Array(vec![JsonValue::String("[EMAIL] and z".to_string()), JsonValue::Null])),
                ]),
                JsonValue::Bool(true),
            ])
        )
    );
}

#[test]
fn scrubbing_twice_changes_nothing_more() {
    let g = SimplePrivacyGuard::try_new().unwrap();
    for prompt in [
        "mail a@b.io and c.d@e-f.org, card 4111-1111-1111-1111",
        "numbers 1234567890123 and 12 34",
        "nothing to hide",
    ] {
        let once = g.scrub_prompt(prompt);
        assert_eq!(g.scrub_prompt(&once), once);
    }
}
