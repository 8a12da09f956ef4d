use grepowski::ai_query::{
    completions_url, ChatRequestFactory, DefaultAiQueryConfig, DEFAULT_MAX_TOKENS,
};
use grepowski::effect::{total_millis, EffectKind, EffectPlan, EffectStep, Region};
use grepowski::theme::{color_to_syntect, Color, SyntectColor, Theme};

#[test]
fn palettes_have_their_colours() {
    let theme = Theme::synthwave();
    assert_eq!(theme.title, Color { r: 0xf8, g: 0x61, b: 0xb4 });
    assert_eq!(theme.highlight, Color { r: 0x00, g: 0xd3, b: 0xbb });
    assert_eq!(theme.text, Color { r: 0xa1, g: 0xb1, b: 0xff });
    assert_eq!(theme.gauge, Color { r: 0x50, g: 0x03, b: 0x23 });
    assert_eq!(theme.border, Color { r: 0x42, g: 0x2a, b: 0xd5 });
    assert_eq!(theme.background, Color { r: 0x09, g: 0x00, b: 0x2f });
    assert!(theme.fx_enabled);
    let theme = Theme::accessibility();
    assert_eq!(theme.title, Color { r: 0xcc, g: 0x79, b: 0xa7 });
    assert_eq!(theme.highlight, Color { r: 0x00, g: 0x9e, b: 0x73 });
    assert_eq!(theme.text, Color { r: 0x56, g: 0xb4, b: 0xe9 });
    assert_eq!(theme.gauge, Color { r: 0xe6, g: 0x9f, b: 0x00 });
    assert_eq!(theme.border, Color { r: 0x42, g: 0x2a, b: 0xd5 });
    assert_eq!(theme.background, Color { r: 0x00, g: 0x00, b: 0x00 });
    assert!(!theme.fx_enabled);
}

#[test]
fn highlighting_uses_the_palette() {
    assert_eq!(
        color_to_syntect(Color { r: 1, g: 2, b: 3 }),
        SyntectColor { r: 1, g: 2, b: 3, a: 0xff }
    );
    let scheme = Theme::synthwave().syntect_theme();
    assert_eq!(scheme.name, "two-color");
    assert_eq!(scheme.author, "auto-generated");
    assert_eq!(scheme.background, SyntectColor { r: 0x09, g: 0x00, b: 0x2f, a: 0xff });
    assert_eq!(scheme.foreground, SyntectColor { r: 0xa1, g: 0xb1, b: 0xff, a: 0xff });
    assert_eq!(scheme.gutter_foreground, scheme.foreground);
    assert_eq!(
        scheme.scope_foreground,
        SyntectColor { r: 0x00, g: 0xd3, b: 0xbb, a: 0xff }
    );
    assert!(scheme.scope.starts_with("variable, variable.other"));
    assert!(scheme.scope.ends_with("string.quoted, string.other"));
    assert_eq!(scheme.scope.split(", ").count(), 17);
}

#[test]
fn effects_follow_the_plan() {
    let plan = EffectPlan::standard();
    assert_eq!(
        plan.intro,
        vec![
            EffectStep { kind: EffectKind::Coalesce, millis: 500, region: Region::Main },
            EffectStep { kind: EffectKind::Sleep, millis: 4000, region: Region::Main },
        ]
    );
    assert_eq!(
        plan.cycle,
        vec![
            EffectStep { kind: EffectKind::Glint, millis: 2500, region: Region::Border },
            EffectStep { kind: EffectKind::Sleep, millis: 7500, region: Region::Everywhere },
        ]
    );
    assert_eq!(plan.intro_millis(), 4500);
    assert_eq!(plan.period_millis(), 10000);
    assert_eq!(total_millis(&Vec::new()), 0);
    let long = vec![
        EffectStep { kind: EffectKind::Sleep, millis: u32::MAX, region: Region::Everywhere };
        3
    ];
    assert_eq!(total_millis(&long), 3 * u32::MAX as u128);
}

#[test]
fn requests_put_the_question_after_the_instructions() {
    let config = DefaultAiQueryConfig;
    assert_eq!(config.max_tokens(), 10000);
    assert_eq!(DEFAULT_MAX_TOKENS, 10000);
    assert!(config.system_prompt().starts_with("You are an evaluation model."));
    assert!(config.system_prompt().contains("0.250 → weak indication."));
    let format: serde_json::Value =
        serde_json::from_str(&config.response_format()).expect("JSON");
    assert_eq!(format["type"], "json_schema");
    assert_eq!(format["json_schema"]["strict"], true);
    assert_eq!(format["json_schema"]["name"], "score");
    assert_eq!(format["json_schema"]["schema"]["type"], "object");
    assert_eq!(format["json_schema"]["schema"]["additionalProperties"], false);
    assert_eq!(
        format["json_schema"]["schema"]["properties"]["reason"]["type"],
        "string"
    );
    assert_eq!(
        format["json_schema"]["schema"]["properties"]["score"]["type"],
        "number"
    );
    assert_eq!(
        format["json_schema"]["schema"]["required"],
        serde_json::Value::Array(vec!["reason".into(), "score".into()])
    );

    assert_eq!(
        completions_url("http://127.0.0.1:8080/v1"),
        "http://127.0.0.1:8080/v1/chat/completions"
    );

    let factory = ChatRequestFactory::new(
        "a-model".to_string(),
        "Judge.".to_string(),
        "{}".to_string(),
        77,
        "Is it safe?".to_string(),
    );
    let request = factory.create("fn main() {}".to_string());
    assert_eq!(request.model, "a-model");
    assert_eq!(request.messages.len(), 2);
    assert_eq!(request.messages[0].role, "system");
    assert_eq!(request.messages[0].content, "Judge. Question: Is it safe?");
    assert_eq!(request.messages[1].role, "user");
    assert_eq!(request.messages[1].content, "fn main() {}");
    assert_eq!(request.max_completion_tokens, 77);
    assert!(!request.stream);
    assert_eq!(request.response_format, "{}");
}
