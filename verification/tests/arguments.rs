use pit::argument::{
    Argument, ArgumentValue, Arguments, CompileError, PlaceholderTable,
};
use pit::rule::{Architecture, Features, HostPlatform, OperatingSystem, Rule, RuleAction};

fn host() -> HostPlatform {
    HostPlatform { os: OperatingSystem::Linux, arch: Architecture::X64 }
}

fn compile_game(entries: Vec<Argument>, table: &PlaceholderTable) -> Vec<String> {
    let arguments = Arguments::Split { game: entries, jvm: Vec::new() };
    let compiled = arguments
        .compile(table, Features::empty(), &host())
        .expect("split arguments must compile");
    assert!(compiled.jvm.is_empty());
    compiled.game
}

fn deny_rule() -> Rule {
    Rule { action: RuleAction::Disallow, platform: None, features: None }
}

fn allow_rule() -> Rule {
    Rule { action: RuleAction::Allow, platform: None, features: None }
}

#[test]
fn empty_template_compiles_to_empty_lists() {
    let arguments = Arguments::Split { game: Vec::new(), jvm: Vec::new() };
    let compiled = arguments
        .compile(&PlaceholderTable::new(), Features::empty(), &host())
        .expect("empty template must compile");
    assert!(compiled.game.is_empty());
    assert!(compiled.jvm.is_empty());
}

#[test]
fn denied_entry_contributes_nothing() {
    let entries = vec![Argument::Ruled {
        rules: vec![deny_rule()],
        value: ArgumentValue::Single("-X".to_string()),
    }];
    let compiled = compile_game(entries, &PlaceholderTable::new());
    assert!(compiled.is_empty());
}

#[test]
fn allowed_entry_contributes_its_tokens() {
    let entries = vec![Argument::Ruled {
        rules: vec![allow_rule()],
        value: ArgumentValue::Multiple(vec!["--one".to_string(), "--two".to_string()]),
    }];
    let compiled = compile_game(entries, &PlaceholderTable::new());
    assert_eq!(compiled, vec!["--one".to_string(), "--two".to_string()]);
}

#[test]
fn flag_and_resolved_placeholder_are_paired() {
    let entries = vec![
        Argument::Literal("--flag".to_string()),
        Argument::Literal("${session}".to_string()),
    ];
    let mut table = PlaceholderTable::new();
    table.set("session".to_string(), "abc".to_string());
    let compiled = compile_game(entries, &table);
    assert_eq!(compiled, vec!["--flag".to_string(), "abc".to_string()]);
}

#[test]
fn flag_and_unresolved_placeholder_are_both_dropped() {
    let entries = vec![
        Argument::Literal("--flag".to_string()),
        Argument::Literal("${session}".to_string()),
    ];
    let compiled = compile_game(entries, &PlaceholderTable::new());
    assert!(compiled.is_empty());
}

#[test]
fn inline_substitution_keeps_prefix() {
    let entries = vec![Argument::Literal("--user=${name}".to_string())];
    let mut table = PlaceholderTable::new();
    table.set("name".to_string(), "joe".to_string());
    let compiled = compile_game(entries, &table);
    assert_eq!(compiled, vec!["--user=joe".to_string()]);
}

#[test]
fn inline_substitution_keeps_suffix() {
    let entries = vec![Argument::Literal("a${x}b".to_string())];
    let mut table = PlaceholderTable::new();
    table.set("x".to_string(), "Y".to_string());
    let compiled = compile_game(entries, &table);
    assert_eq!(compiled, vec!["aYb".to_string()]);
}

#[test]
fn unresolved_inline_token_is_dropped() {
    let entries = vec![Argument::Literal("pre${nothing}post".to_string())];
    let compiled = compile_game(entries, &PlaceholderTable::new());
    assert!(compiled.is_empty());
}

#[test]
fn plain_tokens_pass_through_verbatim() {
    let entries = vec![
        Argument::Literal("-u".to_string()),
        Argument::Literal("plain".to_string()),
    ];
    let compiled = compile_game(entries, &PlaceholderTable::new());
    assert_eq!(compiled, vec!["-u".to_string(), "plain".to_string()]);
}

#[test]
fn trailing_value_flag_is_emitted_alone() {
    let entries = vec![Argument::Literal("-u".to_string())];
    let compiled = compile_game(entries, &PlaceholderTable::new());
    assert_eq!(compiled, vec!["-u".to_string()]);
}

#[test]
fn runtime_internal_prefixes_are_not_value_flags() {
    let entries = vec![
        Argument::Literal("-Xmx2G".to_string()),
        Argument::Literal("${heap}".to_string()),
    ];
    let table = PlaceholderTable::new();
    let compiled = compile_game(entries, &table);
    // `-X...` is no value-expecting flag, so no pairing: the flag stays and
    // the unresolved bare placeholder drops on its own.
    assert_eq!(compiled, vec!["-Xmx2G".to_string()]);
}

#[test]
fn property_prefix_substitutes_inline() {
    let entries = vec![Argument::Literal("-Dkey=${v}".to_string())];
    let mut table = PlaceholderTable::new();
    table.set("v".to_string(), "val".to_string());
    let compiled = compile_game(entries, &table);
    assert_eq!(compiled, vec!["-Dkey=val".to_string()]);
}

#[test]
fn latest_binding_wins() {
    let entries = vec![Argument::Literal("${name}".to_string())];
    let mut table = PlaceholderTable::new();
    table.set("name".to_string(), "first".to_string());
    table.set("name".to_string(), "second".to_string());
    let compiled = compile_game(entries, &table);
    assert_eq!(compiled, vec!["second".to_string()]);
}

#[test]
fn legacy_encoding_is_unsupported_not_a_parse_error() {
    let arguments = Arguments::Minecraft("--username joe --session abc".to_string());
    let result = arguments.compile(&PlaceholderTable::new(), Features::empty(), &host());
    assert!(matches!(result, Err(CompileError::UnsupportedEncoding)));
}

#[test]
fn get_if_allowed_filters_by_rules() {
    let denied = Argument::Ruled {
        rules: vec![deny_rule()],
        value: ArgumentValue::Single("never".to_string()),
    };
    assert!(denied.get_if_allowed(Features::empty(), &host()).is_none());

    let allowed = Argument::Ruled {
        rules: vec![allow_rule()],
        value: ArgumentValue::Single("always".to_string()),
    };
    assert_eq!(
        allowed.get_if_allowed(Features::empty(), &host()),
        Some(vec!["always".to_string()])
    );

    let literal = Argument::Literal("plain".to_string());
    assert_eq!(
        literal.get_if_allowed(Features::empty(), &host()),
        Some(vec!["plain".to_string()])
    );
}

#[test]
fn raw_flattens_single_and_multiple() {
    assert_eq!(
        ArgumentValue::Single("one".to_string()).raw(),
        vec!["one".to_string()]
    );
    assert_eq!(
        ArgumentValue::Multiple(vec!["a".to_string(), "b".to_string()]).raw(),
        vec!["a".to_string(), "b".to_string()]
    );
}
