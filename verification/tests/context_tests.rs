use indexmap::IndexMap;
use yaab::context::{context_from_args, expand};
use yaab::error::BError;

fn ctx_of(pairs: &[(&str, &str)]) -> IndexMap<String, String> {
    let mut ctx: IndexMap<String, String> = IndexMap::new();
    for (k, v) in pairs {
        ctx.insert(k.to_string(), v.to_string());
    }
    ctx
}

#[test]
fn test_expand_replaces_tokens() {
    let ctx = ctx_of(&[("WORK_DIR", "/work")]);
    let out = expand("$#[WORK_DIR]/build/envsetup.sh ", &ctx).expect("expansion should succeed");
    assert_eq!(out, "/work/build/envsetup.sh ");
}

#[test]
fn test_expand_several_tokens() {
    let ctx = ctx_of(&[("A", "1"), ("B", "2")]);
    let out = expand("x$#[A]y$#[B]z", &ctx).unwrap();
    assert_eq!(out, "x1y2z");
}

#[test]
fn test_expand_without_tokens_is_identity() {
    let ctx = ctx_of(&[]);
    assert_eq!(expand("plain text $ # [ ]", &ctx).unwrap(), "plain text $ # [ ]");
    assert_eq!(expand("", &ctx).unwrap(), "");
}

#[test]
fn test_expand_unresolved_token_fails() {
    let ctx = ctx_of(&[("OTHER", "x")]);
    let err = expand("path/$#[MISSING]/tail", &ctx).unwrap_err();
    assert!(matches!(err, BError::ContextExpansionError(_)));
}

#[test]
fn test_expand_unterminated_token_fails() {
    let ctx = ctx_of(&[("A", "x")]);
    let err = expand("head $#[A", &ctx).unwrap_err();
    assert!(matches!(err, BError::ContextExpansionError(_)));
}

#[test]
fn test_expand_is_not_recursive() {
    let ctx = ctx_of(&[("A", "$#[B]"), ("B", "z")]);
    let out = expand("$#[A]", &ctx).unwrap();
    assert_eq!(out, "$#[B]");
}

#[test]
fn test_context_from_args_splits_key_value() {
    let args = vec!["NAME=value".to_string(), "DIR=/work".to_string()];
    let ctx = context_from_args(&args);
    assert_eq!(ctx.get("NAME").unwrap(), "value");
    assert_eq!(ctx.get("DIR").unwrap(), "/work");
}

#[test]
fn test_context_from_args_later_wins() {
    let args = vec!["K=first".to_string(), "K=second".to_string()];
    let ctx = context_from_args(&args);
    assert_eq!(ctx.get("K").unwrap(), "second");
}

#[test]
fn test_context_from_args_value_stops_at_second_separator() {
    let args = vec!["K=a=b".to_string()];
    let ctx = context_from_args(&args);
    assert_eq!(ctx.get("K").unwrap(), "a");
}
