use clap_conf::env::Enver;
use clap_conf::replace::{replace, replace_env, replace_simple, ConfError, Resolver};

struct LowerRes;

impl Resolver for LowerRes {
    // The ghost half of the trait is erased from compiled code; this body
    // is never run.
    fn res_spec(
        &self,
        _name: vstd::seq::Seq<char>,
    ) -> Result<vstd::seq::Seq<char>, ConfError> {
        panic!()
    }

    fn resolve(&self, name: &str) -> Result<String, ConfError> {
        Ok(name.to_lowercase())
    }
}

#[test]
pub fn rep_test() {
    let s2 = replace_simple("HELLO{WORLD}", &LowerRes).unwrap();
    assert_eq!(&s2, "HELLOworld");
}

#[test]
fn rep_escape_literal_brace() {
    let s = replace_simple("a\\{b", &LowerRes).unwrap();
    assert_eq!(&s, "a{b");
}

#[test]
fn rep_trailing_open_brace_is_syntax_error() {
    let r = replace_simple("HELLO{", &LowerRes);
    assert!(matches!(r, Err(ConfError::Syntax)));
}

#[test]
fn rep_unmatched_close_brace_is_syntax_error() {
    let r = replace_simple("}oops", &LowerRes);
    assert!(matches!(r, Err(ConfError::Syntax)));
}

#[test]
fn rep_trailing_backslash_is_syntax_error() {
    let r = replace_simple("oops\\", &LowerRes);
    assert!(matches!(r, Err(ConfError::Syntax)));
}

#[test]
fn rep_nested_scopes() {
    // The inner scope is resolved first; its replacement feeds the outer
    // resolution.
    let s = replace_simple("x{A{B}C}y", &LowerRes).unwrap();
    assert_eq!(&s, "xabcy");
}

#[test]
fn rep_env_resolves_from_snapshot() {
    let env = Enver::new(vec![("HOME".to_string(), "/home/u".to_string())]);
    let s = replace_env("{HOME}/cfg", &env).unwrap();
    assert_eq!(&s, "/home/u/cfg");
}

#[test]
fn rep_env_missing_var_is_var_not_found() {
    let env = Enver::new(vec![]);
    let r = replace_env("{NOPE}", &env);
    assert!(matches!(r, Err(ConfError::VarNotFound)));
}

#[test]
fn rep_plain_text_is_unchanged() {
    let env = Enver::new(vec![]);
    let s = replace("just text", &env).unwrap();
    assert_eq!(&s, "just text");
}

#[test]
fn error_texts() {
    assert_eq!(ConfError::Syntax.text(), "Syntax Error Parsing String");
    assert_eq!(ConfError::VarNotFound.text(), "Environment variable not found");
    assert_eq!(
        ConfError::LoadError("a.toml".to_string()).text(),
        "Could not load file a.toml"
    );
    let e = ConfError::Syntax.with_info("while loading");
    assert!(matches!(&e, ConfError::Message(_)));
    assert_eq!(e.text(), "Syntax Error Parsing String - while loading");
}
