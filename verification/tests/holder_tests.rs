use clap_conf::clap_env;
use clap_conf::clapget::ArgWrap;
use clap_conf::convert::{parent_dir_of, Localizer, OutMap, Wrapper};
use clap_conf::env::Enver;
use clap_conf::grabber::ScriptIn;
use clap_conf::replace::ConfError;
use clap_conf::tomlget::parse_tree;
use clap_conf::{Filter, Getter};

fn home_env() -> Enver {
    Enver::new(vec![(
        "PWD".to_string(),
        "/home/matthew/scripts/rust/mlibs/clap_conf".to_string(),
    )])
}

#[test]
fn try_holder() {
    let a = clap::ArgMatches::new();
    let tml = parse_tree("[a]\ncar=\"red\"").unwrap();
    let ce = clap_env(home_env(), ArgWrap::new(&a)).hold(tml);

    assert_eq!(ce.value("ss", Filter::Arg), None);
    assert_eq!(
        ce.value("PWD", Filter::Env),
        Some("/home/matthew/scripts/rust/mlibs/clap_conf".to_string())
    );

    assert_eq!(
        ce.grab().env("PWD").done(),
        Some("/home/matthew/scripts/rust/mlibs/clap_conf".to_string())
    );

    assert_eq!(ce.grab().conf("a.car").done(), Some("red".to_string()));
}

#[test]
fn grab_short_circuit_first_found_wins() {
    // The configuration and environment sources hold conflicting values;
    // the argument source holds nothing.  Attempt order decides.
    let a = clap::ArgMatches::new();
    let env = Enver::new(vec![("x".to_string(), "envval".to_string())]);
    let tml = parse_tree("x=\"confval\"").unwrap();
    let ce = clap_env(env, ArgWrap::new(&a)).hold(tml);

    assert_eq!(
        ce.grab().arg("x").conf("x").env("x").done(),
        Some("confval".to_string())
    );
    assert_eq!(
        ce.grab().arg("x").env("x").conf("x").done(),
        Some("envval".to_string())
    );
}

#[test]
fn holder_absent_everywhere_is_none() {
    let a = clap::ArgMatches::new();
    let tml = parse_tree("x=\"confval\"").unwrap();
    let ce = clap_env(Enver::new(vec![]), ArgWrap::new(&a)).hold(tml);
    assert_eq!(ce.grab().arg("nope").conf("nope").env("nope").done(), None);
}

#[test]
fn grabber_terminals() {
    let tml = parse_tree("n=\"42\"\nword=\"red\"").unwrap();
    assert_eq!(tml.grab().conf("word").def("blue"), "red");
    assert_eq!(tml.grab().conf("nope").def("blue"), "blue");
    assert_eq!(tml.grab().conf("word").req().unwrap(), "red");
    let e = tml.grab().conf("nope").req().unwrap_err();
    assert!(matches!(e, ConfError::Mess(m) if m == "Item not supplied"));
    assert_eq!(tml.grab().conf("n").t_done::<i64>(), Some(42));
    assert_eq!(tml.grab().conf("word").t_done::<i64>(), None);
    assert_eq!(tml.grab().conf("n").t_done::<usize>(), Some(42));
    assert_eq!(tml.grab().conf("n").t_def::<i64>(7), 42);
    assert_eq!(tml.grab().conf("word").t_def::<i64>(7), 7);
    assert_eq!(tml.grab().conf("nope").t_def::<i64>(7), 7);
}

#[test]
fn grabber_parses_bools() {
    let tml = parse_tree("yes=\"true\"\nno=\"false\"\nother=\"x\"").unwrap();
    assert_eq!(tml.grab().conf("yes").t_done::<bool>(), Some(true));
    assert_eq!(tml.grab().conf("no").t_done::<bool>(), Some(false));
    assert_eq!(tml.grab().conf("other").t_done::<bool>(), None);
}

#[test]
fn grabber_rep_env_substitutes() {
    let env = Enver::new(vec![("WHO".to_string(), "world".to_string())]);
    let tml = parse_tree("greet=\"hello {WHO}\"").unwrap();
    let r = tml.grab().conf("greet").rep_env(&env).unwrap();
    assert_eq!(r, "hello world");
    let e = tml.grab().conf("nope").rep_env(&env).unwrap_err();
    assert!(matches!(e, ConfError::Mess(m) if m == "No Res"));
}

#[test]
fn ask_def_prompts_only_without_result() {
    let tml = parse_tree("word=\"red\"").unwrap();
    let mut inp = ScriptIn::new(vec!["typed".to_string()]);
    // A held result answers without prompting.
    assert_eq!(tml.grab().conf("word").ask_def("q?", "fb", &mut inp), "red");
    // A missing result takes the scripted answer.
    assert_eq!(tml.grab().conf("nope").ask_def("q?", "fb", &mut inp), "typed");
    // An exhausted script falls back to the default.
    assert_eq!(tml.grab().conf("nope").ask_def("q?", "fb", &mut inp), "fb");
    // An empty answer falls back to the default.
    let mut empty = ScriptIn::new(vec!["".to_string()]);
    assert_eq!(tml.grab().conf("nope").ask_def("q?", "fb", &mut empty), "fb");
}

#[test]
fn local_value_substitutes_and_localizes() {
    let env = Enver::new(vec![("ROOT".to_string(), "/data".to_string())]);
    let tml = parse_tree("log=\"logs/out.txt\"\nabs=\"/var/log/x\"\nsub=\"{ROOT}/out.txt\"")
        .unwrap();
    let l = Localizer::new(tml, "conf");

    // A relative path is joined onto the localizer's base.
    assert_eq!(
        l.local_value("log", Filter::Conf, &env),
        Some("conf/logs/out.txt".to_string())
    );
    // An absolute path passes through unchanged.
    assert_eq!(
        l.local_value("abs", Filter::Conf, &env),
        Some("/var/log/x".to_string())
    );
    // Environment references inside the value are substituted first.
    assert_eq!(
        l.local_value("sub", Filter::Conf, &env),
        Some("/data/out.txt".to_string())
    );

    // The path builder follows the same rules.
    assert_eq!(
        l.grab_local(&env).conf("log").done(),
        Some("conf/logs/out.txt".to_string())
    );
    assert_eq!(l.grab_local(&env).conf("nope").def("d.txt"), "d.txt");
    let e = l.grab_local(&env).conf("nope").req().unwrap_err();
    assert!(matches!(e, ConfError::Mess(m) if m == "Item not supplied"));
}

#[test]
fn parent_dir_of_paths() {
    assert_eq!(parent_dir_of("a/b/c.toml"), "a/b");
    assert_eq!(parent_dir_of("c.toml"), "");
    assert_eq!(parent_dir_of("/c.toml"), "/");
    assert_eq!(parent_dir_of("/"), "/");
    assert_eq!(parent_dir_of(""), "");
}

#[test]
fn multi_grabber_first_found_sequence() {
    let env = Enver::new(vec![("xs".to_string(), "one".to_string())]);
    let tml = parse_tree("xs=[\"a\",\"b\"]").unwrap();
    let ce = clap_env(env, tml);
    assert_eq!(
        ce.grab_multi().conf("xs").done(),
        Some(vec!["a".to_string(), "b".to_string()])
    );
    assert_eq!(
        ce.grab_multi().env("xs").conf("xs").done(),
        Some(vec!["one".to_string()])
    );
    let e = ce.grab_multi().arg("xs").req().unwrap_err();
    assert!(matches!(e, ConfError::Mess(m) if m == "Item not supplied"));
}

#[test]
fn other_tag_is_never_answered() {
    let tml = parse_tree("a=\"x\"").unwrap();
    let env = Enver::new(vec![("a".to_string(), "y".to_string())]);
    assert_eq!(tml.value("a", Filter::Other('z')), None);
    assert_eq!(env.value("a", Filter::Other('z')), None);
    assert!(!tml.bool_flag("a", Filter::Other('z')));
    assert_eq!(tml.grab().op("a", Filter::Other('z')).done(), None);
}

#[test]
fn env_values_hold_at_most_one() {
    let env = Enver::new(vec![("a".to_string(), "1".to_string())]);
    assert_eq!(env.values("a", Filter::Env), Some(vec!["1".to_string()]));
    assert_eq!(env.values("b", Filter::Env), Some(vec![]));
    assert_eq!(env.values("a", Filter::Conf), None);
}

struct Bang;

impl OutMap for Bang {
    // The ghost half of the trait is erased from compiled code; this body
    // is never run.
    fn map_spec(&self, _v: vstd::seq::Seq<char>) -> vstd::seq::Seq<char> {
        panic!()
    }

    fn map(&self, v: String) -> String {
        format!("{}!", v)
    }
}

#[test]
fn wrapper_maps_outputs() {
    let tml = parse_tree("word=\"red\"\nxs=[\"a\",\"b\"]\non=true").unwrap();
    let w = Wrapper::new(tml, Bang);
    assert_eq!(w.value("word", Filter::Conf), Some("red!".to_string()));
    assert_eq!(
        w.values("xs", Filter::Conf),
        Some(vec!["a!".to_string(), "b!".to_string()])
    );
    // Presence is untouched by the mapping.
    assert!(w.bool_flag("on", Filter::Conf));
}
