use clap_conf::clapget::ArgWrap;
use clap_conf::{Filter, Getter};

fn sub_app_matches<'a>(line: &'a str) -> clap::ArgMatches<'a> {
    clap::App::new("test_app")
        .arg(clap::Arg::with_name("a").short("a").takes_value(true).help("astuff"))
        .subcommand(
            clap::SubCommand::with_name("subby").arg(
                clap::Arg::with_name("b").short("b").takes_value(true).help("bstuff"),
            ),
        )
        .get_matches_from(line.split(" "))
}

#[test]
pub fn test_sub_get() {
    let m = sub_app_matches("test_app -a hi subby -b world");
    let mm = ArgWrap::new(&m);

    assert_eq!(mm.sub("a", Filter::Arg), false, "A");
    assert_eq!(mm.grab().arg("a").done(), Some("hi".to_string()), "HI");
    assert_eq!(mm.sub("subby", Filter::Arg), true, "--Sub Subby--");
    assert_eq!(mm.grab().arg("subby.b").done(), Some("world".to_string()), "C");
    assert_eq!(mm.bool_flag("a", Filter::Arg), true);
}

#[test]
fn dotted_key_misses_are_not_errors() {
    let m = sub_app_matches("test_app -a hi");
    let mm = ArgWrap::new(&m);
    // No subcommand was invoked: digging through one fails quietly.
    assert_eq!(mm.grab().arg("subby.b").done(), None);
    assert_eq!(mm.sub("subby", Filter::Arg), false);
    assert_eq!(mm.value("nope", Filter::Arg), None);
    // Arguments answer only the argument tag.
    assert_eq!(mm.value("a", Filter::Conf), None);
    assert_eq!(mm.value("a", Filter::Env), None);
}

#[test]
fn arg_values_in_order() {
    let m = clap::App::new("test_app")
        .arg(clap::Arg::with_name("x").short("x").takes_value(true).multiple(true))
        .get_matches_from("test_app -x one -x two".split(" "));
    let mm = ArgWrap::new(&m);
    let vals = mm.values("x", Filter::Arg).unwrap();
    assert_eq!(vals, vec!["one".to_string(), "two".to_string()]);
}
