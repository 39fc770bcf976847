use clap_conf::tomlget::parse_tree;
use clap_conf::replace::ConfError;
use clap_conf::{Filter, Getter};

#[test]
fn test_load() {
    let t = parse_tree("[a.b.c]\ncar=\"red\"").unwrap();
    let r = t.value("a.b.c.car", Filter::Conf).unwrap();
    assert_eq!(r, "red");

    let t = parse_tree("[[a.b]]\ncar=\"red\"\n[[a.b]]\ncar=\"green\"").unwrap();
    let r = t.value("a.b.1.car", Filter::Conf).unwrap();
    assert_eq!(r, "green");
}

#[test]
fn test_iter() {
    let t = parse_tree("[a.b]\ncar=[\"red\",\"green\"]").unwrap();
    let vals = t.values("a.b.car", Filter::Conf).expect("Could not get values");
    let mut r = vals.into_iter();
    assert_eq!(r.next().unwrap(), "red");
    assert_eq!(r.next().unwrap(), "green");
}

#[test]
fn dig_zero_based_array_index() {
    let t = parse_tree("[a]\nb=[{car=\"red\"},{car=\"green\"}]").unwrap();
    assert_eq!(t.value("a.b.0.car", Filter::Conf).unwrap(), "red");
    assert_eq!(t.value("a.b.1.car", Filter::Conf).unwrap(), "green");
    assert_eq!(t.value("a.b.2.car", Filter::Conf), None);
    assert_eq!(t.value("a.b.x.car", Filter::Conf), None);
}

#[test]
fn dig_misses_are_not_errors() {
    let t = parse_tree("[a]\ncar=\"red\"").unwrap();
    assert_eq!(t.value("a.nothing", Filter::Conf), None);
    assert_eq!(t.value("b.car", Filter::Conf), None);
    assert_eq!(t.value("a.car.deeper", Filter::Conf), None);
    // A table has no scalar value of its own.
    assert_eq!(t.value("a", Filter::Conf), None);
    // A tree answers only the configuration tag.
    assert_eq!(t.value("a.car", Filter::Arg), None);
    assert_eq!(t.value("a.car", Filter::Env), None);
}

#[test]
fn scalar_leaves_are_stringified() {
    let t = parse_tree("n=42\nm=-7\nmin=-9223372036854775808\nb=true\nc=false").unwrap();
    assert_eq!(t.value("n", Filter::Conf).unwrap(), "42");
    assert_eq!(t.value("m", Filter::Conf).unwrap(), "-7");
    assert_eq!(
        t.value("min", Filter::Conf).unwrap(),
        "-9223372036854775808"
    );
    assert_eq!(t.value("b", Filter::Conf).unwrap(), "true");
    assert_eq!(t.value("c", Filter::Conf).unwrap(), "false");
}

#[test]
fn tree_bool_flag_is_value_presence() {
    let t = parse_tree("on=true\noff=false\nname=\"x\"\n[tbl]\nx=1").unwrap();
    assert!(t.bool_flag("on", Filter::Conf));
    assert!(t.bool_flag("off", Filter::Conf));
    assert!(t.bool_flag("name", Filter::Conf));
    assert!(!t.bool_flag("missing", Filter::Conf));
    // A table is not a scalar value, so it is not present as a flag.
    assert!(!t.bool_flag("tbl", Filter::Conf));
    assert!(!t.bool_flag("on", Filter::Env));
}

#[test]
fn values_drops_non_string_elements() {
    let t = parse_tree("xs=[\"a\",1,\"b\",true]").unwrap();
    let vals = t.values("xs", Filter::Conf).unwrap();
    assert_eq!(vals, vec!["a".to_string(), "b".to_string()]);
}

#[test]
fn unparsable_text_is_load_error() {
    let r = parse_tree("this is [ not toml");
    assert!(matches!(r, Err(ConfError::LoadError(_))));
}
