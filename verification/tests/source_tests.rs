use clap::{Arg, ArgAction, Command};
use clap_source::{ClapConfig, ConfigError, ValueKind};

/// Test that basic types such as string, bool and array work.
#[test]
fn basic_types_work() {
    let m = Command::new("myapp")
        .arg(
            Arg::new("input")
                .short('i')
                .num_args(1)
                .action(ArgAction::Set),
        )
        .arg(
            Arg::new("verbose")
                .short('v')
                .long("verbose")
                .action(ArgAction::SetTrue),
        )
        .arg(
            Arg::new("debug")
                .short('d')
                .long("debug")
                .action(ArgAction::SetTrue),
        )
        .arg(
            Arg::new("tag")
                .short('t')
                .long("tag")
                .action(ArgAction::Append),
        )
        .get_matches_from(vec![
            "myapp", "-v", "-i", "filename", "-t", "tagone", "-t", "tagtwo",
        ]);

    let clap_config = ClapConfig::new(m);
    let map = clap_config.collect().unwrap();

    match &map.get("input").unwrap().kind {
        ValueKind::String(s) => assert_eq!(s, "filename"),
        _ => panic!("input should be a string"),
    }
    match &map.get("verbose").unwrap().kind {
        ValueKind::Boolean(b) => assert_eq!(*b, true),
        _ => panic!("verbose should be a boolean"),
    }
    match &map.get("debug").unwrap().kind {
        ValueKind::Boolean(b) => assert_eq!(*b, false),
        _ => panic!("debug should be a boolean"),
    }
    match &map.get("tag").unwrap().kind {
        ValueKind::Array(elems) => {
            assert_eq!(elems.len(), 2);
            assert_eq!(elems[0].value, "tagone");
            assert_eq!(elems[1].value, "tagtwo");
        }
        _ => panic!("tag should be an array"),
    }
}

/// Test that without metadata hinting a single multiple value is
/// interpreted as a string.
#[test]
fn single_multiple_values_isnt_array() {
    let m = Command::new("myapp")
        .arg(
            Arg::new("tag")
                .short('t')
                .long("tag")
                .action(ArgAction::Append),
        )
        .get_matches_from(vec!["myapp", "-t", "tagone"]);

    let clap_config = ClapConfig::new(m);
    let map = clap_config.collect().unwrap();

    match &map.get("tag").unwrap().kind {
        ValueKind::Array(_) => {
            panic!("Should be an error");
        }
        ValueKind::String(u) => {
            assert_eq!(u, "tagone");
        }
        _ => {
            panic!("Should be an unexpected string");
        }
    }
}

/// Test that a command line argument with multiple raw values is
/// interpreted as an array.
#[test]
fn single_multiple_values_is_string() {
    let m = Command::new("myapp")
        .arg(
            Arg::new("tag")
                .short('t')
                .long("tag")
                .action(ArgAction::Append),
        )
        .get_matches_from(vec!["myapp", "-t", "tagone"]);

    let clap_config = ClapConfig::new(m);
    let map = clap_config.collect().unwrap();

    let tag = match &map.get("tag").unwrap().kind {
        ValueKind::String(s) => s.clone(),
        _ => panic!("tag should be a string"),
    };
    assert_eq!(tag, "tagone");
}

/// Test with metadata specifying an array argument.  This provides a hint
/// that the command line argument is a multiple-value argument that should
/// be interpreted as an array.
#[test]
fn single_multiple_values_with_metadata_is_array() {
    let m = Command::new("myapp")
        .arg(
            Arg::new("tag")
                .short('t')
                .long("tag")
                .action(ArgAction::Append),
        )
        .get_matches_from(vec!["myapp", "-t", "tagone"]);

    let mut ht: Vec<(String, ValueKind)> = Vec::new();
    ht.push((String::from("tag"), ValueKind::Array(Vec::new())));

    let clap_config = ClapConfig::new_with_metadata(m, ht);
    let map = clap_config.collect().unwrap();

    let tag = match &map.get("tag").unwrap().kind {
        ValueKind::Array(elems) => elems.clone(),
        _ => panic!("tag should be an array"),
    };
    assert_eq!(tag.len(), 1);
    assert_eq!(tag[0].value, "tagone");
}

/// A metadata entry whose shape is neither scalar string nor sequence is an
/// unsupported shape, and collection fails fast with the offending key.
#[test]
fn boolean_shape_hint_is_unsupported() {
    let m = Command::new("myapp")
        .arg(
            Arg::new("tag")
                .short('t')
                .long("tag")
                .action(ArgAction::Append),
        )
        .get_matches_from(vec!["myapp", "-t", "tagone"]);

    let mut ht: Vec<(String, ValueKind)> = Vec::new();
    ht.push((String::from("tag"), ValueKind::Boolean(true)));

    let clap_config = ClapConfig::new_with_metadata(m, ht);
    let res = clap_config.collect();
    match res {
        Err(ConfigError::UnsupportedShape(k)) => assert_eq!(k, "tag"),
        _ => panic!("should be an unsupported-shape error"),
    }
}

/// A boolean flag resolves to its boolean even when metadata names the key:
/// metadata only disambiguates string-typed data.
#[test]
fn boolean_ignores_metadata() {
    let m = Command::new("myapp")
        .arg(
            Arg::new("verbose")
                .short('v')
                .long("verbose")
                .action(ArgAction::SetTrue),
        )
        .get_matches_from(vec!["myapp", "-v"]);

    let mut ht: Vec<(String, ValueKind)> = Vec::new();
    ht.push((String::from("verbose"), ValueKind::Array(Vec::new())));

    let clap_config = ClapConfig::new_with_metadata(m, ht);
    let map = clap_config.collect().unwrap();
    match &map.get("verbose").unwrap().kind {
        ValueKind::Boolean(b) => assert_eq!(*b, true),
        _ => panic!("verbose should be a boolean"),
    }
}

/// A scalar-string hint keeps only the first of several occurrences; the
/// later ones are silently dropped (a documented policy).
#[test]
fn scalar_hint_truncates_to_first() {
    let m = Command::new("myapp")
        .arg(
            Arg::new("tag")
                .short('t')
                .long("tag")
                .action(ArgAction::Append),
        )
        .get_matches_from(vec!["myapp", "-t", "tagone", "-t", "tagtwo"]);

    let mut ht: Vec<(String, ValueKind)> = Vec::new();
    ht.push((String::from("tag"), ValueKind::String(String::new())));

    let clap_config = ClapConfig::new_with_metadata(m, ht);
    let map = clap_config.collect().unwrap();
    match &map.get("tag").unwrap().kind {
        ValueKind::String(s) => assert_eq!(s, "tagone"),
        _ => panic!("tag should be a string"),
    }
}

/// Asking for a key the matches do not know yields the key-not-found error.
#[test]
fn unknown_key_is_not_found() {
    let m = Command::new("myapp")
        .arg(
            Arg::new("tag")
                .short('t')
                .long("tag")
                .action(ArgAction::Append),
        )
        .get_matches_from(vec!["myapp", "-t", "tagone"]);

    let clap_config = ClapConfig::new(m);
    match clap_config.get_item("nosuchkey") {
        Err(ConfigError::KeyNotFound(k)) => assert_eq!(k, "nosuchkey"),
        _ => panic!("should be a key-not-found error"),
    }
}

/// Every value a collection produces carries the fixed origin label.
#[test]
fn values_carry_origin_label() {
    let m = Command::new("myapp")
        .arg(
            Arg::new("input")
                .short('i')
                .num_args(1)
                .action(ArgAction::Set),
        )
        .get_matches_from(vec!["myapp", "-i", "filename"]);

    let clap_config = ClapConfig::new(m);
    let map = clap_config.collect().unwrap();
    let v = map.get("input").unwrap();
    assert_eq!(v.origin.as_deref(), Some("clap"));
}

/// Collecting twice against an unchanged source yields equal maps.
#[test]
fn collect_is_idempotent() {
    let m = Command::new("myapp")
        .arg(
            Arg::new("input")
                .short('i')
                .num_args(1)
                .action(ArgAction::Set),
        )
        .arg(
            Arg::new("verbose")
                .short('v')
                .long("verbose")
                .action(ArgAction::SetTrue),
        )
        .arg(
            Arg::new("tag")
                .short('t')
                .long("tag")
                .action(ArgAction::Append),
        )
        .get_matches_from(vec!["myapp", "-v", "-i", "filename", "-t", "tagone"]);

    let clap_config = ClapConfig::new(m);
    let first = clap_config.collect().unwrap();
    let second = clap_config.collect().unwrap();
    assert_eq!(first.entries, second.entries);
}

/// Every recognized key gets exactly one entry in the output map.
#[test]
fn collection_is_total_over_recognized_keys() {
    let m = Command::new("myapp")
        .arg(
            Arg::new("input")
                .short('i')
                .num_args(1)
                .action(ArgAction::Set),
        )
        .arg(
            Arg::new("verbose")
                .short('v')
                .long("verbose")
                .action(ArgAction::SetTrue),
        )
        .arg(
            Arg::new("tag")
                .short('t')
                .long("tag")
                .action(ArgAction::Append),
        )
        .get_matches_from(vec!["myapp", "-v", "-i", "filename", "-t", "tagone"]);

    let clap_config = ClapConfig::new(m);
    let keys = clap_config.get_keys();
    let map = clap_config.collect().unwrap();
    assert_eq!(map.len(), keys.len());
    for key in &keys {
        assert!(map.get(key).is_some());
        let hits = map
            .entries
            .iter()
            .filter(|(k, _)| k == key)
            .count();
        assert_eq!(hits, 1);
    }
    assert_eq!(keys.len(), 3);
    assert!(keys.iter().any(|k| k == "input"));
    assert!(keys.iter().any(|k| k == "verbose"));
    assert!(keys.iter().any(|k| k == "tag"));
    assert!(map.get("absent").is_none());
}
