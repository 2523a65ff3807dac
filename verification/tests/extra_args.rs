use jupiter_swap_api_client::extra_args::ExtraArgs;

fn pair(key: &str, value: &str) -> (String, String) {
    (key.to_string(), value.to_string())
}

#[test]
fn a_new_mapping_is_empty() {
    let args = ExtraArgs::new();
    assert_eq!(args.len(), 0);
    assert_eq!(args.to_pairs(), vec![]);
    assert_eq!(args.get(&"anything".to_string()), None);
}

#[test]
fn insert_appends_a_new_key() {
    let mut args = ExtraArgs::new();
    assert_eq!(args.insert("maxHops".to_string(), "3".to_string()), None);
    assert_eq!(args.insert("venue".to_string(), "any".to_string()), None);
    assert_eq!(args.len(), 2);
    assert_eq!(args.to_pairs(), vec![pair("maxHops", "3"), pair("venue", "any")]);
}

#[test]
fn insert_replaces_the_value_of_a_known_key_in_place() {
    let mut args = ExtraArgs::new();
    args.insert("a".to_string(), "1".to_string());
    args.insert("b".to_string(), "2".to_string());
    args.insert("c".to_string(), "3".to_string());
    assert_eq!(args.insert("b".to_string(), "two".to_string()), Some("2".to_string()));
    assert_eq!(args.len(), 3);
    assert_eq!(args.to_pairs(), vec![pair("a", "1"), pair("b", "two"), pair("c", "3")]);
}

#[test]
fn get_finds_the_value_of_a_key() {
    let mut args = ExtraArgs::new();
    args.insert("a".to_string(), "1".to_string());
    args.insert("b".to_string(), "2".to_string());
    assert_eq!(args.get(&"a".to_string()), Some(&"1".to_string()));
    assert_eq!(args.get(&"b".to_string()), Some(&"2".to_string()));
    assert_eq!(args.get(&"c".to_string()), None);
    assert_eq!(args.get(&"A".to_string()), None);
}

#[test]
fn keys_and_values_are_kept_as_written() {
    let mut args = ExtraArgs::new();
    args.insert("a key & more".to_string(), "x=y, z".to_string());
    args.insert("".to_string(), "".to_string());
    assert_eq!(args.to_pairs(), vec![pair("a key & more", "x=y, z"), pair("", "")]);
}

#[test]
fn a_clone_holds_the_same_pairs() {
    let mut args = ExtraArgs::new();
    args.insert("a".to_string(), "1".to_string());
    args.insert("b".to_string(), "2".to_string());
    let copy = args.clone();
    assert_eq!(copy, args);
    assert_eq!(copy.to_pairs(), args.to_pairs());
}
