use bias_core::cio::TypeDBConfig;

#[test]
fn arguments_are_kept_apart() {
    let config = TypeDBConfig::new(true).with_arg32("-a").with_arg("-b").with_arg64("-c");
    assert!(config.header());
    assert_eq!(config.args32(), ["-a", "-b"]);
    assert_eq!(config.args64(), ["-b", "-c"]);
}

#[test]
fn default_is_no_header_without_arguments() {
    let config = TypeDBConfig::default();
    assert!(!config.header());
    assert!(config.args32().is_empty());
    assert!(config.args64().is_empty());
    assert!(config.with_header(true).header());
}

#[test]
fn lists_of_arguments_keep_their_order() {
    let mut config = TypeDBConfig::new(false)
        .with_args(vec!["-1", "-2"])
        .with_args32(vec!["-3"])
        .with_args64(vec!["-4", "-5"]);
    assert_eq!(config.args32(), ["-1", "-2", "-3"]);
    assert_eq!(config.args64(), ["-1", "-2", "-4", "-5"]);
    config.extend_args(vec!["-6"]);
    config.extend_args32(vec!["-7"]);
    config.extend_args64(vec![]);
    assert_eq!(config.args32(), ["-1", "-2", "-3", "-6", "-7"]);
    assert_eq!(config.args64(), ["-1", "-2", "-4", "-5", "-6"]);
}

#[test]
fn arguments_are_cleared_apart() {
    let mut config = TypeDBConfig::new(false).with_args(vec!["-a", "-b"]);
    config.clear_args32();
    assert!(config.args32().is_empty());
    assert_eq!(config.args64(), ["-a", "-b"]);
    config.push_arg32("-c");
    config.clear_args64();
    assert_eq!(config.args32(), ["-c"]);
    assert!(config.args64().is_empty());
    config.push_arg("-d");
    config.push_arg64("-e");
    config.clear_args();
    assert!(config.args32().is_empty() && config.args64().is_empty());
}

#[test]
fn flags_leave_the_arguments_alone() {
    let mut config = TypeDBConfig::new(false).with_arg("-a").with_mxx(true);
    config.set_mxx(false);
    config.set_header(true);
    config.set_relaxed_struct_parsing(true);
    let config = config.with_relaxed_struct_parsing(false);
    assert!(config.header());
    assert_eq!(config.args32(), ["-a"]);
    assert_eq!(config.args64(), ["-a"]);
}

#[test]
fn a_copy_has_its_own_arguments() {
    let config = TypeDBConfig::new(true).with_arg("-a");
    let copy = config.clone().with_arg32("-b");
    assert_eq!(config.args32(), ["-a"]);
    assert_eq!(copy.args32(), ["-a", "-b"]);
    assert!(copy.header());
}
