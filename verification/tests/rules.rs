use std::sync::Arc;

use leucite::Rules;

fn texts(paths: &Vec<String>) -> Vec<&str> {
    paths.iter().map(|path| path.as_str()).collect()
}

#[test]
fn new_rules_allow_nothing() {
    let rules = Rules::new();
    assert!(rules.read_only().is_empty());
    assert!(rules.read_write().is_empty());
    assert!(rules.write_only().is_empty());
    assert!(rules.bind_ports().is_empty());
    assert!(rules.connect_ports().is_empty());
}

#[test]
fn default_rules_allow_nothing() {
    let rules = Rules::default();
    assert!(rules.read_only().is_empty());
    assert!(rules.read_write().is_empty());
    assert!(rules.write_only().is_empty());
    assert!(rules.bind_ports().is_empty());
    assert!(rules.connect_ports().is_empty());
}

#[test]
fn each_builder_appends_to_its_own_list() {
    let rules = Rules::new()
        .add_read_only("/usr")
        .add_read_only("/etc")
        .add_read_only("/dev")
        .add_read_only("/bin")
        .add_read_write("/tmp/foo")
        .add_write_only("/var/log")
        .add_bind_port(5050)
        .add_connect_port(80)
        .add_connect_port(443);
    assert_eq!(texts(rules.read_only()), vec!["/usr", "/etc", "/dev", "/bin"]);
    assert_eq!(texts(rules.read_write()), vec!["/tmp/foo"]);
    assert_eq!(texts(rules.write_only()), vec!["/var/log"]);
    assert_eq!(rules.bind_ports(), &vec![5050]);
    assert_eq!(rules.connect_ports(), &vec![80, 443]);
}

#[test]
fn nothing_is_checked_while_building() {
    let rules = Rules::new()
        .add_read_only("/does/not/exist")
        .add_read_only("")
        .add_read_write("/does/not/exist")
        .add_read_only("/does/not/exist")
        .add_bind_port(0)
        .add_bind_port(0);
    assert_eq!(
        texts(rules.read_only()),
        vec!["/does/not/exist", "", "/does/not/exist"]
    );
    assert_eq!(texts(rules.read_write()), vec!["/does/not/exist"]);
    assert_eq!(rules.bind_ports(), &vec![0, 0]);
}

#[test]
fn a_clone_has_the_same_lists() {
    let rules = Rules::new()
        .add_read_only("/usr")
        .add_write_only("/var/log")
        .add_read_write("/tmp")
        .add_bind_port(8080)
        .add_connect_port(53);
    let copy = rules.clone();
    assert_eq!(copy.read_only(), rules.read_only());
    assert_eq!(copy.write_only(), rules.write_only());
    assert_eq!(copy.read_write(), rules.read_write());
    assert_eq!(copy.bind_ports(), rules.bind_ports());
    assert_eq!(copy.connect_ports(), rules.connect_ports());
    let longer = copy.add_read_only("/etc");
    assert_eq!(texts(longer.read_only()), vec!["/usr", "/etc"]);
    assert_eq!(texts(rules.read_only()), vec!["/usr"]);
}

#[test]
fn rules_can_be_shared() {
    let shared: Arc<Rules> = Rules::new().add_read_only("/usr").into();
    let other = Arc::clone(&shared);
    assert_eq!(texts(other.read_only()), vec!["/usr"]);
    assert_eq!(Arc::strong_count(&shared), 2);
}
