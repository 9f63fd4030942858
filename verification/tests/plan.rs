use leucite::plan::SENTINEL_PORT;
use leucite::{Direction, PathClass, Request, Rules};

#[test]
fn empty_rules_compile_to_the_two_sentinel_port_rules() {
    let rules = Rules::new();
    assert_eq!(
        rules.plan(),
        vec![
            Request::Port {
                port: 0,
                direction: Direction::Bind
            },
            Request::Port {
                port: 0,
                direction: Direction::Connect
            },
        ]
    );
    assert_eq!(SENTINEL_PORT, 0);
}

#[test]
fn an_empty_bind_list_gets_the_sentinel_and_a_listed_port_does_not() {
    let rules = Rules::new().add_connect_port(443);
    assert_eq!(
        rules.plan(),
        vec![
            Request::Port {
                port: 0,
                direction: Direction::Bind
            },
            Request::Port {
                port: 443,
                direction: Direction::Connect
            },
        ]
    );
    let rules = Rules::new().add_bind_port(5050);
    assert_eq!(
        rules.plan(),
        vec![
            Request::Port {
                port: 5050,
                direction: Direction::Bind
            },
            Request::Port {
                port: 0,
                direction: Direction::Connect
            },
        ]
    );
}

#[test]
fn a_listed_port_zero_is_one_rule_like_the_sentinel() {
    let rules = Rules::new().add_bind_port(0).add_connect_port(0);
    assert_eq!(rules.plan(), Rules::new().plan());
}

#[test]
fn the_plan_is_ports_then_read_only_write_only_read_write() {
    let rules = Rules::new()
        .add_read_write("/tmp/foo")
        .add_connect_port(80)
        .add_write_only("/var/log")
        .add_read_only("/usr")
        .add_bind_port(5050)
        .add_connect_port(443)
        .add_read_only("/etc");
    assert_eq!(
        rules.plan(),
        vec![
            Request::Port {
                port: 5050,
                direction: Direction::Bind
            },
            Request::Port {
                port: 80,
                direction: Direction::Connect
            },
            Request::Port {
                port: 443,
                direction: Direction::Connect
            },
            Request::Path {
                path: "/usr",
                class: PathClass::ReadOnly
            },
            Request::Path {
                path: "/etc",
                class: PathClass::ReadOnly
            },
            Request::Path {
                path: "/var/log",
                class: PathClass::WriteOnly
            },
            Request::Path {
                path: "/tmp/foo",
                class: PathClass::ReadWrite
            },
        ]
    );
}

#[test]
fn a_path_in_two_zones_gets_a_rule_for_each() {
    let rules = Rules::new()
        .add_read_only("/data")
        .add_read_write("/data")
        .add_read_only("/data");
    assert_eq!(
        rules.plan()[2..],
        [
            Request::Path {
                path: "/data",
                class: PathClass::ReadOnly
            },
            Request::Path {
                path: "/data",
                class: PathClass::ReadOnly
            },
            Request::Path {
                path: "/data",
                class: PathClass::ReadWrite
            },
        ]
    );
}

#[test]
fn the_classes_grant_reading_and_writing() {
    assert!(PathClass::ReadOnly.grants_read());
    assert!(!PathClass::ReadOnly.grants_write());
    assert!(!PathClass::WriteOnly.grants_read());
    assert!(PathClass::WriteOnly.grants_write());
    assert!(PathClass::ReadWrite.grants_read());
    assert!(PathClass::ReadWrite.grants_write());
}

#[test]
fn read_write_wins_over_read_only() {
    let rules = Rules::new().add_read_only("/data").add_read_write("/data");
    assert!(rules.grants_write("/data"));
    assert!(rules.grants_read("/data"));
    assert!(rules.plan().iter().any(|request| matches!(
        request,
        Request::Path { path: "/data", class } if class.grants_write()
    )));
}

#[test]
fn read_write_wins_over_write_only() {
    let rules = Rules::new().add_read_write("/data").add_write_only("/data");
    assert!(rules.grants_read("/data"));
    assert!(rules.grants_write("/data"));
    assert!(rules.plan().iter().any(|request| matches!(
        request,
        Request::Path { path: "/data", class } if class.grants_read()
    )));
}

#[test]
fn disjoint_zones_grant_what_their_class_grants() {
    let rules = Rules::new()
        .add_read_only("/usr")
        .add_write_only("/var/log")
        .add_read_write("/tmp");
    assert!(rules.grants_read("/usr"));
    assert!(!rules.grants_write("/usr"));
    assert!(!rules.grants_read("/var/log"));
    assert!(rules.grants_write("/var/log"));
    assert!(rules.grants_read("/tmp"));
    assert!(rules.grants_write("/tmp"));
    assert!(!rules.grants_read("/home/user"));
    assert!(!rules.grants_write("/home/user"));
}

#[test]
fn a_grant_is_for_the_path_as_it_was_written() {
    let rules = Rules::new().add_read_only("/usr");
    assert!(rules.grants_read("/usr"));
    assert!(!rules.grants_read("/usr/"));
    assert!(!rules.grants_read("/usr/lib"));
    assert!(!rules.grants_read("/us"));
    assert!(!rules.grants_read(""));
}

#[test]
fn every_plan_rule_for_a_path_is_matched_by_a_grant() {
    let rules = Rules::new()
        .add_read_only("/a")
        .add_write_only("/b")
        .add_read_write("/c")
        .add_read_only("/c");
    for request in rules.plan() {
        if let Request::Path { path, class } = request {
            assert!(!class.grants_read() || rules.grants_read(path));
            assert!(!class.grants_write() || rules.grants_write(path));
        }
    }
}
