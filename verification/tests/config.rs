use scratch_cloud::config::Policy;

fn policy() -> Policy {
    Policy {
        variable_name_max_length: 5,
        variable_name_min_length: 1,
        value_max_length: 4,
        username_max_length: 4,
        username_min_length: 2,
    }
}

#[test]
fn username_bounds_are_inclusive() {
    let p = policy();
    assert!(!p.check_username(""));
    assert!(!p.check_username("a"));
    assert!(p.check_username("ab"));
    assert!(p.check_username("abcd"));
    assert!(!p.check_username("abcde"));
}

#[test]
fn lengths_are_counted_in_bytes() {
    let p = policy();
    // two characters of two bytes each
    assert!(p.check_username("éé"));
    // three characters, six bytes
    assert!(!p.check_username("ééé"));
    // one character of four bytes fits the variable name bounds
    assert!(p.check_var_name("😀"));
    assert!(!p.check_var_name("é😀"));
}

#[test]
fn variable_name_bounds() {
    let p = policy();
    assert!(!p.check_var_name(""));
    assert!(p.check_var_name("x"));
    assert!(p.check_var_name("abcde"));
    assert!(!p.check_var_name("abcdef"));
}

#[test]
fn value_bound() {
    let p = policy();
    assert!(p.check_value(""));
    assert!(p.check_value("1234"));
    assert!(p.check_value("\"ab\""));
    assert!(!p.check_value("12345"));
}
