use xbox11::{CommandTable, RegisterError};

#[test]
fn register_adds_in_order() {
    let mut t = CommandTable::new();
    assert_eq!(t.len(), 0);
    assert_eq!(t.register("greet".to_string()), Ok(()));
    assert_eq!(t.register("quit".to_string()), Ok(()));
    assert_eq!(t.len(), 2);
    assert!(t.contains("greet"));
    assert!(t.contains("quit"));
    assert!(!t.contains("gree"));
}

#[test]
fn register_refuses_duplicate_name() {
    let mut t = CommandTable::new();
    assert_eq!(t.register("greet".to_string()), Ok(()));
    assert_eq!(t.register("greet".to_string()), Err(RegisterError::Duplicate));
    assert_eq!(t.len(), 1);
}

#[test]
fn build_from_distinct_names() {
    let names = vec!["greet".to_string(), "open".to_string()];
    let t = CommandTable::build(&names).unwrap();
    assert_eq!(t.len(), 2);
    assert!(t.contains("open"));
}

#[test]
fn build_refuses_repeated_name() {
    let names = vec!["greet".to_string(), "open".to_string(), "greet".to_string()];
    assert!(matches!(CommandTable::build(&names), Err(RegisterError::Duplicate)));
}

#[test]
fn build_from_no_names() {
    let t = CommandTable::build(&Vec::new()).unwrap();
    assert_eq!(t.len(), 0);
    assert!(!t.contains(""));
}
