//! Tests of the processor state's mutation API: the link-table invariants are
//! enforced transactionally, and a rejected change leaves the state untouched.
use mindus::logic::{CodeError, CreateError, ProcessorLink, ProcessorState};

#[test]
fn create_link_appends() {
    let mut st = ProcessorState::new();
    let l = st.create_link("display1".to_owned(), 1, 0).unwrap();
    assert_eq!(l.get_name(), "display1");
    assert_eq!(l.get_pos(), (1, 0));
    assert_eq!(st.get_links().len(), 1);
}

#[test]
fn duplicate_name_rejected_without_mutation() {
    let mut st = ProcessorState::new();
    st.create_link("display1".to_owned(), 1, 0).unwrap();
    let before = st.clone();
    let err = st.create_link("display1".to_owned(), 5, 5).unwrap_err();
    assert_eq!(err, CreateError::DuplicateName("display1".to_owned()));
    assert_eq!(st, before);
}

#[test]
fn duplicate_position_names_existing_link() {
    let mut st = ProcessorState::new();
    st.create_link("display1".to_owned(), 1, 0).unwrap();
    let before = st.clone();
    let err = st.create_link("cell1".to_owned(), 1, 0).unwrap_err();
    assert_eq!(
        err,
        CreateError::DuplicatePos { name: "display1".to_owned(), x: 1, y: 0 }
    );
    assert_eq!(st, before);
}

#[test]
fn name_check_comes_before_position_check_per_link() {
    // one link clashes by name and by position at once: the name wins
    let mut st = ProcessorState::new();
    st.create_link("display1".to_owned(), 1, 0).unwrap();
    let err = st.create_link("display1".to_owned(), 1, 0).unwrap_err();
    assert!(matches!(err, CreateError::DuplicateName(_)));
}

#[test]
fn scan_stops_at_first_clashing_link() {
    // the position clash on the first link is reported even though a later
    // link carries the requested name
    let mut st = ProcessorState::new();
    st.create_link("a".to_owned(), 0, 0).unwrap();
    st.create_link("b".to_owned(), 1, 1).unwrap();
    let err = st.create_link("b".to_owned(), 0, 0).unwrap_err();
    assert_eq!(err, CreateError::DuplicatePos { name: "a".to_owned(), x: 0, y: 0 });
}

#[test]
fn oversized_name_rejected() {
    let mut st = ProcessorState::new();
    let long = "x".repeat(65536);
    let err = st.create_link(long, 0, 0).unwrap_err();
    assert_eq!(err, CreateError::NameLength(65536));
    assert!(st.get_links().is_empty());
}

#[test]
fn name_at_limit_accepted() {
    let mut st = ProcessorState::new();
    let edge = "x".repeat(65535);
    assert!(st.create_link(edge, 0, 0).is_ok());
}

#[test]
fn add_link_enforces_same_rules() {
    let mut st = ProcessorState::new();
    st.add_link(ProcessorLink::new("a".to_owned(), 0, 0)).unwrap();
    let err = st.add_link(ProcessorLink::new("a".to_owned(), 2, 2)).unwrap_err();
    assert!(matches!(err, CreateError::DuplicateName(_)));
}

#[test]
fn remove_link_returns_removed() {
    let mut st = ProcessorState::new();
    st.create_link("a".to_owned(), 0, 0).unwrap();
    st.create_link("b".to_owned(), 1, 1).unwrap();
    let gone = st.remove_link(0).unwrap();
    assert_eq!(gone.get_name(), "a");
    assert_eq!(st.get_links().len(), 1);
    assert_eq!(st.get_links()[0].get_name(), "b");
}

#[test]
fn remove_link_out_of_range_is_a_miss() {
    let mut st = ProcessorState::new();
    st.create_link("a".to_owned(), 0, 0).unwrap();
    assert!(st.remove_link(1).is_none());
    assert_eq!(st.get_links().len(), 1);
}

#[test]
fn set_code_replaces_code() {
    let mut st = ProcessorState::new();
    st.set_code("print(2)").unwrap();
    assert_eq!(st.get_code(), "print(2)");
    st.set_code("").unwrap();
    assert_eq!(st.get_code(), "");
}

#[test]
fn set_code_over_limit_rejected() {
    let mut st = ProcessorState::new();
    st.set_code("keep").unwrap();
    let long = "y".repeat(512001);
    let err = st.set_code(&long).unwrap_err();
    assert_eq!(err, CodeError::TooLong(512001));
    assert_eq!(st.get_code(), "keep");
}

#[test]
fn set_code_at_limit_accepted() {
    let mut st = ProcessorState::new();
    let edge = "y".repeat(512000);
    assert!(st.set_code(&edge).is_ok());
    assert_eq!(st.get_code().len(), 512000);
}

#[test]
fn clone_is_deep_equal() {
    let mut st = ProcessorState::new();
    st.set_code("print(1)").unwrap();
    st.create_link("display1".to_owned(), 1, 0).unwrap();
    let copy = st.clone();
    assert_eq!(copy, st);
}
