use quark::error::Error;
use quark::lifecycle::AttachmentStore;
use quark::models::attachment::{Attachment, AttachmentState};
use quark::models::server::{Category, FieldsServer, Role, Server};
use quark::mutation::{validate_request, DataEditServer};
use quark::permissions::{OverrideField, ALL_PERMISSIONS};
use quark::resolver::roles_are_unique;
use quark::server_edit::req;

fn server() -> Server {
    Server {
        id: "srv".to_string(),
        owner: "owner".to_string(),
        name: "Name".to_string(),
        channels: vec!["c1".to_string()],
        ..Default::default()
    }
}

#[test]
fn name_length_counts_characters() {
    let ok = DataEditServer { name: Some("é".repeat(32)), ..Default::default() };
    assert_eq!(validate_request(&ok), Ok(()));
    let long = DataEditServer { name: Some("a".repeat(33)), ..Default::default() };
    assert_eq!(validate_request(&long), Err(Error::FailedValidation));
    let empty = DataEditServer { name: Some(String::new()), ..Default::default() };
    assert_eq!(validate_request(&empty), Err(Error::FailedValidation));
}

#[test]
fn description_and_removal_ranges() {
    let ok = DataEditServer { description: Some(String::new()), ..Default::default() };
    assert_eq!(validate_request(&ok), Ok(()));
    let long = DataEditServer { description: Some("d".repeat(1025)), ..Default::default() };
    assert_eq!(validate_request(&long), Err(Error::FailedValidation));
    let none_removed = DataEditServer { remove: Some(vec![]), ..Default::default() };
    assert_eq!(validate_request(&none_removed), Err(Error::FailedValidation));
    let removed = DataEditServer { remove: Some(vec![FieldsServer::Banner]), ..Default::default() };
    assert_eq!(validate_request(&removed), Ok(()));
}

#[test]
fn category_titles_are_checked() {
    let bad = DataEditServer {
        categories: Some(vec![Category {
            id: "a".to_string(),
            title: String::new(),
            channels: vec![],
        }]),
        ..Default::default()
    };
    assert_eq!(validate_request(&bad), Err(Error::FailedValidation));
    let mut s = server();
    let mut st = AttachmentStore { files: vec![] };
    assert_eq!(req(&mut s, &mut st, bad, ALL_PERMISSIONS, true), Err(Error::FailedValidation));
    assert!(s.categories.is_none());
}

#[test]
fn well_formedness_checks() {
    let role = Role {
        name: "r".to_string(),
        permissions: OverrideField { allow: 0, deny: 0 },
        colour: None,
        hoist: false,
        rank: 0,
    };
    assert!(roles_are_unique(&vec![("a".to_string(), role.clone()), ("b".to_string(), role.clone())]));
    assert!(!roles_are_unique(&vec![("a".to_string(), role.clone()), ("a".to_string(), role)]));
    let f = |id: &str| Attachment { id: id.to_string(), state: AttachmentState::Pending, bound_to: None };
    assert!(AttachmentStore { files: vec![f("x"), f("y")] }.is_wf());
    assert!(!AttachmentStore { files: vec![f("x"), f("x")] }.is_wf());
}
