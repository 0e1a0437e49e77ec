use quark::error::Error;
use quark::lifecycle::AttachmentStore;
use quark::models::attachment::{Attachment, AttachmentState, File};
use quark::models::server::{Category, FieldsServer, Server, SystemMessageChannels};
use quark::mutation::{apply_plan, DataEditServer, PartialServer};
use quark::permissions::{Permission, ALL_PERMISSIONS, MANAGE_CHANNEL, MANAGE_SERVER};
use quark::server_edit::req;

fn strs(v: &[&str]) -> Vec<String> {
    v.iter().map(|s| s.to_string()).collect()
}

fn base_server() -> Server {
    Server {
        id: "srv".to_string(),
        owner: "owner".to_string(),
        name: "Old name".to_string(),
        description: Some("Old description".to_string()),
        channels: strs(&["c1", "c2", "c3"]),
        icon: Some(File { id: "f1".to_string() }),
        ..Default::default()
    }
}

fn store() -> AttachmentStore {
    AttachmentStore {
        files: vec![
            Attachment {
                id: "f1".to_string(),
                state: AttachmentState::Bound,
                bound_to: Some("srv".to_string()),
            },
            Attachment { id: "f2".to_string(), state: AttachmentState::Pending, bound_to: None },
            Attachment {
                id: "f3".to_string(),
                state: AttachmentState::MarkedForDeletion,
                bound_to: None,
            },
        ],
    }
}

fn category(id: &str, title: &str, channels: &[&str]) -> Category {
    Category { id: id.to_string(), title: title.to_string(), channels: strs(channels) }
}

fn same_server(a: &Server, b: &Server) -> bool {
    format!("{:?}", a) == format!("{:?}", b)
}

fn same_store(a: &AttachmentStore, b: &AttachmentStore) -> bool {
    format!("{:?}", a) == format!("{:?}", b)
}

#[test]
fn empty_request_changes_nothing_without_any_right() {
    let mut s = base_server();
    let mut st = store();
    let r = req(&mut s, &mut st, DataEditServer::default(), 0, false);
    assert_eq!(r, Ok(()));
    assert!(same_server(&s, &base_server()));
    assert!(same_store(&st, &store()));
}

#[test]
fn assign_and_remove_of_one_field_conflict() {
    let mut s = base_server();
    let mut st = store();
    let d = DataEditServer {
        description: Some("New".to_string()),
        remove: Some(vec![FieldsServer::Description]),
        ..Default::default()
    };
    assert_eq!(req(&mut s, &mut st, d, ALL_PERMISSIONS, true), Err(Error::InvalidOperation));
    assert!(same_server(&s, &base_server()));
    assert!(same_store(&st, &store()));
}

#[test]
fn channel_in_two_categories_is_rejected() {
    let mut s = base_server();
    let mut st = store();
    let d = DataEditServer {
        categories: Some(vec![category("a", "A", &["c1", "c2"]), category("b", "B", &["c3", "c1"])]),
        ..Default::default()
    };
    assert_eq!(req(&mut s, &mut st, d, ALL_PERMISSIONS, false), Err(Error::InvalidOperation));
    assert!(same_server(&s, &base_server()));
}

#[test]
fn routing_to_unknown_channel_is_not_found() {
    let mut s = base_server();
    let mut st = store();
    let d = DataEditServer {
        system_messages: Some(SystemMessageChannels {
            user_joined: Some("c1".to_string()),
            user_left: None,
            user_kicked: Some("c7".to_string()),
            user_banned: None,
        }),
        ..Default::default()
    };
    assert_eq!(req(&mut s, &mut st, d, ALL_PERMISSIONS, false), Err(Error::NotFound));
    assert!(same_server(&s, &base_server()));
}

#[test]
fn routing_to_known_channels_is_stored() {
    let mut s = base_server();
    let mut st = store();
    let d = DataEditServer {
        system_messages: Some(SystemMessageChannels {
            user_joined: Some("c1".to_string()),
            user_left: Some("c2".to_string()),
            user_kicked: None,
            user_banned: Some("c3".to_string()),
        }),
        ..Default::default()
    };
    assert_eq!(req(&mut s, &mut st, d, MANAGE_SERVER, false), Ok(()));
    let sm = s.system_messages.unwrap();
    assert_eq!(sm.user_left, Some("c2".to_string()));
    assert_eq!(sm.clone().into_channel_ids(), strs(&["c1", "c2", "c3"]));
}

#[test]
fn applying_a_plan_twice_is_the_same_as_once() {
    let plan = PartialServer {
        name: Some("Renamed".to_string()),
        flags: Some(1),
        analytics: Some(true),
        ..Default::default()
    };
    let clear = vec![FieldsServer::Description, FieldsServer::Icon];
    let mut s = base_server();
    apply_plan(&mut s, plan.clone(), &clear);
    let once = s.clone();
    apply_plan(&mut s, plan, &clear);
    assert!(same_server(&s, &once));
    assert_eq!(s.name, "Renamed");
    assert_eq!(s.description, None);
    assert!(s.icon.is_none());
    assert_eq!(s.flags, Some(1));
    assert!(s.analytics);
}

#[test]
fn channels_outside_the_server_are_dropped_from_categories() {
    let mut s = base_server();
    let mut st = store();
    let d = DataEditServer {
        categories: Some(vec![category("a", "General", &["c1", "c9"])]),
        ..Default::default()
    };
    assert_eq!(req(&mut s, &mut st, d, MANAGE_CHANNEL, false), Ok(()));
    let cats = s.categories.unwrap();
    assert_eq!(cats.len(), 1);
    assert_eq!(cats[0].id, "a");
    assert_eq!(cats[0].title, "General");
    assert_eq!(cats[0].channels, strs(&["c1"]));
}

#[test]
fn removing_icon_marks_it_for_deletion() {
    let mut s = base_server();
    let mut st = store();
    let d = DataEditServer { remove: Some(vec![FieldsServer::Icon]), ..Default::default() };
    assert_eq!(req(&mut s, &mut st, d, MANAGE_SERVER, false), Ok(()));
    assert!(s.icon.is_none());
    assert_eq!(st.files[0].state, AttachmentState::MarkedForDeletion);
    assert_eq!(st.files[1].state, AttachmentState::Pending);
    assert_eq!(s.description, Some("Old description".to_string()));
}

#[test]
fn flags_need_only_the_global_privilege() {
    let mut s = base_server();
    let mut st = store();
    let d = DataEditServer { flags: Some(2), ..Default::default() };
    assert_eq!(req(&mut s, &mut st, d, 0, true), Ok(()));
    assert_eq!(s.flags, Some(2));

    let mut s2 = base_server();
    let d2 = DataEditServer { discoverable: Some(true), ..Default::default() };
    assert_eq!(req(&mut s2, &mut st, d2, ALL_PERMISSIONS, false), Err(Error::NotPrivileged));
    assert!(!s2.discoverable);
}

#[test]
fn categories_need_the_channel_right() {
    let mut s = base_server();
    let mut st = store();
    let d = DataEditServer {
        categories: Some(vec![category("a", "General", &["c1"])]),
        ..Default::default()
    };
    assert_eq!(
        req(&mut s, &mut st, d, MANAGE_SERVER, false),
        Err(Error::MissingPermission { permission: Permission::ManageChannel })
    );
    assert!(s.categories.is_none());
}

#[test]
fn general_fields_need_the_server_right() {
    let mut s = base_server();
    let mut st = store();
    let d = DataEditServer { name: Some("New".to_string()), ..Default::default() };
    assert_eq!(
        req(&mut s, &mut st, d, MANAGE_CHANNEL, true),
        Err(Error::MissingPermission { permission: Permission::ManageServer })
    );
    assert_eq!(s.name, "Old name");
}

#[test]
fn new_icon_is_bound_to_the_server() {
    let mut s = base_server();
    let mut st = store();
    let d = DataEditServer {
        icon: Some("f2".to_string()),
        name: Some("New".to_string()),
        ..Default::default()
    };
    assert_eq!(req(&mut s, &mut st, d, MANAGE_SERVER, false), Ok(()));
    assert_eq!(s.icon.as_ref().map(|f| f.id.clone()), Some("f2".to_string()));
    assert_eq!(s.name, "New");
    assert_eq!(st.files[1].state, AttachmentState::Bound);
    assert_eq!(st.files[1].bound_to, Some("srv".to_string()));
    assert_eq!(st.files[0].state, AttachmentState::Bound);
}

#[test]
fn released_or_unknown_attachment_is_not_found() {
    let mut s = base_server();
    let mut st = store();
    let d = DataEditServer { banner: Some("f3".to_string()), ..Default::default() };
    assert_eq!(req(&mut s, &mut st, d, MANAGE_SERVER, false), Err(Error::NotFound));
    let d2 = DataEditServer {
        icon: Some("f2".to_string()),
        banner: Some("nope".to_string()),
        ..Default::default()
    };
    assert_eq!(req(&mut s, &mut st, d2, MANAGE_SERVER, false), Err(Error::NotFound));
    assert!(same_store(&st, &store()));
    assert!(same_server(&s, &base_server()));
}
