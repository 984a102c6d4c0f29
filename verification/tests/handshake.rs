use lsp_bootstrap::handshake::{decode_handshake, local_paths};
use lsp_bootstrap::outcome::SessionFailure;
use lsp_types::{ClientCapabilities, Url};
use std::path::PathBuf;

fn document(text: &str) -> serde_json::Value {
    serde_json::from_str(text).unwrap()
}

#[test]
fn decodes_root_folders_and_data() {
    let request = decode_handshake(document(
        r#"{
            "processId": 7,
            "rootUri": "file:///work/root",
            "capabilities": {},
            "workspaceFolders": [
                {"uri": "file:///work/a", "name": "a"},
                {"uri": "file:///work/b", "name": "b"}
            ],
            "initializationOptions": {"lruCapacity": 16}
        }"#,
    ))
    .unwrap();
    assert_eq!(request.root_path, Some(PathBuf::from("/work/root")));
    assert_eq!(
        request.workspace_folders,
        Some(vec![PathBuf::from("/work/a"), PathBuf::from("/work/b")])
    );
    assert_eq!(request.initialization_data, Some(document(r#"{"lruCapacity": 16}"#)));
    assert_eq!(request.capabilities, ClientCapabilities::default());
}

#[test]
fn decodes_a_request_that_declares_nothing() {
    let request = decode_handshake(document(r#"{"capabilities": {}}"#)).unwrap();
    assert_eq!(request.root_path, None);
    assert_eq!(request.workspace_folders, None);
    assert_eq!(request.initialization_data, None);
}

#[test]
fn null_root_and_null_folders_are_not_declared() {
    let request = decode_handshake(document(
        r#"{"rootUri": null, "capabilities": {}, "workspaceFolders": null}"#,
    ))
    .unwrap();
    assert_eq!(request.root_path, None);
    assert_eq!(request.workspace_folders, None);
}

#[test]
fn an_empty_folder_list_stays_an_empty_list() {
    let request =
        decode_handshake(document(r#"{"capabilities": {}, "workspaceFolders": []}"#)).unwrap();
    assert_eq!(request.workspace_folders, Some(vec![]));
}

#[test]
fn folders_that_are_no_local_paths_are_dropped_in_place() {
    let request = decode_handshake(document(
        r#"{
            "capabilities": {},
            "workspaceFolders": [
                {"uri": "file:///work/a", "name": "a"},
                {"uri": "https://example.com/remote", "name": "remote"},
                {"uri": "file:///work/c", "name": "c"}
            ]
        }"#,
    ))
    .unwrap();
    assert_eq!(
        request.workspace_folders,
        Some(vec![PathBuf::from("/work/a"), PathBuf::from("/work/c")])
    );
}

#[test]
fn a_root_that_is_no_local_path_is_not_declared() {
    let request = decode_handshake(document(
        r#"{"rootUri": "https://example.com/remote", "capabilities": {}}"#,
    ))
    .unwrap();
    assert_eq!(request.root_path, None);
}

#[test]
fn percent_encoded_paths_are_decoded() {
    let request = decode_handshake(document(
        r#"{"rootUri": "file:///work/my%20project", "capabilities": {}}"#,
    ))
    .unwrap();
    assert_eq!(request.root_path, Some(PathBuf::from("/work/my project")));
}

#[test]
fn client_capabilities_are_handed_on() {
    let request = decode_handshake(document(
        r#"{"capabilities": {"workspace": {"workspaceFolders": true}}}"#,
    ))
    .unwrap();
    assert_ne!(request.capabilities, ClientCapabilities::default());
    assert_eq!(request.capabilities.workspace.unwrap().workspace_folders, Some(true));
}

#[test]
fn a_document_without_capabilities_is_a_protocol_failure() {
    let decoded = decode_handshake(document(r#"{"rootUri": "file:///work/root"}"#));
    match decoded {
        Err(SessionFailure::Protocol(detail)) => assert!(detail.contains("capabilities")),
        other => panic!("unexpected: {:?}", other),
    }
}

#[test]
fn a_document_of_the_wrong_shape_is_a_protocol_failure() {
    assert!(matches!(decode_handshake(document("[1, 2]")), Err(SessionFailure::Protocol(_))));
    assert!(matches!(
        decode_handshake(document(r#"{"capabilities": {}, "rootUri": 5}"#)),
        Err(SessionFailure::Protocol(_))
    ));
}

#[test]
fn local_paths_has_one_entry_for_each_uri() {
    let uris = vec![
        Url::parse("file:///x/y").unwrap(),
        Url::parse("https://example.com/z").unwrap(),
        Url::parse("file://localhost/x/z").unwrap(),
    ];
    assert_eq!(
        local_paths(&uris),
        vec![Some(PathBuf::from("/x/y")), None, Some(PathBuf::from("/x/z"))]
    );
    assert_eq!(local_paths(&vec![]), Vec::<Option<PathBuf>>::new());
}

#[test]
fn from_resolved_keeps_what_is_a_local_path() {
    let request = lsp_bootstrap::handshake::HandshakeRequest::from_resolved(
        ClientCapabilities::default(),
        Some(Some(PathBuf::from("/r"))),
        Some(vec![None, Some(PathBuf::from("/a")), None, Some(PathBuf::from("/b"))]),
        Some(5u8),
    );
    assert_eq!(request.root_path, Some(PathBuf::from("/r")));
    assert_eq!(request.workspace_folders, Some(vec![PathBuf::from("/a"), PathBuf::from("/b")]));
    assert_eq!(request.initialization_data, Some(5u8));
}

#[test]
fn from_resolved_drops_a_root_that_is_no_local_path() {
    let request = lsp_bootstrap::handshake::HandshakeRequest::<u8>::from_resolved(
        ClientCapabilities::default(),
        Some(None),
        Some(vec![None]),
        None,
    );
    assert_eq!(request.root_path, None);
    assert_eq!(request.workspace_folders, Some(vec![]));
    assert_eq!(request.initialization_data, None);
    let nothing = lsp_bootstrap::handshake::HandshakeRequest::<u8>::from_resolved(
        ClientCapabilities::default(),
        None,
        None,
        None,
    );
    assert_eq!(nothing.root_path, None);
    assert_eq!(nothing.workspace_folders, None);
}
