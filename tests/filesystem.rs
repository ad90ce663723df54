use golem_worker_executor::filesystem::{
    convert_metadata, get_files_grpc, get_files_grpc_internal, DirEntryInfo, EntryMetadata,
    FileSystemNode, FileSystemNodeType, FileSystemPermission, GetFileResponse, GetFilesResponse,
};

fn entry(name: &str, is_dir: Option<bool>, metadata: Option<EntryMetadata>) -> DirEntryInfo {
    DirEntryInfo { name: name.to_string(), is_dir, metadata }
}

#[test]
fn file_entry_gets_size_and_time() {
    let meta = EntryMetadata { size: 42, modified_secs: Some(1_700_000_000) };
    let node = convert_metadata(&entry("a.txt", Some(false), Some(meta)));
    assert_eq!(node.name, "a.txt");
    assert_eq!(node.node_type, Some(FileSystemNodeType::File));
    assert_eq!(node.permissions, Some(FileSystemPermission::ReadWrite));
    assert_eq!(node.size, Some(42));
    assert_eq!(node.last_modified, Some(1_700_000_000));
}

#[test]
fn directory_entry_has_no_size() {
    let meta = EntryMetadata { size: 4096, modified_secs: None };
    let node = convert_metadata(&entry("sub", Some(true), Some(meta)));
    assert_eq!(node.node_type, Some(FileSystemNodeType::Directory));
    assert_eq!(node.size, None);
    assert_eq!(node.last_modified, None);
}

#[test]
fn unreadable_type_and_metadata() {
    let node = convert_metadata(&entry("x", None, Some(EntryMetadata { size: 5, modified_secs: None })));
    assert_eq!(node.node_type, None);
    assert_eq!(node.size, None);
    assert_eq!(node.permissions, Some(FileSystemPermission::ReadWrite));
    let node = convert_metadata(&entry("y", Some(false), None));
    assert_eq!(node.permissions, None);
    assert_eq!(node.size, None);
}

#[test]
fn listing_stops_at_first_error() {
    let entries = vec![
        Ok(entry("a", Some(false), None)),
        Err("permission denied".to_string()),
        Err("later".to_string()),
    ];
    let err = get_files_grpc_internal(&entries).unwrap_err();
    assert_eq!(err.details, "permission denied");
    match get_files_grpc(&entries) {
        GetFilesResponse::Failure(e) => assert_eq!(e.details, "permission denied"),
        other => panic!("unexpected {:?}", other),
    }
}

#[test]
fn listing_converts_all_entries() {
    let entries = vec![Ok(entry("a", Some(false), None)), Ok(entry("b", Some(true), None))];
    let nodes = get_files_grpc_internal(&entries).unwrap();
    assert_eq!(nodes.len(), 2);
    assert_eq!(nodes[1].name, "b");
    assert!(get_files_grpc_internal(&vec![]).unwrap().is_empty());
}

#[test]
fn file_read_becomes_chunk_messages() {
    let node = FileSystemNode::File(vec![Ok(vec![1, 2]), Err("io".to_string()), Ok(vec![3])]);
    let msgs = node.get_file_grpc();
    assert_eq!(msgs.len(), 3);
    assert!(matches!(&msgs[0], GetFileResponse::FileChunk(c) if *c == vec![1, 2]));
    assert!(matches!(&msgs[1], GetFileResponse::Failure(e) if e.details == "io"));
    assert!(matches!(&msgs[2], GetFileResponse::FileChunk(c) if *c == vec![3]));
}

#[test]
fn directory_read_becomes_one_message() {
    let node = FileSystemNode::Directory(vec![Ok(entry("a", Some(true), None))]);
    let msgs = node.get_file_grpc();
    assert_eq!(msgs.len(), 1);
    assert!(matches!(&msgs[0], GetFileResponse::Directory(n) if n.len() == 1 && n[0].name == "a"));
}
