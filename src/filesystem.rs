use vstd::prelude::*;

verus! {

#[derive(Debug, Clone, Copy, PartialEq, Eq, Structural)]
pub enum FileSystemNodeType {
    File,
    Directory,
}

#[derive(Debug, Clone, Copy, PartialEq, Eq, Structural)]
pub enum FileSystemPermission {
    ReadOnly,
    ReadWrite,
}

/// What the host reported of an entry's metadata.
#[derive(Debug, Clone, Copy, PartialEq, Eq, Structural)]
pub struct EntryMetadata {
    pub size: u64,
    /// Seconds since the Unix epoch of the last change, when known and not before the epoch.
    pub modified_secs: Option<u64>,
}

/// A directory entry as the host read it; the parts it could not read are absent.
#[derive(Debug)]
pub struct DirEntryInfo {
    pub name: String,
    /// Whether the entry is a directory, when its type could be read.
    pub is_dir: Option<bool>,
    pub metadata: Option<EntryMetadata>,
}

/// One entry of a directory listing.
#[derive(Debug)]
pub struct FileSystemNodeInfo {
    pub name: String,
    pub node_type: Option<FileSystemNodeType>,
    pub permissions: Option<FileSystemPermission>,
    /// The size, given for files only.
    pub size: Option<u64>,
    pub last_modified: Option<i64>,
}

/// A failure to read the worker's file system.
#[derive(Debug)]
pub struct FileSystemError {
    pub details: String,
}

/// The listing entry for a directory entry: its name; its kind when known; read-write
/// permission, its change time and, for a file, its size when the metadata is known.
pub open spec fn converted(e: DirEntryInfo) -> FileSystemNodeInfo {
    let is_file = e.is_dir == Some(false);
    FileSystemNodeInfo {
        name: e.name,
        node_type: match e.is_dir {
            Some(true) => Some(FileSystemNodeType::Directory),
            Some(false) => Some(FileSystemNodeType::File),
            None => None,
        },
        permissions: match e.metadata {
            Some(_) => Some(FileSystemPermission::ReadWrite),
            None => None,
        },
        size: match e.metadata {
            Some(m) => if is_file {
                Some(m.size)
            } else {
                None
            },
            None => None,
        },
        last_modified: match e.metadata {
            Some(m) => match m.modified_secs {
                Some(s) => Some(s as i64),
                None => None,
            },
            None => None,
        },
    }
}

pub fn convert_metadata(entry: &DirEntryInfo) -> (r: FileSystemNodeInfo)
    ensures
        r == converted(*entry),
{
    let mut use_size = false;
    let mut node = FileSystemNodeInfo {
        name: entry.name.clone(),
        node_type: None,
        permissions: None,
        size: None,
        last_modified: None,
    };
    if let Some(is_dir) = entry.is_dir {
        if is_dir {
            node.node_type = Some(FileSystemNodeType::Directory);
        } else {
            use_size = true;
            node.node_type = Some(FileSystemNodeType::File);
        }
    }
    if let Some(metadata) = entry.metadata {
        node.permissions = Some(FileSystemPermission::ReadWrite);
        if let Some(secs) = metadata.modified_secs {
            node.last_modified = Some(secs as i64);
        }
        if use_size {
            node.size = Some(metadata.size);
        }
    }
    node
}

/// The index of the first entry that could not be read, if any.
pub open spec fn first_error(entries: Seq<Result<DirEntryInfo, String>>) -> Option<int>
    decreases entries.len(),
{
    if entries.len() == 0 {
        None
    } else {
        match first_error(entries.drop_last()) {
            Some(i) => Some(i),
            None => if entries.last() is Err {
                Some(entries.len() - 1)
            } else {
                None
            },
        }
    }
}

proof fn lemma_first_error(entries: Seq<Result<DirEntryInfo, String>>)
    ensures
        match first_error(entries) {
            Some(i) => 0 <= i < entries.len() && entries[i] is Err && forall|j: int|
                0 <= j < i ==> #[trigger] entries[j] is Ok,
            None => forall|j: int| 0 <= j < entries.len() ==> #[trigger] entries[j] is Ok,
        },
    decreases entries.len(),
{
    if entries.len() > 0 {
        lemma_first_error(entries.drop_last());
        assert(forall|j: int| 0 <= j < entries.len() - 1 ==> entries.drop_last()[j] == entries[j]);
    }
}

/// The listing of a directory: every entry converted in order, or the failure to read
/// the first entry that could not be read.
pub fn get_files_grpc_internal(entries: &Vec<Result<DirEntryInfo, String>>) -> (r: Result<
    Vec<FileSystemNodeInfo>,
    FileSystemError,
>)
    ensures
        match first_error(entries@) {
            Some(i) => r matches Err(e) && entries@[i] == Err::<DirEntryInfo, String>(e.details),
            None => r matches Ok(nodes) && nodes@.len() == entries@.len() && forall|j: int|
                0 <= j < entries@.len() ==> nodes@[j] == converted(#[trigger] entries@[j]->Ok_0),
        },
{
    proof {
        lemma_first_error(entries@);
    }
    let mut nodes: Vec<FileSystemNodeInfo> = Vec::new();
    let mut i: usize = 0;
    while i < entries.len()
        invariant
            i <= entries@.len(),
            nodes@.len() == i,
            forall|j: int| 0 <= j < i ==> #[trigger] entries@[j] is Ok,
            forall|j: int| 0 <= j < i ==> nodes@[j] == converted(#[trigger] entries@[j]->Ok_0),
        decreases entries.len() - i,
    {
        match &entries[i] {
            Ok(entry) => {
                nodes.push(convert_metadata(entry));
            },
            Err(details) => {
                proof {
                    assert(entries@[i as int] is Err);
                    lemma_first_error(entries@);
                    match first_error(entries@) {
                        Some(k) => {
                            if k < i {
                                assert(entries@[k] is Ok);
                            } else if k > i {
                                assert(entries@[i as int] is Ok);
                            }
                        },
                        None => {
                            assert(entries@[i as int] is Ok);
                        },
                    }
                }
                return Err(FileSystemError { details: details.clone() });
            },
        }
        i = i + 1;
    }
    proof {
        match first_error(entries@) {
            Some(k) => {
                assert(entries@[k] is Ok);
            },
            None => {},
        }
    }
    Ok(nodes)
}

/// The answer to a listing request.
#[derive(Debug)]
pub enum GetFilesResponse {
    Success(Vec<FileSystemNodeInfo>),
    Failure(FileSystemError),
}

pub fn get_files_grpc(entries: &Vec<Result<DirEntryInfo, String>>) -> (r: GetFilesResponse)
    ensures
        match first_error(entries@) {
            Some(i) => r matches GetFilesResponse::Failure(e) && entries@[i] == Err::<
                DirEntryInfo,
                String,
            >(e.details),
            None => r matches GetFilesResponse::Success(nodes) && nodes@.len() == entries@.len()
                && forall|j: int|
                0 <= j < entries@.len() ==> nodes@[j] == converted(#[trigger] entries@[j]->Ok_0),
        },
{
    match get_files_grpc_internal(entries) {
        Ok(nodes) => GetFilesResponse::Success(nodes),
        Err(e) => GetFilesResponse::Failure(e),
    }
}

/// One message of the answer to a file request.
#[derive(Debug)]
pub enum GetFileResponse {
    FileChunk(Vec<u8>),
    Directory(Vec<FileSystemNodeInfo>),
    Failure(FileSystemError),
}

/// What was read at a path: the chunks of a file, each read or failed, or the entries of a
/// directory.
#[derive(Debug)]
pub enum FileSystemNode {
    File(Vec<Result<Vec<u8>, String>>),
    Directory(Vec<Result<DirEntryInfo, String>>),
}

/// The message for one chunk of a file: its bytes, or the failure to read it.
pub open spec fn chunk_message(resp: GetFileResponse, chunk: Result<Vec<u8>, String>) -> bool {
    match chunk {
        Ok(bytes) => resp matches GetFileResponse::FileChunk(c) && c@ == bytes@,
        Err(details) => resp matches GetFileResponse::Failure(e) && e.details == details,
    }
}

fn chunk_to_grpc(chunk: &Result<Vec<u8>, String>) -> (r: GetFileResponse)
    ensures
        chunk_message(r, *chunk),
{
    match chunk {
        Ok(bytes) => GetFileResponse::FileChunk(bytes.clone()),
        Err(details) => GetFileResponse::Failure(FileSystemError { details: details.clone() }),
    }
}

impl FileSystemNode {
    /// The messages that answer a file request: one per chunk of a file, in order, or a
    /// single one with the directory's listing or the failure to list it.
    pub fn get_file_grpc(&self) -> (r: Vec<GetFileResponse>)
        ensures
            match *self {
                FileSystemNode::File(chunks) => r@.len() == chunks@.len() && forall|j: int|
                    0 <= j < chunks@.len() ==> chunk_message(r@[j], #[trigger] chunks@[j]),
                FileSystemNode::Directory(entries) => r@.len() == 1 && match first_error(entries@) {
                    Some(i) => r@[0] matches GetFileResponse::Failure(e) && entries@[i] == Err::<
                        DirEntryInfo,
                        String,
                    >(e.details),
                    None => r@[0] matches GetFileResponse::Directory(nodes) && nodes@.len()
                        == entries@.len() && forall|j: int|
                        0 <= j < entries@.len() ==> nodes@[j] == converted(
                            #[trigger] entries@[j]->Ok_0,
                        ),
                },
            },
    {
        match self {
            FileSystemNode::File(chunks) => {
                let mut out: Vec<GetFileResponse> = Vec::new();
                let mut i: usize = 0;
                while i < chunks.len()
                    invariant
                        i <= chunks@.len(),
                        out@.len() == i,
                        forall|j: int| 0 <= j < i ==> chunk_message(out@[j], #[trigger] chunks@[j]),
                    decreases chunks.len() - i,
                {
                    out.push(chunk_to_grpc(&chunks[i]));
                    i = i + 1;
                }
                out
            },
            FileSystemNode::Directory(entries) => {
                let resp = match get_files_grpc_internal(entries) {
                    Ok(nodes) => GetFileResponse::Directory(nodes),
                    Err(e) => GetFileResponse::Failure(e),
                };
                let mut out: Vec<GetFileResponse> = Vec::new();
                out.push(resp);
                out
            },
        }
    }
}

} // verus!
