//! Tools for listing, reading, and writing files in the current chat session.

use crate::ids::{hyphenated_text, Uuid};
use crate::provider::{LlmTool, LlmToolType};
use crate::storage::local::{path_join, LocalStorage};
use crate::storage::DEFAULT_DATA_DIR;
use crate::text::{push_str, starts_with, str_eq};
use crate::tools::tool_core::{make_tool, tool_descs, ToolDesc, ToolError, ToolResponseFormat, ToolResult};
use vstd::prelude::*;
use vstd::utf8::{decode_utf8, valid_utf8};

verus! {

pub const LIST_FILES: &'static str = "list_files";
pub const LIST_FILES_DESC: &'static str = "List files for the current chat session";
pub const READ_FILE: &'static str = "read_file";
pub const READ_FILE_DESC: &'static str = "Read a file in the current chat session";
pub const WRITE_FILE: &'static str = "write_file";
pub const WRITE_FILE_DESC: &'static str = "Write a file in the current chat session";

/// Where the files tool keeps files.
#[derive(Debug, Clone, Copy, PartialEq, Eq, Structural)]
pub enum StorageType {
    Local,
}

/// Configuration of the files tool.
#[derive(Debug, Clone, Copy, PartialEq, Eq, Structural)]
pub struct FilesConfig {
    pub storage: StorageType,
}

/// Permissions given to the assistant for a chat: reading and writing files.
#[derive(Debug, Clone, Copy, PartialEq, Eq, Structural)]
pub struct FilesInput {
    /// Whether assistant has permission to read files
    pub read: bool,
    /// Whether assistant has permission to write files
    pub write: bool,
}

impl Default for FilesInput {
    fn default() -> (r: Self)
        ensures
            !r.read && !r.write,
    {
        FilesInput { read: false, write: false }
    }
}

/// Input schemas of the files tools, as JSON text.
#[derive(Debug)]
pub struct FilesSchemas {
    pub read_file: String,
    pub list_files: String,
    pub write_file: String,
}

/// Example of a directory path in the input schema.
pub fn dir_path_example() -> (r: &'static str)
    ensures
        r@ == "foo/dir"@,
{
    "foo/dir"
}

/// Example of a file path in the input schemas.
pub fn file_path_example() -> (r: &'static str)
    ensures
        r@ == "foo/file.txt"@,
{
    "foo/file.txt"
}

/// The files tools offered under the given permissions (all of them when none are given): reading
/// and listing files when reading is allowed, writing when writing is allowed.
pub open spec fn files_tools(tool_id: Uuid, input: Option<FilesInput>, schemas: FilesSchemas) -> Seq<ToolDesc> {
    (if input is None || input.unwrap().read {
        seq![
            ToolDesc {
                name: READ_FILE@,
                description: READ_FILE_DESC@,
                input_schema: schemas.read_file@,
                tool_id,
                tool_type: LlmToolType::System,
            },
            ToolDesc {
                name: LIST_FILES@,
                description: LIST_FILES_DESC@,
                input_schema: schemas.list_files@,
                tool_id,
                tool_type: LlmToolType::System,
            },
        ]
    } else {
        Seq::empty()
    }) + (if input is None || input.unwrap().write {
        seq![
            ToolDesc {
                name: WRITE_FILE@,
                description: WRITE_FILE_DESC@,
                input_schema: schemas.write_file@,
                tool_id,
                tool_type: LlmToolType::System,
            },
        ]
    } else {
        Seq::empty()
    })
}

impl FilesConfig {
    /// The files tools offered under the given permissions.
    pub fn get_llm_tools(&self, tool_id: Uuid, input_config: Option<&FilesInput>, schemas: &FilesSchemas) -> (r: Vec<
        LlmTool,
    >)
        ensures
            tool_descs(r@) == files_tools(
                tool_id,
                match input_config {
                    Some(c) => Some(*c),
                    None => None,
                },
                *schemas,
            ),
    {
        let mut tools: Vec<LlmTool> = Vec::new();
        let read = match input_config {
            Some(c) => c.read,
            None => true,
        };
        let write = match input_config {
            Some(c) => c.write,
            None => true,
        };
        if read {
            tools.push(make_tool(READ_FILE, READ_FILE_DESC, schemas.read_file.as_str(), tool_id, LlmToolType::System));
            tools.push(make_tool(LIST_FILES, LIST_FILES_DESC, schemas.list_files.as_str(), tool_id, LlmToolType::System));
        }
        let ghost first = tool_descs(tools@);
        if write {
            tools.push(make_tool(WRITE_FILE, WRITE_FILE_DESC, schemas.write_file.as_str(), tool_id, LlmToolType::System));
        }
        assert(tool_descs(tools@) =~= files_tools(
            tool_id,
            match input_config {
                Some(c) => Some(*c),
                None => None,
            },
            *schemas,
        ));
        tools
    }

    /// Checks the configuration; every files configuration is valid.
    pub fn validate(&self) -> (r: ToolResult<()>)
        ensures
            r is Ok,
    {
        Ok(())
    }
}

/// A call of a files tool, by the tool's name.
#[derive(Debug, Clone, Copy, PartialEq, Eq, Structural)]
pub enum FilesToolKind {
    Read,
    List,
    Write,
}

/// The files tool of a name, if it is one.
pub open spec fn files_tool_kind(name: Seq<char>) -> Option<FilesToolKind> {
    if name == READ_FILE@ {
        Some(FilesToolKind::Read)
    } else if name == LIST_FILES@ {
        Some(FilesToolKind::List)
    } else if name == WRITE_FILE@ {
        Some(FilesToolKind::Write)
    } else {
        None
    }
}

/// Tools for listing, reading, and writing files in the current chat session.
#[derive(Debug)]
pub struct Files<'a> {
    pub user_id: &'a Uuid,
    pub session_id: &'a Uuid,
    pub data_dir: Option<&'a str>,
    pub config: &'a FilesConfig,
}

/// The path of the storage under a data directory (`/data` by default).
pub open spec fn storage_path(data_dir: Option<&str>) -> Seq<char> {
    path_join(
        match data_dir {
            Some(d) => d@,
            None => DEFAULT_DATA_DIR@,
        },
        "storage"@,
    )
}

/// The message given when a file was written: `File '<path>' created with ID <id>`.
pub open spec fn file_created_text(path: Seq<char>, id: u128) -> Seq<char> {
    "File '"@ + path + "' created with ID "@ + hyphenated_text(id)
}

impl<'a> Files<'a> {
    pub fn new(user_id: &'a Uuid, session_id: &'a Uuid, data_dir: Option<&'a str>, config: &'a FilesConfig) -> (r: Self)
        ensures
            r.user_id == user_id,
            r.session_id == session_id,
            r.data_dir == data_dir,
            r.config == config,
    {
        Files { user_id, session_id, data_dir, config }
    }

    /// The tool of a name, or `ToolNotFound`.
    pub fn tool_kind(&self, tool_name: &str) -> (r: ToolResult<FilesToolKind>)
        ensures
            match files_tool_kind(tool_name@) {
                Some(k) => r matches Ok(rk) && rk == k,
                None => r matches Err(ToolError::ToolNotFound),
            },
    {
        if str_eq(tool_name, READ_FILE) {
            Ok(FilesToolKind::Read)
        } else if str_eq(tool_name, LIST_FILES) {
            Ok(FilesToolKind::List)
        } else if str_eq(tool_name, WRITE_FILE) {
            Ok(FilesToolKind::Write)
        } else {
            Err(ToolError::ToolNotFound)
        }
    }

    /// The input schema of a tool, or `ToolNotFound`.
    pub fn input_schema<'s>(&self, tool_name: &str, schemas: &'s FilesSchemas) -> (r: ToolResult<&'s str>)
        ensures
            match files_tool_kind(tool_name@) {
                Some(FilesToolKind::Read) => r matches Ok(s) && s@ == schemas.read_file@,
                Some(FilesToolKind::List) => r matches Ok(s) && s@ == schemas.list_files@,
                Some(FilesToolKind::Write) => r matches Ok(s) && s@ == schemas.write_file@,
                None => r matches Err(ToolError::ToolNotFound),
            },
    {
        match self.tool_kind(tool_name)? {
            FilesToolKind::Read => Ok(schemas.read_file.as_str()),
            FilesToolKind::List => Ok(schemas.list_files.as_str()),
            FilesToolKind::Write => Ok(schemas.write_file.as_str()),
        }
    }

    /// The storage that the files are kept in: `storage` under the data directory.
    pub fn storage(&self) -> (r: LocalStorage)
        ensures
            r.base_path@ == storage_path(self.data_dir),
    {
        proof {
            reveal_strlit("storage");
        }
        let dir = match self.data_dir {
            Some(d) => d,
            None => DEFAULT_DATA_DIR,
        };
        LocalStorage::new(crate::storage::local::join_path(dir, "storage"))
    }
}

/// The paths among the session's file paths that lie under a directory (that start with it), in
/// order; all of them when no directory is given.
pub fn filter_by_dir(paths: Vec<String>, dir: Option<&str>) -> (r: Vec<String>)
    ensures
        match dir {
            Some(d) => r@ == paths@.filter(|p: String| d@.len() <= p@.len() && p@.subrange(0, d@.len() as int) == d@),
            None => r@ == paths@,
        },
{
    match dir {
        Some(d) => {
            let ghost pred = |p: String| d@.len() <= p@.len() && p@.subrange(0, d@.len() as int) == d@;
            let mut out: Vec<String> = Vec::new();
            let mut i: usize = 0;
            while i < paths.len()
                invariant
                    i <= paths@.len(),
                    out@ == paths@.take(i as int).filter(pred),
                    pred == (|p: String| d@.len() <= p@.len() && p@.subrange(0, d@.len() as int) == d@),
                decreases paths@.len() - i,
            {
                let ghost before = out@;
                assert(paths@.take(i + 1) =~= paths@.take(i as int).push(paths@[i as int]));
                proof {
                    paths@.take(i as int).lemma_filter_push(paths@[i as int], pred);
                }
                if starts_with(paths[i].as_str(), d) {
                    out.push(paths[i].clone());
                }
                assert(out@ =~= paths@.take(i + 1).filter(pred));
                i += 1;
            }
            assert(paths@.take(paths@.len() as int) =~= paths@);
            out
        },
        None => paths,
    }
}

/// The message given when a file was written.
pub fn file_created_message(path: &str, id: &Uuid) -> (r: String)
    ensures
        r@ == file_created_text(path@, id.bits),
{
    let mut m = "File '".to_string();
    push_str(&mut m, path);
    push_str(&mut m, "' created with ID ");
    let t = id.to_string();
    push_str(&mut m, t.as_str());
    m
}

/// The text that `String::from_utf8_lossy` makes of bytes: valid UTF-8 sequences decoded, and each
/// invalid sequence replaced by U+FFFD.
pub uninterp spec fn utf8_lossy_text(bytes: Seq<u8>) -> Seq<char>;

/// Decodes bytes with `String::from_utf8_lossy`. The result is named; std documents that valid
/// UTF-8 is decoded unchanged.
#[verifier::external_body]
fn utf8_lossy(bytes: &[u8]) -> (r: String)
    ensures
        r@ == utf8_lossy_text(bytes@),
        valid_utf8(bytes@) ==> r@ == decode_utf8(bytes@),
{
    String::from_utf8_lossy(bytes).into_owned()
}

/// The result of the read tool for a file's content: the content as text (invalid UTF-8 replaced
/// by U+FFFD), in the text format.
pub fn read_file_result(content: &[u8]) -> (r: (String, ToolResponseFormat))
    ensures
        r.0@ == utf8_lossy_text(content@),
        valid_utf8(content@) ==> r.0@ == decode_utf8(content@),
        r.1 == ToolResponseFormat::Text,
{
    (utf8_lossy(content), ToolResponseFormat::Text)
}

} // verus!
