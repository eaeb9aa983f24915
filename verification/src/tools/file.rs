//! The file tools: reading a file, writing one, and listing a directory.

use vstd::prelude::*;
use vstd::string::*;
use crate::json::{member, str_field, text_members};
use crate::llm::ToolView;
use crate::number::{decimal, u64_text};
use crate::text::{concat, concat3, debug_list, debug_text, join_with, pad_right, padded};
use crate::text::spec_join_with;
use crate::tools::{Tool, ToolDef, ToolResult, ToolResultView};

verus! {

/// Whether `std::path::Path::starts_with` finds that `path` lies at or
/// under `base`. What counts as a separator depends on the platform; on
/// each of them a path lies at itself.
#[verifier::external_body]
pub(crate) fn path_starts_with(path: &str, base: &str) -> (under: bool)
    ensures
        path@ == base@ ==> under,
{
    std::path::Path::new(path).starts_with(std::path::Path::new(base))
}

/// What reports that `path` lies under none of `allowed_paths`.
pub open spec fn outside_text(path: Seq<char>, allowed_paths: Seq<Seq<char>>) -> Seq<char> {
    "路径 '"@ + path + "' 不在允许范围内。允许的路径: "@ + debug_text(allowed_paths)
}

/// Whether a path may be touched when `under` says, for each of the
/// allowed paths, whether the path lies at or under it: any path may where
/// no paths are listed; else it has to lie at or under a listed one.
pub open spec fn spec_path_decision(
    path: Seq<char>,
    allowed_paths: Seq<Seq<char>>,
    under: Seq<bool>,
) -> Result<(), Seq<char>> {
    if allowed_paths.len() == 0 || under.contains(true) {
        Ok(())
    } else {
        Err(outside_text(path, allowed_paths))
    }
}

/// Whether the path `path` may be touched when `under` says, for each of
/// the allowed paths, whether the path lies at or under it.
pub fn path_decision(path: &str, allowed_paths: &Vec<String>, under: &Vec<bool>) -> (r: Result<
    (),
    String,
>)
    ensures
        match r {
            Ok(()) => spec_path_decision(path@, allowed_paths.deep_view(), under@) is Ok,
            Err(e) => spec_path_decision(path@, allowed_paths.deep_view(), under@) == Err::<
                (),
                Seq<char>,
            >(e@),
        },
{
    if allowed_paths.len() == 0 {
        return Ok(());
    }
    let mut i: usize = 0;
    while i < under.len()
        invariant
            i <= under.len(),
            forall|k: int| 0 <= k < i ==> !under@[k],
        decreases under.len() - i,
    {
        if under[i] {
            assert(under@.contains(true));
            return Ok(());
        }
        i += 1;
    }
    let list = debug_list(allowed_paths);
    let mut text = concat3("路径 '", path, "' 不在允许范围内。允许的路径: ");
    text.append(list.as_str());
    Err(text)
}

/// Whether the path `path` may be touched: any path may where no paths
/// are listed; else it has to lie at or under a listed path. `canonical` is
/// the path as the file system resolves it, or the path itself, and
/// `canonical_allowed` holds the listed paths, resolved likewise. Whether
/// a path lies under another is asked of the platform; a path that is one
/// of the listed paths may always be touched.
pub fn validate_path(
    path: &str,
    canonical: &str,
    allowed_paths: &Vec<String>,
    canonical_allowed: &Vec<String>,
) -> (r: Result<(), String>)
    ensures
        allowed_paths@.len() == 0 ==> r is Ok,
        canonical_allowed.deep_view().contains(canonical@) ==> r is Ok,
        canonical_allowed@.len() == 0 && allowed_paths@.len() > 0 ==> r is Err,
        exists|under: Seq<bool>|
            under.len() == canonical_allowed@.len() && (match r {
                Ok(()) => #[trigger] spec_path_decision(path@, allowed_paths.deep_view(), under)
                    is Ok,
                Err(e) => spec_path_decision(path@, allowed_paths.deep_view(), under) == Err::<
                    (),
                    Seq<char>,
                >(e@),
            }),
{
    let mut under: Vec<bool> = Vec::new();
    let mut i: usize = 0;
    while i < canonical_allowed.len()
        invariant
            i <= canonical_allowed.len(),
            under.len() == i,
            forall|k: int|
                0 <= k < i && #[trigger] canonical_allowed@[k]@ == canonical@ ==> under@[k],
        decreases canonical_allowed.len() - i,
    {
        under.push(path_starts_with(canonical, canonical_allowed[i].as_str()));
        i += 1;
    }
    let r = path_decision(path, allowed_paths, &under);
    proof {
        let u = under@;
        if canonical_allowed.deep_view().contains(canonical@) {
            let k = choose|k: int|
                0 <= k < canonical_allowed.deep_view().len() && canonical_allowed.deep_view()[k]
                    == canonical@;
            assert(canonical_allowed.deep_view()[k] == canonical_allowed@[k]@);
            assert(u[k]);
            assert(u.contains(true));
        }
        if canonical_allowed@.len() == 0 {
            assert(!u.contains(true));
        }
        if r is Ok {
            assert(spec_path_decision(path@, allowed_paths.deep_view(), u) is Ok);
        } else {
            assert(spec_path_decision(path@, allowed_paths.deep_view(), u) == Err::<
                (),
                Seq<char>,
            >(r->Err_0@));
        }
    }
    r
}

/// The argument called `name` of a call with the arguments `args`: the
/// text member of that name, or the failure to name one.
pub open spec fn spec_argument(args: serde_json::Value, name: Seq<char>) -> Result<
    Seq<char>,
    Seq<char>,
> {
    match member(text_members(args), name) {
        Some(text) => Ok(text),
        None => Err("缺少 "@ + name + " 参数"@),
    }
}

/// A text or a failure, by its characters.
pub open spec fn result_view(r: Result<String, String>) -> Result<Seq<char>, Seq<char>> {
    match r {
        Ok(text) => Ok(text@),
        Err(e) => Err(e@),
    }
}

/// The path that a call names, or the failure to name one.
pub fn path_argument(args: &serde_json::Value) -> (r: Result<String, String>)
    ensures
        result_view(r) == spec_argument(*args, "path"@),
        r matches Err(e) ==> e@ == "缺少 path 参数"@,
{
    proof {
        lemma_missing_texts();
    }
    match str_field(args, "path") {
        Some(p) => Ok(p),
        None => Err("缺少 path 参数".to_owned()),
    }
}

/// The texts that report a missing path and a missing content are made of
/// the name of the argument between two fixed parts.
proof fn lemma_missing_texts()
    ensures
        "缺少 path 参数"@ == "缺少 "@ + "path"@ + " 参数"@,
        "缺少 content 参数"@ == "缺少 "@ + "content"@ + " 参数"@,
{
    reveal_strlit("缺少 path 参数");
    reveal_strlit("缺少 content 参数");
    reveal_strlit("缺少 ");
    reveal_strlit(" 参数");
    reveal_strlit("path");
    reveal_strlit("content");
    assert("缺少 path 参数"@ =~= "缺少 "@ + "path"@ + " 参数"@);
    assert("缺少 content 参数"@ =~= "缺少 "@ + "content"@ + " 参数"@);
}

/// How large a file may be to be read, in bytes.
pub const READ_LIMIT: u64 = 1024 * 1024;

/// What a directory entry is.
#[derive(Debug, Clone, Copy, PartialEq, Eq, Structural)]
pub enum EntryKind {
    Dir,
    File,
    Other,
    /// Nothing could be learnt of the entry.
    Unknown,
}

/// An entry of a directory.
#[derive(Debug)]
pub struct DirEntry {
    pub name: String,
    pub kind: EntryKind,
    /// The size in bytes.
    pub size: u64,
}

/// The line that stands for a directory entry: its kind, its size in a
/// column ten wide, where it is a file, and its name.
pub open spec fn entry_line(name: Seq<char>, kind: EntryKind, size: u64) -> Seq<char> {
    (match kind {
        EntryKind::Dir => "[DIR]"@,
        EntryKind::File => "[FILE]"@,
        EntryKind::Other => "[OTHER]"@,
        EntryKind::Unknown => "[UNKNOWN]"@,
    }) + " "@ + padded(
        if kind == EntryKind::File {
            decimal(size as nat) + " bytes"@
        } else {
            "-"@
        },
        10,
    ) + " "@ + name
}

/// Reads a file.
#[derive(Debug)]
pub struct ReadFileTool;

impl ReadFileTool {
    /// The tool as the model is told of it.
    pub open spec fn spec_definition() -> ToolView {
        ToolView {
            name: "read_file"@,
            description: "读取文件内容"@,
            parameters: "{\"type\":\"object\",\"properties\":{\"path\":{\"type\":\"string\",\"description\":\"文件路径\"}},\"required\":[\"path\"]}"@,
        }
    }

}

impl ReadFileTool {
    /// The failure to report for a file of `len` bytes, if it is too large
    /// to be read.
    pub fn check_size(len: u64) -> (r: Option<ToolResult>)
        ensures
            match r {
                Some(result) => len > READ_LIMIT && result@ == (ToolResultView {
                    success: false,
                    output: Seq::empty(),
                    error: Some("文件超过 1MB 限制"@),
                }),
                None => len <= READ_LIMIT,
            },
    {
        if len > READ_LIMIT {
            Some(ToolResult::error("文件超过 1MB 限制"))
        } else {
            None
        }
    }

    /// The result of reading a file: its content, or the failure to get at
    /// it, `unreadable` saying whether nothing at all could be learnt of
    /// the file.
    pub fn result_of(read: Result<String, String>, unreadable: bool) -> (result: ToolResult)
        ensures
            result@ == (match read {
                Ok(content) => ToolResultView { success: true, output: content@, error: None },
                Err(reason) => ToolResultView {
                    success: false,
                    output: Seq::empty(),
                    error: Some(
                        (if unreadable {
                            "无法读取文件: "@
                        } else {
                            "读取失败: "@
                        }) + reason@,
                    ),
                },
            }),
    {
        match read {
            Ok(content) => ToolResult::success(content.as_str()),
            Err(reason) => {
                let text = if unreadable {
                    concat("无法读取文件: ", reason.as_str())
                } else {
                    concat("读取失败: ", reason.as_str())
                };
                ToolResult::error(text.as_str())
            },
        }
    }
}

/// Writes a file, replacing what it held.
#[derive(Debug)]
pub struct WriteFileTool;

impl WriteFileTool {
    /// The tool as the model is told of it.
    pub open spec fn spec_definition() -> ToolView {
        ToolView {
            name: "write_file"@,
            description: "写入文件内容（覆盖模式）"@,
            parameters: "{\"type\":\"object\",\"properties\":{\"path\":{\"type\":\"string\",\"description\":\"文件路径\"},\"content\":{\"type\":\"string\",\"description\":\"文件内容\"}},\"required\":[\"path\",\"content\"]}"@,
        }
    }

}

impl WriteFileTool {
    /// The content that a call names, or the failure to name one.
    pub fn content_argument(args: &serde_json::Value) -> (r: Result<String, String>)
        ensures
            result_view(r) == spec_argument(*args, "content"@),
            r matches Err(e) ==> e@ == "缺少 content 参数"@,
    {
        proof {
            lemma_missing_texts();
        }
        match str_field(args, "content") {
            Some(c) => Ok(c),
            None => Err("缺少 content 参数".to_owned()),
        }
    }

    /// The result of writing the file `path`: a note that it is written,
    /// or the failure, `directory` saying whether it was the directory
    /// that could not be made.
    pub fn result_of(path: &str, written: Result<(), String>, directory: bool) -> (result: ToolResult)
        ensures
            result@ == (match written {
                Ok(()) => ToolResultView {
                    success: true,
                    output: "文件已写入: "@ + path@,
                    error: None,
                },
                Err(reason) => ToolResultView {
                    success: false,
                    output: Seq::empty(),
                    error: Some(
                        (if directory {
                            "创建目录失败: "@
                        } else {
                            "写入失败: "@
                        }) + reason@,
                    ),
                },
            }),
    {
        match written {
            Ok(()) => {
                let text = concat("文件已写入: ", path);
                ToolResult::success(text.as_str())
            },
            Err(reason) => {
                let text = if directory {
                    concat("创建目录失败: ", reason.as_str())
                } else {
                    concat("写入失败: ", reason.as_str())
                };
                ToolResult::error(text.as_str())
            },
        }
    }
}

/// Lists what a directory holds.
#[derive(Debug)]
pub struct ListDirTool;

impl ListDirTool {
    /// The tool as the model is told of it.
    pub open spec fn spec_definition() -> ToolView {
        ToolView {
            name: "list_dir"@,
            description: "列出目录内容"@,
            parameters: "{\"type\":\"object\",\"properties\":{\"path\":{\"type\":\"string\",\"description\":\"目录路径\"}},\"required\":[\"path\"]}"@,
        }
    }

}

impl ListDirTool {
    /// The line that stands for `entry`.
    pub fn line_of(entry: &DirEntry) -> (line: String)
        ensures
            line@ == entry_line(entry.name@, entry.kind, entry.size),
    {
        let kind = match entry.kind {
            EntryKind::Dir => "[DIR]",
            EntryKind::File => "[FILE]",
            EntryKind::Other => "[OTHER]",
            EntryKind::Unknown => "[UNKNOWN]",
        };
        let size = match entry.kind {
            EntryKind::File => {
                let number = u64_text(entry.size);
                concat(number.as_str(), " bytes")
            },
            _ => "-".to_owned(),
        };
        let column = pad_right(size.as_str(), 10);
        let mut line = kind.to_owned();
        line.append(" ");
        line.append(column.as_str());
        line.append(" ");
        line.append(entry.name.as_str());
        line
    }

    /// The lines of `entries`, in order.
    pub open spec fn spec_lines_of(entries: Seq<DirEntry>) -> Seq<Seq<char>> {
        Seq::new(entries.len(), |i: int| entry_line(entries[i].name@, entries[i].kind, entries[i].size))
    }

    /// The result of listing a directory that holds `entries`: a line for
    /// each, or a note that it is empty; or the failure to read it.
    pub fn result_of(listing: Result<Vec<DirEntry>, String>) -> (result: ToolResult)
        ensures
            result@ == (match listing {
                Ok(entries) => ToolResultView {
                    success: true,
                    output: if entries@.len() == 0 {
                        "目录为空"@
                    } else {
                        spec_join_with(Self::spec_lines_of(entries@), "\n"@)
                    },
                    error: None,
                },
                Err(reason) => ToolResultView {
                    success: false,
                    output: Seq::empty(),
                    error: Some("无法读取目录: "@ + reason@),
                },
            }),
    {
        match listing {
            Ok(entries) => {
                if entries.len() == 0 {
                    return ToolResult::success("目录为空");
                }
                let mut lines: Vec<String> = Vec::new();
                let mut i: usize = 0;
                while i < entries.len()
                    invariant
                        i <= entries.len(),
                        lines.len() == i,
                        forall|k: int|
                            0 <= k < i ==> (#[trigger] lines@[k])@ == Self::spec_lines_of(
                                entries@,
                            )[k],
                    decreases entries.len() - i,
                {
                    lines.push(ListDirTool::line_of(&entries[i]));
                    i += 1;
                }
                assert(lines.deep_view() =~= Self::spec_lines_of(entries@));
                let text = join_with(&lines, "\n");
                ToolResult::success(text.as_str())
            },
            Err(reason) => {
                let text = concat("无法读取目录: ", reason.as_str());
                ToolResult::error(text.as_str())
            },
        }
    }
}

impl Tool for ReadFileTool {
    /// How the model is told of the tool.
    fn definition(&self) -> (def: ToolDef)
        ensures
            def@ == Self::spec_definition(),
    {
        ToolDef {
            name: "read_file".to_owned(),
            description: "读取文件内容".to_owned(),
            parameters: "{\"type\":\"object\",\"properties\":{\"path\":{\"type\":\"string\",\"description\":\"文件路径\"}},\"required\":[\"path\"]}".to_owned(),
        }
    }
}

impl Tool for WriteFileTool {
    /// How the model is told of the tool.
    fn definition(&self) -> (def: ToolDef)
        ensures
            def@ == Self::spec_definition(),
    {
        ToolDef {
            name: "write_file".to_owned(),
            description: "写入文件内容（覆盖模式）".to_owned(),
            parameters: "{\"type\":\"object\",\"properties\":{\"path\":{\"type\":\"string\",\"description\":\"文件路径\"},\"content\":{\"type\":\"string\",\"description\":\"文件内容\"}},\"required\":[\"path\",\"content\"]}".to_owned(),
        }
    }
}

impl Tool for ListDirTool {
    /// How the model is told of the tool.
    fn definition(&self) -> (def: ToolDef)
        ensures
            def@ == Self::spec_definition(),
    {
        ToolDef {
            name: "list_dir".to_owned(),
            description: "列出目录内容".to_owned(),
            parameters: "{\"type\":\"object\",\"properties\":{\"path\":{\"type\":\"string\",\"description\":\"目录路径\"}},\"required\":[\"path\"]}".to_owned(),
        }
    }
}

} // verus!
