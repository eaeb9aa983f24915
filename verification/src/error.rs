//! The failures that the library reports.

use vstd::prelude::*;
use vstd::string::*;
use crate::json::{error_text, json_error_text};
use crate::text::concat;

verus! {

/// A failure, by the part of the system it comes from.
#[derive(Debug)]
pub enum NanobotError {
    /// The configuration is unusable.
    Config(String),
    /// The LLM backend failed or cannot be selected.
    Llm(String),
    /// A tool could not be run.
    Tool(String),
    /// A chat channel failed.
    Channel(String),
    /// The memory store failed.
    Memory(String),
    /// Reading or writing failed.
    Io(String),
    /// An HTTP exchange failed.
    Http(String),
    /// A text that had to be JSON is not.
    Json(serde_json::Error),
    /// The conversation loop did not reach a final answer within its ceiling.
    IterationLimit,
    /// Anything else.
    Unknown(String),
}

/// A failure as contracts see it: the variant and its text.
pub enum ErrorView {
    Config(Seq<char>),
    Llm(Seq<char>),
    Tool(Seq<char>),
    Channel(Seq<char>),
    Memory(Seq<char>),
    Io(Seq<char>),
    Http(Seq<char>),
    Json,
    IterationLimit,
    Unknown(Seq<char>),
}

impl View for NanobotError {
    type V = ErrorView;

    open spec fn view(&self) -> ErrorView {
        match self {
            NanobotError::Config(s) => ErrorView::Config(s@),
            NanobotError::Llm(s) => ErrorView::Llm(s@),
            NanobotError::Tool(s) => ErrorView::Tool(s@),
            NanobotError::Channel(s) => ErrorView::Channel(s@),
            NanobotError::Memory(s) => ErrorView::Memory(s@),
            NanobotError::Io(s) => ErrorView::Io(s@),
            NanobotError::Http(s) => ErrorView::Http(s@),
            NanobotError::Json(_) => ErrorView::Json,
            NanobotError::IterationLimit => ErrorView::IterationLimit,
            NanobotError::Unknown(s) => ErrorView::Unknown(s@),
        }
    }
}

/// The text shown for exceeding the iteration ceiling.
pub open spec fn iteration_limit_text() -> Seq<char> {
    "超过最大迭代次数"@
}

impl NanobotError {
    /// The text of the failure: a prefix that names its source, then its
    /// own text, which for a JSON failure is what the JSON reader reports.
    pub open spec fn spec_message(self) -> Seq<char> {
        match self {
            NanobotError::Config(s) => "配置错误: "@ + s@,
            NanobotError::Llm(s) => "LLM 提供商错误: "@ + s@,
            NanobotError::Tool(s) => "工具执行错误: "@ + s@,
            NanobotError::Channel(s) => "通道错误: "@ + s@,
            NanobotError::Memory(s) => "内存系统错误: "@ + s@,
            NanobotError::Io(s) => "IO 错误: "@ + s@,
            NanobotError::Http(s) => "HTTP 错误: "@ + s@,
            NanobotError::Json(e) => "JSON 解析错误: "@ + json_error_text(e),
            NanobotError::IterationLimit => iteration_limit_text(),
            NanobotError::Unknown(s) => "未知错误: "@ + s@,
        }
    }

    /// The failure as a line of text.
    pub fn message(&self) -> (text: String)
        ensures
            text@ == self.spec_message(),
    {
        match self {
            NanobotError::Config(s) => concat("配置错误: ", s.as_str()),
            NanobotError::Llm(s) => concat("LLM 提供商错误: ", s.as_str()),
            NanobotError::Tool(s) => concat("工具执行错误: ", s.as_str()),
            NanobotError::Channel(s) => concat("通道错误: ", s.as_str()),
            NanobotError::Memory(s) => concat("内存系统错误: ", s.as_str()),
            NanobotError::Io(s) => concat("IO 错误: ", s.as_str()),
            NanobotError::Http(s) => concat("HTTP 错误: ", s.as_str()),
            NanobotError::Json(e) => {
                let detail = error_text(e);
                concat("JSON 解析错误: ", detail.as_str())
            },
            NanobotError::IterationLimit => "超过最大迭代次数".to_owned(),
            NanobotError::Unknown(s) => concat("未知错误: ", s.as_str()),
        }
    }
}

} // verus!
