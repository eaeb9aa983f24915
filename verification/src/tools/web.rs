//! The web search tool.

use vstd::prelude::*;
use vstd::string::*;
use crate::json::{member, number_members, str_field, text_members, u64_field};
use crate::llm::ToolView;
use crate::number::{decimal, u64_text};
use crate::text::{concat, join_with, spec_join_with};
use crate::tools::{Tool, ToolDef, ToolResult, ToolResultView};

verus! {

/// One hit of a search.
#[derive(Debug)]
pub struct SearchResult {
    pub title: String,
    pub url: String,
    pub description: String,
}

/// Where the search service is asked.
pub const SEARCH_URL: &'static str = "https://api.search.brave.com/res/v1/web/search";

/// The country that searches are made for.
pub const SEARCH_COUNTRY: &'static str = "US";

/// How many hits are asked for where the call names no count: the count
/// that the call names, kept between 1 and 10, or 5.
pub open spec fn spec_count(wanted: Option<u64>) -> u32 {
    match wanted {
        Some(c) => if c > 10 {
            10
        } else if c < 1 {
            1
        } else {
            c as u32
        },
        None => 5,
    }
}

/// The lines that stand for the hit `result`, which is the `number`th.
pub open spec fn hit_text(number: nat, title: Seq<char>, url: Seq<char>, description: Seq<char>) -> Seq<
    char,
> {
    decimal(number) + ". "@ + title + "\n   URL: "@ + url + "\n   "@ + description + "\n"@
}

/// Searches the web through the Brave search service.
#[derive(Debug)]
pub struct WebSearchTool {
    pub api_key: String,
}

impl WebSearchTool {
    /// The tool, searching with `api_key`.
    pub fn new(api_key: String) -> (tool: WebSearchTool)
        ensures
            tool.api_key == api_key,
    {
        WebSearchTool { api_key }
    }

    /// The tool as the model is told of it.
    pub open spec fn spec_definition() -> ToolView {
        ToolView {
            name: "web_search"@,
            description: "使用 Brave Search 搜索网页信息"@,
            parameters: "{\"type\":\"object\",\"properties\":{\"query\":{\"type\":\"string\",\"description\":\"搜索查询词\"},\"count\":{\"type\":\"integer\",\"description\":\"返回结果数量（1-10），默认 5\",\"default\":5}},\"required\":[\"query\"]}"@,
        }
    }

}

impl WebSearchTool {
    /// How many hits to ask for when the call wants `wanted`.
    pub fn count_for(wanted: Option<u64>) -> (count: u32)
        ensures
            count == spec_count(wanted),
    {
        match wanted {
            Some(c) => {
                if c > 10 {
                    10
                } else if c < 1 {
                    1
                } else {
                    c as u32
                }
            },
            None => 5,
        }
    }

    /// What to search for and how many hits to ask for, for a call that
    /// names `query` and `count`, or does not. A call without a query is
    /// refused.
    pub fn plan_for(query: Option<String>, count: Option<u64>) -> (r: Result<(String, u32), String>)
        ensures
            match query {
                None => r matches Err(e) && e@ == "缺少 query 参数"@,
                Some(wanted) => r matches Ok(p) && p.0@ == wanted@ && p.1 == spec_count(count),
            },
    {
        match query {
            Some(q) => Ok((q, WebSearchTool::count_for(count))),
            None => Err("缺少 query 参数".to_owned()),
        }
    }

    /// What to search for and how many hits to ask for, by the arguments
    /// `args` of a call: the query is their text member `query`, without
    /// which the call is refused, and the count is taken from their number
    /// member `count`.
    pub fn plan(args: &serde_json::Value) -> (r: Result<(String, u32), String>)
        ensures
            match member(text_members(*args), "query"@) {
                None => r matches Err(e) && e@ == "缺少 query 参数"@,
                Some(wanted) => r matches Ok(p) && p.0@ == wanted && p.1 == spec_count(
                    member(number_members(*args), "count"@),
                ),
            },
            r matches Ok(p) ==> 1 <= p.1 <= 10,
    {
        WebSearchTool::plan_for(str_field(args, "query"), u64_field(args, "count"))
    }

    /// The texts of `results`, in order, numbered from 1.
    pub open spec fn spec_hit_texts(results: Seq<SearchResult>) -> Seq<Seq<char>> {
        Seq::new(
            results.len(),
            |i: int|
                hit_text((i + 1) as nat, results[i].title@, results[i].url@, results[i].description@),
        )
    }

    /// The result of a search that found `results`: their texts with an
    /// empty line between them, or a note that nothing was found; or the
    /// failure of the search.
    pub fn result_of(found: Result<Vec<SearchResult>, String>) -> (result: ToolResult)
        ensures
            result@ == (match found {
                Ok(results) => ToolResultView {
                    success: true,
                    output: if results@.len() == 0 {
                        "未找到相关结果"@
                    } else {
                        spec_join_with(Self::spec_hit_texts(results@), "\n"@)
                    },
                    error: None,
                },
                Err(reason) => ToolResultView {
                    success: false,
                    output: Seq::empty(),
                    error: Some("搜索失败: "@ + reason@),
                },
            }),
    {
        match found {
            Ok(results) => {
                if results.len() == 0 {
                    return ToolResult::success("未找到相关结果");
                }
                let mut texts: Vec<String> = Vec::new();
                let mut i: usize = 0;
                while i < results.len()
                    invariant
                        i <= results.len(),
                        texts.len() == i,
                        forall|k: int|
                            0 <= k < i ==> (#[trigger] texts@[k])@ == Self::spec_hit_texts(
                                results@,
                            )[k],
                    decreases results.len() - i,
                {
                    let number = u64_text(i as u64 + 1);
                    let mut text = number;
                    text.append(". ");
                    text.append(results[i].title.as_str());
                    text.append("\n   URL: ");
                    text.append(results[i].url.as_str());
                    text.append("\n   ");
                    text.append(results[i].description.as_str());
                    text.append("\n");
                    texts.push(text);
                    i += 1;
                }
                assert(texts.deep_view() =~= Self::spec_hit_texts(results@));
                let text = join_with(&texts, "\n");
                ToolResult::success(text.as_str())
            },
            Err(reason) => {
                let text = concat("搜索失败: ", reason.as_str());
                ToolResult::error(text.as_str())
            },
        }
    }
}

impl Tool for WebSearchTool {
    /// How the model is told of the tool.
    fn definition(&self) -> (def: ToolDef)
        ensures
            def@ == Self::spec_definition(),
    {
        ToolDef {
            name: "web_search".to_owned(),
            description: "使用 Brave Search 搜索网页信息".to_owned(),
            parameters: "{\"type\":\"object\",\"properties\":{\"query\":{\"type\":\"string\",\"description\":\"搜索查询词\"},\"count\":{\"type\":\"integer\",\"description\":\"返回结果数量（1-10），默认 5\",\"default\":5}},\"required\":[\"query\"]}".to_owned(),
        }
    }
}

} // verus!
