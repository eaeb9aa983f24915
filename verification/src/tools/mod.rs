//! Tools: what the model may call, how a call's outcome is reported, and
//! the registry that knows the tools by name.

use vstd::prelude::*;
use vstd::string::*;
use crate::config::{Config, ToolsConfig};
use crate::llm::ToolView;
use crate::text::{concat, str_eq};
use crate::tools::file::{ListDirTool, ReadFileTool, WriteFileTool};
use crate::tools::shell::ShellTool;
use crate::tools::web::WebSearchTool;

pub mod file;
pub mod message;
pub mod shell;
pub mod web;

verus! {

/// What a tool is run with.
#[derive(Debug)]
pub struct ToolContext {
    pub config: ToolsConfig,
    /// The directory that commands run in.
    pub working_dir: String,
}

impl ToolContext {
    /// A context with `config`, working in `current_dir`, or in `/tmp` where
    /// the current directory is not known.
    pub fn new(config: ToolsConfig, current_dir: Option<String>) -> (ctx: ToolContext)
        ensures
            ctx.config == config,
            ctx.working_dir@ == (match current_dir {
                Some(d) => d@,
                None => "/tmp"@,
            }),
    {
        let working_dir = match current_dir {
            Some(d) => d,
            None => "/tmp".to_owned(),
        };
        ToolContext { config, working_dir }
    }
}

/// A tool as the registry knows it.
#[derive(Debug)]
pub struct ToolDef {
    pub name: String,
    pub description: String,
    /// The JSON schema of the arguments, as text.
    pub parameters: String,
}

impl DeepView for ToolDef {
    type V = ToolView;

    open spec fn deep_view(&self) -> ToolView {
        ToolView {
            name: self.name@,
            description: self.description@,
            parameters: self.parameters@,
        }
    }
}

impl View for ToolDef {
    type V = ToolView;

    open spec fn view(&self) -> ToolView {
        self.deep_view()
    }
}

impl Clone for ToolDef {
    fn clone(&self) -> (r: ToolDef)
        ensures
            r@ == self@,
    {
        ToolDef {
            name: self.name.clone(),
            description: self.description.clone(),
            parameters: self.parameters.clone(),
        }
    }
}

impl ToolDef {
    /// The tool as a provider is told of it.
    pub fn to_llm_tool(&self) -> (tool: crate::llm::Tool)
        ensures
            tool@ == self@,
    {
        crate::llm::Tool {
            name: self.name.clone(),
            description: self.description.clone(),
            parameters: self.parameters.clone(),
        }
    }
}

/// What running a tool gave.
#[derive(Debug)]
pub struct ToolResult {
    pub success: bool,
    pub output: String,
    pub error: Option<String>,
}

/// `ToolResult` as contracts see it.
pub struct ToolResultView {
    pub success: bool,
    pub output: Seq<char>,
    pub error: Option<Seq<char>>,
}

impl DeepView for ToolResult {
    type V = ToolResultView;

    open spec fn deep_view(&self) -> ToolResultView {
        ToolResultView {
            success: self.success,
            output: self.output@,
            error: self.error.deep_view(),
        }
    }
}

impl View for ToolResult {
    type V = ToolResultView;

    open spec fn view(&self) -> ToolResultView {
        self.deep_view()
    }
}

impl ToolResultView {
    /// The result as the model reads it: the output of a success; for a
    /// failure its error behind a fixed prefix.
    pub open spec fn text(self) -> Seq<char> {
        if self.success {
            self.output
        } else {
            "错误: "@ + (match self.error {
                Some(e) => e,
                None => "未知错误"@,
            })
        }
    }
}

impl ToolResult {
    /// The result of a tool that ran well and printed `output`.
    pub fn success(output: &str) -> (r: ToolResult)
        ensures
            r@ == (ToolResultView { success: true, output: output@, error: None }),
    {
        ToolResult { success: true, output: output.to_owned(), error: None }
    }

    /// The result of a tool that failed with `error`.
    pub fn error(error: &str) -> (r: ToolResult)
        ensures
            r@ == (ToolResultView { success: false, output: Seq::empty(), error: Some(error@) }),
    {
        ToolResult { success: false, output: String::new(), error: Some(error.to_owned()) }
    }

    /// The result as the model reads it.
    pub fn to_string(&self) -> (text: String)
        ensures
            text@ == self@.text(),
    {
        if self.success {
            self.output.clone()
        } else {
            match &self.error {
                Some(e) => concat("错误: ", e.as_str()),
                None => concat("错误: ", "未知错误"),
            }
        }
    }
}

/// Something that the model may call. Running it is left to the program
/// around the library.
pub trait Tool {
    /// How the model is told of the tool.
    fn definition(&self) -> ToolDef;
}

/// What is reported of a call to a tool that is not registered.
pub open spec fn unknown_tool_text(name: Seq<char>) -> Seq<char> {
    "未知工具: "@ + name
}

/// What the model reads of a tool that could not be run for `reason`.
pub open spec fn tool_failure_text(reason: Seq<char>) -> Seq<char> {
    "工具执行错误: "@ + reason
}

/// What is reported of a call to a tool that is not registered.
pub fn unknown_tool(name: &str) -> (text: String)
    ensures
        text@ == unknown_tool_text(name@),
{
    concat("未知工具: ", name)
}

/// What the model reads of a tool that could not be run for `reason`.
pub fn tool_failure(reason: &str) -> (text: String)
    ensures
        text@ == tool_failure_text(reason@),
{
    concat("工具执行错误: ", reason)
}

/// Whether a tool named `name` is among `tools`.
pub open spec fn has_tool(tools: Seq<ToolView>, name: Seq<char>) -> bool {
    exists|i: int| 0 <= i < tools.len() && #[trigger] tools[i].name == name
}

/// No two of `tools` share a name.
pub open spec fn distinct_names(tools: Seq<ToolView>) -> bool {
    forall|i: int, j: int|
        0 <= i < j < tools.len() ==> #[trigger] tools[i].name != #[trigger] tools[j].name
}

/// `tools` after registering `def`: it takes the place of the tool of the
/// same name, or comes last where there is none.
pub open spec fn registered(tools: Seq<ToolView>, def: ToolView) -> Seq<ToolView> {
    if exists|i: int| 0 <= i < tools.len() && #[trigger] tools[i].name == def.name {
        let i = choose|i: int| 0 <= i < tools.len() && #[trigger] tools[i].name == def.name;
        tools.update(i, def)
    } else {
        tools.push(def)
    }
}

/// The tools by name. No two tools share a name.
#[derive(Debug)]
pub struct ToolRegistry {
    tools: Vec<ToolDef>,
}

impl DeepView for ToolRegistry {
    type V = Seq<ToolView>;

    closed spec fn deep_view(&self) -> Seq<ToolView> {
        self.tools.deep_view()
    }
}

impl View for ToolRegistry {
    type V = Seq<ToolView>;

    /// The registered tools, in the order in which their names came.
    open spec fn view(&self) -> Seq<ToolView> {
        self.deep_view()
    }
}

impl ToolRegistry {
    /// What holds of every registry: no two tools share a name.
    pub open spec fn wf(&self) -> bool {
        distinct_names(self@)
    }

    /// A registry without tools.
    pub fn new() -> (r: ToolRegistry)
        ensures
            r@ == Seq::<ToolView>::empty(),
            r.wf(),
    {
        let r = ToolRegistry { tools: Vec::new() };
        assert(r.tools.deep_view() =~= Seq::<ToolView>::empty());
        r
    }

    /// How many tools are registered.
    pub fn len(&self) -> (n: usize)
        ensures
            n == self@.len(),
    {
        self.tools.len()
    }

    /// Whether no tool is registered.
    pub fn is_empty(&self) -> (b: bool)
        ensures
            b == (self@.len() == 0),
    {
        self.tools.len() == 0
    }

    fn find(&self, name: &str) -> (r: Option<usize>)
        ensures
            match r {
                Some(i) => i < self@.len() && self@[i as int].name == name@,
                None => !has_tool(self@, name@),
            },
    {
        let mut i: usize = 0;
        while i < self.tools.len()
            invariant
                i <= self.tools.len(),
                forall|k: int| 0 <= k < i ==> self.tools@[k].name@ != name@,
            decreases self.tools.len() - i,
        {
            if str_eq(self.tools[i].name.as_str(), name) {
                return Some(i);
            }
            i += 1;
        }
        None
    }

    /// Registers `def` under its name, in place of the tool that had the
    /// name before, if any.
    pub fn register(&mut self, def: ToolDef)
        requires
            old(self).wf(),
        ensures
            final(self).wf(),
            final(self)@ == registered(old(self)@, def@),
            has_tool(final(self)@, def@.name),
    {
        match self.find(def.name.as_str()) {
            Some(i) => {
                let ghost before = self.tools.deep_view();
                let ghost d = def@;
                self.tools.set(i, def);
                assert(self.tools.deep_view() =~= before.update(i as int, d));
                assert forall|k: int| 0 <= k < before.len() && #[trigger] before[k].name
                    == d.name implies k == i by {}
                assert(self.tools.deep_view()[i as int].name == d.name);
            },
            None => {
                let ghost before = self.tools.deep_view();
                let ghost d = def@;
                self.tools.push(def);
                assert(self.tools.deep_view() =~= before.push(d));
                assert(self.tools.deep_view()[before.len() as int].name == d.name);
            },
        }
    }

    /// Registers `tool` under the name that its definition gives, in place
    /// of the tool that had the name before, if any.
    pub fn register_tool<T: Tool>(&mut self, tool: &T)
        requires
            old(self).wf(),
        ensures
            final(self).wf(),
            exists|def: ToolView| final(self)@ == #[trigger] registered(old(self)@, def),
    {
        let def = tool.definition();
        let ghost d = def@;
        self.register(def);
        assert(self@ == registered(old(self)@, d));
    }

    /// Whether a tool named `name` is registered.
    pub fn contains(&self, name: &str) -> (b: bool)
        ensures
            b == has_tool(self@, name@),
    {
        self.find(name).is_some()
    }

    /// The tool registered as `name`.
    pub fn get(&self, name: &str) -> (r: Option<&ToolDef>)
        ensures
            r is Some == has_tool(self@, name@),
            r matches Some(def) ==> def@.name == name@ && self@.contains(def@),
    {
        match self.find(name) {
            Some(i) => {
                assert(self@[i as int] == self.tools@[i as int]@);
                Some(&self.tools[i])
            },
            None => None,
        }
    }

    /// The registered tools.
    pub fn list_tools(&self) -> (defs: &Vec<ToolDef>)
        ensures
            defs.deep_view() == self@,
    {
        &self.tools
    }

    /// The tools that come with the library, in the order in which they are
    /// registered: the shell and the three file tools, then web search where
    /// a key for it is configured.
    pub open spec fn default_tools(web_search: bool) -> Seq<ToolView> {
        let always = seq![
            ShellTool::spec_definition(),
            ReadFileTool::spec_definition(),
            WriteFileTool::spec_definition(),
            ListDirTool::spec_definition(),
        ];
        if web_search {
            always.push(WebSearchTool::spec_definition())
        } else {
            always
        }
    }

    /// The registry of the tools that come with the library, as `config`
    /// allows them.
    pub fn default_with_config(config: &Config) -> (r: ToolRegistry)
        ensures
            r.wf(),
            r@ == Self::default_tools(config.tools.search_api_key is Some),
    {
        let mut r = ToolRegistry::new();
        proof {
            reveal_strlit("shell");
            reveal_strlit("read_file");
            reveal_strlit("write_file");
            reveal_strlit("list_dir");
            reveal_strlit("web_search");
            assert("shell"@.len() == 5 && "read_file"@.len() == 9 && "write_file"@.len() == 10
                && "list_dir"@.len() == 8);
            assert("read_file"@[0] == 'r' && "web_search"@[0] == 'w' && "write_file"@[1] == 'r'
                && "web_search"@[1] == 'e');
        }
        r.register(ShellTool.definition());
        r.register(ReadFileTool.definition());
        r.register(WriteFileTool.definition());
        r.register(ListDirTool.definition());
        match &config.tools.search_api_key {
            Some(key) => {
                r.register(WebSearchTool::new(key.clone()).definition());
            },
            None => {},
        }
        assert(r@ =~= Self::default_tools(config.tools.search_api_key is Some));
        r
    }

    /// The registered tools as a provider is told of them.
    pub fn to_llm_tools(&self) -> (tools: Vec<crate::llm::Tool>)
        ensures
            tools.deep_view() == self@,
    {
        let mut tools: Vec<crate::llm::Tool> = Vec::new();
        let mut i: usize = 0;
        while i < self.tools.len()
            invariant
                i <= self.tools.len(),
                tools.len() == i,
                forall|k: int| 0 <= k < i ==> tools@[k]@ == self.tools@[k]@,
            decreases self.tools.len() - i,
        {
            tools.push(self.tools[i].to_llm_tool());
            i += 1;
        }
        assert(tools.deep_view() =~= self.tools.deep_view());
        tools
    }
}

} // verus!
