//! The shell tool: what it is called with, and which commands it may run.

use vstd::prelude::*;
use vstd::string::*;
use crate::config::ToolsConfig;
use crate::json::{member, number_members, str_field, text_members, u64_field};
use crate::llm::ToolView;
use crate::number::{decimal, i64_text, signed_decimal, u64_text};
use crate::text::{concat, concat3, contains_str, debug_list, debug_text, first_word};
use crate::text::{spec_contains_seq, spec_first_word, spec_starts_at};
use crate::tools::{Tool, ToolContext, ToolDef, ToolResult, ToolResultView};

verus! {

/// Runs a command in a shell.
#[derive(Debug)]
pub struct ShellTool;

impl ShellTool {
    /// The tool as the model is told of it.
    pub open spec fn spec_definition() -> ToolView {
        ToolView {
            name: "shell"@,
            description: "执行系统 shell 命令。使用前请确认命令在白名单中。"@,
            parameters: "{\"type\":\"object\",\"properties\":{\"command\":{\"type\":\"string\",\"description\":\"要执行的 shell 命令\"},\"timeout\":{\"type\":\"integer\",\"description\":\"超时时间（秒），默认 30\",\"default\":30}},\"required\":[\"command\"]}"@,
        }
    }

}

/// The name of the file that `std::path::Path::file_name` finds at the end
/// of a path, where it can be written as text. What counts as a separator
/// depends on the platform; on each of them the name is the last component
/// of the path, and so a part of it.
#[verifier::external_body]
pub(crate) fn file_name(path: &str) -> (r: Option<String>)
    ensures
        r matches Some(name) ==> spec_contains_seq(path@, name@),
{
    match std::path::Path::new(path).file_name() {
        Some(name) => match name.to_str() {
            Some(text) => Some(text.to_owned()),
            None => None,
        },
        None => None,
    }
}

/// How a command ended.
#[derive(Debug)]
pub enum ShellOutcome {
    /// The command ran to its end.
    Finished { success: bool, code: Option<i32>, stdout: String, stderr: String },
    /// The command could not be started.
    Failed(String),
    /// The command ran for longer than it may.
    TimedOut,
}

/// What the shell tool is to do for a call.
#[derive(Debug)]
pub enum ShellPlan {
    /// Run `command` and give it `timeout` seconds.
    Run { command: String, timeout: u64 },
    /// Run nothing: this is the result.
    Refuse(ToolResult),
}

/// `ShellPlan` as contracts see it.
pub enum ShellPlanView {
    Run { command: Seq<char>, timeout: u64 },
    Refuse(ToolResultView),
}

impl View for ShellPlan {
    type V = ShellPlanView;

    open spec fn view(&self) -> ShellPlanView {
        match self {
            ShellPlan::Run { command, timeout } => ShellPlanView::Run {
                command: command@,
                timeout: *timeout,
            },
            ShellPlan::Refuse(result) => ShellPlanView::Refuse(result@),
        }
    }
}

/// The seconds that a command gets where the call names none.
pub const DEFAULT_SHELL_TIMEOUT: u64 = 30;

/// What reports that the base command `base` is not on the list.
pub open spec fn not_listed_text(base: Seq<char>, whitelist: Seq<Seq<char>>) -> Seq<char> {
    "命令 '"@ + base + "' 不在白名单中。允许的命令: "@ + debug_text(whitelist)
}

/// Whether the command whose base name is `base` may run by `whitelist`.
pub open spec fn spec_check_base(base: Seq<char>, whitelist: Seq<Seq<char>>) -> Result<
    (),
    Seq<char>,
> {
    if whitelist.contains(base) {
        Ok(())
    } else {
        Err(not_listed_text(base, whitelist))
    }
}

/// Whether `verdict` can be what is found of `command` under `whitelist`:
/// any command may run where no commands are listed; a command without a
/// word may not; any other is held to the list by a base name of its first
/// word: a part of the word, which the platform picks.
pub open spec fn is_verdict(
    command: Seq<char>,
    whitelist: Seq<Seq<char>>,
    verdict: Result<(), Seq<char>>,
) -> bool {
    if whitelist.len() == 0 {
        verdict is Ok
    } else {
        match spec_first_word(command) {
            None => verdict == Err::<(), Seq<char>>("空命令"@),
            Some(word) => exists|base: Seq<char>|
                spec_contains_seq(word, base) && verdict == #[trigger] spec_check_base(
                    base,
                    whitelist,
                ),
        }
    }
}

/// What is done for a call that names `command` and `timeout`, or does
/// not, when `verdict` is what was found of the command: a call without a
/// command is an error; a command that may run is run, for as long as the
/// call says, or 30 seconds; any other is answered with the failure.
pub open spec fn planned(
    command: Option<Seq<char>>,
    timeout: Option<u64>,
    verdict: Result<(), Seq<char>>,
) -> Result<ShellPlanView, Seq<char>> {
    match command {
        None => Err("缺少 command 参数"@),
        Some(wanted) => Ok(
            match verdict {
                Ok(()) => ShellPlanView::Run {
                    command: wanted,
                    timeout: match timeout {
                        Some(t) => t,
                        None => DEFAULT_SHELL_TIMEOUT,
                    },
                },
                Err(reason) => ShellPlanView::Refuse(
                    ToolResultView { success: false, output: Seq::empty(), error: Some(reason) },
                ),
            },
        ),
    }
}

/// What is done for a call, by its characters.
pub open spec fn plan_view(r: Result<ShellPlan, String>) -> Result<ShellPlanView, Seq<char>> {
    match r {
        Ok(plan) => Ok(plan@),
        Err(e) => Err(e@),
    }
}

/// A verdict, by its characters.
pub open spec fn verdict_view(r: Result<(), String>) -> Result<(), Seq<char>> {
    match r {
        Ok(()) => Ok(()),
        Err(e) => Err(e@),
    }
}

/// The result of a command that ended as `outcome` after at most
/// `timeout` seconds. A command that succeeded gives what it printed, or
/// what it wrote to its error output where it printed nothing, or a note
/// where it wrote nothing at all. Any other gives a failure that says how
/// it ended.
pub open spec fn spec_shell_result(outcome: ShellOutcome, timeout: u64) -> ToolResultView {
    match outcome {
        ShellOutcome::Finished { success, code, stdout, stderr } => if success {
            ToolResultView {
                success: true,
                output: if stdout@.len() == 0 {
                    if stderr@.len() == 0 {
                        "命令执行成功（无输出）"@
                    } else {
                        stderr@
                    }
                } else {
                    stdout@
                },
                error: None,
            }
        } else {
            ToolResultView {
                success: false,
                output: Seq::empty(),
                error: Some(
                    "退出码: "@ + signed_decimal(
                        match code {
                            Some(c) => c as int,
                            None => -1,
                        },
                    ) + "\n标准输出: "@ + stdout@ + "\n标准错误: "@ + stderr@,
                ),
            }
        },
        ShellOutcome::Failed(reason) => ToolResultView {
            success: false,
            output: Seq::empty(),
            error: Some("执行失败: "@ + reason@),
        },
        ShellOutcome::TimedOut => ToolResultView {
            success: false,
            output: Seq::empty(),
            error: Some("命令执行超时（"@ + decimal(timeout as nat) + "秒）"@),
        },
    }
}

impl ShellTool {
    /// Whether the command whose base name is `base` may run by
    /// `whitelist`.
    pub fn check_base(base: &str, whitelist: &Vec<String>) -> (r: Result<(), String>)
        ensures
            match r {
                Ok(()) => spec_check_base(base@, whitelist.deep_view()) is Ok,
                Err(e) => spec_check_base(base@, whitelist.deep_view()) == Err::<(), Seq<char>>(e@),
            },
    {
        if contains_str(whitelist, base) {
            Ok(())
        } else {
            let list = debug_list(whitelist);
            let mut text = concat3("命令 '", base, "' 不在白名单中。允许的命令: ");
            text.append(list.as_str());
            Err(text)
        }
    }

    /// Whether `command` may run: any command may where no commands are
    /// listed; else its first word has to name a listed command, by its
    /// file name where it has one, or as it is. A command without a
    /// word may not run.
    pub fn validate_command(&self, command: &str, config: &ToolsConfig) -> (r: Result<(), String>)
        ensures
            is_verdict(command@, config.shell_whitelist.deep_view(), verdict_view(r)),
    {
        if config.shell_whitelist.len() == 0 {
            return Ok(());
        }
        let word = match first_word(command) {
            Some(w) => w,
            None => {
                return Err("空命令".to_owned());
            },
        };
        let ghost whole = word@;
        let base = match file_name(word.as_str()) {
            Some(name) => name,
            None => {
                assert(spec_starts_at(whole, 0, whole)) by {
                    assert(whole.subrange(0, whole.len() as int) =~= whole);
                }
                word
            },
        };
        assert(spec_contains_seq(whole, base@));
        let r = ShellTool::check_base(base.as_str(), &config.shell_whitelist);
        assert(verdict_view(r) == spec_check_base(base@, config.shell_whitelist.deep_view()));
        r
    }

    /// What to do for a call that names `command` and `timeout`, or does
    /// not: a call without a command is refused as an error; a command that
    /// may not run is answered with a failure; any other is to be run, for
    /// as long as the call says, or 30 seconds.
    pub fn plan_for(&self, command: Option<String>, timeout: Option<u64>, ctx: &ToolContext) -> (r:
        Result<ShellPlan, String>)
        ensures
            match command {
                None => plan_view(r) == planned(None, timeout, Ok(())),
                Some(wanted) => exists|verdict: Result<(), Seq<char>>|
                    #[trigger] is_verdict(wanted@, ctx.config.shell_whitelist.deep_view(), verdict)
                        && plan_view(r) == planned(Some(wanted@), timeout, verdict),
            },
    {
        let command = match command {
            Some(c) => c,
            None => {
                return Err("缺少 command 参数".to_owned());
            },
        };
        let given = match timeout {
            Some(t) => t,
            None => DEFAULT_SHELL_TIMEOUT,
        };
        let found = self.validate_command(command.as_str(), &ctx.config);
        let ghost verdict = verdict_view(found);
        let ghost wanted = command@;
        let r = match found {
            Ok(()) => Ok(ShellPlan::Run { command, timeout: given }),
            Err(e) => Ok(ShellPlan::Refuse(ToolResult::error(e.as_str()))),
        };
        assert(is_verdict(wanted, ctx.config.shell_whitelist.deep_view(), verdict));
        assert(plan_view(r) == planned(Some(wanted), timeout, verdict));
        r
    }

    /// What to do for a call with the arguments `args`: the command is the
    /// text member `command` of the arguments and the timeout their number
    /// member `timeout`, and what is done for the two is what `plan_for`
    /// does.
    pub fn plan(&self, args: &serde_json::Value, ctx: &ToolContext) -> (r: Result<ShellPlan, String>)
        ensures
            match member(text_members(*args), "command"@) {
                None => plan_view(r) == planned(None, None, Ok(())),
                Some(wanted) => exists|verdict: Result<(), Seq<char>>|
                    #[trigger] is_verdict(wanted, ctx.config.shell_whitelist.deep_view(), verdict)
                        && plan_view(r) == planned(
                        Some(wanted),
                        member(number_members(*args), "timeout"@),
                        verdict,
                    ),
            },
            r matches Err(e) ==> e@ == "缺少 command 参数"@,
            r matches Ok(ShellPlan::Refuse(result)) ==> ctx.config.shell_whitelist@.len() > 0
                && !result.success && result.error is Some,
    {
        self.plan_for(str_field(args, "command"), u64_field(args, "timeout"), ctx)
    }

    /// The result of a command that ended as `outcome` after at most
    /// `timeout` seconds.
    pub fn result_of(outcome: &ShellOutcome, timeout: u64) -> (result: ToolResult)
        ensures
            result@ == spec_shell_result(*outcome, timeout),
    {
        match outcome {
            ShellOutcome::Finished { success, code, stdout, stderr } => {
                if *success {
                    if stdout.as_str().is_empty() {
                        if stderr.as_str().is_empty() {
                            ToolResult::success("命令执行成功（无输出）")
                        } else {
                            ToolResult::success(stderr.as_str())
                        }
                    } else {
                        ToolResult::success(stdout.as_str())
                    }
                } else {
                    let code: i64 = match code {
                        Some(c) => *c as i64,
                        None => -1,
                    };
                    let number = i64_text(code);
                    let mut text = concat("退出码: ", number.as_str());
                    text.append("\n标准输出: ");
                    text.append(stdout.as_str());
                    text.append("\n标准错误: ");
                    text.append(stderr.as_str());
                    ToolResult::error(text.as_str())
                }
            },
            ShellOutcome::Failed(reason) => {
                let text = concat("执行失败: ", reason.as_str());
                ToolResult::error(text.as_str())
            },
            ShellOutcome::TimedOut => {
                let number = u64_text(timeout);
                let text = concat3("命令执行超时（", number.as_str(), "秒）");
                ToolResult::error(text.as_str())
            },
        }
    }
}

impl Tool for ShellTool {
    /// How the model is told of the tool.
    fn definition(&self) -> (def: ToolDef)
        ensures
            def@ == Self::spec_definition(),
    {
        ToolDef {
            name: "shell".to_owned(),
            description: "执行系统 shell 命令。使用前请确认命令在白名单中。".to_owned(),
            parameters: "{\"type\":\"object\",\"properties\":{\"command\":{\"type\":\"string\",\"description\":\"要执行的 shell 命令\"},\"timeout\":{\"type\":\"integer\",\"description\":\"超时时间（秒），默认 30\",\"default\":30}},\"required\":[\"command\"]}".to_owned(),
        }
    }
}

} // verus!
