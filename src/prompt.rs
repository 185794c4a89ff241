use vstd::prelude::*;
use vstd::string::*;

use crate::credential::ResolvedRequest;
use crate::error::LlmError;
use crate::llm::{plan_call, planned_for, BackendCall};

verus! {

/// What the model is told before a diff when it writes a commit message.
pub const COMMIT_INSTRUCTIONS: &'static str = "You are an assistant that writes Git commit messages.\
When code changes include modifications to documentation files (e.g., README.md, docs/), ignore those changes and generate the commit message based solely on source code changes.\
Given a description of code changes, output only a single-line commit message in Conventional Commits format (e.g., \"feat:\", \"fix:\", \"docs:\", etc.).\
Do not include any extra text, code blocks, or formatting. Only output the commit message.\
Changes:\n";

/// What the model is told before a diff when it summarises the changes.
pub const SUMMARY_INSTRUCTIONS: &'static str = "Read the following diff and summarize the changes in plain English.
List the key modifications, what was added, removed, or modified, and briefly explain their purpose or impact if possible.
--- diff here ---";

/// What the model is told before the sources when it writes a README.
pub const README_INSTRUCTIONS: &'static str =
    "You are a helpful assistant that generates professional README.md files.
Please read the following codebase and generate a README.md that includes:
- Project name and brief description
- Key features
- Technologies used
- Installation instructions
- How to run the project
- Example usage (if applicable)
- License section (if available in the code)
- Any relevant badges or links (GitHub repo, docs, etc.)

Here is the project code or file list:
--- paste your code or directory structure here ---";

/// The short commit-message request used when no prompt of the caller's own
/// is given; the diff follows it.
pub const SHORT_COMMIT_INSTRUCTIONS: &'static str = "write a git commit message for this diff. \ndiff: ";

/// Instructions, then a space, then the material they are about.
pub open spec fn framed(instructions: Seq<char>, material: Seq<char>) -> Seq<char> {
    instructions + " "@ + material
}

fn frame(instructions: &str, material: &str) -> (r: String)
    ensures
        r@ == framed(instructions@, material@),
{
    let mut out = String::from_str(instructions);
    out.append(" ");
    out.append(material);
    out
}

/// The prompt that asks for a commit message for `diff`.
pub fn commit_prompt(diff: &str) -> (r: String)
    ensures
        r@ == framed(COMMIT_INSTRUCTIONS@, diff@),
{
    frame(COMMIT_INSTRUCTIONS, diff)
}

/// The prompt that asks for a summary of `diff`.
pub fn summary_prompt(diff: &str) -> (r: String)
    ensures
        r@ == framed(SUMMARY_INSTRUCTIONS@, diff@),
{
    frame(SUMMARY_INSTRUCTIONS, diff)
}

/// One source file handed over for a README: its path and its text.
#[derive(Debug)]
pub struct SourceFile {
    pub path: String,
    pub contents: String,
}

/// How one source file is laid out in a README prompt.
pub open spec fn source_text(f: SourceFile) -> Seq<char> {
    "path: "@ + f.path@ + "\ncontents:\n"@ + f.contents@
}

/// The source files laid out one after the other, in order, with nothing
/// between them.
pub open spec fn bundled(s: Seq<SourceFile>) -> Seq<char>
    decreases s.len(),
{
    if s.len() == 0 {
        Seq::empty()
    } else {
        bundled(s.drop_last()) + source_text(s.last())
    }
}

/// Lays the source files out as the README prompt shows them.
pub fn bundle_sources(files: &Vec<SourceFile>) -> (r: String)
    ensures
        r@ == bundled(files@),
{
    let mut out = String::new();
    let n: usize = files.len();
    let mut i: usize = 0;
    while i < n
        invariant
            n == files@.len(),
            0 <= i <= n,
            out@ == bundled(files@.subrange(0, i as int)),
        decreases n - i,
    {
        proof {
            let s = files@.subrange(0, i as int + 1);
            assert(s.drop_last() =~= files@.subrange(0, i as int));
        }
        let f = &files[i];
        out.append("path: ");
        out.append(f.path.as_str());
        out.append("\ncontents:\n");
        out.append(f.contents.as_str());
        proof {
            assert(out@ =~= bundled(files@.subrange(0, i as int)) + source_text(files@[i as int]));
        }
        i = i + 1;
    }
    proof {
        assert(files@.subrange(0, n as int) =~= files@);
    }
    out
}

/// The prompt that asks for a README of the given sources.
pub fn readme_prompt(files: &Vec<SourceFile>) -> (r: String)
    ensures
        r@ == framed(README_INSTRUCTIONS@, bundled(files@)),
{
    let sources = bundle_sources(files);
    frame(README_INSTRUCTIONS, sources.as_str())
}

/// Plans the request for a commit message of `diff`.
pub fn create_cmt_msg(diff: &str, request: &ResolvedRequest) -> (r: Result<BackendCall, LlmError>)
    ensures
        planned_for(framed(COMMIT_INSTRUCTIONS@, diff@), *request, r),
{
    plan_call(commit_prompt(diff), request)
}

/// Plans the request for a commit message of `diff`, with the caller's own
/// prompt in place of the diff when one is given.
pub fn cmt_msg(diff: &str, prompt: Option<String>, request: &ResolvedRequest) -> (r: Result<
    BackendCall,
    LlmError,
>)
    ensures
        match prompt {
            Some(p) => planned_for(p@, *request, r),
            None => planned_for(SHORT_COMMIT_INSTRUCTIONS@ + diff@, *request, r),
        },
{
    let text = match prompt {
        Some(p) => p,
        None => {
            let mut t = String::from_str(SHORT_COMMIT_INSTRUCTIONS);
            t.append(diff);
            t
        },
    };
    plan_call(text, request)
}

/// Plans the request for a summary of `diff`.
pub fn summarize_diff(diff: &str, request: &ResolvedRequest) -> (r: Result<BackendCall, LlmError>)
    ensures
        planned_for(framed(SUMMARY_INSTRUCTIONS@, diff@), *request, r),
{
    plan_call(summary_prompt(diff), request)
}

/// Plans the request for a README of the given sources.
pub fn create_readme(files: &Vec<SourceFile>, request: &ResolvedRequest) -> (r: Result<
    BackendCall,
    LlmError,
>)
    ensures
        planned_for(framed(README_INSTRUCTIONS@, bundled(files@)), *request, r),
{
    plan_call(readme_prompt(files), request)
}

/// Plans the request for a prompt of the caller's own, sent as it is.
pub fn custom_prpmt(prompt: String, request: &ResolvedRequest) -> (r: Result<
    BackendCall,
    LlmError,
>)
    ensures
        planned_for(prompt@, *request, r),
{
    plan_call(prompt, request)
}

} // verus!
