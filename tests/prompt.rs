use ggw::config::{ModelConfig, ModelIdentity};
use ggw::credential::ResolvedRequest;
use ggw::llm::BackendCall;
use ggw::prompt::{
    bundle_sources, cmt_msg, commit_prompt, create_cmt_msg, create_readme, custom_prpmt,
    readme_prompt, summarize_diff, summary_prompt, SourceFile, COMMIT_INSTRUCTIONS,
    README_INSTRUCTIONS, SUMMARY_INSTRUCTIONS,
};
use ggw::provider::Provider;

fn local() -> ResolvedRequest {
    ResolvedRequest {
        identity: ModelIdentity::new(Provider::Ollama, "llama3".to_string()).unwrap(),
        config: ModelConfig::default(),
        credential: String::new(),
    }
}

fn sent_prompt(call: BackendCall) -> String {
    match call {
        BackendCall::Ollama { prompt, .. } => prompt,
        BackendCall::Chat { request, .. } => request.messages[0].content.clone(),
    }
}

#[test]
fn commit_prompt_frames_diff() {
    let p = commit_prompt("+fn a() {}");
    assert_eq!(p, format!("{} +fn a() {{}}", COMMIT_INSTRUCTIONS));
    assert!(p.starts_with("You are an assistant that writes Git commit messages.When code changes"));
    assert!(p.ends_with("Changes:\n +fn a() {}"));
}

#[test]
fn summary_prompt_frames_diff() {
    let p = summary_prompt("-x");
    assert_eq!(p, format!("{} -x", SUMMARY_INSTRUCTIONS));
    assert!(p.ends_with("--- diff here --- -x"));
}

#[test]
fn sources_are_laid_out_in_order() {
    let files = vec![
        SourceFile { path: "src/a.rs".to_string(), contents: "fn a() {}".to_string() },
        SourceFile { path: "b.txt".to_string(), contents: "".to_string() },
    ];
    assert_eq!(
        bundle_sources(&files),
        "path: src/a.rs\ncontents:\nfn a() {}path: b.txt\ncontents:\n"
    );
    assert_eq!(bundle_sources(&vec![]), "");
    assert_eq!(
        readme_prompt(&files),
        format!("{} path: src/a.rs\ncontents:\nfn a() {{}}path: b.txt\ncontents:\n", README_INSTRUCTIONS)
    );
}

#[test]
fn commit_request_carries_prompt() {
    let call = create_cmt_msg("diff text", &local()).unwrap();
    assert_eq!(sent_prompt(call), format!("{} diff text", COMMIT_INSTRUCTIONS));
}

#[test]
fn short_commit_request_uses_own_prompt_when_given() {
    let call = cmt_msg("d", None, &local()).unwrap();
    assert_eq!(sent_prompt(call), "write a git commit message for this diff. \ndiff: d");
    let call = cmt_msg("d", Some("only this".to_string()), &local()).unwrap();
    assert_eq!(sent_prompt(call), "only this");
}

#[test]
fn summary_readme_and_custom_requests() {
    let call = summarize_diff("d", &local()).unwrap();
    assert_eq!(sent_prompt(call), format!("{} d", SUMMARY_INSTRUCTIONS));
    let files = vec![SourceFile { path: "p".to_string(), contents: "c".to_string() }];
    let call = create_readme(&files, &local()).unwrap();
    assert_eq!(sent_prompt(call), format!("{} path: p\ncontents:\nc", README_INSTRUCTIONS));
    let call = custom_prpmt("tell me a joke".to_string(), &local()).unwrap();
    assert_eq!(sent_prompt(call), "tell me a joke");
}
