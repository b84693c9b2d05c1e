use shout::llm::ollama::{chat_completions_url, cleanup, summarize};

#[test]
fn ollama_cleanup_mock_passthrough() {
    assert_eq!(cleanup("um hello world", None), "um hello world");
}

#[test]
fn ollama_cleanup_falls_back_when_unreachable() {
    let refused = Err("error sending request for url (http://127.0.0.1:1/v1/chat/completions)".to_string());
    assert_eq!(cleanup("hello there", Some(refused)), "hello there");
}

#[test]
fn cleanup_uses_trimmed_reply() {
    assert_eq!(cleanup("um hello", Some(Ok("  Hello.\n".to_string()))), "Hello.");
    assert_eq!(cleanup("um hello", Some(Ok(" \n ".to_string()))), "um hello");
}

#[test]
fn summarize_outcomes() {
    assert_eq!(summarize(None).unwrap(), "*Summary skipped (SHOUT_MOCK_LLM set).*");
    assert_eq!(summarize(Some(Ok(" ".into()))).unwrap_err(), "empty summary from model");
    assert_eq!(summarize(Some(Ok("\n# TL;DR\n".into()))).unwrap(), "# TL;DR");
    assert_eq!(summarize(Some(Err("timeout".into()))).unwrap_err(), "timeout");
}

#[test]
fn endpoint_url() {
    assert_eq!(
        chat_completions_url("http://localhost:11434"),
        "http://localhost:11434/v1/chat/completions"
    );
    assert_eq!(
        chat_completions_url("http://box:11434//"),
        "http://box:11434/v1/chat/completions"
    );
}
