//! The Ollama client's decisions: the endpoint, the prompts, and what
//! becomes of a reply. Dictation never waits on the LLM being reachable: a
//! failed or empty cleanup falls back to the raw transcript.
//!
//! The HTTP request itself (JSON body, `temperature` 0.2, no streaming) is
//! the caller's part; it hands the reply's message content, or the error,
//! to the functions here.
use vstd::prelude::*;

use crate::text::{chars_of, owned, push_range, push_str, trim, trimmed};

verus! {

/// The system prompt for dictation cleanup.
pub const SYSTEM_PROMPT: &'static str = "You are a dictation cleanup engine. Rewrite the user's raw speech transcript into clean written text: fix punctuation, capitalization, and obvious transcription errors; remove filler words (um, uh, you know) and false starts; apply the speaker's self-corrections. Preserve the meaning, tone, and language of the original. Output ONLY the cleaned text — no commentary, no quotation marks around it.";

/// The system prompt for meeting summaries.
pub const SUMMARY_PROMPT: &'static str = "You summarize meeting transcripts into markdown for a personal knowledge base. Produce: a 2-4 sentence TL;DR paragraph, then '### Action items' as bullets (with owner when identifiable), then '### Decisions' as bullets. Only include things actually present in the transcript; write 'none' under a heading when there are none. Output only the markdown, no preamble.";

/// Seconds a cleanup request may take.
pub const CLEANUP_TIMEOUT_SECS: u64 = 15;

/// Seconds a summary request may take (batch work, so generous).
pub const SUMMARY_TIMEOUT_SECS: u64 = 300;

/// `s` without trailing `/` characters (`str::trim_end_matches('/')`).
pub open spec fn without_trailing_slashes(s: Seq<char>) -> Seq<char>
    decreases s.len(),
{
    if s.len() > 0 && s.last() == '/' {
        without_trailing_slashes(s.drop_last())
    } else {
        s
    }
}

/// The chat-completions endpoint of the OpenAI-compatible API under `base`.
pub fn chat_completions_url(base: &str) -> (r: String)
    ensures
        r@ == without_trailing_slashes(base@) + "/v1/chat/completions"@,
{
    let v = chars_of(base);
    let mut end = v.len();
    assert(v@.take(v.len() as int) =~= v@);
    while end > 0 && v[end - 1] == '/'
        invariant
            end <= v.len(),
            without_trailing_slashes(v@) == without_trailing_slashes(v@.take(end as int)),
        decreases end,
    {
        assert(v@.take(end as int).drop_last() =~= v@.take(end - 1));
        end = end - 1;
    }
    let mut r = String::new();
    push_range(&mut r, &v, 0, end);
    assert(v@.subrange(0, end as int) =~= v@.take(end as int));
    push_str(&mut r, "/v1/chat/completions");
    r
}

/// What the dictation pipeline injects: the reply trimmed, when there is a
/// reply and it is not blank; otherwise the raw transcript. `None` stands
/// for no request made (offline passthrough).
pub open spec fn cleaned_text(raw: Seq<char>, reply: Option<Result<Seq<char>, Seq<char>>>) -> Seq<
    char,
> {
    match reply {
        Some(Ok(s)) => if trimmed(s).len() > 0 {
            trimmed(s)
        } else {
            raw
        },
        _ => raw,
    }
}

/// The contents of a reply.
pub open spec fn reply_view(reply: Option<Result<String, String>>) -> Option<
    Result<Seq<char>, Seq<char>>,
> {
    match reply {
        Some(Ok(s)) => Some(Ok(s@)),
        Some(Err(e)) => Some(Err(e@)),
        None => None,
    }
}

/// Cleans up a raw transcript with the model's reply: the trimmed reply when
/// there is a non-blank one, otherwise the raw transcript unchanged (the
/// request failed, the reply was blank, or no request was made).
pub fn cleanup(raw: &str, reply: Option<Result<String, String>>) -> (r: String)
    ensures
        r@ == cleaned_text(raw@, reply_view(reply)),
{
    match reply {
        Some(Ok(s)) => {
            let t = trim(s.as_str());
            if t.as_str().unicode_len() > 0 {
                t
            } else {
                owned(raw)
            }
        },
        _ => owned(raw),
    }
}

/// What a summary request gives: the trimmed reply, or an error when the
/// request failed or the reply was blank; when no request was made, a note
/// that the summary was skipped.
pub open spec fn summary_outcome(reply: Option<Result<Seq<char>, Seq<char>>>) -> Result<
    Seq<char>,
    Seq<char>,
> {
    match reply {
        None => Ok("*Summary skipped (SHOUT_MOCK_LLM set).*"@),
        Some(Err(e)) => Err(e),
        Some(Ok(s)) => if trimmed(s).len() == 0 {
            Err("empty summary from model"@)
        } else {
            Ok(trimmed(s))
        },
    }
}

/// Summarizes with the model's reply (see [`summary_outcome`]); there is no
/// silent fallback, the caller decides what to write on an error.
pub fn summarize(reply: Option<Result<String, String>>) -> (r: Result<String, String>)
    ensures
        match (r, summary_outcome(reply_view(reply))) {
            (Ok(a), Ok(b)) => a@ == b,
            (Err(a), Err(b)) => a@ == b,
            _ => false,
        },
{
    match reply {
        None => Ok(owned("*Summary skipped (SHOUT_MOCK_LLM set).*")),
        Some(Err(e)) => Err(e),
        Some(Ok(s)) => {
            let t = trim(s.as_str());
            if t.as_str().unicode_len() == 0 {
                Err(owned("empty summary from model"))
            } else {
                Ok(t)
            }
        },
    }
}

/// Dictation never loses words to the LLM: whatever the reply, the text
/// injected is either the raw transcript or a non-blank, trimmed reply.
pub proof fn law_cleanup_never_blank(raw: Seq<char>, reply: Option<Result<Seq<char>, Seq<char>>>)
    ensures
        cleaned_text(raw, reply) == raw || (reply matches Some(Ok(s)) && cleaned_text(raw, reply)
            == trimmed(s) && trimmed(s).len() > 0),
{
}

/// A usable reply always wins: whenever the model answered with text that is
/// not blank, the cleaned transcript is that text trimmed, whatever the raw
/// transcript was; the raw transcript is kept only when there is no request,
/// the request failed, or the reply is blank.
pub proof fn law_cleanup_uses_reply(raw: Seq<char>, other_raw: Seq<char>, s: Seq<char>, e: Seq<char>)
    ensures
        trimmed(s).len() > 0 ==> cleaned_text(raw, Some(Ok(s))) == trimmed(s),
        trimmed(s).len() > 0 ==> cleaned_text(raw, Some(Ok(s))) == cleaned_text(
            other_raw,
            Some(Ok(s)),
        ),
        trimmed(s).len() == 0 ==> cleaned_text(raw, Some(Ok(s))) == raw,
        cleaned_text(raw, Some(Err(e))) == raw,
        cleaned_text(raw, None) == raw,
{
}

} // verus!
