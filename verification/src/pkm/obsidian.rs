//! Meeting notes for an Obsidian vault: one markdown note per meeting,
//! `Meetings/YYYY-MM-DD-HHmm-<slug>.md`, with YAML front matter, the summary
//! and the speaker-labelled transcript.
use vstd::prelude::*;

use crate::stamp::{file_stamp, format_stamp, iso_minute, Stamp};
use crate::text::{
    char_is_alphanumeric, chars_of, decimal, is_alphanumeric, join_chars, join_strings, joined,
    lowercase, padded, push_decimal, push_padded, push_str, split_words, str_to_lowercase, string_views,
    string_of, trim, trimmed, views, words,
};

verus! {

/// The folder of the vault that holds the meeting notes.
pub const MEETINGS_DIR: &'static str = "Meetings";

/// One utterance of the transcript.
pub struct TranscriptLine {
    pub speaker: String,
    /// Seconds from meeting start.
    pub at_secs: u32,
    pub text: String,
}

/// Everything a meeting note holds.
pub struct MeetingNote {
    pub started_at: Stamp,
    pub source: String,
    pub speakers: Vec<String>,
    pub duration_min: u32,
    pub summary: String,
    pub transcript: Vec<TranscriptLine>,
}

// ---------------------------------------------------------------------------
// The slug.
// ---------------------------------------------------------------------------

/// At most the first four words.
pub open spec fn first_four(ws: Seq<Seq<char>>) -> Seq<Seq<char>> {
    if ws.len() <= 4 {
        ws
    } else {
        ws.take(4)
    }
}

/// Letters, digits and hyphens are kept in a slug.
pub open spec fn slug_char(c: char) -> bool {
    is_alphanumeric(c) || c == '-'
}

/// The slug made from a text: its first four words joined by hyphens, kept
/// to letters, digits and hyphens, lowercased; "meeting" when that is empty.
pub open spec fn slug_from(text: Seq<char>) -> Seq<char> {
    let s = lowercase(joined(first_four(words(text)), seq!['-']).filter(|c: char| slug_char(c)));
    if s.len() == 0 {
        "meeting"@
    } else {
        s
    }
}

/// The text a note's slug is made from: the first utterance, or "meeting".
pub open spec fn slug_source(transcript: Seq<TranscriptLine>) -> Seq<char> {
    if transcript.len() > 0 {
        transcript[0].text@
    } else {
        "meeting"@
    }
}

/// The note's slug, e.g. "good-morning-everyone". Never empty.
pub fn slug(note: &MeetingNote) -> (r: String)
    ensures
        r@ == slug_from(slug_source(note.transcript@)),
        r@.len() > 0,
{
    let source: &str = if note.transcript.len() > 0 {
        note.transcript[0].text.as_str()
    } else {
        "meeting"
    };
    let chars = chars_of(source);
    let all = split_words(&chars);
    let n: usize = if all.len() <= 4 {
        all.len()
    } else {
        4
    };
    let ghost all_views = views(all@);
    let mut first = all;
    first.truncate(n);
    assert(views(first@) =~= first_four(all_views));
    let hyphen: Vec<char> = vec!['-'];
    assert(hyphen@ =~= seq!['-']);
    let joined_chars = join_chars(&first, &hyphen);
    let mut kept: Vec<char> = Vec::new();
    let mut k: usize = 0;
    while k < joined_chars.len()
        invariant
            k <= joined_chars.len(),
            kept@ == joined_chars@.take(k as int).filter(|c: char| slug_char(c)),
        decreases joined_chars.len() - k,
    {
        let c = joined_chars[k];
        proof {
            reveal(Seq::filter);
            assert(joined_chars@.take(k + 1).drop_last() =~= joined_chars@.take(k as int));
        }
        if char_is_alphanumeric(c) || c == '-' {
            kept.push(c);
        }
        k = k + 1;
        proof {
            reveal(Seq::filter);
        }
    }
    assert(joined_chars@.take(joined_chars.len() as int) =~= joined_chars@);
    let kept_string = string_of(&kept);
    let lower = str_to_lowercase(kept_string.as_str());
    if lower.as_str().unicode_len() == 0 {
        let mut m = String::new();
        push_str(&mut m, "meeting");
        proof {
            reveal_strlit("meeting");
        }
        m
    } else {
        lower
    }
}

// ---------------------------------------------------------------------------
// File name and body.
// ---------------------------------------------------------------------------

/// The note's file name inside the meetings folder:
/// `YYYY-MM-DD-HHmm-<slug>.md`.
pub open spec fn note_file_name(note: &MeetingNote) -> Seq<char> {
    file_stamp(note.started_at@) + seq!['-'] + slug_from(slug_source(note.transcript@)) + ".md"@
}

/// A note's file name is its start stamp, a hyphen, the slug of its first
/// utterance and `.md`: notes that start at the same minute with the same
/// first utterance get the same name, whatever else they say.
pub proof fn law_file_name_from_first_utterance(a: &MeetingNote, b: &MeetingNote)
    requires
        a.transcript.len() > 0,
        b.transcript.len() > 0,
        a.started_at@ == b.started_at@,
        a.transcript[0].text@ == b.transcript[0].text@,
    ensures
        note_file_name(a) == file_stamp(a.started_at@) + seq!['-'] + slug_from(
            a.transcript[0].text@,
        ) + ".md"@,
        note_file_name(a) == note_file_name(b),
{
}

/// A note without a transcript is named after the word "meeting".
pub proof fn law_file_name_without_transcript(a: &MeetingNote)
    requires
        a.transcript.len() == 0,
    ensures
        note_file_name(a) == file_stamp(a.started_at@) + seq!['-'] + slug_from("meeting"@) + ".md"@,
{
}

/// One transcript line: `> **speaker** (MM:SS): text`.
pub open spec fn line_text(l: TranscriptLine) -> Seq<char> {
    "> **"@ + l.speaker@ + "** ("@ + padded((l.at_secs / 60) as nat, 2) + ":"@ + padded(
        (l.at_secs % 60) as nat,
        2,
    ) + "): "@ + l.text@ + "\n"@
}

/// The transcript lines, one per line.
pub open spec fn lines_text(ls: Seq<TranscriptLine>) -> Seq<char>
    decreases ls.len(),
{
    if ls.len() == 0 {
        Seq::empty()
    } else {
        lines_text(ls.drop_last()) + line_text(ls.last())
    }
}

/// The note's markdown: front matter (date, source, speakers, duration,
/// tags), the trimmed summary, then the transcript.
pub open spec fn note_text(note: &MeetingNote) -> Seq<char> {
    head_text(note) + lines_text(note.transcript@)
}

/// The note's file name, `YYYY-MM-DD-HHmm-<slug>.md`.
pub fn file_name(note: &MeetingNote) -> (r: String)
    ensures
        r@ == note_file_name(note),
{
    let mut r = format_stamp(&note.started_at, "%Y-%m-%d-%H%M");
    let mut sep = String::new();
    push_str(&mut sep, "-");
    proof {
        reveal_strlit("-");
    }
    push_str(&mut r, sep.as_str());
    let s = slug(note);
    push_str(&mut r, s.as_str());
    push_str(&mut r, ".md");
    r
}

/// Appends one transcript line.
fn push_line(b: &mut String, line: &TranscriptLine)
    ensures
        final(b)@ == old(b)@ + line_text(*line),
{
    let ghost start = b@;
    push_str(b, "> **");
    push_str(b, line.speaker.as_str());
    push_str(b, "** (");
    push_padded(b, (line.at_secs / 60) as u64, 2);
    push_str(b, ":");
    push_padded(b, (line.at_secs % 60) as u64, 2);
    push_str(b, "): ");
    push_str(b, line.text.as_str());
    push_str(b, "\n");
    assert(b@ =~= start + line_text(*line));
}

/// Front matter: the opening fence, date and source.
pub open spec fn dated_text(note: &MeetingNote) -> Seq<char> {
    "---\n"@ + "date: "@ + iso_minute(note.started_at@) + "\n"@ + "source: "@ + note.source@
        + "\n"@
}

/// Front matter: speakers and duration.
pub open spec fn people_text(note: &MeetingNote) -> Seq<char> {
    "speakers: ["@ + joined(string_views(note.speakers@), ", "@) + "]\n"@ + "duration_min: "@
        + decimal(note.duration_min as nat) + "\n"@
}

/// Tags, the closing fence and the summary, up to the transcript heading.
pub open spec fn summary_text(note: &MeetingNote) -> Seq<char> {
    "tags: [meeting, ghost-capture]\n"@ + "---\n## Summary\n"@ + trimmed(note.summary@)
        + "\n\n## Transcript\n"@
}

/// The front matter and summary, up to the transcript heading.
pub open spec fn head_text(note: &MeetingNote) -> Seq<char> {
    dated_text(note) + people_text(note) + summary_text(note)
}

fn push_dated(b: &mut String, note: &MeetingNote)
    ensures
        final(b)@ == old(b)@ + dated_text(note),
{
    let ghost start = b@;
    push_str(b, "---\n");
    push_str(b, "date: ");
    let date = format_stamp(&note.started_at, "%Y-%m-%dT%H:%M");
    proof {
        reveal_strlit("%Y-%m-%dT%H:%M");
        reveal_strlit("%Y-%m-%d-%H%M");
        assert("%Y-%m-%dT%H:%M"@.len() == 14);
        assert("%Y-%m-%d-%H%M"@.len() == 13);
    }
    push_str(b, date.as_str());
    push_str(b, "\n");
    push_str(b, "source: ");
    push_str(b, note.source.as_str());
    push_str(b, "\n");
    assert(b@ =~= start + dated_text(note));
}

fn push_people(b: &mut String, note: &MeetingNote)
    ensures
        final(b)@ == old(b)@ + people_text(note),
{
    let ghost start = b@;
    push_str(b, "speakers: [");
    let speakers = join_strings(&note.speakers, ", ");
    push_str(b, speakers.as_str());
    push_str(b, "]\n");
    push_str(b, "duration_min: ");
    push_decimal(b, note.duration_min as u64);
    push_str(b, "\n");
    assert(b@ =~= start + people_text(note));
}

fn push_summary(b: &mut String, note: &MeetingNote)
    ensures
        final(b)@ == old(b)@ + summary_text(note),
{
    let ghost start = b@;
    push_str(b, "tags: [meeting, ghost-capture]\n");
    push_str(b, "---\n## Summary\n");
    let summary = trim(note.summary.as_str());
    push_str(b, summary.as_str());
    push_str(b, "\n\n## Transcript\n");
    assert(b@ =~= start + summary_text(note));
}

fn push_head(b: &mut String, note: &MeetingNote)
    ensures
        final(b)@ == old(b)@ + head_text(note),
{
    let ghost start = b@;
    push_dated(b, note);
    push_people(b, note);
    push_summary(b, note);
    assert(b@ =~= start + head_text(note));
}

/// The note's markdown body.
pub fn note_body(note: &MeetingNote) -> (r: String)
    ensures
        r@ == note_text(note),
{
    let mut b = String::new();
    push_head(&mut b, note);
    let ghost head = b@;
    let mut i: usize = 0;
    while i < note.transcript.len()
        invariant
            i <= note.transcript.len(),
            b@ == head + lines_text(note.transcript@.take(i as int)),
        decreases note.transcript.len() - i,
    {
        push_line(&mut b, &note.transcript[i]);
        assert(note.transcript@.take(i + 1).drop_last() =~= note.transcript@.take(i as int));
        i = i + 1;
    }
    assert(note.transcript@.take(note.transcript.len() as int) =~= note.transcript@);
    b
}

} // verus!
