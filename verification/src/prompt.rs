use vstd::prelude::*;

verus! {

/// Opening instructions of the system prompt, up to the transcript marker.
pub const PROMPT_HEADER: &'static str = "You are a helpful meeting assistant. Answer the user's questions using ONLY the meeting transcript below. If the answer is not in the transcript, say so. The meeting may still be in progress, so the transcript may be incomplete.\n\n--- MEETING TRANSCRIPT ---\n";

/// Line placed before the transcript when its oldest part was dropped.
pub const TRUNCATION_NOTE: &'static str = "[earlier transcript truncated]\n";

/// Closing marker of the system prompt.
pub const PROMPT_FOOTER: &'static str = "\n--- END TRANSCRIPT ---";

/// The last `max_chars` characters of `text` (all of it when it is short enough).
pub open spec fn tail_of(text: Seq<char>, max_chars: nat) -> Seq<char> {
    if text.len() <= max_chars {
        text
    } else {
        text.subrange(text.len() - max_chars, text.len() as int)
    }
}

/// The system prompt for a transcript and a character budget.
pub open spec fn system_prompt(transcript: Seq<char>, char_budget: nat) -> Seq<char> {
    let note = if transcript.len() > char_budget { TRUNCATION_NOTE@ } else { Seq::empty() };
    PROMPT_HEADER@ + note + tail_of(transcript, char_budget) + PROMPT_FOOTER@
}

/// The kept part of a transcript is its most recent text: a suffix of it,
/// as long as the budget allows, and all of it when it fits.
pub proof fn law_tail_is_most_recent_text(text: Seq<char>, max_chars: nat)
    ensures
        tail_of(text, max_chars).len() == if text.len() <= max_chars {
            text.len()
        } else {
            max_chars
        },
        text.subrange(text.len() - tail_of(text, max_chars).len(), text.len() as int) == tail_of(
            text,
            max_chars,
        ),
{
    assert(text.subrange(0, text.len() as int) =~= text);
}

/// The prompt holds the kept transcript between its fixed opening and
/// closing, and says the transcript was truncated exactly when it was.
pub proof fn law_prompt_frames_the_transcript(transcript: Seq<char>, char_budget: nat)
    ensures
        system_prompt(transcript, char_budget).subrange(0, PROMPT_HEADER@.len() as int)
            == PROMPT_HEADER@,
        ({
            let p = system_prompt(transcript, char_budget);
            let note_len: int = if transcript.len() > char_budget {
                TRUNCATION_NOTE@.len() as int
            } else {
                0
            };
            let start = PROMPT_HEADER@.len() + note_len;
            &&& p.subrange(PROMPT_HEADER@.len() as int, start) == (if transcript.len() > char_budget {
                TRUNCATION_NOTE@
            } else {
                Seq::<char>::empty()
            })
            &&& p.subrange(start, start + tail_of(transcript, char_budget).len()) == tail_of(
                transcript,
                char_budget,
            )
            &&& p.subrange(p.len() - PROMPT_FOOTER@.len(), p.len() as int) == PROMPT_FOOTER@
        }),
{
    let note = if transcript.len() > char_budget { TRUNCATION_NOTE@ } else { Seq::<char>::empty() };
    let t = tail_of(transcript, char_budget);
    let p = system_prompt(transcript, char_budget);
    assert(p == PROMPT_HEADER@ + note + t + PROMPT_FOOTER@);
    let h = PROMPT_HEADER@.len() as int;
    assert(p.subrange(0, h) =~= PROMPT_HEADER@);
    assert(p.subrange(h, h + note.len()) =~= note);
    assert(p.subrange(h + note.len(), h + note.len() + t.len()) =~= t);
    assert(p.subrange(p.len() - PROMPT_FOOTER@.len(), p.len() as int) =~= PROMPT_FOOTER@);
}

/// The prompt holds nothing but its opening, the note when the transcript
/// was cut, the transcript's most recent text up to the budget and its
/// closing: its length is exactly theirs, and the text right before the
/// closing is the last `min(len, budget)` characters of the transcript.
pub proof fn law_prompt_keeps_only_the_budget(transcript: Seq<char>, char_budget: nat)
    ensures
        ({
            let kept: int = if transcript.len() <= char_budget {
                transcript.len() as int
            } else {
                char_budget as int
            };
            let note_len: int = if transcript.len() > char_budget {
                TRUNCATION_NOTE@.len() as int
            } else {
                0
            };
            let p = system_prompt(transcript, char_budget);
            let end = p.len() - PROMPT_FOOTER@.len();
            &&& p.len() == PROMPT_HEADER@.len() + note_len + kept + PROMPT_FOOTER@.len()
            &&& p.subrange(end - kept, end) == transcript.subrange(
                transcript.len() - kept,
                transcript.len() as int,
            )
        }),
{
    let note = if transcript.len() > char_budget { TRUNCATION_NOTE@ } else { Seq::<char>::empty() };
    let t = tail_of(transcript, char_budget);
    let p = system_prompt(transcript, char_budget);
    assert(p == PROMPT_HEADER@ + note + t + PROMPT_FOOTER@);
    law_tail_is_most_recent_text(transcript, char_budget);
    let end = p.len() - PROMPT_FOOTER@.len();
    assert(p.subrange(end - t.len(), end) =~= t);
}

/// Returns the trailing `max_chars` characters of `text`, cut on a character
/// boundary, and whether anything was dropped.
pub fn tail_chars(text: &str, max_chars: usize) -> (r: (&str, bool))
    ensures
        r.0@ == tail_of(text@, max_chars as nat),
        r.1 == (text@.len() > max_chars),
{
    let char_count = text.unicode_len();
    if char_count <= max_chars {
        return (text, false);
    }
    let skip = char_count - max_chars;
    (text.substring_char(skip, char_count), true)
}

/// Builds the system prompt for transcript chat. When the transcript is longer
/// than `char_budget` characters its oldest part is dropped, so the most
/// recent speech is always included, and a note says so.
pub fn build_chat_system_prompt(transcript_text: &str, char_budget: usize) -> (r: String)
    ensures
        r@ == system_prompt(transcript_text@, char_budget as nat),
{
    let (transcript, truncated) = tail_chars(transcript_text, char_budget);
    let mut prompt = String::from_str(PROMPT_HEADER);
    if truncated {
        prompt.append(TRUNCATION_NOTE);
    }
    prompt.append(transcript);
    prompt.append(PROMPT_FOOTER);
    assert(prompt@ == system_prompt(transcript_text@, char_budget as nat));
    prompt
}

} // verus!
