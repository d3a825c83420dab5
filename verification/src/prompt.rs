//! Rendering an input profile into the system prompt handed to a response
//! generator. Pure string building: the output is pinned, character for
//! character, by `spec_system_prompt`.

use crate::profile::{AnswerMode, DepthHint, InputProfile, ProfileModel, ScopeHint, ToneHint, UserState};
use crate::ratio::Ratio;
use vstd::prelude::*;
use vstd::string::StringExecFns;

verus! {

/// The decimal digits of `n`, most significant first.
pub open spec fn spec_dec(n: nat) -> Seq<char>
    decreases n,
{
    if n < 10 {
        seq![spec_digit(n)]
    } else {
        spec_dec(n / 10).push(spec_digit(n % 10))
    }
}

/// The character for one decimal digit.
pub open spec fn spec_digit(d: nat) -> char {
    if d == 0 {
        '0'
    } else if d == 1 {
        '1'
    } else if d == 2 {
        '2'
    } else if d == 3 {
        '3'
    } else if d == 4 {
        '4'
    } else if d == 5 {
        '5'
    } else if d == 6 {
        '6'
    } else if d == 7 {
        '7'
    } else if d == 8 {
        '8'
    } else {
        '9'
    }
}

/// One decimal digit as a string slice.
fn digit_str(d: u64) -> (r: &'static str)
    requires
        d < 10,
    ensures
        r@ == seq![spec_digit(d as nat)],
{
    let r: &'static str = if d == 0 {
        "0"
    } else if d == 1 {
        "1"
    } else if d == 2 {
        "2"
    } else if d == 3 {
        "3"
    } else if d == 4 {
        "4"
    } else if d == 5 {
        "5"
    } else if d == 6 {
        "6"
    } else if d == 7 {
        "7"
    } else if d == 8 {
        "8"
    } else {
        "9"
    };
    proof {
        reveal_strlit("0");
        reveal_strlit("1");
        reveal_strlit("2");
        reveal_strlit("3");
        reveal_strlit("4");
        reveal_strlit("5");
        reveal_strlit("6");
        reveal_strlit("7");
        reveal_strlit("8");
        reveal_strlit("9");
        assert(r@ =~= seq![spec_digit(d as nat)]);
    }
    r
}

/// Appends the decimal form of `n`.
fn append_dec(out: &mut String, n: u64)
    ensures
        final(out)@ == old(out)@ + spec_dec(n as nat),
    decreases n,
{
    if n >= 10 {
        append_dec(out, n / 10);
    }
    out.append(digit_str(n % 10));
    proof {
        assert(final(out)@ =~= old(out)@ + spec_dec(n as nat));
    }
}

/// The display name of an answer mode.
pub open spec fn spec_mode_name(m: AnswerMode) -> Seq<char> {
    match m {
        AnswerMode::Summarize => "Summarize"@,
        AnswerMode::Structure => "Structure"@,
        AnswerMode::Refine => "Refine"@,
        AnswerMode::Explore => "Explore"@,
        AnswerMode::Complete => "Complete"@,
        AnswerMode::ClarifyQuestion => "ClarifyQuestion"@,
    }
}

/// The display name of a user state.
pub open spec fn spec_state_name(s: UserState) -> Seq<char> {
    match s {
        UserState::Hesitant => "Hesitant"@,
        UserState::Flowing => "Flowing"@,
        UserState::Editing => "Editing"@,
        UserState::Scattered => "Scattered"@,
        UserState::Pasting => "Pasting"@,
        UserState::Focused => "Focused"@,
    }
}

/// The display name of a tone hint.
pub open spec fn spec_tone_name(t: ToneHint) -> Seq<char> {
    match t {
        ToneHint::Direct => "Direct"@,
        ToneHint::Gentle => "Gentle"@,
        ToneHint::Neutral => "Neutral"@,
    }
}

/// The display name of a depth hint.
pub open spec fn spec_depth_name(d: DepthHint) -> Seq<char> {
    match d {
        DepthHint::Shallow => "Shallow"@,
        DepthHint::Normal => "Normal"@,
        DepthHint::Deep => "Deep"@,
    }
}

/// The display name of a scope hint.
pub open spec fn spec_scope_name(s: ScopeHint) -> Seq<char> {
    match s {
        ScopeHint::Narrow => "Narrow"@,
        ScopeHint::Medium => "Medium"@,
        ScopeHint::Broad => "Broad"@,
    }
}

/// The display name of an answer mode.
fn mode_name(m: AnswerMode) -> (r: &'static str)
    ensures
        r@ == spec_mode_name(m),
{
    match m {
        AnswerMode::Summarize => "Summarize",
        AnswerMode::Structure => "Structure",
        AnswerMode::Refine => "Refine",
        AnswerMode::Explore => "Explore",
        AnswerMode::Complete => "Complete",
        AnswerMode::ClarifyQuestion => "ClarifyQuestion",
    }
}

/// The display name of a user state.
fn state_name(s: UserState) -> (r: &'static str)
    ensures
        r@ == spec_state_name(s),
{
    match s {
        UserState::Hesitant => "Hesitant",
        UserState::Flowing => "Flowing",
        UserState::Editing => "Editing",
        UserState::Scattered => "Scattered",
        UserState::Pasting => "Pasting",
        UserState::Focused => "Focused",
    }
}

/// The elements joined with a comma and a space.
pub open spec fn spec_joined_modes(s: Seq<AnswerMode>) -> Seq<char>
    decreases s.len(),
{
    if s.len() == 0 {
        Seq::empty()
    } else if s.len() == 1 {
        spec_mode_name(s[0])
    } else {
        spec_joined_modes(s.drop_last()) + ", "@ + spec_mode_name(s.last())
    }
}

/// The elements joined with a comma and a space.
pub open spec fn spec_joined_states(s: Seq<UserState>) -> Seq<char>
    decreases s.len(),
{
    if s.len() == 0 {
        Seq::empty()
    } else if s.len() == 1 {
        spec_state_name(s[0])
    } else {
        spec_joined_states(s.drop_last()) + ", "@ + spec_state_name(s.last())
    }
}

/// The confidence, rendered in hundredths when it is held in tenths of one,
/// and as a plain fraction otherwise.
pub open spec fn spec_confidence_text(c: Ratio) -> Seq<char> {
    if c.den == 10 && c.num <= 10 {
        spec_tenths_text(c.num as nat)
    } else {
        spec_dec(c.num as nat) + "/"@ + spec_dec(c.den as nat)
    }
}

/// `n` tenths written with two decimal places.
pub open spec fn spec_tenths_text(n: nat) -> Seq<char> {
    if n == 0 {
        "0.00"@
    } else if n == 1 {
        "0.10"@
    } else if n == 2 {
        "0.20"@
    } else if n == 3 {
        "0.30"@
    } else if n == 4 {
        "0.40"@
    } else if n == 5 {
        "0.50"@
    } else if n == 6 {
        "0.60"@
    } else if n == 7 {
        "0.70"@
    } else if n == 8 {
        "0.80"@
    } else if n == 9 {
        "0.90"@
    } else {
        "1.00"@
    }
}

/// The ghost-text section: absent when no passage was preserved, else the
/// numbered passages, each on its own quoted line.
pub open spec fn spec_ghost_entries(gs: Seq<Seq<char>>) -> Seq<char>
    decreases gs.len(),
{
    if gs.len() == 0 {
        Seq::empty()
    } else {
        spec_ghost_entries(gs.drop_last()) + "  "@ + spec_dec(gs.len()) + ". \""@ + gs.last()
            + "\"\n"@
    }
}

/// The per-mode goal line.
pub open spec fn spec_goal_line(m: AnswerMode) -> Seq<char> {
    match m {
        AnswerMode::Summarize => "- Summarize the input text.\n"@,
        AnswerMode::Structure => "- Structure the content with bullet points or headers.\n"@,
        AnswerMode::Refine => "- Refine and polish the text for better clarity.\n"@,
        AnswerMode::ClarifyQuestion => "- The user seems to be asking a question or needs clarification. Answer it clearly.\n"@,
        AnswerMode::Explore => "- Explore the topic further and provide related information.\n"@,
        AnswerMode::Complete => "- Complete the user's sentence or code.\n"@,
    }
}

/// The goal lines of all modes, in list order.
pub open spec fn spec_goal_lines(s: Seq<AnswerMode>) -> Seq<char>
    decreases s.len(),
{
    if s.len() == 0 {
        Seq::empty()
    } else {
        spec_goal_lines(s.drop_last()) + spec_goal_line(s.last())
    }
}

/// The per-mode goal line.
fn goal_line(m: AnswerMode) -> (r: &'static str)
    ensures
        r@ == spec_goal_line(m),
{
    match m {
        AnswerMode::Summarize => "- Summarize the input text.\n",
        AnswerMode::Structure => "- Structure the content with bullet points or headers.\n",
        AnswerMode::Refine => "- Refine and polish the text for better clarity.\n",
        AnswerMode::ClarifyQuestion => "- The user seems to be asking a question or needs clarification. Answer it clearly.\n",
        AnswerMode::Explore => "- Explore the topic further and provide related information.\n",
        AnswerMode::Complete => "- Complete the user's sentence or code.\n",
    }
}

/// The whole system prompt rendered from a profile.
pub open spec fn spec_system_prompt(p: ProfileModel) -> Seq<char> {
    "You are an intelligent assistant analyzing user input behavior.\n"@
        + "Based on the following analysis of the user's input, adjust your response:\n\n"@
        + "- Tone: "@ + spec_tone_name(p.tags.tone_hint) + "\n"@ + "- Depth: "@ + spec_depth_name(
        p.tags.depth_hint,
    ) + "\n"@ + "- Scope: "@ + spec_scope_name(p.tags.scope_hint) + "\n"@ + "- Modes: ["@
        + spec_joined_modes(p.tags.answer_mode) + "]\n"@ + "- User State: ["@ + spec_joined_states(
        p.tags.user_state,
    ) + "]\n"@ + "- Confidence: "@ + spec_confidence_text(p.tags.confidence) + "\n\n"@ + (if p.ghost_text.len()
        > 0 {
        "GHOST TEXT (Deleted Thoughts):\n"@ + spec_ghost_entries(p.ghost_text) + "\n"@
    } else {
        Seq::empty()
    }) + "Guidelines:\n"@
        + "CRITICAL: You MUST adapt your persona based on the 'User State' above.\n"@
        + "- If 'Hesitant': Be encouraging, patient, and ask clarifying questions. Acknowledge their hesitation (e.g., 'Take your time', 'I see you're thinking carefully').\n"@
        + "- If 'Flowing': Be brief, efficient, and match their speed. Skip pleasantries.\n"@
        + "- If 'Editing': Focus on precision and detail. They are refining their thought, so you should be precise.\n"@
        + "- If 'Scattered': Help organize their thoughts. Offer structure.\n"@
        + "- If 'Pasting': Assume they want code analysis or summarization. Be analytical.\n"@ + (
    if p.tags.answer_mode.len() > 0 {
        "\nSpecific Goals:\n"@ + spec_goal_lines(p.tags.answer_mode)
    } else {
        Seq::empty()
    })
}

/// Renders the system prompt for a profile: exactly `spec_system_prompt` of
/// the profile's value.
#[verifier::rlimit(60)]
pub fn build_system_prompt(profile: &InputProfile) -> (r: String)
    ensures
        r@ == spec_system_prompt(profile@),
{
    let mut out = String::new();
    out.append("You are an intelligent assistant analyzing user input behavior.\n");
    out.append("Based on the following analysis of the user's input, adjust your response:\n\n");
    out.append("- Tone: ");
    out.append(tone_str(profile.tags.tone_hint));
    out.append("\n");
    out.append("- Depth: ");
    out.append(depth_str(profile.tags.depth_hint));
    out.append("\n");
    out.append("- Scope: ");
    out.append(scope_str(profile.tags.scope_hint));
    out.append("\n");
    out.append("- Modes: [");
    append_modes(&mut out, &profile.tags.answer_mode);
    out.append("]\n");
    out.append("- User State: [");
    append_states(&mut out, &profile.tags.user_state);
    out.append("]\n");
    out.append("- Confidence: ");
    append_confidence(&mut out, profile.tags.confidence);
    out.append("\n\n");

    if profile.ghost_text.len() > 0 {
        out.append("GHOST TEXT (Deleted Thoughts):\n");
        append_ghost_entries(&mut out, &profile.ghost_text);
        out.append("\n");
    }

    out.append("Guidelines:\n");
    out.append("CRITICAL: You MUST adapt your persona based on the 'User State' above.\n");
    out.append(
        "- If 'Hesitant': Be encouraging, patient, and ask clarifying questions. Acknowledge their hesitation (e.g., 'Take your time', 'I see you're thinking carefully').\n",
    );
    out.append("- If 'Flowing': Be brief, efficient, and match their speed. Skip pleasantries.\n");
    out.append(
        "- If 'Editing': Focus on precision and detail. They are refining their thought, so you should be precise.\n",
    );
    out.append("- If 'Scattered': Help organize their thoughts. Offer structure.\n");
    out.append(
        "- If 'Pasting': Assume they want code analysis or summarization. Be analytical.\n",
    );

    if profile.tags.answer_mode.len() > 0 {
        out.append("\nSpecific Goals:\n");
        append_goal_lines(&mut out, &profile.tags.answer_mode);
    }

    proof {
        assert(out@ =~= spec_system_prompt(profile@));
    }
    out
}

/// The display name of a tone hint.
fn tone_str(t: ToneHint) -> (r: &'static str)
    ensures
        r@ == spec_tone_name(t),
{
    match t {
        ToneHint::Direct => "Direct",
        ToneHint::Gentle => "Gentle",
        ToneHint::Neutral => "Neutral",
    }
}

/// The display name of a depth hint.
fn depth_str(d: DepthHint) -> (r: &'static str)
    ensures
        r@ == spec_depth_name(d),
{
    match d {
        DepthHint::Shallow => "Shallow",
        DepthHint::Normal => "Normal",
        DepthHint::Deep => "Deep",
    }
}

/// The display name of a scope hint.
fn scope_str(s: ScopeHint) -> (r: &'static str)
    ensures
        r@ == spec_scope_name(s),
{
    match s {
        ScopeHint::Narrow => "Narrow",
        ScopeHint::Medium => "Medium",
        ScopeHint::Broad => "Broad",
    }
}

/// Appends the modes joined with a comma and a space.
fn append_modes(out: &mut String, v: &Vec<AnswerMode>)
    ensures
        final(out)@ == old(out)@ + spec_joined_modes(v@),
{
    let mut i: usize = 0;
    proof {
        assert(old(out)@ + spec_joined_modes(v@.take(0)) =~= old(out)@);
    }
    while i < v.len()
        invariant
            i <= v@.len(),
            out@ == old(out)@ + spec_joined_modes(v@.take(i as int)),
        decreases v@.len() - i,
    {
        if i > 0 {
            out.append(", ");
        }
        out.append(mode_name(v[i]));
        i = i + 1;
        proof {
            assert(v@.take(i as int).drop_last() =~= v@.take(i - 1));
            assert(out@ =~= old(out)@ + spec_joined_modes(v@.take(i as int)));
        }
    }
    proof {
        assert(v@.take(v@.len() as int) =~= v@);
    }
}

/// Appends the user states joined with a comma and a space.
fn append_states(out: &mut String, v: &Vec<UserState>)
    ensures
        final(out)@ == old(out)@ + spec_joined_states(v@),
{
    let mut i: usize = 0;
    proof {
        assert(old(out)@ + spec_joined_states(v@.take(0)) =~= old(out)@);
    }
    while i < v.len()
        invariant
            i <= v@.len(),
            out@ == old(out)@ + spec_joined_states(v@.take(i as int)),
        decreases v@.len() - i,
    {
        if i > 0 {
            out.append(", ");
        }
        out.append(state_name(v[i]));
        i = i + 1;
        proof {
            assert(v@.take(i as int).drop_last() =~= v@.take(i - 1));
            assert(out@ =~= old(out)@ + spec_joined_states(v@.take(i as int)));
        }
    }
    proof {
        assert(v@.take(v@.len() as int) =~= v@);
    }
}

/// Appends the rendered confidence.
fn append_confidence(out: &mut String, c: Ratio)
    ensures
        final(out)@ == old(out)@ + spec_confidence_text(c),
{
    if c.den == 10 && c.num <= 10 {
        let t: &'static str = if c.num == 0 {
            "0.00"
        } else if c.num == 1 {
            "0.10"
        } else if c.num == 2 {
            "0.20"
        } else if c.num == 3 {
            "0.30"
        } else if c.num == 4 {
            "0.40"
        } else if c.num == 5 {
            "0.50"
        } else if c.num == 6 {
            "0.60"
        } else if c.num == 7 {
            "0.70"
        } else if c.num == 8 {
            "0.80"
        } else if c.num == 9 {
            "0.90"
        } else {
            "1.00"
        };
        out.append(t);
    } else {
        append_dec(out, c.num);
        out.append("/");
        append_dec(out, c.den);
        proof {
            assert(final(out)@ =~= old(out)@ + spec_confidence_text(c));
        }
    }
}

/// Appends the numbered, quoted ghost-text passages, one per line.
fn append_ghost_entries(out: &mut String, gs: &Vec<String>)
    ensures
        final(out)@ == old(out)@ + spec_ghost_entries(gs@.map_values(|s: String| s@)),
{
    let ghost gv = gs@.map_values(|s: String| s@);
    let mut i: usize = 0;
    proof {
        assert(old(out)@ + spec_ghost_entries(gv.take(0)) =~= old(out)@);
    }
    while i < gs.len()
        invariant
            i <= gs@.len(),
            gv == gs@.map_values(|s: String| s@),
            out@ == old(out)@ + spec_ghost_entries(gv.take(i as int)),
        decreases gs@.len() - i,
    {
        out.append("  ");
        append_dec(out, (i as u64) + 1);
        out.append(". \"");
        out.append(gs[i].as_str());
        out.append("\"\n");
        i = i + 1;
        proof {
            assert(gv.take(i as int).drop_last() =~= gv.take(i - 1));
            assert(gv.take(i as int).len() == i);
            assert(out@ =~= old(out)@ + spec_ghost_entries(gv.take(i as int)));
        }
    }
    proof {
        assert(gv.take(gs@.len() as int) =~= gv);
    }
}

/// Appends the goal line of each mode, in list order.
fn append_goal_lines(out: &mut String, v: &Vec<AnswerMode>)
    ensures
        final(out)@ == old(out)@ + spec_goal_lines(v@),
{
    let mut i: usize = 0;
    proof {
        assert(old(out)@ + spec_goal_lines(v@.take(0)) =~= old(out)@);
    }
    while i < v.len()
        invariant
            i <= v@.len(),
            out@ == old(out)@ + spec_goal_lines(v@.take(i as int)),
        decreases v@.len() - i,
    {
        out.append(goal_line(v[i]));
        i = i + 1;
        proof {
            assert(v@.take(i as int).drop_last() =~= v@.take(i - 1));
            assert(out@ =~= old(out)@ + spec_goal_lines(v@.take(i as int)));
        }
    }
    proof {
        assert(v@.take(v@.len() as int) =~= v@);
    }
}

} // verus!
