//! How often a token stands in a prompt: once for every marker of a turn that
//! holds it, where the texts of the messages hold no such token and the token
//! cannot reach across the edges of a marker.

use vstd::prelude::*;
use crate::chain::{chain, is_turn, law_fold_fails_on_empty_assistant, segment, well_formed};
use crate::count::{
    apart, closed_from, closed_to, count, lemma_apart_by_left, lemma_apart_by_right,
    lemma_count_none, lemma_count_of_parts, lemma_none_counted,
};
use crate::grammar::{GrammarModel, finished, fold_turns};
use crate::message::{MessageModel, assistant_text, content_text};
use crate::text::{
    contains, is_clean, is_white_space, lemma_trim_end, lemma_trim_start, occurs_at,
    trim_end_spec, trim_spec, trim_start_spec,
};

verus! {

/// Whether an opening marker keeps `token` within its edges: the token can
/// neither run into the marker from the text before it, nor begin in the
/// marker and run into the text after it.
pub open spec fn opens_clear(open: Seq<char>, token: Seq<char>) -> bool {
    open.len() > 0 && closed_to(token, open) && closed_from(open, token)
}

/// Whether `token` can be counted in the prompts of the grammar `g`: it is
/// not empty, every opening marker keeps it within its edges, and it cannot
/// run into a closing marker or into the generation cue.
pub open spec fn token_fits(g: GrammarModel, token: Seq<char>) -> bool {
    &&& token.len() > 0
    &&& opens_clear(g.first_user_open, token)
    &&& opens_clear(g.user_open, token)
    &&& opens_clear(g.assistant_open, token)
    &&& g.tool_open matches Some(open) ==> opens_clear(open, token)
    &&& closed_to(token, g.user_close)
    &&& closed_to(token, g.assistant_close)
    &&& closed_to(token, g.cue)
}

/// The text that a message holds, before any trimming.
pub open spec fn turn_text(m: MessageModel) -> Seq<char> {
    match m {
        MessageModel::User(u) => content_text(u.content),
        MessageModel::Assistant(a) => match assistant_text(a) {
            Some(c) => c,
            None => Seq::empty(),
        },
        MessageModel::Tool { content, .. } => content,
        MessageModel::System { content, .. } => content,
    }
}

/// Whether the text of no message of `ms` holds `token`.
pub open spec fn texts_free_of(ms: Seq<MessageModel>, token: Seq<char>) -> bool {
    forall|k: int| 0 <= k < ms.len() ==> !contains(turn_text(#[trigger] ms[k]), token)
}

/// How often `token` stands in the markers of one turn. The first turn of a
/// conversation, where it is a user turn, carries the system preamble, and
/// what that holds is counted with it.
pub open spec fn turn_count(
    g: GrammarModel,
    system: Seq<char>,
    first: bool,
    m: MessageModel,
    token: Seq<char>,
) -> nat {
    match m {
        MessageModel::User(_) => (if first {
            count(trim_spec(system), token) + count(g.first_user_open, token)
        } else {
            count(g.user_open, token)
        }) + count(g.user_close, token),
        MessageModel::Assistant(_) => count(g.assistant_open, token) + count(
            g.assistant_close,
            token,
        ),
        MessageModel::Tool { .. } => match g.tool_open {
            Some(open) => count(open, token),
            None => 0,
        },
        MessageModel::System { .. } => 0,
    }
}

/// How often `token` stands in the markers of all turns of `ms`.
pub open spec fn marker_count(
    g: GrammarModel,
    system: Seq<char>,
    ms: Seq<MessageModel>,
    token: Seq<char>,
) -> nat
    decreases ms.len(),
{
    if ms.len() == 0 {
        0
    } else {
        marker_count(g, system, ms.drop_last(), token) + turn_count(
            g,
            system,
            chain(g, system, ms.drop_last()).len() == 0,
            ms.last(),
            token,
        )
    }
}

/// What a text does not hold, the trimmed text does not hold either.
pub proof fn lemma_trim_holds_no_more(s: Seq<char>, token: Seq<char>)
    requires
        !contains(s, token),
    ensures
        !contains(trim_spec(s), token),
        count(trim_spec(s), token) == 0,
{
    let t = trim_start_spec(s);
    let u = trim_end_spec(t);
    lemma_trim_start(s);
    lemma_trim_end(t);
    if contains(u, token) {
        let at = choose|at: int| occurs_at(u, token, at);
        let cut = s.len() - t.len();
        assert(s.subrange(cut + at, cut + at + token.len()) == u.subrange(at, at + token.len()));
        assert(occurs_at(s, token, cut + at));
    }
    lemma_count_none(u, token);
}

/// The count of an opening marker, a body that holds no token, and a closing
/// marker is the count of the two markers.
pub proof fn lemma_count_around(
    open: Seq<char>,
    body: Seq<char>,
    close: Seq<char>,
    token: Seq<char>,
)
    requires
        token.len() > 0,
        closed_from(open, token),
        closed_to(token, close),
        !contains(body, token),
    ensures
        count(open + body + close, token) == count(open, token) + count(close, token),
{
    lemma_count_none(body, token);
    lemma_apart_by_left(open, body, token);
    lemma_count_of_parts(open, body, token);
    lemma_apart_by_right(open + body, close, token);
    lemma_count_of_parts(open + body, close, token);
}

/// The count of the markers of a turn around its trimmed text, which holds no
/// token, is the count of the two markers.
pub proof fn lemma_count_of_turn(
    open: Seq<char>,
    text: Seq<char>,
    close: Seq<char>,
    token: Seq<char>,
)
    requires
        token.len() > 0,
        closed_from(open, token),
        closed_to(token, close),
        !contains(text, token),
    ensures
        count(open + trim_spec(text) + close, token) == count(open, token) + count(close, token),
{
    lemma_trim_holds_no_more(text, token);
    lemma_count_around(open, trim_spec(text), close, token);
}

/// The count of the segment of one turn is the count of its markers.
pub proof fn lemma_count_of_segment(
    g: GrammarModel,
    system: Seq<char>,
    first: bool,
    m: MessageModel,
    token: Seq<char>,
)
    requires
        token_fits(g, token),
        !contains(turn_text(m), token),
    ensures
        count(segment(g, system, first, m), token) == turn_count(g, system, first, m, token),
{
    let empty = Seq::<char>::empty();
    match m {
        MessageModel::User(u) => {
            let text = content_text(u.content);
            if first {
                let lead = trim_spec(system);
                let inner = g.first_user_open + trim_spec(text) + g.user_close;
                lemma_count_of_turn(g.first_user_open, text, g.user_close, token);
                assert(inner[0] == g.first_user_open[0]);
                assert(closed_to(token, inner));
                lemma_apart_by_right(lead, inner, token);
                lemma_count_of_parts(lead, inner, token);
                assert(lead + inner == segment(g, system, first, m));
            } else {
                lemma_count_of_turn(g.user_open, text, g.user_close, token);
            }
        },
        MessageModel::Assistant(a) => {
            lemma_count_of_turn(g.assistant_open, turn_text(m), g.assistant_close, token);
        },
        MessageModel::Tool { content, .. } => {
            match g.tool_open {
                Some(open) => {
                    lemma_count_of_turn(open, content, empty, token);
                    assert(open + trim_spec(content) + empty == open + trim_spec(content));
                    assert(count(empty, token) == 0);
                },
                None => {},
            }
        },
        MessageModel::System { .. } => {},
    }
}

/// Trimming a text changes nothing in the count of a clean token: white
/// space is no part of its first or last character.
pub proof fn lemma_trim_keeps_count(s: Seq<char>, token: Seq<char>)
    requires
        is_clean(token),
    ensures
        count(trim_spec(s), token) == count(s, token),
{
    let t = trim_start_spec(s);
    let u = trim_end_spec(t);
    lemma_trim_start(s);
    lemma_trim_end(t);
    let lead = s.subrange(0, s.len() - t.len());
    let trail = t.subrange(u.len() as int, t.len() as int);
    assert(s == lead + t);
    assert(t == u + trail);
    // nothing begins in the white space in front
    assert(!contains(lead, token)) by {
        if contains(lead, token) {
            let at = choose|at: int| occurs_at(lead, token, at);
            assert(lead.subrange(at, at + token.len())[0] == lead[at]);
            assert(is_white_space(s[at]));
        }
    }
    lemma_count_none(lead, token);
    assert(apart(lead, t, token)) by {
        assert forall|at: int|
            0 <= at < lead.len() && at + token.len() > lead.len() implies !#[trigger] occurs_at(
            lead + t,
            token,
            at,
        ) by {
            if occurs_at(lead + t, token, at) {
                assert((lead + t).subrange(at, at + token.len())[0] == (lead + t)[at]);
                assert(is_white_space(s[at]));
            }
        }
    }
    lemma_count_of_parts(lead, t, token);
    // nothing ends in the white space behind
    assert(!contains(trail, token)) by {
        if contains(trail, token) {
            let at = choose|at: int| occurs_at(trail, token, at);
            assert(trail.subrange(at, at + token.len())[0] == trail[at]);
            assert(is_white_space(t[u.len() + at]));
        }
    }
    lemma_count_none(trail, token);
    assert(apart(u, trail, token)) by {
        assert forall|at: int|
            0 <= at < u.len() && at + token.len() > u.len() implies !#[trigger] occurs_at(
            u + trail,
            token,
            at,
        ) by {
            if occurs_at(u + trail, token, at) {
                let end = at + token.len() - 1;
                assert((u + trail).subrange(at, at + token.len())[token.len() - 1] == (u
                    + trail)[end]);
                assert(is_white_space(t[end]));
            }
        }
    }
    lemma_count_of_parts(u, trail, token);
}

/// The history of a conversation is empty exactly where its chain is: where
/// no turn has been taken.
pub proof fn lemma_history_is_empty_with_chain(
    g: GrammarModel,
    system: Seq<char>,
    ms: Seq<MessageModel>,
)
    requires
        well_formed(ms),
        g.first_user_open.len() > 0,
        g.user_open.len() > 0,
        g.assistant_open.len() > 0,
        g.tool_open matches Some(open) ==> open.len() > 0,
    ensures
        fold_turns(g, system, ms) matches Ok(history) && (history.len() == 0 <==> chain(
            g,
            system,
            ms,
        ).len() == 0),
    decreases ms.len(),
{
    law_fold_fails_on_empty_assistant(g, system, ms);
    if ms.len() > 0 {
        let front = ms.drop_last();
        law_fold_fails_on_empty_assistant(g, system, front);
        assert(well_formed(front)) by {
            assert forall|k: int| 0 <= k < front.len() implies (#[trigger] front[k] matches MessageModel::Assistant(
                a,
            ) ==> assistant_text(a) is Some) by {
                assert(front[k] == ms[k]);
            }
        }
        lemma_history_is_empty_with_chain(g, system, front);
    }
}

/// Where the texts of the messages hold no `token`, a clean token stands in
/// the finished prompt exactly as often as in the markers of its turns and in
/// the generation cue: every turn contributes its markers once, whatever
/// trimming does to the white space around them.
pub proof fn law_markers_stand_once_per_turn(
    g: GrammarModel,
    system: Seq<char>,
    ms: Seq<MessageModel>,
    token: Seq<char>,
)
    requires
        well_formed(ms),
        token_fits(g, token),
        is_clean(token),
        texts_free_of(ms, token),
    ensures
        finished(g, system, ms) matches Ok(prompt) && count(prompt, token) == marker_count(
            g,
            system,
            ms,
            token,
        ) + count(g.cue, token),
{
    lemma_count_of_history(g, system, ms, token);
    let history = fold_turns(g, system, ms)->Ok_0;
    lemma_apart_by_right(history, g.cue, token);
    lemma_count_of_parts(history, g.cue, token);
}

/// In the history of a conversation whose texts hold no `token`, a clean
/// token stands exactly as often as in the markers of the turns.
pub proof fn lemma_count_of_history(
    g: GrammarModel,
    system: Seq<char>,
    ms: Seq<MessageModel>,
    token: Seq<char>,
)
    requires
        well_formed(ms),
        token_fits(g, token),
        is_clean(token),
        texts_free_of(ms, token),
    ensures
        fold_turns(g, system, ms) matches Ok(history) && count(history, token) == marker_count(
            g,
            system,
            ms,
            token,
        ),
    decreases ms.len(),
{
    lemma_history_is_empty_with_chain(g, system, ms);
    if ms.len() > 0 {
        let front = ms.drop_last();
        let last = ms.last();
        assert(last == ms[ms.len() - 1]);
        assert(well_formed(front)) by {
            assert forall|k: int| 0 <= k < front.len() implies (#[trigger] front[k] matches MessageModel::Assistant(
                a,
            ) ==> assistant_text(a) is Some) by {
                assert(front[k] == ms[k]);
            }
        }
        assert(texts_free_of(front, token)) by {
            assert forall|k: int| 0 <= k < front.len() implies !contains(
                turn_text(#[trigger] front[k]),
                token,
            ) by {
                assert(front[k] == ms[k]);
            }
        }
        lemma_count_of_history(g, system, front, token);
        lemma_history_is_empty_with_chain(g, system, front);
        let before = fold_turns(g, system, front)->Ok_0;
        let first = before.len() == 0;
        let kept = trim_spec(before);
        lemma_trim_keeps_count(before, token);
        let empty = Seq::<char>::empty();
        match last {
            MessageModel::User(u) => {
                if first {
                    lemma_count_of_segment(g, system, true, last, token);
                } else {
                    let inner = g.user_open + trim_spec(content_text(u.content)) + g.user_close;
                    lemma_count_of_turn(g.user_open, content_text(u.content), g.user_close, token);
                    assert(inner[0] == g.user_open[0]);
                    lemma_apart_by_right(kept, inner, token);
                    lemma_count_of_parts(kept, inner, token);
                    assert(kept + inner == kept + g.user_open + trim_spec(content_text(u.content))
                        + g.user_close);
                }
            },
            MessageModel::Assistant(a) => {
                let text = turn_text(last);
                let inner = g.assistant_open + trim_spec(text) + g.assistant_close;
                lemma_count_of_turn(g.assistant_open, text, g.assistant_close, token);
                assert(inner[0] == g.assistant_open[0]);
                lemma_apart_by_right(kept, inner, token);
                lemma_count_of_parts(kept, inner, token);
                assert(kept + inner == kept + g.assistant_open + trim_spec(text)
                    + g.assistant_close);
            },
            MessageModel::Tool { content, .. } => {
                match g.tool_open {
                    Some(open) => {
                        let inner = open + trim_spec(content);
                        lemma_count_of_turn(open, content, empty, token);
                        assert(open + trim_spec(content) + empty == inner);
                        assert(count(empty, token) == 0);
                        assert(inner[0] == open[0]);
                        lemma_apart_by_right(kept, inner, token);
                        lemma_count_of_parts(kept, inner, token);
                        assert(kept + inner == kept + open + trim_spec(content));
                    },
                    None => {},
                }
            },
            MessageModel::System { .. } => {},
        }
    }
}

/// What one message weighs in a tally by role.
pub open spec fn weight(m: MessageModel, per_user: nat, per_assistant: nat, per_tool: nat) -> nat {
    match m {
        MessageModel::User(_) => per_user,
        MessageModel::Assistant(_) => per_assistant,
        MessageModel::Tool { .. } => per_tool,
        MessageModel::System { .. } => 0,
    }
}

/// The messages of a conversation, weighed by role and added up.
pub open spec fn tally(ms: Seq<MessageModel>, per_user: nat, per_assistant: nat, per_tool: nat) -> nat
    decreases ms.len(),
{
    if ms.len() == 0 {
        0
    } else {
        tally(ms.drop_last(), per_user, per_assistant, per_tool) + weight(
            ms.last(),
            per_user,
            per_assistant,
            per_tool,
        )
    }
}

/// How many user messages a conversation holds.
pub open spec fn users(ms: Seq<MessageModel>) -> nat {
    tally(ms, 1, 0, 0)
}

/// How many assistant messages a conversation holds.
pub open spec fn assistants(ms: Seq<MessageModel>) -> nat {
    tally(ms, 0, 1, 0)
}

/// How many tool messages a conversation holds.
pub open spec fn tool_results(ms: Seq<MessageModel>) -> nat {
    tally(ms, 0, 0, 1)
}

/// A tally that weighs user and assistant messages alike is the number of
/// both; one that weighs nothing is nothing.
pub proof fn lemma_tally_adds(ms: Seq<MessageModel>)
    ensures
        tally(ms, 1, 1, 0) == users(ms) + assistants(ms),
        tally(ms, 0, 0, 0) == 0,
    decreases ms.len(),
{
    if ms.len() > 0 {
        lemma_tally_adds(ms.drop_last());
    }
}

/// Whether the markers of the grammar `g` hold `token` so often: in the
/// markers of a user turn, of an assistant turn and of a tool turn, and in
/// the generation cue.
pub open spec fn token_stands(
    g: GrammarModel,
    token: Seq<char>,
    per_user: nat,
    per_assistant: nat,
    per_tool: nat,
    in_cue: nat,
) -> bool {
    &&& count(g.first_user_open, token) + count(g.user_close, token) == per_user
    &&& count(g.user_open, token) + count(g.user_close, token) == per_user
    &&& count(g.assistant_open, token) + count(g.assistant_close, token) == per_assistant
    &&& match g.tool_open {
        Some(open) => count(open, token) == per_tool,
        None => per_tool == 0,
    }
    &&& count(g.cue, token) == in_cue
}

/// How often `token` stands in the system preamble as the prompt holds it:
/// the preamble stands in front of the first turn where that is a user turn.
pub open spec fn preamble_share(
    g: GrammarModel,
    system: Seq<char>,
    ms: Seq<MessageModel>,
    token: Seq<char>,
) -> nat
    decreases ms.len(),
{
    if ms.len() == 0 {
        0
    } else {
        preamble_share(g, system, ms.drop_last(), token) + if chain(g, system, ms.drop_last()).len()
            == 0 && ms.last() is User {
            count(trim_spec(system), token)
        } else {
            0
        }
    }
}

/// Where the markers of every turn of a role hold `token` equally often, the
/// markers of a conversation hold it as often as the tally of its messages
/// says, and as often again as the system preamble does where the prompt
/// holds it.
pub proof fn lemma_marker_count_by_role(
    g: GrammarModel,
    system: Seq<char>,
    ms: Seq<MessageModel>,
    token: Seq<char>,
    per_user: nat,
    per_assistant: nat,
    per_tool: nat,
    in_cue: nat,
)
    requires
        token_stands(g, token, per_user, per_assistant, per_tool, in_cue),
    ensures
        marker_count(g, system, ms, token) == tally(ms, per_user, per_assistant, per_tool)
            + preamble_share(g, system, ms, token),
    decreases ms.len(),
{
    if ms.len() > 0 {
        lemma_marker_count_by_role(
            g,
            system,
            ms.drop_last(),
            token,
            per_user,
            per_assistant,
            per_tool,
            in_cue,
        );
    }
}

/// A system preamble that holds no `token` adds none to a prompt.
pub proof fn lemma_no_preamble_share(
    g: GrammarModel,
    system: Seq<char>,
    ms: Seq<MessageModel>,
    token: Seq<char>,
)
    requires
        count(trim_spec(system), token) == 0,
    ensures
        preamble_share(g, system, ms, token) == 0,
    decreases ms.len(),
{
    if ms.len() > 0 {
        lemma_no_preamble_share(g, system, ms.drop_last(), token);
    }
}

/// Whether the first turn of `ms` is a user turn, the one of the message at
/// `first`: no message before it adds a turn.
pub open spec fn user_opens_at(g: GrammarModel, ms: Seq<MessageModel>, first: int) -> bool {
    &&& 0 <= first < ms.len()
    &&& ms[first] is User
    &&& forall|j: int| 0 <= j < first ==> !is_turn(g, #[trigger] ms[j])
}

/// Whether the first turn of `ms` is a user turn.
pub open spec fn opens_with_user(g: GrammarModel, ms: Seq<MessageModel>) -> bool {
    exists|first: int| user_opens_at(g, ms, first)
}

/// A conversation whose first turn is a user turn holds the system preamble
/// once: in front of that turn.
pub proof fn lemma_preamble_share_of_user_opening(
    g: GrammarModel,
    system: Seq<char>,
    ms: Seq<MessageModel>,
    token: Seq<char>,
    first: int,
)
    requires
        0 <= first,
        first < ms.len() ==> ms[first] is User,
        forall|j: int| 0 <= j < first && j < ms.len() ==> !is_turn(g, #[trigger] ms[j]),
        g.first_user_open.len() > 0,
    ensures
        first < ms.len() ==> preamble_share(g, system, ms, token) == count(
            trim_spec(system),
            token,
        ) && chain(g, system, ms).len() > 0,
        first >= ms.len() ==> preamble_share(g, system, ms, token) == 0 && chain(
            g,
            system,
            ms,
        ).len() == 0,
    decreases ms.len(),
{
    if ms.len() > 0 {
        let front = ms.drop_last();
        if first < front.len() {
            assert(front[first] == ms[first]);
        }
        assert forall|j: int| 0 <= j < first && j < front.len() implies !is_turn(
            g,
            #[trigger] front[j],
        ) by {
            assert(front[j] == ms[j]);
        }
        lemma_preamble_share_of_user_opening(g, system, front, token, first);
        assert(ms.last() == ms[ms.len() - 1]);
    }
}

/// Where neither the texts of the messages nor the system preamble hold a
/// clean token, the token stands in the finished prompt as often as the
/// markers of the turns hold it, turn by turn, and once more for each time
/// it stands in the generation cue.
pub proof fn law_token_count_by_role(
    g: GrammarModel,
    system: Seq<char>,
    ms: Seq<MessageModel>,
    token: Seq<char>,
    per_user: nat,
    per_assistant: nat,
    per_tool: nat,
    in_cue: nat,
)
    requires
        well_formed(ms),
        token_fits(g, token),
        is_clean(token),
        token_stands(g, token, per_user, per_assistant, per_tool, in_cue),
        texts_free_of(ms, token),
        !contains(system, token),
    ensures
        finished(g, system, ms) matches Ok(prompt) && count(prompt, token) == tally(
            ms,
            per_user,
            per_assistant,
            per_tool,
        ) + in_cue,
{
    lemma_trim_holds_no_more(system, token);
    law_markers_stand_once_per_turn(g, system, ms, token);
    lemma_marker_count_by_role(g, system, ms, token, per_user, per_assistant, per_tool, in_cue);
    lemma_no_preamble_share(g, system, ms, token);
}

/// A system preamble made of a lead and of a text holds no `token` where
/// the lead holds none and keeps it from running on, and the text holds none.
pub proof fn lemma_preamble_holds_none(
    lead: Seq<char>,
    fallback: Seq<char>,
    content: Seq<char>,
    token: Seq<char>,
)
    requires
        token.len() > 0,
        closed_from(lead, token),
        count(lead, token) == 0,
        count(fallback, token) == 0,
        !contains(content, token),
    ensures
        !contains(
            lead + if content.len() == 0 {
                fallback
            } else {
                content
            },
            token,
        ),
{
    let text = if content.len() == 0 {
        fallback
    } else {
        content
    };
    lemma_count_none(content, token);
    lemma_apart_by_left(lead, text, token);
    lemma_count_of_parts(lead, text, token);
    lemma_none_counted(lead + text, token);
}

} // verus!
