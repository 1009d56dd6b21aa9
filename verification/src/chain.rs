//! A prompt as a chain of turns: the system preamble, then one segment per
//! turn, each made of the turn's markers around its trimmed content. The
//! folded history is this chain wherever trimming the history between turns
//! removes nothing.

use vstd::prelude::*;
use crate::error::PromptErrorModel;
use crate::grammar::{GrammarModel, fold_turns};
use crate::message::{MessageModel, assistant_text, content_text};
use crate::text::{
    is_clean, is_white_space, lemma_trim_is_clean, lemma_trim_keeps_clean, trim_spec,
};

verus! {

/// Whether `m` adds a turn to the history under the grammar `g`.
pub open spec fn is_turn(g: GrammarModel, m: MessageModel) -> bool {
    match m {
        MessageModel::User(_) => true,
        MessageModel::Assistant(_) => true,
        MessageModel::Tool { .. } => g.tool_open is Some,
        MessageModel::System { .. } => false,
    }
}

/// Whether every assistant message of `ms` has content or tool calls.
pub open spec fn well_formed(ms: Seq<MessageModel>) -> bool {
    forall|k: int|
        0 <= k < ms.len() ==> (#[trigger] ms[k] matches MessageModel::Assistant(a)
            ==> assistant_text(a) is Some)
}

/// What the turn of `m` contributes: its opening marker, its trimmed content
/// and its closing marker. The first turn of a conversation, where it is a
/// user turn, carries the trimmed system preamble in front.
pub open spec fn segment(g: GrammarModel, system: Seq<char>, first: bool, m: MessageModel) -> Seq<
    char,
> {
    match m {
        MessageModel::User(u) => (if first {
            trim_spec(system) + g.first_user_open
        } else {
            g.user_open
        }) + trim_spec(content_text(u.content)) + g.user_close,
        MessageModel::Assistant(a) => g.assistant_open + trim_spec(
            match assistant_text(a) {
                Some(c) => c,
                None => Seq::empty(),
            },
        ) + g.assistant_close,
        MessageModel::Tool { content, .. } => match g.tool_open {
            Some(open) => open + trim_spec(content),
            None => Seq::empty(),
        },
        MessageModel::System { .. } => Seq::empty(),
    }
}

/// The segments of all turns of `ms`, one after the other.
pub open spec fn chain(g: GrammarModel, system: Seq<char>, ms: Seq<MessageModel>) -> Seq<char>
    decreases ms.len(),
{
    if ms.len() == 0 {
        Seq::empty()
    } else {
        let before = chain(g, system, ms.drop_last());
        before + segment(g, system, before.len() == 0, ms.last())
    }
}

/// Whether no turn of `ms` finds white space at either end of the chain
/// before it: trimming the history then removes nothing.
pub open spec fn untouched(g: GrammarModel, system: Seq<char>, ms: Seq<MessageModel>) -> bool {
    forall|k: int|
        0 <= k < ms.len() && is_turn(g, #[trigger] ms[k]) ==> trim_spec(
            chain(g, system, ms.take(k)),
        ) == chain(g, system, ms.take(k))
}

/// Whether every opening marker of `g` is clean and no closing marker ends
/// with white space.
pub open spec fn well_delimited(g: GrammarModel) -> bool {
    &&& is_clean(g.first_user_open)
    &&& is_clean(g.user_open)
    &&& is_clean(g.assistant_open)
    &&& g.tool_open matches Some(open) ==> is_clean(open)
    &&& g.user_close.len() > 0 ==> !is_white_space(g.user_close.last())
    &&& g.assistant_close.len() > 0 ==> !is_white_space(g.assistant_close.last())
}

/// In a well-formed conversation in which trimming the history removes
/// nothing, the folded history is the chain of its turns: every turn
/// contributes its markers once, around its trimmed content, in order.
pub proof fn law_history_is_chain_of_turns(
    g: GrammarModel,
    system: Seq<char>,
    ms: Seq<MessageModel>,
)
    requires
        well_formed(ms),
        untouched(g, system, ms),
    ensures
        fold_turns(g, system, ms) == Ok::<Seq<char>, PromptErrorModel>(chain(g, system, ms)),
    decreases ms.len(),
{
    if ms.len() > 0 {
        let front = ms.drop_last();
        assert(well_formed(front)) by {
            assert forall|k: int| 0 <= k < front.len() implies (#[trigger] front[k] matches MessageModel::Assistant(
                a,
            ) ==> assistant_text(a) is Some) by {
                assert(front[k] == ms[k]);
            }
        }
        assert(untouched(g, system, front)) by {
            assert forall|k: int| 0 <= k < front.len() && is_turn(g, #[trigger] front[k]) implies trim_spec(
                chain(g, system, front.take(k)),
            ) == chain(g, system, front.take(k)) by {
                assert(front[k] == ms[k]);
                assert(front.take(k) == ms.take(k));
            }
        }
        law_history_is_chain_of_turns(g, system, front);
        let before = chain(g, system, front);
        let last = ms[ms.len() - 1];
        assert(ms.take(ms.len() - 1) == front);
        if is_turn(g, last) {
            assert(trim_spec(before) == before);
        }
        assert(trim_spec(Seq::<char>::empty()) == Seq::<char>::empty());
        match last {
            MessageModel::User(u) => {
                let c = trim_spec(content_text(u.content));
                if before.len() == 0 {
                    assert(before + (trim_spec(system) + g.first_user_open + c + g.user_close)
                        == trim_spec(system) + g.first_user_open + c + g.user_close);
                } else {
                    assert(before + (g.user_open + c + g.user_close) == before + g.user_open + c
                        + g.user_close);
                }
            },
            MessageModel::Assistant(a) => {
                let c = trim_spec(assistant_text(a)->Some_0);
                assert(before + (g.assistant_open + c + g.assistant_close) == before
                    + g.assistant_open + c + g.assistant_close);
            },
            MessageModel::Tool { content, .. } => {
                match g.tool_open {
                    Some(open) => {
                        assert(before + (open + trim_spec(content)) == before + open + trim_spec(
                            content,
                        ));
                    },
                    None => {
                        assert(before + Seq::<char>::empty() == before);
                    },
                }
            },
            MessageModel::System { .. } => {
                assert(before + Seq::<char>::empty() == before);
            },
        }
    }
}

/// The segment of a turn under a well-delimited grammar is clean, given that
/// a first user turn has a system preamble that does not trim to nothing.
pub proof fn lemma_segment_is_clean(
    g: GrammarModel,
    system: Seq<char>,
    first: bool,
    m: MessageModel,
)
    requires
        well_delimited(g),
        trim_spec(system).len() > 0,
        is_turn(g, m),
    ensures
        is_clean(segment(g, system, first, m)),
{
    lemma_trim_is_clean(system);
    match m {
        MessageModel::User(u) => {
            let c = trim_spec(content_text(u.content));
            lemma_trim_is_clean(content_text(u.content));
            let open = if first {
                trim_spec(system) + g.first_user_open
            } else {
                g.user_open
            };
            assert(is_clean(open));
            lemma_join_clean(open, c, g.user_close);
        },
        MessageModel::Assistant(a) => {
            let text = match assistant_text(a) {
                Some(c) => c,
                None => Seq::empty(),
            };
            lemma_trim_is_clean(text);
            lemma_join_clean(g.assistant_open, trim_spec(text), g.assistant_close);
        },
        MessageModel::Tool { content, .. } => {
            lemma_trim_is_clean(content);
            let open = g.tool_open->Some_0;
            lemma_join_clean(open, trim_spec(content), Seq::empty());
            assert(open + trim_spec(content) + Seq::<char>::empty() == open + trim_spec(content));
        },
        MessageModel::System { .. } => {},
    }
}

/// A clean opening, then a text that is empty or clean, then a closing that
/// does not end with white space, make a clean text.
pub proof fn lemma_join_clean(open: Seq<char>, body: Seq<char>, close: Seq<char>)
    requires
        is_clean(open),
        body.len() == 0 || is_clean(body),
        close.len() > 0 ==> !is_white_space(close.last()),
    ensures
        is_clean(open + body + close),
{
    let all = open + body + close;
    assert(all[0] == open[0]);
    if close.len() > 0 {
        assert(all.last() == close.last());
    } else if body.len() > 0 {
        assert(all.last() == body.last());
    } else {
        assert(all.last() == open.last());
    }
}

/// Whether every turn of `ms` leaves the chain with clean edges: its segment
/// ends with a character other than white space and, where it opens the
/// chain, begins with one.
pub open spec fn clean_edges(g: GrammarModel, system: Seq<char>, ms: Seq<MessageModel>) -> bool {
    forall|k: int|
        0 <= k < ms.len() && is_turn(g, #[trigger] ms[k]) ==> {
            let before = chain(g, system, ms.take(k));
            let seg = segment(g, system, before.len() == 0, ms[k]);
            &&& seg.len() > 0
            &&& !is_white_space(seg.last())
            &&& before.len() == 0 ==> !is_white_space(seg[0])
        }
}

/// Every prefix of a conversation with clean edges has clean edges.
pub proof fn lemma_clean_edges_of_prefix(
    g: GrammarModel,
    system: Seq<char>,
    ms: Seq<MessageModel>,
    n: int,
)
    requires
        clean_edges(g, system, ms),
        0 <= n <= ms.len(),
    ensures
        clean_edges(g, system, ms.take(n)),
{
    let front = ms.take(n);
    assert forall|k: int| 0 <= k < front.len() && is_turn(g, #[trigger] front[k]) implies {
        let before = chain(g, system, front.take(k));
        let seg = segment(g, system, before.len() == 0, front[k]);
        &&& seg.len() > 0
        &&& !is_white_space(seg.last())
        &&& before.len() == 0 ==> !is_white_space(seg[0])
    } by {
        assert(front[k] == ms[k]);
        assert(front.take(k) == ms.take(k));
    }
}

/// The chain of a conversation with clean edges is empty or clean.
pub proof fn lemma_chain_is_clean(g: GrammarModel, system: Seq<char>, ms: Seq<MessageModel>)
    requires
        clean_edges(g, system, ms),
    ensures
        chain(g, system, ms).len() == 0 || is_clean(chain(g, system, ms)),
    decreases ms.len(),
{
    if ms.len() > 0 {
        let front = ms.drop_last();
        assert(front == ms.take(ms.len() - 1));
        lemma_clean_edges_of_prefix(g, system, ms, ms.len() - 1);
        lemma_chain_is_clean(g, system, front);
        let before = chain(g, system, front);
        let seg = segment(g, system, before.len() == 0, ms.last());
        if is_turn(g, ms.last()) {
            assert(is_turn(g, ms[ms.len() - 1]));
            let all = before + seg;
            if before.len() > 0 {
                assert(all[0] == before[0]);
            } else {
                assert(all[0] == seg[0]);
            }
            assert(all.last() == seg.last());
        } else {
            assert(seg.len() == 0);
            assert(before + seg == before);
        }
    }
}

/// In a conversation with clean edges, trimming the history never removes
/// anything.
pub proof fn lemma_clean_edges_are_untouched(
    g: GrammarModel,
    system: Seq<char>,
    ms: Seq<MessageModel>,
)
    requires
        clean_edges(g, system, ms),
    ensures
        untouched(g, system, ms),
{
    assert forall|k: int| 0 <= k < ms.len() && is_turn(g, #[trigger] ms[k]) implies trim_spec(
        chain(g, system, ms.take(k)),
    ) == chain(g, system, ms.take(k)) by {
        let c = chain(g, system, ms.take(k));
        lemma_clean_edges_of_prefix(g, system, ms, k);
        lemma_chain_is_clean(g, system, ms.take(k));
        if c.len() > 0 {
            lemma_trim_keeps_clean(c);
        } else {
            assert(trim_spec(c) == c);
        }
    }
}

/// Under a well-delimited grammar, with a system preamble that does not trim
/// to nothing, every conversation has clean edges: trimming the history never
/// removes anything.
pub proof fn lemma_well_delimited_is_untouched(
    g: GrammarModel,
    system: Seq<char>,
    ms: Seq<MessageModel>,
)
    requires
        well_delimited(g),
        trim_spec(system).len() > 0,
    ensures
        clean_edges(g, system, ms),
        untouched(g, system, ms),
{
    assert forall|k: int| 0 <= k < ms.len() && is_turn(g, #[trigger] ms[k]) implies {
        let before = chain(g, system, ms.take(k));
        let seg = segment(g, system, before.len() == 0, ms[k]);
        &&& seg.len() > 0
        &&& !is_white_space(seg.last())
        &&& before.len() == 0 ==> !is_white_space(seg[0])
    } by {
        let before = chain(g, system, ms.take(k));
        lemma_segment_is_clean(g, system, before.len() == 0, ms[k]);
    }
    lemma_clean_edges_are_untouched(g, system, ms);
}

/// Folding fails exactly where an assistant message has neither content nor
/// tool calls, and then it reports that no assistant message was given.
pub proof fn law_fold_fails_on_empty_assistant(
    g: GrammarModel,
    system: Seq<char>,
    ms: Seq<MessageModel>,
)
    ensures
        fold_turns(g, system, ms) is Ok <==> well_formed(ms),
        fold_turns(g, system, ms) is Err ==> fold_turns(g, system, ms) == Err::<
            Seq<char>,
            PromptErrorModel,
        >(PromptErrorModel::NoAssistantMessage),
    decreases ms.len(),
{
    if ms.len() > 0 {
        let front = ms.drop_last();
        law_fold_fails_on_empty_assistant(g, system, front);
        if well_formed(ms) {
            assert(well_formed(front)) by {
                assert forall|k: int| 0 <= k < front.len() implies (#[trigger] front[k] matches MessageModel::Assistant(
                    a,
                ) ==> assistant_text(a) is Some) by {
                    assert(front[k] == ms[k]);
                }
            }
            assert(ms[ms.len() - 1] == ms.last());
        }
        if fold_turns(g, system, ms) is Ok {
            assert forall|k: int| 0 <= k < ms.len() implies (#[trigger] ms[k] matches MessageModel::Assistant(
                a,
            ) ==> assistant_text(a) is Some) by {
                if k < front.len() {
                    assert(front[k] == ms[k]);
                }
            }
        }
    }
}

} // verus!
