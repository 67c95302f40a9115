//! Turns retrieved matches into a bounded context and into the two messages
//! of a grounded chat request.

use crate::constants::MAX_CONTEXT_CHARS;
use crate::number::Float32;
use crate::text::{decimal, push_decimal, texts_of, trim, trimmed};
use crate::types::{QueryMatchView, QueryResult};
use vstd::prelude::*;
use vstd::string::*;

verus! {

/// The instruction that every chat request starts with.
pub const SYSTEM_PROMPT: &'static str =
    "You are a helpful assistant. Use only the provided context to answer the question. Respond in markdown format. If the context is insufficient, say you do not know.";

/// Who speaks in a chat message.
#[derive(Clone, Copy, Debug, PartialEq, Eq)]
pub enum Role {
    System,
    User,
}

/// One message of a chat request.
#[derive(Clone, Debug, PartialEq, Eq)]
pub struct ChatMessage {
    pub role: Role,
    pub content: String,
}

/// A match gets a block unless its text is empty once trimmed.
pub open spec fn has_block(m: QueryMatchView) -> bool {
    trimmed(m.text).len() > 0
}

/// The block of the match at 1-based position `index`.
pub open spec fn document_block(index: nat, score: Float32, text: Seq<char>) -> Seq<char> {
    "<document>\n<index>"@ + decimal(index) + "</index>\n<score>"@ + score.fixed4()
        + "</score>\n<text>"@ + text + "</text>\n</document>"@
}

/// The 0-based positions of the matches that get a block, ascending.
pub open spec fn block_positions(matches: Seq<QueryMatchView>) -> Seq<int>
    decreases matches.len(),
{
    if matches.len() == 0 {
        Seq::empty()
    } else if has_block(matches.last()) {
        block_positions(matches.drop_last()).push(matches.len() - 1)
    } else {
        block_positions(matches.drop_last())
    }
}

/// The blocks of `matches`: one for each position of `block_positions`, in
/// that order, numbered by position plus one, holding the trimmed text.
pub open spec fn blocks(matches: Seq<QueryMatchView>) -> Seq<Seq<char>> {
    block_positions(matches).map_values(
        |p: int| document_block((p + 1) as nat, matches[p].score, trimmed(matches[p].text)),
    )
}

/// `parts` with a line feed between neighbours.
pub open spec fn join_lines(parts: Seq<Seq<char>>) -> Seq<char>
    decreases parts.len(),
{
    if parts.len() == 0 {
        Seq::empty()
    } else if parts.len() == 1 {
        parts[0]
    } else {
        join_lines(parts.drop_last()) + "\n"@ + parts.last()
    }
}

/// The context before any cut: the blocks inside their envelope.
pub open spec fn full_context(matches: Seq<QueryMatchView>) -> Seq<char> {
    "<context>\n"@ + join_lines(blocks(matches)) + "\n</context>"@
}

/// `s`, cut after `limit` characters where it is longer.
pub open spec fn cut(s: Seq<char>, limit: nat) -> Seq<char> {
    if s.len() > limit {
        s.take(limit as int)
    } else {
        s
    }
}

/// The context of `matches`.
pub open spec fn context_of(matches: Seq<QueryMatchView>) -> Seq<char> {
    cut(full_context(matches), MAX_CONTEXT_CHARS as nat)
}

/// What the user message says.
pub open spec fn user_content(context: Seq<char>, prompt: Seq<char>) -> Seq<char> {
    "<request>\n"@ + context + "\n<question>\n"@ + prompt + "\n</question>\n</request>"@
}

/// Block positions lie inside `matches`, ascend strictly, and name exactly the
/// matches that get a block.
pub proof fn lemma_block_positions(matches: Seq<QueryMatchView>)
    ensures
        block_positions(matches).len() <= matches.len(),
        forall|j: int|
            0 <= j < block_positions(matches).len() ==> 0 <= #[trigger] block_positions(
                matches,
            )[j] < matches.len() && has_block(matches[block_positions(matches)[j]]),
        forall|j: int, k: int|
            0 <= j < k < block_positions(matches).len() ==> #[trigger] block_positions(
                matches,
            )[j] < #[trigger] block_positions(matches)[k],
        forall|i: int|
            0 <= i < matches.len() && has_block(#[trigger] matches[i]) ==> block_positions(
                matches,
            ).contains(i),
    decreases matches.len(),
{
    if matches.len() > 0 {
        let front = matches.drop_last();
        lemma_block_positions(front);
        let bp = block_positions(matches);
        let fp = block_positions(front);
        assert forall|i: int| 0 <= i < matches.len() && has_block(
            #[trigger] matches[i],
        ) implies bp.contains(i) by {
            if i < matches.len() - 1 {
                assert(front[i] == matches[i]);
                assert(fp.contains(i));
                let j = choose|j: int| 0 <= j < fp.len() && fp[j] == i;
                assert(bp[j] == i);
            } else {
                assert(bp[bp.len() - 1] == i);
            }
        }
        assert forall|j: int| 0 <= j < bp.len() implies 0 <= #[trigger] bp[j] < matches.len()
            && has_block(matches[bp[j]]) by {
            if j < fp.len() {
                assert(bp[j] == fp[j]);
                assert(front[fp[j]] == matches[fp[j]]);
            }
        }
    }
}

/// Blocks come in the order of the matches: block `j` stands for the match at
/// position `block_positions(matches)[j]`, carries that position plus one as
/// its index together with the match's own score and trimmed text, and a
/// later block always stands for a later match, whatever the scores are.
pub proof fn lemma_blocks_follow_matches(matches: Seq<QueryMatchView>)
    ensures
        blocks(matches).len() == block_positions(matches).len(),
        forall|j: int|
            #![trigger blocks(matches)[j]]
            0 <= j < blocks(matches).len() ==> {
                let p = block_positions(matches)[j];
                &&& 0 <= p < matches.len()
                &&& blocks(matches)[j] == document_block(
                    (p + 1) as nat,
                    matches[p].score,
                    trimmed(matches[p].text),
                )
            },
        forall|j: int, k: int|
            0 <= j < k < blocks(matches).len() ==> #[trigger] block_positions(matches)[j]
                < #[trigger] block_positions(matches)[k],
{
    lemma_block_positions(matches);
}

/// There are exactly as many blocks as matches whose trimmed text is not
/// empty, so never more than matches, and a match whose trimmed text is
/// empty stands behind no block.
pub proof fn lemma_block_count(matches: Seq<QueryMatchView>)
    ensures
        blocks(matches).len() == matches.filter(|m: QueryMatchView| has_block(m)).len(),
        blocks(matches).len() <= matches.len(),
        forall|i: int|
            0 <= i < matches.len() && trimmed(#[trigger] matches[i].text).len() == 0
                ==> !block_positions(matches).contains(i),
    decreases matches.len(),
{
    reveal(Seq::filter);
    lemma_block_positions(matches);
    if matches.len() > 0 {
        lemma_block_count(matches.drop_last());
    }
}

/// The blocks of a list that grew by one match.
proof fn lemma_blocks_push(matches: Seq<QueryMatchView>, m: QueryMatchView)
    ensures
        blocks(matches.push(m)) == if has_block(m) {
            blocks(matches).push(
                document_block((matches.len() + 1) as nat, m.score, trimmed(m.text)),
            )
        } else {
            blocks(matches)
        },
{
    let grown = matches.push(m);
    assert(grown.drop_last() =~= matches);
    assert(grown.last() == m);
    lemma_block_positions(matches);
    let fp = block_positions(matches);
    assert forall|j: int| 0 <= j < fp.len() implies grown[#[trigger] fp[j]] == matches[fp[j]] by {}
    if has_block(m) {
        assert(blocks(grown) =~= blocks(matches).push(
            document_block((matches.len() + 1) as nat, m.score, trimmed(m.text)),
        ));
    } else {
        assert(blocks(grown) =~= blocks(matches));
    }
}

/// Joins `parts` with line feeds.
fn join(parts: &Vec<String>) -> (r: String)
    ensures
        r@ == join_lines(texts_of(parts@)),
{
    let mut out = String::new();
    let mut i: usize = 0;
    while i < parts.len()
        invariant
            i <= parts.len(),
            out@ == join_lines(texts_of(parts@).take(i as int)),
        decreases parts.len() - i,
    {
        let ghost before = texts_of(parts@).take(i as int);
        let ghost after = texts_of(parts@).take(i + 1);
        assert(after.drop_last() =~= before);
        assert(after.last() == parts@[i as int]@);
        if i > 0 {
            out.append("\n");
        }
        out.append(parts[i].as_str());
        assert(out@ =~= join_lines(after));
        i = i + 1;
    }
    assert(texts_of(parts@).take(i as int) =~= texts_of(parts@));
    out
}

/// Assembles the context of a retrieval: one block for each match whose
/// trimmed text is not empty, in the order of the matches and numbered by
/// position, inside a `<context>` envelope, cut after `MAX_CONTEXT_CHARS`
/// characters.
pub fn build_context(result: &QueryResult) -> (r: String)
    ensures
        r@ == context_of(result@),
        full_context(result@).len() > MAX_CONTEXT_CHARS ==> r@ == full_context(result@).take(
            MAX_CONTEXT_CHARS as int,
        ),
        full_context(result@).len() <= MAX_CONTEXT_CHARS ==> r@ == full_context(result@),
        r@.len() <= MAX_CONTEXT_CHARS,
{
    let mut sections: Vec<String> = Vec::new();
    let mut i: usize = 0;
    assert(result@.take(0) =~= Seq::<QueryMatchView>::empty());
    assert(texts_of(sections@) =~= blocks(result@.take(0)));
    while i < result.matches.len()
        invariant
            i <= result.matches.len(),
            result@.len() == result.matches.len(),
            texts_of(sections@) == blocks(result@.take(i as int)),
        decreases result.matches.len() - i,
    {
        let m = &result.matches[i];
        let text = trim(m.metadata.text.as_str());
        proof {
            assert(result@[i as int] == m@);
            assert(result@.take(i + 1) =~= result@.take(i as int).push(m@));
            lemma_blocks_push(result@.take(i as int), m@);
        }
        if !text.is_empty() {
            let mut block = String::new();
            block.append("<document>\n<index>");
            push_decimal(&mut block, (i + 1) as u128);
            block.append("</index>\n<score>");
            m.score.push_fixed4(&mut block);
            block.append("</score>\n<text>");
            block.append(text);
            block.append("</text>\n</document>");
            assert(block@ =~= document_block((i + 1) as nat, m.score, trimmed(m.metadata.text@)));
            let ghost before = texts_of(sections@);
            sections.push(block);
            assert(texts_of(sections@) =~= before.push(block@));
        }
        i = i + 1;
    }
    assert(result@.take(i as int) =~= result@);
    let mut raw = String::new();
    raw.append("<context>\n");
    let body = join(&sections);
    raw.append(body.as_str());
    raw.append("\n</context>");
    assert(raw@ =~= full_context(result@));
    if raw.as_str().unicode_len() > MAX_CONTEXT_CHARS {
        raw.as_str().substring_char(0, MAX_CONTEXT_CHARS).to_owned()
    } else {
        raw
    }
}

/// The two messages of a grounded request: the fixed instruction, then the
/// context and the question in their template.
pub fn build_messages(context: &str, prompt: &str) -> (r: Vec<ChatMessage>)
    ensures
        r@.len() == 2,
        r@[0].role == Role::System,
        r@[0].content@ == SYSTEM_PROMPT@,
        r@[1].role == Role::User,
        r@[1].content@ == user_content(context@, prompt@),
{
    let mut user = String::new();
    user.append("<request>\n");
    user.append(context);
    user.append("\n<question>\n");
    user.append(prompt);
    user.append("\n</question>\n</request>");
    assert(user@ =~= user_content(context@, prompt@));
    let mut messages: Vec<ChatMessage> = Vec::new();
    messages.push(ChatMessage { role: Role::System, content: SYSTEM_PROMPT.to_owned() });
    messages.push(ChatMessage { role: Role::User, content: user });
    messages
}

} // verus!
