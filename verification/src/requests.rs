//! The outbound wire-request shapes of the HTTP dialects, each a pure
//! projection of a prompt, and its exact serialized form.

use vstd::prelude::*;

use crate::json::{
    append_dec, append_json_opt_string, append_json_string, dec_digits, join_comma,
    json_opt_string, json_string, push_char,
};
use crate::model::{opt_str_view, Message, Prompt};
use crate::wire::{
    append_msgs_array, chat_pairs, msgs_array, msgs_view, partition_messages, strs_view,
    system_texts,
};

verus! {

/// The OpenAI-compatible wire request: the full message list verbatim, the
/// model name, and the streaming indicator.
pub struct OpenAiPrompt {
    pub model: Option<String>,
    pub stream: bool,
    pub messages: Vec<Message>,
}

/// The Anthropic wire request: system messages separated from the
/// turn-taking message array, plus the model and a generation ceiling.
pub struct AnthropicPrompt {
    pub model: Option<String>,
    pub max_tokens: u64,
    pub system: Vec<String>,
    pub messages: Vec<Message>,
}

/// The generation ceiling sent with every Anthropic request.
pub open spec fn anthropic_max_tokens() -> nat {
    4096
}

/// Copies a message list; the copy's view equals the original's.
pub fn copy_messages(msgs: &Vec<Message>) -> (r: Vec<Message>)
    ensures
        msgs_view(r@) == msgs_view(msgs@),
{
    let mut r: Vec<Message> = Vec::new();
    let n: usize = msgs.len();
    let mut i: usize = 0;
    while i < n
        invariant
            i <= n,
            n == msgs.len(),
            r@.len() == i,
            msgs_view(r@) == msgs_view(msgs@).take(i as int),
        decreases n - i,
    {
        let ghost prev = r@;
        let m = &msgs[i];
        r.push(Message { role: m.role.clone(), content: m.content.clone() });
        proof {
            assert(r@[i as int].role@ == msgs@[i as int].role@);
            assert(r@[i as int].content@ == msgs@[i as int].content@);
            assert(forall|j: int| 0 <= j < i ==> r@[j] == prev[j]);
            assert(msgs_view(r@) =~~= msgs_view(msgs@).take(i + 1 as int));
        }
        i = i + 1;
    }
    proof {
        assert(msgs_view(msgs@).take(n as int) =~= msgs_view(msgs@));
    }
    r
}

/// Copies an optional string; the copy's view equals the original's.
pub fn copy_opt_string(s: &Option<String>) -> (r: Option<String>)
    ensures
        opt_str_view(r) == opt_str_view(*s),
{
    match s {
        Some(t) => Some(t.clone()),
        None => None,
    }
}

impl OpenAiPrompt {
    /// Projects a prompt onto the OpenAI-compatible request shape: messages
    /// verbatim, an absent streaming flag read as disabled.
    pub fn from_prompt(p: &Prompt) -> (r: Self)
        ensures
            opt_str_view(r.model) == opt_str_view(p.model),
            r.stream == (p.stream matches Some(true)),
            msgs_view(r.messages@) == msgs_view(p.messages@),
    {
        OpenAiPrompt {
            model: copy_opt_string(&p.model),
            stream: match p.stream {
                Some(b) => b,
                None => false,
            },
            messages: copy_messages(&p.messages),
        }
    }
}

impl AnthropicPrompt {
    /// Projects a prompt onto the Anthropic request shape, partitioning the
    /// conversation into system texts and turn-taking messages with the
    /// relative order inside each part preserved.
    pub fn from_prompt(p: &Prompt) -> (r: Self)
        ensures
            opt_str_view(r.model) == opt_str_view(p.model),
            r.max_tokens == anthropic_max_tokens(),
            strs_view(r.system@) == system_texts(msgs_view(p.messages@)),
            msgs_view(r.messages@) == chat_pairs(msgs_view(p.messages@)),
    {
        let (system, messages) = partition_messages(&p.messages);
        AnthropicPrompt { model: copy_opt_string(&p.model), max_tokens: 4096, system, messages }
    }
}

/// The serialized form of the OpenAI-compatible request.
pub open spec fn openai_body(
    model: Option<Seq<char>>,
    pairs: Seq<(Seq<char>, Seq<char>)>,
    stream: bool,
) -> Seq<char> {
    "{\"model\":"@ + json_opt_string(model) + ",\"messages\":"@ + msgs_array(pairs)
        + ",\"stream\":"@ + (if stream {
        "true"@
    } else {
        "false"@
    }) + "}"@
}

/// The serialized form of one system content block.
pub open spec fn sys_block(text: Seq<char>) -> Seq<char> {
    "{\"type\":\"text\",\"text\":"@ + json_string(text) + "}"@
}

/// The serialized forms of a list of system content blocks.
pub open spec fn sys_blocks(texts: Seq<Seq<char>>) -> Seq<Seq<char>> {
    texts.map_values(|t: Seq<char>| sys_block(t))
}

/// The serialized system array, brackets included.
pub open spec fn sys_array(texts: Seq<Seq<char>>) -> Seq<char> {
    seq!['['] + join_comma(sys_blocks(texts)) + seq![']']
}

/// The serialized form of the Anthropic request.
pub open spec fn anthropic_body(
    model: Option<Seq<char>>,
    max_tokens: nat,
    sys: Seq<Seq<char>>,
    pairs: Seq<(Seq<char>, Seq<char>)>,
) -> Seq<char> {
    "{\"model\":"@ + json_opt_string(model) + ",\"max_tokens\":"@ + dec_digits(max_tokens)
        + ",\"system\":"@ + sys_array(sys) + ",\"messages\":"@ + msgs_array(pairs) + "}"@
}

/// Appends the system blocks as a JSON array, brackets included.
fn append_sys_blocks(out: &mut String, texts: &Vec<String>)
    ensures
        final(out)@ == old(out)@ + sys_array(strs_view(texts@)),
{
    let ghost items = sys_blocks(strs_view(texts@));
    push_char(out, '[');
    let n: usize = texts.len();
    let mut i: usize = 0;
    while i < n
        invariant
            i <= n,
            n == texts.len(),
            items == sys_blocks(strs_view(texts@)),
            items.len() == n,
            out@ == old(out)@.push('[') + join_comma(items.take(i as int)),
        decreases n - i,
    {
        if i > 0 {
            push_char(out, ',');
        }
        out.append("{\"type\":\"text\",\"text\":");
        append_json_string(out, texts[i].as_str());
        out.append("}");
        proof {
            let t1 = items.take(i + 1 as int);
            assert(t1.drop_last() =~= items.take(i as int));
            assert(t1.last() == items[i as int]);
            assert(items[i as int] == sys_block(texts@[i as int]@));
            if i == 0 {
                assert(join_comma(t1) == t1[0]);
            } else {
                let prev = join_comma(items.take(i as int));
                assert(join_comma(t1) == prev + seq![','] + items[i as int]);
            }
            assert(out@ =~= old(out)@.push('[') + join_comma(t1));
        }
        i = i + 1;
    }
    push_char(out, ']');
    proof {
        assert(items.take(n as int) =~= items);
        assert(out@ =~= old(out)@ + sys_array(strs_view(texts@)));
    }
}

/// Serializes an OpenAI-compatible request to its exact wire text.
pub fn openai_request_json(p: &OpenAiPrompt) -> (s: String)
    ensures
        s@ == openai_body(opt_str_view(p.model), msgs_view(p.messages@), p.stream),
{
    let mut out = String::new();
    out.append("{\"model\":");
    append_json_opt_string(&mut out, &p.model);
    out.append(",\"messages\":");
    append_msgs_array(&mut out, &p.messages);
    out.append(",\"stream\":");
    if p.stream {
        out.append("true");
    } else {
        out.append("false");
    }
    out.append("}");
    proof {
        assert(out@ =~= openai_body(opt_str_view(p.model), msgs_view(p.messages@), p.stream));
    }
    out
}

/// Serializes an Anthropic request to its exact wire text.
pub fn anthropic_request_json(p: &AnthropicPrompt) -> (s: String)
    ensures
        s@ == anthropic_body(
            opt_str_view(p.model),
            p.max_tokens as nat,
            strs_view(p.system@),
            msgs_view(p.messages@),
        ),
{
    let mut out = String::new();
    out.append("{\"model\":");
    append_json_opt_string(&mut out, &p.model);
    out.append(",\"max_tokens\":");
    append_dec(&mut out, p.max_tokens);
    out.append(",\"system\":");
    append_sys_blocks(&mut out, &p.system);
    out.append(",\"messages\":");
    append_msgs_array(&mut out, &p.messages);
    out.append("}");
    proof {
        assert(out@ =~= anthropic_body(
            opt_str_view(p.model),
            p.max_tokens as nat,
            strs_view(p.system@),
            msgs_view(p.messages@),
        ));
    }
    out
}

} // verus!
