//! The Bedrock/Nova adapter: the request body sent to the model-invocation
//! operation, its exact serialized form, and the response envelope.
//!
//! This dialect separates system messages from turn-taking messages at the
//! top level of the request body, each part keeping its original order.

use vstd::prelude::*;

use crate::json::{append_dec, append_json_string, dec_digits, join_comma, json_string, push_char};
use crate::model::{LlmError, Message, Prompt};
use crate::wire::{chat_pairs, msgs_view, system_texts};

verus! {

/// The generation bounds block of a Bedrock request.
pub struct InferenceConfig {
    pub max_new_tokens: u64,
}

/// One content block: a piece of text.
pub struct NovaMessageContent {
    pub text: String,
}

/// One turn-taking message: a role and a list of content blocks.
pub struct NovaMessage {
    pub role: String,
    pub content: Vec<NovaMessageContent>,
}

/// The Bedrock request body: generation bounds, the system messages' texts,
/// and the remaining messages.
pub struct NovaLiteRequest {
    pub inference_config: InferenceConfig,
    pub system: Vec<NovaMessageContent>,
    pub messages: Vec<NovaMessage>,
}

/// The message field of a Bedrock response.
pub struct NovaLiteOutput {
    pub message: NovaMessage,
}

/// The Bedrock response envelope.
pub struct NovaLiteResponse {
    pub output: NovaLiteOutput,
}

/// The generation ceiling sent with every Bedrock request.
pub open spec fn nova_max_new_tokens() -> nat {
    1000
}

/// The texts of a list of content blocks.
pub open spec fn nova_texts_view(cs: Seq<NovaMessageContent>) -> Seq<Seq<char>> {
    cs.map_values(|c: NovaMessageContent| c.text@)
}

/// The serialized form of one content block.
pub open spec fn text_obj(t: Seq<char>) -> Seq<char> {
    "{\"text\":"@ + json_string(t) + "}"@
}

/// The serialized forms of a list of content blocks.
pub open spec fn text_objs(ts: Seq<Seq<char>>) -> Seq<Seq<char>> {
    ts.map_values(|t: Seq<char>| text_obj(t))
}

/// The serialized content-block array, brackets included.
pub open spec fn texts_array(ts: Seq<Seq<char>>) -> Seq<char> {
    seq!['['] + join_comma(text_objs(ts)) + seq![']']
}

/// The serialized form of one turn-taking message.
pub open spec fn nova_msg_obj(role: Seq<char>, texts: Seq<Seq<char>>) -> Seq<char> {
    "{\"role\":"@ + json_string(role) + ",\"content\":"@ + texts_array(texts) + "}"@
}

/// The serialized forms of the request's messages.
pub open spec fn nova_msg_objs(ms: Seq<NovaMessage>) -> Seq<Seq<char>> {
    ms.map_values(|m: NovaMessage| nova_msg_obj(m.role@, nova_texts_view(m.content@)))
}

/// The serialized message array of a request, brackets included.
pub open spec fn nova_msgs_array(ms: Seq<NovaMessage>) -> Seq<char> {
    seq!['['] + join_comma(nova_msg_objs(ms)) + seq![']']
}

/// The serialized form of a whole request body.
pub open spec fn nova_body(r: NovaLiteRequest) -> Seq<char> {
    "{\"inferenceConfig\":{\"max_new_tokens\":"@ + dec_digits(
        r.inference_config.max_new_tokens as nat,
    ) + "},\"system\":"@ + texts_array(nova_texts_view(r.system@)) + ",\"messages\":"@
        + nova_msgs_array(r.messages@) + "}"@
}

/// The serialized forms of turn-taking messages given by their views, each
/// carrying its content as a single block.
pub open spec fn chat_msg_objs(pairs: Seq<(Seq<char>, Seq<char>)>) -> Seq<Seq<char>> {
    pairs.map_values(|p: (Seq<char>, Seq<char>)| nova_msg_obj(p.0, seq![p.1]))
}

/// The request body a conversation is serialized to: the fixed generation
/// ceiling, the system texts in order, and the remaining messages in order.
pub open spec fn nova_body_from(pairs: Seq<(Seq<char>, Seq<char>)>) -> Seq<char> {
    "{\"inferenceConfig\":{\"max_new_tokens\":"@ + dec_digits(nova_max_new_tokens())
        + "},\"system\":"@ + texts_array(system_texts(pairs)) + ",\"messages\":"@ + (seq!['[']
        + join_comma(chat_msg_objs(chat_pairs(pairs))) + seq![']']) + "}"@
}

impl NovaLiteRequest {
    /// Builds the request body for a prompt: messages are partitioned by
    /// role into system texts and turn-taking messages, the relative order
    /// within each part preserved, and each turn-taking message carries its
    /// content as a single block.
    pub fn new(prompt: &Prompt) -> (r: Self)
        ensures
            r.inference_config.max_new_tokens == nova_max_new_tokens(),
            nova_texts_view(r.system@) == system_texts(msgs_view(prompt.messages@)),
            r.messages@.len() == chat_pairs(msgs_view(prompt.messages@)).len(),
            forall|j: int|
                0 <= j < r.messages@.len() ==> {
                    let cp = chat_pairs(msgs_view(prompt.messages@));
                    &&& (#[trigger] r.messages@[j]).role@ == cp[j].0
                    &&& r.messages@[j].content@.len() == 1
                    &&& r.messages@[j].content@[0].text@ == cp[j].1
                },
    {
        let ghost all = msgs_view(prompt.messages@);
        let mut system: Vec<NovaMessageContent> = Vec::new();
        let mut messages: Vec<NovaMessage> = Vec::new();
        let n: usize = prompt.messages.len();
        let mut i: usize = 0;
        while i < n
            invariant
                i <= n,
                n == prompt.messages.len(),
                all == msgs_view(prompt.messages@),
                nova_texts_view(system@) == system_texts(all.take(i as int)),
                messages@.len() == chat_pairs(all.take(i as int)).len(),
                forall|j: int|
                    0 <= j < messages@.len() ==> {
                        let cp = chat_pairs(all.take(i as int));
                        &&& (#[trigger] messages@[j]).role@ == cp[j].0
                        &&& messages@[j].content@.len() == 1
                        &&& messages@[j].content@[0].text@ == cp[j].1
                    },
            decreases n - i,
        {
            let m = &prompt.messages[i];
            let ghost prev_sys = system@;
            let ghost prev_msgs = messages@;
            if m.is_system() {
                system.push(NovaMessageContent { text: m.content.clone() });
            } else {
                let mut blocks: Vec<NovaMessageContent> = Vec::new();
                blocks.push(NovaMessageContent { text: m.content.clone() });
                messages.push(NovaMessage { role: m.role.clone(), content: blocks });
            }
            proof {
                let t1 = all.take(i + 1 as int);
                assert(t1.drop_last() =~= all.take(i as int));
                assert(t1.last() == all[i as int]);
                if m.role@ == "system"@ {
                    assert(nova_texts_view(system@) =~= nova_texts_view(prev_sys).push(
                        m.content@,
                    ));
                    assert(chat_pairs(t1) == chat_pairs(all.take(i as int)));
                } else {
                    assert(nova_texts_view(system@) == system_texts(t1));
                    assert(chat_pairs(t1) == chat_pairs(all.take(i as int)).push(all[i as int]));
                    assert(forall|j: int|
                        0 <= j < prev_msgs.len() ==> #[trigger] messages@[j] == prev_msgs[j]);
                    assert(messages@[prev_msgs.len() as int].role@ == all[i as int].0);
                    assert(messages@[prev_msgs.len() as int].content@[0].text@ == all[i as int].1);
                }
            }
            i = i + 1;
        }
        proof {
            assert(all.take(n as int) =~= all);
        }
        NovaLiteRequest {
            inference_config: InferenceConfig { max_new_tokens: 1000 },
            system,
            messages,
        }
    }
}

/// Appends the serialized content-block array, brackets included.
fn append_texts_array(out: &mut String, cs: &Vec<NovaMessageContent>)
    ensures
        final(out)@ == old(out)@ + texts_array(nova_texts_view(cs@)),
{
    let ghost items = text_objs(nova_texts_view(cs@));
    push_char(out, '[');
    let n: usize = cs.len();
    let mut i: usize = 0;
    while i < n
        invariant
            i <= n,
            n == cs.len(),
            items == text_objs(nova_texts_view(cs@)),
            items.len() == n,
            out@ == old(out)@.push('[') + join_comma(items.take(i as int)),
        decreases n - i,
    {
        if i > 0 {
            push_char(out, ',');
        }
        out.append("{\"text\":");
        append_json_string(out, cs[i].text.as_str());
        out.append("}");
        proof {
            let t1 = items.take(i + 1 as int);
            assert(t1.drop_last() =~= items.take(i as int));
            assert(t1.last() == items[i as int]);
            assert(items[i as int] == text_obj(cs@[i as int].text@));
            if i == 0 {
                assert(join_comma(t1) == t1[0]);
            } else {
                let prev = join_comma(items.take(i as int));
                assert(join_comma(t1) == prev + seq![','] + items[i as int]);
            }
            assert(out@ =~= old(out)@.push('[') + join_comma(t1));
        }
        i = i + 1;
    }
    push_char(out, ']');
    proof {
        assert(items.take(n as int) =~= items);
        assert(out@ =~= old(out)@ + texts_array(nova_texts_view(cs@)));
    }
}

/// Appends one serialized turn-taking message.
fn append_nova_msg(out: &mut String, m: &NovaMessage)
    ensures
        final(out)@ == old(out)@ + nova_msg_obj(m.role@, nova_texts_view(m.content@)),
{
    out.append("{\"role\":");
    append_json_string(out, m.role.as_str());
    out.append(",\"content\":");
    append_texts_array(out, &m.content);
    out.append("}");
    proof {
        assert(out@ =~= old(out)@ + nova_msg_obj(m.role@, nova_texts_view(m.content@)));
    }
}

/// Appends the serialized message array, brackets included.
fn append_nova_msgs(out: &mut String, ms: &Vec<NovaMessage>)
    ensures
        final(out)@ == old(out)@ + nova_msgs_array(ms@),
{
    let ghost items = nova_msg_objs(ms@);
    push_char(out, '[');
    let n: usize = ms.len();
    let mut i: usize = 0;
    while i < n
        invariant
            i <= n,
            n == ms.len(),
            items == nova_msg_objs(ms@),
            items.len() == n,
            out@ == old(out)@.push('[') + join_comma(items.take(i as int)),
        decreases n - i,
    {
        if i > 0 {
            push_char(out, ',');
        }
        append_nova_msg(out, &ms[i]);
        proof {
            let t1 = items.take(i + 1 as int);
            assert(t1.drop_last() =~= items.take(i as int));
            assert(t1.last() == items[i as int]);
            assert(items[i as int] == nova_msg_obj(ms@[i as int].role@, nova_texts_view(
                ms@[i as int].content@,
            )));
            if i == 0 {
                assert(join_comma(t1) == t1[0]);
            } else {
                let prev = join_comma(items.take(i as int));
                assert(join_comma(t1) == prev + seq![','] + items[i as int]);
            }
            assert(out@ =~= old(out)@.push('[') + join_comma(t1));
        }
        i = i + 1;
    }
    push_char(out, ']');
    proof {
        assert(items.take(n as int) =~= items);
        assert(out@ =~= old(out)@ + nova_msgs_array(ms@));
    }
}

/// Serializes a request body to its exact wire text.
pub fn nova_request_json(r: &NovaLiteRequest) -> (s: String)
    ensures
        s@ == nova_body(*r),
{
    let mut out = String::new();
    out.append("{\"inferenceConfig\":{\"max_new_tokens\":");
    append_dec(&mut out, r.inference_config.max_new_tokens);
    out.append("},\"system\":");
    append_texts_array(&mut out, &r.system);
    out.append(",\"messages\":");
    append_nova_msgs(&mut out, &r.messages);
    out.append("}");
    proof {
        assert(out@ =~= nova_body(*r));
    }
    out
}

/// A request built from a prompt serializes to exactly the body that the
/// conversation's partition prescribes.
pub proof fn lemma_nova_body_from(r: NovaLiteRequest, pairs: Seq<(Seq<char>, Seq<char>)>)
    requires
        r.inference_config.max_new_tokens == nova_max_new_tokens(),
        nova_texts_view(r.system@) == system_texts(pairs),
        r.messages@.len() == chat_pairs(pairs).len(),
        forall|j: int|
            0 <= j < r.messages@.len() ==> {
                let cp = chat_pairs(pairs);
                &&& (#[trigger] r.messages@[j]).role@ == cp[j].0
                &&& r.messages@[j].content@.len() == 1
                &&& r.messages@[j].content@[0].text@ == cp[j].1
            },
    ensures
        nova_body(r) == nova_body_from(pairs),
{
    let cp = chat_pairs(pairs);
    assert forall|j: int| 0 <= j < r.messages@.len() implies #[trigger] nova_msg_objs(
        r.messages@,
    )[j] == chat_msg_objs(cp)[j] by {
        assert(nova_texts_view(r.messages@[j].content@) =~= seq![cp[j].1]);
    }
    assert(nova_msg_objs(r.messages@) =~= chat_msg_objs(cp));
    assert(nova_body(r) =~= nova_body_from(pairs));
}

/// The text a Bedrock envelope carries: the first content block of the
/// output message, where a block exists.
pub open spec fn nova_extracted(r: NovaLiteResponse) -> Option<Seq<char>> {
    if r.output.message.content@.len() > 0 {
        Some(r.output.message.content@[0].text@)
    } else {
        None
    }
}

/// Normalizes a Bedrock envelope: the first content block's text becomes the
/// assistant message; an empty block list is a decode error carrying the raw
/// payload.
pub fn normalize_bedrock(r: &NovaLiteResponse, raw: &str) -> (m: Result<Message, LlmError>)
    ensures
        m is Ok <==> nova_extracted(*r) is Some,
        m matches Ok(msg) ==> (msg.role@ == "assistant"@ && nova_extracted(*r) == Some(
            msg.content@,
        )),
        m matches Err(e) ==> (e matches LlmError::DecodeError(b) && b@ == raw@),
{
    if r.output.message.content.len() > 0 {
        Ok(Message::assistant(r.output.message.content[0].text.as_str()))
    } else {
        Err(LlmError::DecodeError(raw.to_owned()))
    }
}

} // verus!
