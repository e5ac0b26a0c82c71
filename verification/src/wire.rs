//! Shared building blocks of the dialect adapters: the view of a message
//! list, the partition of a conversation by role, and the serialized form of
//! a message array.

use vstd::prelude::*;

use crate::json::{append_json_string, join_comma, json_string};
use crate::model::Message;

verus! {

/// The view of one message: its role and content as character sequences.
pub open spec fn msg_view(m: Message) -> (Seq<char>, Seq<char>) {
    (m.role@, m.content@)
}

/// The view of a message list.
pub open spec fn msgs_view(msgs: Seq<Message>) -> Seq<(Seq<char>, Seq<char>)> {
    msgs.map_values(|m: Message| msg_view(m))
}

/// The view of a list of plain strings.
pub open spec fn strs_view(items: Seq<String>) -> Seq<Seq<char>> {
    items.map_values(|s: String| s@)
}

/// The contents of the system-role messages, in their original order.
pub open spec fn system_texts(msgs: Seq<(Seq<char>, Seq<char>)>) -> Seq<Seq<char>>
    decreases msgs.len(),
{
    if msgs.len() == 0 {
        Seq::<Seq<char>>::empty()
    } else {
        let rest = system_texts(msgs.drop_last());
        if msgs.last().0 == "system"@ {
            rest.push(msgs.last().1)
        } else {
            rest
        }
    }
}

/// The non-system messages, in their original order.
pub open spec fn chat_pairs(msgs: Seq<(Seq<char>, Seq<char>)>) -> Seq<(Seq<char>, Seq<char>)>
    decreases msgs.len(),
{
    if msgs.len() == 0 {
        Seq::<(Seq<char>, Seq<char>)>::empty()
    } else {
        let rest = chat_pairs(msgs.drop_last());
        if msgs.last().0 == "system"@ {
            rest
        } else {
            rest.push(msgs.last())
        }
    }
}

/// The serialized form of one turn-taking message object.
pub open spec fn msg_obj(role: Seq<char>, content: Seq<char>) -> Seq<char> {
    "{\"role\":"@ + json_string(role) + ",\"content\":"@ + json_string(content) + "}"@
}

/// The serialized forms of a list of messages, given by their views.
pub open spec fn msg_objs(pairs: Seq<(Seq<char>, Seq<char>)>) -> Seq<Seq<char>> {
    pairs.map_values(|p: (Seq<char>, Seq<char>)| msg_obj(p.0, p.1))
}

/// The serialized message array, brackets included.
pub open spec fn msgs_array(pairs: Seq<(Seq<char>, Seq<char>)>) -> Seq<char> {
    seq!['['] + join_comma(msg_objs(pairs)) + seq![']']
}

/// Splits a conversation into the system messages' contents and the
/// remaining messages, preserving the relative order within each part.
pub fn partition_messages(msgs: &Vec<Message>) -> (r: (Vec<String>, Vec<Message>))
    ensures
        strs_view(r.0@) == system_texts(msgs_view(msgs@)),
        msgs_view(r.1@) == chat_pairs(msgs_view(msgs@)),
{
    let ghost all = msgs_view(msgs@);
    let mut sys: Vec<String> = Vec::new();
    let mut rest: Vec<Message> = Vec::new();
    let n: usize = msgs.len();
    let mut i: usize = 0;
    while i < n
        invariant
            i <= n,
            n == msgs.len(),
            all == msgs_view(msgs@),
            strs_view(sys@) == system_texts(all.take(i as int)),
            msgs_view(rest@) == chat_pairs(all.take(i as int)),
        decreases n - i,
    {
        let m = &msgs[i];
        let ghost prev_sys = sys@;
        let ghost prev_rest = rest@;
        if m.is_system() {
            sys.push(m.content.clone());
        } else {
            rest.push(Message { role: m.role.clone(), content: m.content.clone() });
        }
        proof {
            let t1 = all.take(i + 1 as int);
            assert(t1.drop_last() =~= all.take(i as int));
            assert(t1.last() == all[i as int]);
            if m.role@ == "system"@ {
                assert(strs_view(sys@) =~= strs_view(prev_sys).push(m.content@));
                assert(msgs_view(rest@) == chat_pairs(t1));
            } else {
                assert(msgs_view(rest@) =~= msgs_view(prev_rest).push((m.role@, m.content@)));
                assert(strs_view(sys@) == system_texts(t1));
            }
        }
        i = i + 1;
    }
    proof {
        assert(all.take(n as int) =~= all);
    }
    (sys, rest)
}

/// Appends one serialized message object.
fn append_msg_obj(out: &mut String, m: &Message)
    ensures
        final(out)@ == old(out)@ + msg_obj(m.role@, m.content@),
{
    out.append("{\"role\":");
    append_json_string(out, m.role.as_str());
    out.append(",\"content\":");
    append_json_string(out, m.content.as_str());
    out.append("}");
    proof {
        assert(out@ =~= old(out)@ + msg_obj(m.role@, m.content@));
    }
}

/// Appends the serialized message array, brackets included.
pub fn append_msgs_array(out: &mut String, msgs: &Vec<Message>)
    ensures
        final(out)@ == old(out)@ + msgs_array(msgs_view(msgs@)),
{
    let ghost items = msg_objs(msgs_view(msgs@));
    crate::json::push_char(out, '[');
    let n: usize = msgs.len();
    let mut i: usize = 0;
    while i < n
        invariant
            i <= n,
            n == msgs.len(),
            items == msg_objs(msgs_view(msgs@)),
            items.len() == n,
            out@ == old(out)@.push('[') + join_comma(items.take(i as int)),
        decreases n - i,
    {
        if i > 0 {
            crate::json::push_char(out, ',');
        }
        append_msg_obj(out, &msgs[i]);
        proof {
            let t1 = items.take(i + 1 as int);
            assert(t1.drop_last() =~= items.take(i as int));
            assert(t1.last() == items[i as int]);
            assert(items[i as int] == msg_obj(msgs@[i as int].role@, msgs@[i as int].content@));
            if i == 0 {
                assert(join_comma(t1) == t1[0]);
                assert(out@ =~= old(out)@.push('[') + join_comma(t1));
            } else {
                assert(join_comma(t1) == join_comma(items.take(i as int)) + seq![','] + items[i as int]);
                assert(out@ =~= old(out)@.push('[') + join_comma(t1));
            }
        }
        i = i + 1;
    }
    crate::json::push_char(out, ']');
    proof {
        assert(items.take(n as int) =~= items);
        assert(out@ =~= old(out)@ + msgs_array(msgs_view(msgs@)));
    }
}

} // verus!
