//! Building the outbound completion request: the system prompt followed by
//! the conversation snapshot, and the forced structured-output directive
//! naming the single callable reaction generator.
//!
//! The request body is rendered to JSON text here, by proved code: the
//! rendering of every message list is pinned, character for character, by
//! the spec functions below.

use vstd::prelude::*;

use crate::messages::{Message, MessageView, Role};

verus! {

/// The callable the provider is forced to invoke.
pub const GENERATOR_NAME: &'static str = "reaction_generator";

/// What the callable is for, as told to the provider.
pub const GENERATOR_DESCRIPTION: &'static str =
    "Generate your reaction as character of creature from conversations.";

/// The parameter schema of the reaction generator: the three enumerated
/// string fields and the optional bounded friendliness number.
pub const REACTION_SCHEMA: &'static str = "{\"type\":\"object\",\"properties\":{\"emotion\":{\"type\":\"string\",\"enum\":[\"EMOTION_NEUTRAL\",\"EMOTION_HAPPY\",\"EMOTION_SAD\",\"EMOTION_ANGRY\",\"EMOTION_FEARFUL\",\"EMOTION_DISGUSTED\",\"EMOTION_SURPRISED\"]},\"motion\":{\"type\":\"string\",\"enum\":[\"MOTION_NEUTRAL\",\"MOTION_HAPPY\",\"MOTION_NO\",\"MOTION_JUMP\",\"MOTION_DIE\",\"MOTION_RUN\",\"MOTION_WALK\",\"MOTION_FLYING\",\"MOTION_ATTACK\",\"MOTION_EATING\"]},\"cry\":{\"type\":\"string\",\"enum\":[\"CRY_NONE\",\"CRY_HAPPY\",\"CRY_SAD\",\"CRY_ANGRY\",\"CRY_FEARFUL\",\"CRY_DISGUSTED\",\"CRY_SURPRISED\",\"CRY_SPOILED\",\"CRY_CRY\"]},\"friendliness\":{\"type\":\"number\",\"description\":\"Friendliness of creature that changes slowly by user interaction.\",\"minimum\":-1,\"maximum\":1}},\"required\":[\"emotion\",\"motion\",\"cry\",\"friendliness\"]}";

/// Relies on std's `String::push`: appends one character.
#[verifier::external_body]
fn push_char(out: &mut String, c: char)
    ensures
        final(out)@ == old(out)@.push(c),
{
    out.push(c);
}

/// The lower-case hexadecimal digit of a nibble.
pub open spec fn spec_hex_digit(n: int) -> char {
    if n == 0 {
        '0'
    } else if n == 1 {
        '1'
    } else if n == 2 {
        '2'
    } else if n == 3 {
        '3'
    } else if n == 4 {
        '4'
    } else if n == 5 {
        '5'
    } else if n == 6 {
        '6'
    } else if n == 7 {
        '7'
    } else if n == 8 {
        '8'
    } else if n == 9 {
        '9'
    } else if n == 10 {
        'a'
    } else if n == 11 {
        'b'
    } else if n == 12 {
        'c'
    } else if n == 13 {
        'd'
    } else if n == 14 {
        'e'
    } else {
        'f'
    }
}

/// How one character is written inside a JSON string literal: quote,
/// backslash and the control characters are escaped, everything else passes
/// through.
pub open spec fn spec_escape_char(c: char) -> Seq<char> {
    if c == '"' {
        seq!['\\', '"']
    } else if c == '\\' {
        seq!['\\', '\\']
    } else if c == '\n' {
        seq!['\\', 'n']
    } else if c == '\r' {
        seq!['\\', 'r']
    } else if c == '\t' {
        seq!['\\', 't']
    } else if (c as int) < 0x20 {
        seq!['\\', 'u', '0', '0', spec_hex_digit((c as int) / 16), spec_hex_digit((c as int) % 16)]
    } else {
        seq![c]
    }
}

/// A character sequence written inside a JSON string literal.
pub open spec fn spec_escape(s: Seq<char>) -> Seq<char>
    decreases s.len(),
{
    if s.len() == 0 {
        Seq::empty()
    } else {
        spec_escape(s.drop_last()) + spec_escape_char(s.last())
    }
}

/// Appends `s` to `out`, escaped for a JSON string literal.
fn escape_into(out: &mut String, s: &str)
    ensures
        final(out)@ == old(out)@ + spec_escape(s@),
{
    let n = s.unicode_len();
    proof {
        assert(s@.subrange(0, 0) =~= Seq::<char>::empty());
        assert(old(out)@ + spec_escape(s@.subrange(0, 0)) =~= old(out)@);
    }
    for i in 0..n
        invariant
            n == s@.len(),
            out@ == old(out)@ + spec_escape(s@.subrange(0, i as int)),
    {
        let c = s.get_char(i);
        if c == '"' {
            out.append("\\\"");
            proof {
                reveal_strlit("\\\"");
            }
        } else if c == '\\' {
            out.append("\\\\");
            proof {
                reveal_strlit("\\\\");
            }
        } else if c == '\n' {
            out.append("\\n");
            proof {
                reveal_strlit("\\n");
            }
        } else if c == '\r' {
            out.append("\\r");
            proof {
                reveal_strlit("\\r");
            }
        } else if c == '\t' {
            out.append("\\t");
            proof {
                reveal_strlit("\\t");
            }
        } else if (c as u32) < 0x20 {
            out.append("\\u00");
            proof {
                reveal_strlit("\\u00");
            }
            let code: u32 = c as u32;
            push_char(out, hex_digit((code / 16) as u8));
            push_char(out, hex_digit((code % 16) as u8));
        } else {
            push_char(out, c);
        }
        proof {
            let t = s@.subrange(0, i + 1);
            assert(t.drop_last() =~= s@.subrange(0, i as int));
            assert(t.last() == s@[i as int]);
            assert(out@ =~= old(out)@ + spec_escape(t));
        }
    }
    proof {
        assert(s@.subrange(0, n as int) =~= s@);
    }
}

/// Returns the lower-case hexadecimal digit of a nibble.
fn hex_digit(n: u8) -> (r: char)
    requires
        n < 16,
    ensures
        r == spec_hex_digit(n as int),
{
    match n {
        0 => '0',
        1 => '1',
        2 => '2',
        3 => '3',
        4 => '4',
        5 => '5',
        6 => '6',
        7 => '7',
        8 => '8',
        9 => '9',
        10 => 'a',
        11 => 'b',
        12 => 'c',
        13 => 'd',
        14 => 'e',
        _ => 'f',
    }
}

/// How one message is rendered: the role always, then each optional part
/// that is present, in a fixed member order.
pub open spec fn spec_render_message(m: MessageView) -> Seq<char> {
    "{\"role\":\""@ + m.role.spec_wire_name() + "\""@ + (match m.content {
        Some(c) => ",\"content\":\""@ + spec_escape(c) + "\""@,
        None => Seq::<char>::empty(),
    }) + (match m.name {
        Some(n) => ",\"name\":\""@ + spec_escape(n) + "\""@,
        None => Seq::<char>::empty(),
    }) + (match m.function_call {
        Some(f) => ",\"function_call\":{\"name\":\""@ + spec_escape(f.name)
            + "\",\"arguments\":\""@ + spec_escape(f.arguments) + "\"}"@,
        None => Seq::<char>::empty(),
    }) + "}"@
}

/// The comma-separated rendering of a message list's elements.
pub open spec fn spec_render_list(ms: Seq<MessageView>) -> Seq<char>
    decreases ms.len(),
{
    if ms.len() == 0 {
        Seq::empty()
    } else if ms.len() == 1 {
        spec_render_message(ms[0])
    } else {
        spec_render_list(ms.drop_last()) + ","@ + spec_render_message(ms.last())
    }
}

/// The rendering of a message list as a JSON array.
pub open spec fn spec_render_messages(ms: Seq<MessageView>) -> Seq<char> {
    "["@ + spec_render_list(ms) + "]"@
}

/// The views of a message list.
pub open spec fn message_views(ms: Seq<Message>) -> Seq<MessageView> {
    Seq::new(ms.len(), |i: int| ms[i]@)
}

/// The whole request body: the model, the rendered message list, the single
/// callable with its parameter schema, and the directive forcing its
/// invocation.
pub open spec fn spec_request_body(model: Seq<char>, ms: Seq<MessageView>) -> Seq<char> {
    "{\"model\":\""@ + spec_escape(model) + "\",\"messages\":"@ + spec_render_messages(ms)
        + ",\"functions\":[{\"name\":\""@ + GENERATOR_NAME@ + "\",\"description\":\""@
        + GENERATOR_DESCRIPTION@ + "\",\"parameters\":"@ + REACTION_SCHEMA@
        + "}],\"function_call\":{\"name\":\""@ + GENERATOR_NAME@ + "\"}}"@
}

/// Appends the rendering of one message.
#[verifier::rlimit(50)]
fn render_message_into(out: &mut String, m: &Message)
    ensures
        final(out)@ == old(out)@ + spec_render_message(m@),
{
    let ghost base = old(out)@;
    out.append("{\"role\":\"");
    out.append(m.role.wire_name());
    out.append("\"");
    let ghost acc1 = base + "{\"role\":\""@ + m@.role.spec_wire_name() + "\""@;
    proof {
        assert(out@ =~= acc1);
    }
    match &m.content {
        Some(c) => {
            out.append(",\"content\":\"");
            escape_into(out, c.as_str());
            out.append("\"");
        },
        None => {},
    }
    let ghost acc2 = acc1 + (match m@.content {
        Some(c) => ",\"content\":\""@ + spec_escape(c) + "\""@,
        None => Seq::<char>::empty(),
    });
    proof {
        assert(out@ =~= acc2);
    }
    match &m.name {
        Some(n) => {
            out.append(",\"name\":\"");
            escape_into(out, n.as_str());
            out.append("\"");
        },
        None => {},
    }
    let ghost acc3 = acc2 + (match m@.name {
        Some(n) => ",\"name\":\""@ + spec_escape(n) + "\""@,
        None => Seq::<char>::empty(),
    });
    proof {
        assert(out@ =~= acc3);
    }
    match &m.function_call {
        Some(f) => {
            out.append(",\"function_call\":{\"name\":\"");
            escape_into(out, f.name.as_str());
            out.append("\",\"arguments\":\"");
            escape_into(out, f.arguments.as_str());
            out.append("\"}");
        },
        None => {},
    }
    let ghost acc4 = acc3 + (match m@.function_call {
        Some(f) => ",\"function_call\":{\"name\":\""@ + spec_escape(f.name)
            + "\",\"arguments\":\""@ + spec_escape(f.arguments) + "\"}"@,
        None => Seq::<char>::empty(),
    });
    proof {
        assert(out@ =~= acc4);
    }
    out.append("}");
    proof {
        assert(out@ =~= acc4 + "}"@);
        assert(acc4 + "}"@ =~= base + spec_render_message(m@));
    }
}

/// Appends the rendering of a message list as a JSON array.
fn render_messages_into(out: &mut String, ms: &Vec<Message>)
    ensures
        final(out)@ == old(out)@ + spec_render_messages(message_views(ms@)),
{
    out.append("[");
    let n = ms.len();
    proof {
        assert(message_views(ms@).subrange(0, 0) =~= Seq::<MessageView>::empty());
        assert(out@ =~= old(out)@ + "["@ + spec_render_list(
            message_views(ms@).subrange(0, 0),
        ));
    }
    for i in 0..n
        invariant
            n == ms@.len(),
            out@ == old(out)@ + "["@ + spec_render_list(message_views(ms@).subrange(0, i as int)),
    {
        if i > 0 {
            out.append(",");
        }
        render_message_into(out, &ms[i]);
        proof {
            let vs = message_views(ms@);
            let t = vs.subrange(0, i + 1);
            assert(t.drop_last() =~= vs.subrange(0, i as int));
            assert(t.last() == vs[i as int]);
            if i == 0 {
                assert(t.len() == 1);
                assert(t[0] == vs[0]);
                assert(spec_render_list(t) == spec_render_message(vs[0]));
            }
            assert(out@ =~= old(out)@ + "["@ + spec_render_list(t));
        }
    }
    out.append("]");
    proof {
        assert(message_views(ms@).subrange(0, n as int) =~= message_views(ms@));
        assert(out@ =~= old(out)@ + spec_render_messages(message_views(ms@)));
    }
}

/// Renders the whole request body for a model and a message list.
pub fn build_request_body(model: &str, ms: &Vec<Message>) -> (r: String)
    ensures
        r@ == spec_request_body(model@, message_views(ms@)),
{
    let mut out = String::new();
    out.append("{\"model\":\"");
    escape_into(&mut out, model);
    out.append("\",\"messages\":");
    render_messages_into(&mut out, ms);
    out.append(",\"functions\":[{\"name\":\"");
    out.append(GENERATOR_NAME);
    out.append("\",\"description\":\"");
    out.append(GENERATOR_DESCRIPTION);
    out.append("\",\"parameters\":");
    out.append(REACTION_SCHEMA);
    out.append("}],\"function_call\":{\"name\":\"");
    out.append(GENERATOR_NAME);
    out.append("\"}}");
    proof {
        assert(out@ =~= spec_request_body(model@, message_views(ms@)));
    }
    out
}

/// The outbound message list: the system prompt first, then the whole
/// conversation snapshot in order.
pub fn build_messages(prompt: String, context: Vec<Message>) -> (r: Vec<Message>)
    ensures
        r@.len() == context@.len() + 1,
        r@[0]@ == (MessageView {
            role: Role::System,
            content: Some(prompt@),
            name: None,
            function_call: None,
        }),
        forall|i: int| 0 <= i < context@.len() ==> r@[i + 1] == context@[i],
{
    let mut messages: Vec<Message> = Vec::new();
    messages.push(Message::text(Role::System, prompt));
    let n = context.len();
    let mut context = context;
    let ghost orig = context@;
    for i in 0..n
        invariant
            n == orig.len(),
            context@ =~= orig.subrange(i as int, n as int),
            messages@.len() == i + 1,
            messages@[0]@ == (MessageView {
                role: Role::System,
                content: Some(prompt@),
                name: None,
                function_call: None,
            }),
            forall|j: int| 0 <= j < i ==> messages@[j + 1] == orig[j],
    {
        let m = context.remove(0);
        messages.push(m);
    }
    messages
}

} // verus!
