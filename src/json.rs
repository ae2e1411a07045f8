//! The JSON wire form of messages and requests. Objects are written with
//! their keys in sorted order and no whitespace, as serde_json writes a map.
use crate::message::{Content, ContentBlock, Message, Role};
use vstd::prelude::*;

verus! {

/// The JSON string literal of a text: quoted, with serde_json's escapes.
pub uninterp spec fn json_string_of(s: Seq<char>) -> Seq<char>;

/// Relies on `serde_json::to_string` on a `str`: it yields the JSON string
/// literal of the text. It writes into memory, where no error can arise.
#[verifier::external_body]
fn json_string(text: &str) -> (r: String)
    ensures
        r@ == json_string_of(text@),
{
    match serde_json::to_string(text) {
        Ok(t) => t,
        Err(_) => String::new(),
    }
}

/// The decimal digit character of `d < 10`.
pub open spec fn digit_char(d: nat) -> char {
    (48 + d) as char
}

/// The decimal form of `n`, without sign or leading zeros.
pub open spec fn decimal(n: nat) -> Seq<char>
    decreases n,
{
    if n < 10 {
        seq![digit_char(n)]
    } else {
        decimal(n / 10) + seq![digit_char(n % 10)]
    }
}

pub open spec fn role_json(r: Role) -> Seq<char> {
    match r {
        Role::User => "\"user\""@,
        Role::Assistant => "\"assistant\""@,
    }
}

/// An image block around the JSON literals of its data and media type.
pub open spec fn image_block_frame(data_json: Seq<char>, media_type_json: Seq<char>) -> Seq<char> {
    "{\"source\":{\"data\":"@ + data_json + ",\"media_type\":"@ + media_type_json
        + ",\"type\":\"base64\"},\"type\":\"image\"}"@
}

pub open spec fn block_json(b: ContentBlock) -> Seq<char> {
    match b {
        ContentBlock::Image { media_type, data } => image_block_frame(
            json_string_of(data@),
            json_string_of(media_type@),
        ),
    }
}

/// The blocks' JSON, separated by commas.
pub open spec fn blocks_json(bs: Seq<ContentBlock>) -> Seq<char>
    decreases bs.len(),
{
    if bs.len() == 0 {
        seq![]
    } else if bs.len() == 1 {
        block_json(bs[0])
    } else {
        blocks_json(bs.drop_last()) + seq![','] + block_json(bs.last())
    }
}

pub open spec fn content_json(c: Content) -> Seq<char> {
    match c {
        Content::Text(s) => json_string_of(s@),
        Content::Blocks(bs) => seq!['['] + blocks_json(bs@) + seq![']'],
    }
}

/// A message around the JSON of its content.
pub open spec fn message_frame(content_json: Seq<char>, role: Role) -> Seq<char> {
    "{\"content\":"@ + content_json + ",\"role\":"@ + role_json(role) + seq!['}']
}

/// `{"content":...,"role":...}`
pub open spec fn message_json(m: Message) -> Seq<char> {
    message_frame(content_json(m.content), m.role)
}

/// The messages' JSON, separated by commas.
pub open spec fn messages_json(ms: Seq<Message>) -> Seq<char>
    decreases ms.len(),
{
    if ms.len() == 0 {
        seq![]
    } else if ms.len() == 1 {
        message_json(ms[0])
    } else {
        messages_json(ms.drop_last()) + seq![','] + message_json(ms.last())
    }
}

/// A request around the JSON of its message list's entries and of its
/// model name.
pub open spec fn request_frame(max_tokens: nat, messages_json: Seq<char>, model_json: Seq<char>) -> Seq<char> {
    "{\"max_tokens\":"@ + decimal(max_tokens) + ",\"messages\":["@ + messages_json + "],\"model\":"@
        + model_json + seq!['}']
}

/// `{"max_tokens":...,"messages":[...],"model":...}`
pub open spec fn request_json(model: Seq<char>, max_tokens: nat, ms: Seq<Message>) -> Seq<char> {
    request_frame(max_tokens, messages_json(ms), json_string_of(model))
}

fn digit_str(d: usize) -> (r: &'static str)
    requires
        d < 10,
    ensures
        r@ == seq![digit_char(d as nat)],
{
    proof {
        reveal_strlit("0");
        reveal_strlit("1");
        reveal_strlit("2");
        reveal_strlit("3");
        reveal_strlit("4");
        reveal_strlit("5");
        reveal_strlit("6");
        reveal_strlit("7");
        reveal_strlit("8");
        reveal_strlit("9");
    }
    if d == 0 {
        "0"
    } else if d == 1 {
        "1"
    } else if d == 2 {
        "2"
    } else if d == 3 {
        "3"
    } else if d == 4 {
        "4"
    } else if d == 5 {
        "5"
    } else if d == 6 {
        "6"
    } else if d == 7 {
        "7"
    } else if d == 8 {
        "8"
    } else {
        "9"
    }
}

/// Appends the decimal form of `n` to `out`.
pub fn push_decimal(out: &mut String, n: usize)
    ensures
        final(out)@ == old(out)@ + decimal(n as nat),
    decreases n,
{
    if n >= 10 {
        push_decimal(out, n / 10);
    }
    out.append(digit_str(n % 10));
    proof {
        assert(final(out)@ =~= old(out)@ + decimal(n as nat));
    }
}

/// The image block holding the JSON literals `data_json` and
/// `media_type_json`.
pub fn frame_image_block(data_json: &str, media_type_json: &str) -> (r: String)
    ensures
        r@ == image_block_frame(data_json@, media_type_json@),
{
    let mut out = String::from_str("{\"source\":{\"data\":");
    out.append(data_json);
    out.append(",\"media_type\":");
    out.append(media_type_json);
    out.append(",\"type\":\"base64\"},\"type\":\"image\"}");
    out
}

/// The message of role `role` whose content has the JSON `content_json`.
pub fn frame_message(content_json: &str, role: Role) -> (r: String)
    ensures
        r@ == message_frame(content_json@, role),
{
    let mut out = String::from_str("{\"content\":");
    out.append(content_json);
    out.append(",\"role\":");
    match role {
        Role::User => out.append("\"user\""),
        Role::Assistant => out.append("\"assistant\""),
    }
    out.append("}");
    proof {
        reveal_strlit("}");
        assert(out@ =~= message_frame(content_json@, role));
    }
    out
}

/// The request with token limit `max_tokens`, whose message list holds
/// the entries `messages_json` and whose model has the JSON `model_json`.
pub fn frame_request(max_tokens: usize, messages_json: &str, model_json: &str) -> (r: String)
    ensures
        r@ == request_frame(max_tokens as nat, messages_json@, model_json@),
{
    let mut out = String::from_str("{\"max_tokens\":");
    push_decimal(&mut out, max_tokens);
    out.append(",\"messages\":[");
    out.append(messages_json);
    out.append("],\"model\":");
    out.append(model_json);
    out.append("}");
    proof {
        reveal_strlit("}");
        assert(out@ =~= request_frame(max_tokens as nat, messages_json@, model_json@));
    }
    out
}

fn block_to_json(b: &ContentBlock) -> (r: String)
    ensures
        r@ == block_json(*b),
{
    match b {
        ContentBlock::Image { media_type, data } => {
            let d = json_string(data.as_str());
            let t = json_string(media_type.as_str());
            frame_image_block(d.as_str(), t.as_str())
        },
    }
}

fn content_to_json(c: &Content) -> (r: String)
    ensures
        r@ == content_json(*c),
{
    match c {
        Content::Text(s) => json_string(s.as_str()),
        Content::Blocks(bs) => {
            let mut out = String::from_str("[");
            proof {
                reveal_strlit("[");
            }
            let mut i: usize = 0;
            while i < bs.len()
                invariant
                    0 <= i <= bs@.len(),
                    out@ == seq!['['] + blocks_json(bs@.subrange(0, i as int)),
                decreases bs@.len() - i,
            {
                if i > 0 {
                    out.append(",");
                    proof {
                        reveal_strlit(",");
                    }
                }
                let b = block_to_json(&bs[i]);
                out.append(b.as_str());
                proof {
                    let s = bs@.subrange(0, i + 1);
                    assert(s.drop_last() =~= bs@.subrange(0, i as int));
                    assert(s.last() == bs@[i as int]);
                    if i == 0 {
                        assert(blocks_json(bs@.subrange(0, i as int)) =~= seq![]);
                    }
                    assert(out@ =~= seq!['['] + blocks_json(s));
                }
                i = i + 1;
            }
            out.append("]");
            proof {
                reveal_strlit("]");
                assert(bs@.subrange(0, bs@.len() as int) =~= bs@);
                assert(out@ =~= content_json(*c));
            }
            out
        },
    }
}

/// The JSON text of `m`.
pub fn message_to_json(m: &Message) -> (r: String)
    ensures
        r@ == message_json(*m),
{
    let c = content_to_json(&m.content);
    frame_message(c.as_str(), m.role)
}

/// The JSON body of a request for `model`, with the token limit
/// `max_tokens` and the messages `ms`.
pub fn request_body(model: &str, max_tokens: usize, ms: &[Message]) -> (r: String)
    ensures
        r@ == request_json(model@, max_tokens as nat, ms@),
{
    let mut entries = String::new();
    let mut i: usize = 0;
    while i < ms.len()
        invariant
            0 <= i <= ms@.len(),
            entries@ == messages_json(ms@.subrange(0, i as int)),
        decreases ms@.len() - i,
    {
        if i > 0 {
            entries.append(",");
            proof {
                reveal_strlit(",");
            }
        }
        let m = message_to_json(&ms[i]);
        entries.append(m.as_str());
        proof {
            let s = ms@.subrange(0, i + 1);
            assert(s.drop_last() =~= ms@.subrange(0, i as int));
            assert(s.last() == ms@[i as int]);
            if i == 0 {
                assert(messages_json(ms@.subrange(0, i as int)) =~= seq![]);
            }
            assert(entries@ =~= messages_json(s));
        }
        i = i + 1;
    }
    proof {
        assert(ms@.subrange(0, ms@.len() as int) =~= ms@);
    }
    let model_json = json_string(model);
    frame_request(max_tokens, entries.as_str(), model_json.as_str())
}

} // verus!
