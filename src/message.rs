//! Chat messages: a role and either plain text or a list of content blocks.
use vstd::prelude::*;

verus! {

/// Who a message is from.
#[derive(Clone, Copy, Debug, PartialEq, Eq, Structural)]
pub enum Role {
    User,
    Assistant,
}

/// A typed unit of structured message content.
#[derive(Clone, Debug, PartialEq, Eq)]
pub enum ContentBlock {
    /// An image embedded as base64 text of the given media type.
    Image { media_type: String, data: String },
}

/// What a message carries.
#[derive(Clone, Debug, PartialEq, Eq)]
pub enum Content {
    Text(String),
    Blocks(Vec<ContentBlock>),
}

/// One turn of a chat exchange.
#[derive(Clone, Debug, PartialEq, Eq)]
pub struct Message {
    pub role: Role,
    pub content: Content,
}

/// `m` is a user message whose content is the text `text`.
pub open spec fn is_user_text(m: Message, text: Seq<char>) -> bool {
    &&& m.role == Role::User
    &&& m.content matches Content::Text(s)
    &&& s@ == text
}

/// `m` is a user message whose content is one image block with the given
/// base64 data and media type.
pub open spec fn is_user_image(m: Message, data: Seq<char>, media_type: Seq<char>) -> bool {
    &&& m.role == Role::User
    &&& m.content matches Content::Blocks(blocks)
    &&& blocks@.len() == 1
    &&& blocks@[0] matches ContentBlock::Image { media_type: mt, data: d }
    &&& mt@ == media_type
    &&& d@ == data
}

fn to_owned_string(s: &str) -> (r: String)
    ensures
        r@ == s@,
{
    String::from_str(s)
}

/// The message list of a single user message holding `content` as text.
pub fn build_text_message(content: &str) -> (r: Vec<Message>)
    ensures
        r@.len() == 1,
        is_user_text(r@[0], content@),
{
    let m = Message { role: Role::User, content: Content::Text(to_owned_string(content)) };
    let mut r: Vec<Message> = Vec::new();
    r.push(m);
    r
}

/// The message list of a single user message whose content is one image
/// block with base64 `data` of type `media_type`.
pub fn build_vision_message(data: &str, media_type: &str) -> (r: Vec<Message>)
    ensures
        r@.len() == 1,
        is_user_image(r@[0], data@, media_type@),
{
    let block = ContentBlock::Image {
        media_type: to_owned_string(media_type),
        data: to_owned_string(data),
    };
    let mut blocks: Vec<ContentBlock> = Vec::new();
    blocks.push(block);
    let m = Message { role: Role::User, content: Content::Blocks(blocks) };
    let mut r: Vec<Message> = Vec::new();
    r.push(m);
    r
}

} // verus!
