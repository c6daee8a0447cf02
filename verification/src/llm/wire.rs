//! How conversation messages are laid out for the OpenAI and Anthropic chat
//! APIs: role names, image addresses, and Anthropic's separate system prompt.
use vstd::prelude::*;
use crate::llm::provider::{content_text, ImageSource, Message, Role};
use crate::text::push_str;

verus! {

/// The OpenAI role name of a role (OpenAI has no tool role: tool output is the
/// assistant's).
pub open spec fn openai_role_name(role: Role) -> Seq<char> {
    match role {
        Role::System => "system"@,
        Role::User => "user"@,
        Role::Assistant => "assistant"@,
        Role::Tool => "assistant"@,
    }
}

/// The OpenAI role name of a role.
pub fn openai_role(role: Role) -> (r: &'static str)
    ensures
        r@ == openai_role_name(role),
{
    match role {
        Role::System => "system",
        Role::User => "user",
        Role::Assistant => "assistant",
        Role::Tool => "assistant",
    }
}

/// The address of an image: its URL, or a `data:` URL holding its base64 data.
pub open spec fn image_address(src: ImageSource) -> Seq<char> {
    match src {
        ImageSource::Url(u) => u@,
        ImageSource::Base64 { media_type, data } => "data:"@ + media_type@ + ";base64,"@ + data@,
    }
}

/// The address of an image.
pub fn image_url_text(src: &ImageSource) -> (r: String)
    ensures
        r@ == image_address(*src),
{
    match src {
        ImageSource::Url(u) => u.clone(),
        ImageSource::Base64 { media_type, data } => {
            let mut s = "data:".to_owned();
            push_str(&mut s, media_type.as_str());
            push_str(&mut s, ";base64,");
            push_str(&mut s, data.as_str());
            s
        },
    }
}

/// The Anthropic role name of a non-system role (tool output is sent as the user's).
pub open spec fn anthropic_role_name(role: Role) -> Seq<char> {
    match role {
        Role::Assistant => "assistant"@,
        _ => "user"@,
    }
}

/// A conversation laid out for Anthropic: the system prompt apart, and the other
/// messages as (role name, index of the message whose content is sent).
#[derive(Debug)]
pub struct AnthropicConversation {
    pub system: Option<String>,
    pub turns: Vec<(String, usize)>,
}

/// The system prompt and the turns after reading the first `n` messages: system
/// messages are joined by line feeds, the others become turns in order.
pub open spec fn anthropic_upto(ms: Seq<Message>, n: nat) -> (Option<Seq<char>>, Seq<(Seq<char>, usize)>)
    decreases n,
{
    if n == 0 || n > ms.len() {
        (None, Seq::empty())
    } else {
        let (system, turns) = anthropic_upto(ms, (n - 1) as nat);
        let m = ms[n - 1];
        if m.role == Role::System {
            let text = content_text(m.content);
            (
                Some(
                    match system {
                        Some(s) => s + seq!['\n'] + text,
                        None => text,
                    },
                ),
                turns,
            )
        } else {
            (system, turns.push((anthropic_role_name(m.role), (n - 1) as usize)))
        }
    }
}

/// The turns as values.
pub open spec fn turns_view(ts: Seq<(String, usize)>) -> Seq<(Seq<char>, usize)> {
    ts.map_values(|t: (String, usize)| (t.0@, t.1))
}

/// Lays out a conversation for Anthropic.
pub fn anthropic_conversation(messages: &Vec<Message>) -> (r: AnthropicConversation)
    ensures
        ({
            let (system, turns) = anthropic_upto(messages@, messages@.len());
            &&& match r.system {
                Some(s) => system == Some(s@),
                None => system is None,
            }
            &&& turns_view(r.turns@) == turns
        }),
{
    let mut system: Option<String> = None;
    let mut turns: Vec<(String, usize)> = Vec::new();
    let mut i: usize = 0;
    while i < messages.len()
        invariant
            i <= messages@.len(),
            ({
                let (sys, ts) = anthropic_upto(messages@, i as nat);
                &&& match system {
                    Some(s) => sys == Some(s@),
                    None => sys is None,
                }
                &&& turns_view(turns@) == ts
            }),
        decreases messages.len() - i,
    {
        let m = &messages[i];
        match m.role {
            Role::System => {
                let text = m.content.to_string();
                let merged = match system {
                    Some(s) => {
                        let mut s2 = s;
                        s2.push('\n');
                        push_str(&mut s2, text.as_str());
                        s2
                    },
                    None => text,
                };
                system = Some(merged);
            },
            Role::Assistant => {
                let ghost before = turns_view(turns@);
                turns.push(("assistant".to_owned(), i));
                assert(turns_view(turns@) =~= before.push(("assistant"@, i)));
            },
            _ => {
                let ghost before = turns_view(turns@);
                turns.push(("user".to_owned(), i));
                assert(turns_view(turns@) =~= before.push(("user"@, i)));
            },
        }
        i = i + 1;
    }
    AnthropicConversation { system, turns }
}

} // verus!
