//! The greeting agent's reply decision: answer any message with a greeting,
//! an enthusiastic one when the message asks for a super greeting.

use vstd::prelude::*;

use crate::types::{Message, PartView};

verus! {

/// What str::to_lowercase returns for a string: a function of its characters
/// alone.
pub uninterp spec fn lower_of(s: Seq<char>) -> Seq<char>;

/// Relies on str::to_lowercase: the result depends on the characters alone;
/// an empty string stays empty.
#[verifier::external_body]
fn lowercase(s: &str) -> (r: String)
    ensures
        r@ == lower_of(s@),
        s@.len() == 0 ==> r@.len() == 0,
{
    s.to_lowercase()
}

/// Whether the characters of `pat` occur contiguously in `s`.
pub open spec fn contains_seq(s: Seq<char>, pat: Seq<char>) -> bool {
    exists|i: int|
        0 <= i && i + pat.len() <= s.len() && #[trigger] s.subrange(i, i + pat.len()) == pat
}

/// Relies on str::contains with a string pattern: true exactly when the
/// pattern's characters occur contiguously in the string.
#[verifier::external_body]
fn str_contains(s: &str, pat: &str) -> (r: bool)
    ensures
        r == contains_seq(s@, pat@),
{
    s.contains(pat)
}

/// The text of the first part that carries one, or the empty string.
pub open spec fn first_text_spec(parts: Seq<PartView>) -> Seq<char>
    decreases parts.len(),
{
    if parts.len() == 0 {
        Seq::empty()
    } else {
        match parts[0].text {
            Some(t) => t,
            None => first_text_spec(parts.drop_first()),
        }
    }
}

/// The text of the first part of `m` that carries one, or the empty string.
pub fn first_text(m: &Message) -> (r: String)
    ensures
        r@ == first_text_spec(m@.parts),
{
    proof {
        assert(m@.parts.skip(0) =~= m@.parts);
    }
    let mut i: usize = 0;
    while i < m.parts.len()
        invariant
            0 <= i <= m.parts@.len(),
            first_text_spec(m@.parts) == first_text_spec(m@.parts.skip(i as int)),
        decreases m.parts@.len() - i,
    {
        proof {
            assert(m@.parts.skip(i as int)[0] == m@.parts[i as int]);
            assert(m@.parts.skip(i as int).drop_first() =~= m@.parts.skip(i + 1int));
        }
        match &m.parts[i].text {
            Some(t) => {
                return t.clone();
            },
            None => {},
        }
        i = i + 1;
    }
    proof {
        assert(m@.parts.skip(m.parts@.len() as int).len() == 0);
    }
    String::new()
}

/// The reply to a lowercased request text: the enthusiastic greeting when it
/// asks for super, the plain one otherwise.
pub fn greeting_reply(lowered: &String) -> (r: Message)
    ensures
        r@.role == "agent"@,
        r@.parts.len() == 1,
        r@.parts[0].text == Some(
            if contains_seq(lowered@, "super"@) {
                "🌟 SUPER HELLO WORLD! 🌟"@
            } else {
                "Hello World"@
            },
        ),
        r@.parts[0].part_type == Some("text"@),
{
    if str_contains(lowered.as_str(), "super") {
        Message::agent_text("🌟 SUPER HELLO WORLD! 🌟")
    } else {
        Message::agent_text("Hello World")
    }
}

/// The whole decision for one inbound message: take the first text the
/// message carries, fold its case, and reply accordingly.
pub fn hello_world_reply(m: &Message) -> (r: Message)
    ensures
        r@.role == "agent"@,
        r@.parts.len() == 1,
        r@.parts[0].text == Some(
            if contains_seq(lower_of(first_text_spec(m@.parts)), "super"@) {
                "🌟 SUPER HELLO WORLD! 🌟"@
            } else {
                "Hello World"@
            },
        ),
{
    let text = first_text(m);
    let lowered = lowercase(text.as_str());
    greeting_reply(&lowered)
}

} // verus!
