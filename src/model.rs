//! The records that the mention logic reads and writes.

use vstd::prelude::*;

verus! {

/// An account of the directory, local or remote.
#[derive(Clone, Debug)]
pub struct Account {
    pub id: i32,
    /// The account's public identifier in the protocol.
    pub ap_url: String,
    pub display_name: String,
    /// The fully-qualified handle (`user@domain`).
    pub fqn: String,
}

/// A post, with its attributed authors in order.
#[derive(Clone, Debug)]
pub struct Post {
    pub id: i32,
    pub ap_url: String,
    pub author_ids: Vec<i32>,
}

/// A comment, written by one account.
#[derive(Clone, Debug)]
pub struct Comment {
    pub id: i32,
    pub ap_url: Option<String>,
    pub author_id: i32,
}

/// The content item that a mention occurs in: a post or a comment, never both.
#[derive(Clone, Copy, Debug, PartialEq, Eq, Structural)]
pub enum MentionTarget {
    Post(i32),
    Comment(i32),
}

/// A stored mention of an account inside a post or a comment.
#[derive(Clone, Debug)]
pub struct Mention {
    pub id: i32,
    pub mentioned_id: i32,
    pub target: MentionTarget,
    /// The protocol identifier of the mention link.
    pub ap_url: String,
}

/// A mention before it is stored: everything but its identifier.
#[derive(Clone, Debug)]
pub struct NewMention {
    pub mentioned_id: i32,
    pub target: MentionTarget,
    pub ap_url: String,
}

/// The protocol's mention link: the mentioned account's identifier and a
/// display name, either of which may be absent on the wire.
#[derive(Clone, Debug)]
pub struct MentionLink {
    pub href: Option<String>,
    pub name: Option<String>,
}

/// A notification addressed to one account.
#[derive(Clone, Debug)]
pub struct Notification {
    /// A template whose `{{ data }}` is filled in with `data`.
    pub title: String,
    pub data: Option<String>,
    pub content: Option<String>,
    pub link: Option<String>,
    pub user_id: i32,
}

/// Copies a string, keeping its value.
pub fn copy_string(s: &String) -> (r: String)
    ensures
        r == *s,
{
    s.clone()
}

impl Mention {
    /// A copy of this mention, field for field.
    pub fn duplicate(&self) -> (r: Mention)
        ensures
            r == *self,
    {
        Mention {
            id: self.id,
            mentioned_id: self.mentioned_id,
            target: self.target,
            ap_url: copy_string(&self.ap_url),
        }
    }
}

impl MentionLink {
    /// The link's href, or the empty string where it has none.
    pub open spec fn href_view(&self) -> Seq<char> {
        match self.href {
            Some(h) => h@,
            None => Seq::empty(),
        }
    }

    /// The link's href as an owned string, empty where it has none.
    pub fn href_or_empty(&self) -> (r: String)
        ensures
            r@ == self.href_view(),
    {
        match &self.href {
            Some(h) => h.clone(),
            None => String::new(),
        }
    }
}

} // verus!
