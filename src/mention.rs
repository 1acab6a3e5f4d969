//! Resolving an inbound mention link, notifying the mentioned account, and
//! turning a stored mention back into a link.

use vstd::prelude::*;
use vstd::string::*;
use crate::model::{copy_string, Account, Comment, Mention, MentionLink, MentionTarget, NewMention, Notification, Post};
use crate::store::{find_by_url, first_with_id, first_with_url, found_as, next_id, Store};

verus! {

/// The content that a mention found inside the item identified by `inside`
/// attaches to: the first post with that identifier, else the first comment
/// with it, else nothing.
pub open spec fn resolved_target(st: Store, inside: Seq<char>) -> Option<MentionTarget> {
    match first_with_url(st.posts@, inside) {
        Some(p) => Some(MentionTarget::Post(p.id)),
        None => match first_with_url(st.comments@, inside) {
            Some(c) => Some(MentionTarget::Comment(c.id)),
            None => None,
        },
    }
}

/// The account that a notification of `m` names as the one who mentioned:
/// the comment's author, or the first listed author of the post.
pub open spec fn attributed_author(st: Store, m: Mention) -> Option<Account> {
    match m.target {
        MentionTarget::Comment(cid) => match first_with_id(st.comments@, cid) {
            Some(c) => first_with_id(st.accounts@, c.author_id),
            None => None,
        },
        MentionTarget::Post(pid) => match first_with_id(st.posts@, pid) {
            Some(p) => if p.author_ids@.len() > 0 {
                first_with_id(st.accounts@, p.author_ids@[0])
            } else {
                None
            },
            None => None,
        },
    }
}

/// The external URL of the content that `target` names, empty where there is none.
pub open spec fn content_url(st: Store, target: MentionTarget) -> Seq<char> {
    match target {
        MentionTarget::Post(pid) => match first_with_id(st.posts@, pid) {
            Some(p) => p.ap_url@,
            None => Seq::empty(),
        },
        MentionTarget::Comment(cid) => match first_with_id(st.comments@, cid) {
            Some(c) => match c.ap_url {
                Some(u) => u@,
                None => Seq::empty(),
            },
            None => Seq::empty(),
        },
    }
}

/// The title template of a mention notification.
pub open spec fn mention_title() -> Seq<char> {
    "{{ data }} mentioned you."@
}

/// The mention that a notification for the link identifier `url` is owed for:
/// the first stored mention with that identifier, where both the author it is
/// attributed to and the mentioned account are found.
pub open spec fn notified_mention(st: Store, url: Seq<char>) -> Option<Mention> {
    match first_with_url(st.mentions@, url) {
        Some(m) => if attributed_author(st, m) is Some && first_with_id(
            st.accounts@,
            m.mentioned_id,
        ) is Some {
            Some(m)
        } else {
            None
        },
        None => None,
    }
}

/// `n` is the notification of mention `m`: addressed to the mentioned account,
/// filled in with the attributed author's display name, linking to the content.
pub open spec fn notification_of(st: Store, m: Mention, n: Notification) -> bool {
    &&& n.title@ == mention_title()
    &&& n.data is Some
    &&& n.data->0@ == attributed_author(st, m)->0.display_name@
    &&& n.content is None
    &&& n.link is Some
    &&& n.link->0@ == content_url(st, m.target)
    &&& n.user_id == m.mentioned_id
}

/// The notifications go from `before` to `after` as notifying of the link
/// identifier `url` in the store `st` asks: one notification appended where
/// one is owed, none otherwise.
pub open spec fn notify_outcome(
    st: Store,
    url: Seq<char>,
    before: Seq<Notification>,
    after: Seq<Notification>,
) -> bool {
    match notified_mention(st, url) {
        Some(m) => {
            &&& after.len() == before.len() + 1
            &&& after.drop_last() == before
            &&& notification_of(st, m, after.last())
        },
        None => after == before,
    }
}

/// The href of the link that stands for `m`: the mentioned account's
/// identifier, empty where the account is not found.
pub open spec fn link_href(st: Store, m: Mention) -> Seq<char> {
    match first_with_id(st.accounts@, m.mentioned_id) {
        Some(a) => a.ap_url@,
        None => Seq::empty(),
    }
}

/// The display name of the link that stands for `m`: `@` and the mentioned
/// account's fully-qualified handle, empty where the account is not found.
pub open spec fn link_name(st: Store, m: Mention) -> Seq<char> {
    match first_with_id(st.accounts@, m.mentioned_id) {
        Some(a) => "@"@ + a.fqn@,
        None => Seq::empty(),
    }
}

/// The notification of the first mention stored under `url`, where one is owed.
pub fn notification_for(store: &Store, url: &String) -> (r: Option<Notification>)
    ensures
        match notified_mention(*store, url@) {
            Some(m) => r is Some && notification_of(*store, m, r->0),
            None => r is None,
        },
{
    let m = match find_by_url(&store.mentions, url) {
        Some(m) => m,
        None => return None,
    };
    let author = match m.attributed_author(store) {
        Some(a) => copy_string(&a.display_name),
        None => return None,
    };
    if m.get_mentioned(store).is_none() {
        return None;
    }
    let link = match m.target {
        MentionTarget::Post(_) => match m.get_post(store) {
            Some(p) => copy_string(&p.ap_url),
            None => String::new(),
        },
        MentionTarget::Comment(_) => match m.get_comment(store) {
            Some(c) => match &c.ap_url {
                Some(u) => copy_string(u),
                None => String::new(),
            },
            None => String::new(),
        },
    };
    Some(
        Notification {
            title: "{{ data }} mentioned you.".to_owned(),
            data: Some(author),
            content: None,
            link: Some(link),
            user_id: m.mentioned_id,
        },
    )
}

impl Mention {
    /// Stores `m` under a fresh identifier, one more than the largest stored.
    pub fn insert(store: &mut Store, m: NewMention) -> (r: Mention)
        requires
            forall|i: int|
                0 <= i < old(store).mentions@.len() ==> #[trigger] old(store).mentions@[i].id
                    < i32::MAX,
        ensures
            r.id == next_id(old(store).mentions@),
            forall|i: int|
                0 <= i < old(store).mentions@.len() ==> #[trigger] old(store).mentions@[i].id
                    < r.id,
            r.mentioned_id == m.mentioned_id,
            r.target == m.target,
            r.ap_url == m.ap_url,
            final(store).mentions@ == old(store).mentions@.push(r),
            final(store).notifications == old(store).notifications,
            final(store).accounts == old(store).accounts,
            final(store).posts == old(store).posts,
            final(store).comments == old(store).comments,
    {
        let id = store.next_mention_id();
        let stored = Mention { id, mentioned_id: m.mentioned_id, target: m.target, ap_url: m.ap_url };
        let r = stored.duplicate();
        store.mentions.push(stored);
        r
    }

    /// The first stored mention whose protocol identifier is `url`.
    pub fn find_by_ap_url<'a>(store: &'a Store, url: &String) -> (r: Option<&'a Mention>)
        ensures
            found_as(r, first_with_url(store.mentions@, url@)),
    {
        find_by_url(&store.mentions, url)
    }

    /// The mentioned account.
    pub fn get_mentioned<'a>(&self, store: &'a Store) -> (r: Option<&'a Account>)
        ensures
            found_as(r, first_with_id(store.accounts@, self.mentioned_id)),
    {
        store.get_account(self.mentioned_id)
    }

    /// The post the mention occurs in, where its target is a post.
    pub fn get_post<'a>(&self, store: &'a Store) -> (r: Option<&'a Post>)
        ensures
            match self.target {
                MentionTarget::Post(id) => found_as(r, first_with_id(store.posts@, id)),
                MentionTarget::Comment(_) => r is None,
            },
    {
        match self.target {
            MentionTarget::Post(id) => store.get_post(id),
            MentionTarget::Comment(_) => None,
        }
    }

    /// The comment the mention occurs in, where its target is a comment.
    pub fn get_comment<'a>(&self, store: &'a Store) -> (r: Option<&'a Comment>)
        ensures
            match self.target {
                MentionTarget::Comment(id) => found_as(r, first_with_id(store.comments@, id)),
                MentionTarget::Post(_) => r is None,
            },
    {
        match self.target {
            MentionTarget::Comment(id) => store.get_comment(id),
            MentionTarget::Post(_) => None,
        }
    }

    /// The account a notification of this mention names: the comment's
    /// author, or the post's first listed author.
    pub fn attributed_author<'a>(&self, store: &'a Store) -> (r: Option<&'a Account>)
        ensures
            found_as(r, attributed_author(*store, *self)),
    {
        match self.target {
            MentionTarget::Comment(_) => match self.get_comment(store) {
                Some(c) => store.get_account(c.author_id),
                None => None,
            },
            MentionTarget::Post(_) => match self.get_post(store) {
                Some(p) => if p.author_ids.len() > 0 {
                    store.get_account(p.author_ids[0])
                } else {
                    None
                },
                None => None,
            },
        }
    }

    /// The link that stands for this mention in the protocol. It never fails:
    /// where the mentioned account is not found, both fields are empty.
    pub fn to_activity(&self, store: &Store) -> (r: MentionLink)
        ensures
            r.href is Some,
            r.href->0@ == link_href(*store, *self),
            r.name is Some,
            r.name->0@ == link_name(*store, *self),
    {
        match self.get_mentioned(store) {
            Some(u) => {
                let mut name = "@".to_owned();
                name.append(u.fqn.as_str());
                MentionLink { href: Some(copy_string(&u.ap_url)), name: Some(name) }
            },
            None => MentionLink { href: Some(String::new()), name: Some(String::new()) },
        }
    }

    /// Notifies the mentioned account of the first mention stored under the
    /// link's href (the empty string where it has none). Nothing happens where
    /// no such mention is stored, or its attributed author or its mentioned
    /// account is not found.
    pub fn notify(store: &mut Store, ment: &MentionLink)
        ensures
            final(store).accounts == old(store).accounts,
            final(store).posts == old(store).posts,
            final(store).comments == old(store).comments,
            final(store).mentions == old(store).mentions,
            notify_outcome(
                *old(store),
                ment.href_view(),
                old(store).notifications@,
                final(store).notifications@,
            ),
    {
        let url = ment.href_or_empty();
        let ghost before = store.notifications@;
        match notification_for(store, &url) {
            Some(n) => {
                store.notifications.push(n);
                assert(store.notifications@.drop_last() =~= before);
            },
            None => {},
        }
    }

    /// Resolves a mention link found inside the content identified by
    /// `inside`. The mention attaches to the post with that identifier, else
    /// to the comment with it; where there is neither, nothing is stored and
    /// `None` is returned. Otherwise the mention is stored, with the link's
    /// href as its protocol identifier, the mentioned account is notified,
    /// and the stored mention is returned. The mentioned account must be
    /// known under the link's href.
    pub fn from_activity(store: &mut Store, ment: &MentionLink, inside: &String) -> (r: Option<
        Mention,
    >)
        requires
            first_with_url(old(store).accounts@, ment.href_view()) is Some,
            forall|i: int|
                0 <= i < old(store).mentions@.len() ==> #[trigger] old(store).mentions@[i].id
                    < i32::MAX,
        ensures
            final(store).accounts == old(store).accounts,
            final(store).posts == old(store).posts,
            final(store).comments == old(store).comments,
            match resolved_target(*old(store), inside@) {
                None => {
                    &&& r is None
                    &&& final(store).mentions == old(store).mentions
                    &&& final(store).notifications == old(store).notifications
                },
                Some(t) => {
                    &&& r is Some
                    &&& r->0.id == next_id(old(store).mentions@)
                    &&& r->0.mentioned_id == first_with_url(
                        old(store).accounts@,
                        ment.href_view(),
                    )->0.id
                    &&& r->0.target == t
                    &&& r->0.ap_url@ == ment.href_view()
                    &&& final(store).mentions@ == old(store).mentions@.push(r->0)
                    &&& notify_outcome(
                        *final(store),
                        ment.href_view(),
                        old(store).notifications@,
                        final(store).notifications@,
                    )
                },
            },
            first_with_url(old(store).posts@, inside@) is Some ==> r is Some && r->0.target
                == MentionTarget::Post(first_with_url(old(store).posts@, inside@)->0.id),
            first_with_url(old(store).posts@, inside@) is None && first_with_url(
                old(store).comments@,
                inside@,
            ) is None ==> r is None && final(store).mentions == old(store).mentions,
    {
        let href = ment.href_or_empty();
        let mentioned_id = store.find_account_by_ap_url(&href).unwrap().id;
        let target = match store.find_post_by_ap_url(inside) {
            Some(p) => MentionTarget::Post(p.id),
            None => match store.find_comment_by_ap_url(inside) {
                Some(c) => MentionTarget::Comment(c.id),
                None => return None,
            },
        };
        let m = Mention::insert(store, NewMention { mentioned_id, target, ap_url: href });
        Mention::notify(store, ment);
        Some(m)
    }
}

} // verus!
