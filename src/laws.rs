//! Properties of mention resolution, notification and the link codec that
//! relate the spec functions used by their contracts.

use vstd::prelude::*;
use crate::model::{Account, Mention, MentionTarget, Notification, Post};
use crate::mention::{
    attributed_author, link_href, link_name, notification_of, notified_mention, notify_outcome,
    resolved_target,
};
use crate::store::{first_with_id, first_with_url, Store};

verus! {

/// A mention found inside an item that is a post attaches to that post, even
/// where a comment carries the same identifier.
pub proof fn post_priority(st: Store, inside: Seq<char>, p: Post)
    requires
        first_with_url(st.posts@, inside) == Some(p),
    ensures
        resolved_target(st, inside) == Some(MentionTarget::Post(p.id)),
{
}

/// A mention found inside an item that is neither a post nor a comment
/// resolves to nothing.
pub proof fn no_target_no_mention(st: Store, inside: Seq<char>)
    requires
        first_with_url(st.posts@, inside) is None,
        first_with_url(st.comments@, inside) is None,
    ensures
        resolved_target(st, inside) is None,
{
}

/// A notify call that is owed a notification appends exactly one, addressed
/// to the mentioned account, whatever notifications were stored before.
pub proof fn one_notification_per_notify(
    st: Store,
    url: Seq<char>,
    before: Seq<Notification>,
    after: Seq<Notification>,
)
    requires
        notified_mention(st, url) is Some,
        notify_outcome(st, url, before, after),
    ensures
        after.len() == before.len() + 1,
        after.subrange(0, before.len() as int) == before,
        after.last().user_id == notified_mention(st, url)->0.mentioned_id,
{
    assert(after.subrange(0, before.len() as int) =~= after.drop_last());
}

/// A notification of a mention inside a post carries the display name of the
/// post's first listed author, whoever else is listed after it.
pub proof fn first_author_attributed(st: Store, m: Mention, p: Post, a: Account, n: Notification)
    requires
        m.target == MentionTarget::Post(p.id),
        first_with_id(st.posts@, p.id) == Some(p),
        p.author_ids@.len() >= 1,
        first_with_id(st.accounts@, p.author_ids@[0]) == Some(a),
        notification_of(st, m, n),
    ensures
        attributed_author(st, m) == Some(a),
        n.data->0@ == a.display_name@,
{
}

/// The link that stands for a mention of a known account has the account's
/// identifier as href and `@` followed by its fully-qualified handle as name.
pub proof fn link_of_known_account(st: Store, m: Mention, a: Account)
    requires
        first_with_id(st.accounts@, m.mentioned_id) == Some(a),
    ensures
        link_href(st, m) == a.ap_url@,
        link_name(st, m) == seq!['@'] + a.fqn@,
{
    reveal_strlit("@");
    assert("@"@ =~= seq!['@']);
}

} // verus!
