//! The relational store that the mention logic reads and writes: the account
//! directory, the content tables, the mentions and the notifications.

use vstd::prelude::*;
use crate::model::{Account, Comment, Mention, NewMention, Notification, Post};

verus! {

/// A stored row with an integer identifier and, possibly, a protocol identifier.
pub trait Record {
    spec fn spec_id(&self) -> i32;

    spec fn spec_url(&self) -> Option<Seq<char>>;

    fn record_id(&self) -> (r: i32)
        ensures
            r == self.spec_id(),
    ;

    fn record_url(&self) -> (r: Option<&String>)
        ensures
            match r {
                Some(u) => self.spec_url() == Some(u@),
                None => self.spec_url() is None,
            },
    ;
}

impl Record for Account {
    open spec fn spec_id(&self) -> i32 {
        self.id
    }

    open spec fn spec_url(&self) -> Option<Seq<char>> {
        Some(self.ap_url@)
    }

    fn record_id(&self) -> (r: i32) {
        self.id
    }

    fn record_url(&self) -> (r: Option<&String>) {
        Some(&self.ap_url)
    }
}

impl Record for Post {
    open spec fn spec_id(&self) -> i32 {
        self.id
    }

    open spec fn spec_url(&self) -> Option<Seq<char>> {
        Some(self.ap_url@)
    }

    fn record_id(&self) -> (r: i32) {
        self.id
    }

    fn record_url(&self) -> (r: Option<&String>) {
        Some(&self.ap_url)
    }
}

impl Record for Comment {
    open spec fn spec_id(&self) -> i32 {
        self.id
    }

    open spec fn spec_url(&self) -> Option<Seq<char>> {
        match self.ap_url {
            Some(u) => Some(u@),
            None => None,
        }
    }

    fn record_id(&self) -> (r: i32) {
        self.id
    }

    fn record_url(&self) -> (r: Option<&String>) {
        match &self.ap_url {
            Some(u) => Some(u),
            None => None,
        }
    }
}

impl Record for Mention {
    open spec fn spec_id(&self) -> i32 {
        self.id
    }

    open spec fn spec_url(&self) -> Option<Seq<char>> {
        Some(self.ap_url@)
    }

    fn record_id(&self) -> (r: i32) {
        self.id
    }

    fn record_url(&self) -> (r: Option<&String>) {
        Some(&self.ap_url)
    }
}

/// The first row of `s` with identifier `id`.
pub open spec fn first_with_id<T: Record>(s: Seq<T>, id: i32) -> Option<T>
    decreases s.len(),
{
    if s.len() == 0 {
        None
    } else if s[0].spec_id() == id {
        Some(s[0])
    } else {
        first_with_id(s.drop_first(), id)
    }
}

/// The first row of `s` whose protocol identifier is `url`.
pub open spec fn first_with_url<T: Record>(s: Seq<T>, url: Seq<char>) -> Option<T>
    decreases s.len(),
{
    if s.len() == 0 {
        None
    } else if s[0].spec_url() == Some(url) {
        Some(s[0])
    } else {
        first_with_url(s.drop_first(), url)
    }
}

/// `r` is the row `s` holds, as a reference, or nothing where `s` is nothing.
pub open spec fn found_as<T>(r: Option<&T>, s: Option<T>) -> bool {
    match r {
        Some(x) => s == Some(*x),
        None => s is None,
    }
}

/// The first row of `v` with identifier `id`.
pub fn find_by_id<T: Record>(v: &Vec<T>, id: i32) -> (r: Option<&T>)
    ensures
        found_as(r, first_with_id(v@, id)),
{
    let mut i: usize = 0;
    assert(v@.subrange(0, v@.len() as int) =~= v@);
    while i < v.len()
        invariant
            i <= v@.len(),
            first_with_id(v@.subrange(i as int, v@.len() as int), id) == first_with_id(v@, id),
        decreases v@.len() - i,
    {
        assert(v@.subrange(i as int, v@.len() as int).drop_first() =~= v@.subrange(
            i + 1,
            v@.len() as int,
        ));
        if v[i].record_id() == id {
            return Some(&v[i]);
        }
        i += 1;
    }
    assert(v@.subrange(i as int, v@.len() as int).len() == 0);
    None
}

/// The first row of `v` whose protocol identifier is `url`.
pub fn find_by_url<'a, T: Record>(v: &'a Vec<T>, url: &String) -> (r: Option<&'a T>)
    ensures
        found_as(r, first_with_url(v@, url@)),
{
    let mut i: usize = 0;
    assert(v@.subrange(0, v@.len() as int) =~= v@);
    while i < v.len()
        invariant
            i <= v@.len(),
            first_with_url(v@.subrange(i as int, v@.len() as int), url@) == first_with_url(
                v@,
                url@,
            ),
        decreases v@.len() - i,
    {
        assert(v@.subrange(i as int, v@.len() as int).drop_first() =~= v@.subrange(
            i + 1,
            v@.len() as int,
        ));
        match v[i].record_url() {
            Some(u) => {
                if u.eq(url) {
                    return Some(&v[i]);
                }
            },
            None => {},
        }
        i += 1;
    }
    assert(v@.subrange(i as int, v@.len() as int).len() == 0);
    None
}

/// One more than the largest identifier in `s`, and 1 where `s` is empty.
pub open spec fn next_id(s: Seq<Mention>) -> int
    decreases s.len(),
{
    if s.len() == 0 {
        1
    } else {
        let before = next_id(s.drop_last());
        if s.last().id + 1 > before {
            s.last().id + 1
        } else {
            before
        }
    }
}

/// The store: the account directory, the content tables, the mentions and
/// the notifications.
pub struct Store {
    pub accounts: Vec<Account>,
    pub posts: Vec<Post>,
    pub comments: Vec<Comment>,
    pub mentions: Vec<Mention>,
    pub notifications: Vec<Notification>,
}

impl Store {
    /// An empty store.
    pub fn new() -> (r: Store)
        ensures
            r.accounts@ == Seq::<Account>::empty(),
            r.posts@ == Seq::<Post>::empty(),
            r.comments@ == Seq::<Comment>::empty(),
            r.mentions@ == Seq::<Mention>::empty(),
            r.notifications@ == Seq::<Notification>::empty(),
    {
        Store {
            accounts: Vec::new(),
            posts: Vec::new(),
            comments: Vec::new(),
            mentions: Vec::new(),
            notifications: Vec::new(),
        }
    }

    /// The identifier that the next stored mention gets.
    pub fn next_mention_id(&self) -> (r: i32)
        requires
            forall|i: int| 0 <= i < self.mentions@.len() ==> #[trigger] self.mentions@[i].id < i32::MAX,
        ensures
            r == next_id(self.mentions@),
            forall|i: int| 0 <= i < self.mentions@.len() ==> #[trigger] self.mentions@[i].id < r,
    {
        let mut next: i32 = 1;
        let mut i: usize = 0;
        while i < self.mentions.len()
            invariant
                i <= self.mentions@.len(),
                forall|k: int| 0 <= k < self.mentions@.len() ==> #[trigger] self.mentions@[k].id < i32::MAX,
                next == next_id(self.mentions@.subrange(0, i as int)),
                forall|k: int| 0 <= k < i ==> #[trigger] self.mentions@[k].id < next,
            decreases self.mentions@.len() - i,
        {
            assert(self.mentions@.subrange(0, i + 1).drop_last() =~= self.mentions@.subrange(0, i as int));
            let id = self.mentions[i].id;
            if id + 1 > next {
                next = id + 1;
            }
            i += 1;
        }
        assert(self.mentions@.subrange(0, i as int) =~= self.mentions@);
        next
    }

    /// The first account with identifier `id`.
    pub fn get_account(&self, id: i32) -> (r: Option<&Account>)
        ensures
            found_as(r, first_with_id(self.accounts@, id)),
    {
        find_by_id(&self.accounts, id)
    }

    /// The first account whose protocol identifier is `url`.
    pub fn find_account_by_ap_url(&self, url: &String) -> (r: Option<&Account>)
        ensures
            found_as(r, first_with_url(self.accounts@, url@)),
    {
        find_by_url(&self.accounts, url)
    }

    /// The first post with identifier `id`.
    pub fn get_post(&self, id: i32) -> (r: Option<&Post>)
        ensures
            found_as(r, first_with_id(self.posts@, id)),
    {
        find_by_id(&self.posts, id)
    }

    /// The first post whose protocol identifier is `url`.
    pub fn find_post_by_ap_url(&self, url: &String) -> (r: Option<&Post>)
        ensures
            found_as(r, first_with_url(self.posts@, url@)),
    {
        find_by_url(&self.posts, url)
    }

    /// The first comment with identifier `id`.
    pub fn get_comment(&self, id: i32) -> (r: Option<&Comment>)
        ensures
            found_as(r, first_with_id(self.comments@, id)),
    {
        find_by_id(&self.comments, id)
    }

    /// The first comment whose protocol identifier is `url`.
    pub fn find_comment_by_ap_url(&self, url: &String) -> (r: Option<&Comment>)
        ensures
            found_as(r, first_with_url(self.comments@, url@)),
    {
        find_by_url(&self.comments, url)
    }
}

} // verus!
