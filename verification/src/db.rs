//! The credential store: one table of pending authorizations keyed by
//! request token, one table of linked accounts keyed by chat identity.
//! Both are association lists with unique keys, read and written only
//! through the operations here; contracts speak of the two map views.
use vstd::prelude::*;

use crate::auth::{TokenPairView, TwitterTokenPair};
use crate::kv::{
    kv_map, lemma_kv_dom, lemma_kv_get, lemma_kv_push, lemma_kv_remove, lemma_kv_views_equal,
    unique_keys,
};

verus! {

/// A linked account: the external identity and the permanent token pair
/// obtained by a completed handshake.
#[derive(Clone, Debug)]
pub struct User {
    pub x_id: String,
    pub username: String,
    pub token_pair: TwitterTokenPair,
}

pub ghost struct UserView {
    pub x_id: Seq<char>,
    pub username: Seq<char>,
    pub token_pair: TokenPairView,
}

impl View for User {
    type V = UserView;

    open spec fn view(&self) -> UserView {
        UserView { x_id: self.x_id@, username: self.username@, token_pair: self.token_pair@ }
    }
}

impl User {
    /// A field-for-field copy, known to carry the same strings.
    pub fn copy_of(&self) -> (r: User)
        ensures
            r@ == self@,
    {
        User {
            x_id: self.x_id.clone(),
            username: self.username.clone(),
            token_pair: self.token_pair.copy_of(),
        }
    }
}

/// The process-wide store. `oauth_tokens` maps a request token to its
/// secret while an authorization is pending; `access_tokens` maps a chat
/// identity to its linked account.
#[derive(Debug)]
pub struct InMemoryDB {
    oauth_tokens: Vec<(String, String)>,
    access_tokens: Vec<(String, User)>,
}

impl InMemoryDB {
    /// The pending authorizations: request token to request token secret.
    pub closed spec fn pending(self) -> Map<Seq<char>, Seq<char>> {
        kv_map(self.oauth_tokens@)
    }

    /// The linked accounts: chat identity to account.
    pub closed spec fn linked(self) -> Map<Seq<char>, UserView> {
        kv_map(self.access_tokens@)
    }

    /// Each table holds at most one entry per key.
    pub closed spec fn wf(self) -> bool {
        unique_keys(self.oauth_tokens@) && unique_keys(self.access_tokens@)
    }

    /// Read-only lookup of the account linked to a chat.
    pub fn get_linked(&self, chat_id: &String) -> (r: Option<User>)
        requires
            self.wf(),
        ensures
            match r {
                Some(u) => self.linked().dom().contains(chat_id@) && u@ == self.linked()[chat_id@],
                None => !self.linked().dom().contains(chat_id@),
            },
    {
        let n = self.access_tokens.len();
        let mut i: usize = 0;
        while i < n
            invariant
                self.wf(),
                n == self.access_tokens.len(),
                i <= n,
                forall|j: int| 0 <= j < i ==> self.access_tokens@[j].0@ != chat_id@,
            decreases n - i,
        {
            if self.access_tokens[i].0 == *chat_id {
                proof {
                    lemma_kv_get(self.access_tokens@, i as int);
                }
                return Some(self.access_tokens[i].1.copy_of());
            }
            i += 1;
        }
        proof {
            lemma_kv_dom(self.access_tokens@, chat_id@);
        }
        None
    }

    /// Record a pending authorization under its request token,
    /// replacing any entry the token already had.
    pub fn put_pending(&mut self, token: String, secret: String)
        requires
            old(self).wf(),
        ensures
            final(self).wf(),
            final(self).pending() == old(self).pending().insert(token@, secret@),
            final(self).linked() == old(self).linked(),
    {
        let n = self.oauth_tokens.len();
        let mut i: usize = 0;
        while i < n
            invariant
                self.wf(),
                self.oauth_tokens == old(self).oauth_tokens,
                self.access_tokens == old(self).access_tokens,
                n == self.oauth_tokens.len(),
                i <= n,
                forall|j: int| 0 <= j < i ==> self.oauth_tokens@[j].0@ != token@,
            decreases n - i,
        {
            if self.oauth_tokens[i].0 == token {
                let ghost before = self.oauth_tokens@;
                proof {
                    assert(before[i as int].0@ == token@);
                    assert(unique_keys(before));
                    lemma_kv_get(before, i as int);
                    lemma_kv_remove(before, i as int);
                }
                let _ = self.oauth_tokens.remove(i);
                proof {
                    assert(self.oauth_tokens@ == before.remove(i as int));
                    assert forall|j: int| 0 <= j < self.oauth_tokens@.len() implies self
                        .oauth_tokens@[j].0@ != token@ by {
                        if j < i {
                            assert(self.oauth_tokens@[j] == before[j]);
                            assert(before[j].0@ != token@);
                        } else {
                            assert(self.oauth_tokens@[j] == before[j + 1]);
                            assert(before[j + 1].0@ != before[i as int].0@);
                            assert(before[j + 1].0@ != token@);
                        }
                    }
                    lemma_kv_push(self.oauth_tokens@, (token, secret));
                    assert(kv_map(before).remove(token@).insert(token@, secret@) =~= kv_map(
                        before,
                    ).insert(token@, secret@));
                }
                self.oauth_tokens.push((token, secret));
                return ;
            }
            i += 1;
        }
        proof {
            lemma_kv_push(self.oauth_tokens@, (token, secret));
        }
        self.oauth_tokens.push((token, secret));
    }

    /// Remove and return the secret of the pending authorization for
    /// `token`, if one is stored; at most one caller can ever get it.
    pub fn take_pending(&mut self, token: &String) -> (r: Option<String>)
        requires
            old(self).wf(),
        ensures
            final(self).wf(),
            final(self).linked() == old(self).linked(),
            match r {
                Some(secret) => old(self).pending().dom().contains(token@) && secret@ == old(
                    self,
                ).pending()[token@] && final(self).pending() == old(self).pending().remove(token@),
                None => !old(self).pending().dom().contains(token@) && final(self).pending() == old(
                    self,
                ).pending(),
            },
    {
        let n = self.oauth_tokens.len();
        let mut i: usize = 0;
        while i < n
            invariant
                self.wf(),
                self.oauth_tokens == old(self).oauth_tokens,
                self.access_tokens == old(self).access_tokens,
                n == self.oauth_tokens.len(),
                i <= n,
                forall|j: int| 0 <= j < i ==> self.oauth_tokens@[j].0@ != token@,
            decreases n - i,
        {
            if self.oauth_tokens[i].0 == *token {
                proof {
                    lemma_kv_get(self.oauth_tokens@, i as int);
                    lemma_kv_remove(self.oauth_tokens@, i as int);
                }
                let pair = self.oauth_tokens.remove(i);
                return Some(pair.1);
            }
            i += 1;
        }
        proof {
            lemma_kv_dom(self.oauth_tokens@, token@);
        }
        None
    }

    /// Link an account to a chat, replacing whatever account the chat
    /// had before: re-authorization overwrites, it never merges.
    pub fn put_linked(&mut self, chat_id: String, user: User)
        requires
            old(self).wf(),
        ensures
            final(self).wf(),
            final(self).linked() == old(self).linked().insert(chat_id@, user@),
            final(self).pending() == old(self).pending(),
    {
        let n = self.access_tokens.len();
        let mut i: usize = 0;
        while i < n
            invariant
                self.wf(),
                self.oauth_tokens == old(self).oauth_tokens,
                self.access_tokens == old(self).access_tokens,
                n == self.access_tokens.len(),
                i <= n,
                forall|j: int| 0 <= j < i ==> self.access_tokens@[j].0@ != chat_id@,
            decreases n - i,
        {
            if self.access_tokens[i].0 == chat_id {
                let ghost before = self.access_tokens@;
                proof {
                    lemma_kv_get(before, i as int);
                    lemma_kv_remove(before, i as int);
                }
                let _ = self.access_tokens.remove(i);
                proof {
                    assert forall|j: int| 0 <= j < self.access_tokens@.len() implies self
                        .access_tokens@[j].0@ != chat_id@ by {
                        if j < i {
                            assert(self.access_tokens@[j] == before[j]);
                        } else {
                            assert(self.access_tokens@[j] == before[j + 1]);
                            assert(before[j + 1].0@ != before[i as int].0@);
                        }
                    }
                    lemma_kv_push(self.access_tokens@, (chat_id, user));
                    assert(kv_map(before).remove(chat_id@).insert(chat_id@, user@) =~= kv_map(
                        before,
                    ).insert(chat_id@, user@));
                }
                self.access_tokens.push((chat_id, user));
                return ;
            }
            i += 1;
        }
        proof {
            lemma_kv_push(self.access_tokens@, (chat_id, user));
        }
        self.access_tokens.push((chat_id, user));
    }

    /// Unlink whatever account the chat had; explicit logout.
    pub fn remove_linked(&mut self, chat_id: &String) -> (r: Option<User>)
        requires
            old(self).wf(),
        ensures
            final(self).wf(),
            final(self).pending() == old(self).pending(),
            match r {
                Some(u) => old(self).linked().dom().contains(chat_id@) && u@ == old(
                    self,
                ).linked()[chat_id@] && final(self).linked() == old(self).linked().remove(chat_id@),
                None => !old(self).linked().dom().contains(chat_id@) && final(self).linked() == old(
                    self,
                ).linked(),
            },
    {
        let n = self.access_tokens.len();
        let mut i: usize = 0;
        while i < n
            invariant
                self.wf(),
                self.oauth_tokens == old(self).oauth_tokens,
                self.access_tokens == old(self).access_tokens,
                n == self.access_tokens.len(),
                i <= n,
                forall|j: int| 0 <= j < i ==> self.access_tokens@[j].0@ != chat_id@,
            decreases n - i,
        {
            if self.access_tokens[i].0 == *chat_id {
                proof {
                    lemma_kv_get(self.access_tokens@, i as int);
                    lemma_kv_remove(self.access_tokens@, i as int);
                }
                let pair = self.access_tokens.remove(i);
                return Some(pair.1);
            }
            i += 1;
        }
        proof {
            lemma_kv_dom(self.access_tokens@, chat_id@);
        }
        None
    }

    /// Build the store from a loaded snapshot of its two tables, or
    /// start empty when none could be loaded (missing or corrupt file).
    pub fn load_or_create(
        snapshot: Option<(Vec<(String, String)>, Vec<(String, User)>)>,
    ) -> (r: InMemoryDB)
        ensures
            r.wf(),
            match snapshot {
                None => r.pending() == Map::<Seq<char>, Seq<char>>::empty() && r.linked()
                    == Map::<Seq<char>, UserView>::empty(),
                Some(tables) => r.pending() == kv_map(tables.0@) && r.linked() == kv_map(tables.1@),
            },
    {
        let mut db = InMemoryDB { oauth_tokens: Vec::new(), access_tokens: Vec::new() };
        match snapshot {
            None => db,
            Some((mut pending_entries, mut linked_entries)) => {
                let ghost all_pending = pending_entries@;
                let ghost mut done: int = 0;
                while pending_entries.len() > 0
                    invariant
                        db.wf(),
                        db.linked() == Map::<Seq<char>, UserView>::empty(),
                        0 <= done,
                        done + pending_entries@.len() == all_pending.len(),
                        pending_entries@ == all_pending.skip(done),
                        db.pending() == kv_map(all_pending.take(done)),
                    decreases pending_entries@.len(),
                {
                    let ghost k = done;
                    let (token, secret) = pending_entries.remove(0);
                    proof {
                        assert(all_pending.skip(k)[0] == all_pending[k]);
                    }
                    db.put_pending(token, secret);
                    proof {
                        done = done + 1;
                        assert(all_pending.take(k + 1).drop_last() =~= all_pending.take(k));
                        assert(all_pending.take(k + 1).last() == all_pending[k]);
                        assert(pending_entries@ =~= all_pending.skip(done));
                    }
                }
                proof {
                    assert(all_pending.take(all_pending.len() as int) =~= all_pending);
                }
                let ghost all_linked = linked_entries@;
                let ghost mut done2: int = 0;
                while linked_entries.len() > 0
                    invariant
                        db.wf(),
                        db.pending() == kv_map(all_pending),
                        0 <= done2,
                        done2 + linked_entries@.len() == all_linked.len(),
                        linked_entries@ == all_linked.skip(done2),
                        db.linked() == kv_map(all_linked.take(done2)),
                    decreases linked_entries@.len(),
                {
                    let ghost k = done2;
                    let (chat_id, user) = linked_entries.remove(0);
                    proof {
                        assert(all_linked.skip(k)[0] == all_linked[k]);
                    }
                    db.put_linked(chat_id, user);
                    proof {
                        done2 = done2 + 1;
                        assert(all_linked.take(k + 1).drop_last() =~= all_linked.take(k));
                        assert(all_linked.take(k + 1).last() == all_linked[k]);
                        assert(linked_entries@ =~= all_linked.skip(done2));
                    }
                }
                proof {
                    assert(all_linked.take(all_linked.len() as int) =~= all_linked);
                }
                db
            },
        }
    }

    /// The two tables as plain entry lists, for a caller that persists a
    /// snapshot of the store.
    pub fn snapshot(&self) -> (r: (Vec<(String, String)>, Vec<(String, User)>))
        requires
            self.wf(),
        ensures
            kv_map(r.0@) == self.pending(),
            kv_map(r.1@) == self.linked(),
    {
        let mut pending_entries: Vec<(String, String)> = Vec::new();
        let mut linked_entries: Vec<(String, User)> = Vec::new();
        let n = self.oauth_tokens.len();
        let mut i: usize = 0;
        while i < n
            invariant
                n == self.oauth_tokens.len(),
                i <= n,
                pending_entries@.len() == i,
                forall|t: int| 0 <= t < i ==> pending_entries@[t].0@ == self.oauth_tokens@[t].0@
                    && pending_entries@[t].1@ == self.oauth_tokens@[t].1@,
            decreases n - i,
        {
            let entry = &self.oauth_tokens[i];
            pending_entries.push((entry.0.clone(), entry.1.clone()));
            i += 1;
        }
        let m = self.access_tokens.len();
        let mut j: usize = 0;
        while j < m
            invariant
                m == self.access_tokens.len(),
                j <= m,
                linked_entries@.len() == j,
                forall|t: int| 0 <= t < j ==> linked_entries@[t].0@ == self.access_tokens@[t].0@
                    && linked_entries@[t].1@ == self.access_tokens@[t].1@,
            decreases m - j,
        {
            let entry = &self.access_tokens[j];
            linked_entries.push((entry.0.clone(), entry.1.copy_of()));
            j += 1;
        }
        proof {
            lemma_kv_views_equal(pending_entries@, self.oauth_tokens@);
            lemma_kv_views_equal(linked_entries@, self.access_tokens@);
        }
        (pending_entries, linked_entries)
    }
}

/// Before any completed authorization for a chat there is nothing to
/// find: the fresh store's linked table is empty, so `get_linked`
/// answers `None` for every chat identity.
pub proof fn lemma_fresh_store_links_nothing(chat: Seq<char>)
    ensures
        !Map::<Seq<char>, UserView>::empty().dom().contains(chat),
{
}

/// Immediately after a completed authorization links `user` to `chat`,
/// the linked table answers `chat` with exactly `user`, whatever it
/// held before.
pub proof fn lemma_link_visible_after_completion(
    linked: Map<Seq<char>, UserView>,
    chat: Seq<char>,
    user: UserView,
)
    ensures
        linked.insert(chat, user).dom().contains(chat),
        linked.insert(chat, user)[chat] == user,
{
}

/// A pending authorization is handed out exactly once: once
/// `take_pending` has removed the entry for `token`, a second call
/// finds nothing under `token` and returns `None` (no replay).
pub proof fn lemma_take_pending_once(pending: Map<Seq<char>, Seq<char>>, token: Seq<char>)
    ensures
        !pending.remove(token).dom().contains(token),
{
}

/// Re-authorization overwrites rather than merges: linking `chat` to
/// `a` and then to `b` leaves exactly the table that links `chat` to
/// `b`, and only `b`'s data can be read back.
pub proof fn lemma_reauthorization_overwrites(
    linked: Map<Seq<char>, UserView>,
    chat: Seq<char>,
    a: UserView,
    b: UserView,
)
    ensures
        linked.insert(chat, a).insert(chat, b) == linked.insert(chat, b),
        linked.insert(chat, a).insert(chat, b)[chat] == b,
{
    assert(linked.insert(chat, a).insert(chat, b) =~= linked.insert(chat, b));
}

impl Default for InMemoryDB {
    /// The empty store: nothing pending, nothing linked.
    fn default() -> (r: InMemoryDB)
        ensures
            r.wf(),
            r.pending() == Map::<Seq<char>, Seq<char>>::empty(),
            r.linked() == Map::<Seq<char>, UserView>::empty(),
    {
        InMemoryDB { oauth_tokens: Vec::new(), access_tokens: Vec::new() }
    }
}

} // verus!
