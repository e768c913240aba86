//! The data store: subscribers, confirmation tokens and stored credentials,
//! with the invariants the workflow relies on.
//!
//! The store models the relational tables behind the service as an in-memory
//! structure: a subscriptions table, a token table with a uniqueness
//! constraint on the token column and a foreign key to the subscriber it
//! authorizes, and a users table keyed by unique usernames. Writes from the
//! subscription workflow go through a `Transaction`, so a subscriber row and
//! its token are committed together or not at all.

use vstd::prelude::*;

verus! {

/// Lifecycle of a subscriber: transitions only from pending to confirmed,
/// never back.
#[derive(Clone, Copy, PartialEq, Eq, Structural, Debug)]
pub enum SubscriptionStatus {
    PendingConfirmation,
    Confirmed,
}

/// One row of the subscriptions table.
#[derive(Debug)]
pub struct SubscriberRow {
    pub id: u128,
    pub email: String,
    pub name: String,
    pub subscribed_at: i64,
    pub status: SubscriptionStatus,
}

/// Mathematical model of a subscriber row.
#[verifier::ext_equal]
pub struct SubscriberView {
    pub id: u128,
    pub email: Seq<char>,
    pub name: Seq<char>,
    pub subscribed_at: i64,
    pub status: SubscriptionStatus,
}

impl View for SubscriberRow {
    type V = SubscriberView;

    open spec fn view(&self) -> SubscriberView {
        SubscriberView {
            id: self.id,
            email: self.email@,
            name: self.name@,
            subscribed_at: self.subscribed_at,
            status: self.status,
        }
    }
}

/// One row of the token table: a confirmation token bound to the subscriber
/// it authorizes.
#[derive(Debug)]
pub struct TokenRow {
    pub token: String,
    pub subscriber_id: u128,
}

/// Mathematical model of a token row.
#[verifier::ext_equal]
pub struct TokenView {
    pub token: Seq<char>,
    pub subscriber_id: u128,
}

impl View for TokenRow {
    type V = TokenView;

    open spec fn view(&self) -> TokenView {
        TokenView { token: self.token@, subscriber_id: self.subscriber_id }
    }
}

/// One row of the users table.
#[derive(Debug)]
pub struct UserRow {
    pub user_id: u128,
    pub username: String,
    pub password_hash: String,
}

/// Mathematical model of a user row.
#[verifier::ext_equal]
pub struct UserView {
    pub user_id: u128,
    pub username: Seq<char>,
    pub password_hash: Seq<char>,
}

impl View for UserRow {
    type V = UserView;

    open spec fn view(&self) -> UserView {
        UserView {
            user_id: self.user_id,
            username: self.username@,
            password_hash: self.password_hash@,
        }
    }
}

/// A stored username/password-hash pair, as credential lookup hands it out.
#[derive(Debug)]
pub struct StoredCredential {
    pub user_id: u128,
    pub username: String,
    pub password_hash: String,
}

impl View for StoredCredential {
    type V = UserView;

    open spec fn view(&self) -> UserView {
        UserView {
            user_id: self.user_id,
            username: self.username@,
            password_hash: self.password_hash@,
        }
    }
}

/// Mathematical model of the whole store.
#[verifier::ext_equal]
pub struct StoreView {
    pub subscribers: Seq<SubscriberView>,
    pub tokens: Seq<TokenView>,
    pub users: Seq<UserView>,
}

/// Errors of the store itself: a violated uniqueness or foreign-key
/// constraint, or a row that is not there.
#[derive(Debug)]
pub enum StoreError {
    NotFound,
    ConstraintViolation,
}

/// Whether some subscriber row carries `id`.
pub open spec fn has_subscriber(subs: Seq<SubscriberView>, id: u128) -> bool {
    exists|j: int| 0 <= j < subs.len() && subs[j].id == id
}

/// First subscriber row carrying `id`, if any.
pub open spec fn lookup_subscriber(subs: Seq<SubscriberView>, id: u128) -> Option<SubscriberView>
    decreases subs.len(),
{
    if subs.len() == 0 {
        None
    } else if subs[0].id == id {
        Some(subs[0])
    } else {
        lookup_subscriber(subs.drop_first(), id)
    }
}

/// The subscriber id bound to `tok`, if the token is stored.
pub open spec fn lookup_token(tokens: Seq<TokenView>, tok: Seq<char>) -> Option<u128>
    decreases tokens.len(),
{
    if tokens.len() == 0 {
        None
    } else if tokens[0].token == tok {
        Some(tokens[0].subscriber_id)
    } else {
        lookup_token(tokens.drop_first(), tok)
    }
}

/// First user row with `username`, if any.
pub open spec fn lookup_user(users: Seq<UserView>, username: Seq<char>) -> Option<UserView>
    decreases users.len(),
{
    if users.len() == 0 {
        None
    } else if users[0].username == username {
        Some(users[0])
    } else {
        lookup_user(users.drop_first(), username)
    }
}

/// First user row with `user_id`, if any.
pub open spec fn lookup_user_by_id(users: Seq<UserView>, user_id: u128) -> Option<UserView>
    decreases users.len(),
{
    if users.len() == 0 {
        None
    } else if users[0].user_id == user_id {
        Some(users[0])
    } else {
        lookup_user_by_id(users.drop_first(), user_id)
    }
}

/// Well-formedness of the store: unique subscriber ids, unique tokens, tokens
/// bound to existing subscribers, and unique usernames and user ids.
pub open spec fn store_wf(s: StoreView) -> bool {
    &&& forall|i: int, j: int|
        0 <= i < j < s.subscribers.len() ==> #[trigger] s.subscribers[i].id != #[trigger] s.subscribers[j].id
    &&& forall|i: int, j: int|
        0 <= i < j < s.tokens.len() ==> #[trigger] s.tokens[i].token != #[trigger] s.tokens[j].token
    &&& forall|i: int|
        0 <= i < s.tokens.len() ==> has_subscriber(s.subscribers, #[trigger] s.tokens[i].subscriber_id)
    &&& forall|i: int, j: int|
        0 <= i < j < s.users.len() ==> #[trigger] s.users[i].username != #[trigger] s.users[j].username
    &&& forall|i: int, j: int|
        0 <= i < j < s.users.len() ==> #[trigger] s.users[i].user_id != #[trigger] s.users[j].user_id
}

/// One subscriber row after a confirmation of `id`: its status becomes
/// confirmed, every other row is untouched.
pub open spec fn confirm_one(r: SubscriberView, id: u128) -> SubscriberView {
    if r.id == id {
        SubscriberView { status: SubscriptionStatus::Confirmed, ..r }
    } else {
        r
    }
}

/// The store after the subscriber with `id` is confirmed.
pub open spec fn confirm_view(s: StoreView, id: u128) -> StoreView {
    StoreView {
        subscribers: s.subscribers.map_values(|r: SubscriberView| confirm_one(r, id)),
        tokens: s.tokens,
        users: s.users,
    }
}

/// One user row after a password change of `user_id` to `h`.
pub open spec fn rehash_one(u: UserView, user_id: u128, h: Seq<char>) -> UserView {
    if u.user_id == user_id {
        UserView { password_hash: h, ..u }
    } else {
        u
    }
}

/// The store after the password hash of `user_id` is overwritten with `h`.
pub open spec fn update_hash_view(s: StoreView, user_id: u128, h: Seq<char>) -> StoreView {
    StoreView {
        subscribers: s.subscribers,
        tokens: s.tokens,
        users: s.users.map_values(|u: UserView| rehash_one(u, user_id, h)),
    }
}

/// If a token lookup misses, no stored row carries that token; if it hits,
/// some row carries the token and the returned subscriber id.
pub proof fn lemma_lookup_token_props(tokens: Seq<TokenView>, tok: Seq<char>)
    ensures
        lookup_token(tokens, tok) is None ==> forall|i: int|
            0 <= i < tokens.len() ==> #[trigger] tokens[i].token != tok,
        lookup_token(tokens, tok) matches Some(id) ==> exists|i: int|
            0 <= i < tokens.len() && #[trigger] tokens[i].token == tok && tokens[i].subscriber_id
                == id,
    decreases tokens.len(),
{
    if tokens.len() > 0 && tokens[0].token != tok {
        lemma_lookup_token_props(tokens.drop_first(), tok);
        assert forall|i: int| 0 <= i < tokens.len() && lookup_token(tokens, tok) is None implies #[trigger] tokens[i].token
            != tok by {
            if i > 0 {
                assert(tokens.drop_first()[i - 1] == tokens[i]);
            }
        }
        if lookup_token(tokens, tok) is Some {
            let id = lookup_token(tokens, tok)->Some_0;
            let i = choose|i: int|
                0 <= i < tokens.drop_first().len() && #[trigger] tokens.drop_first()[i].token
                    == tok && tokens.drop_first()[i].subscriber_id == id;
            assert(tokens[i + 1].token == tok && tokens[i + 1].subscriber_id == id);
        }
    }
}

/// The same facts for subscriber lookup by id.
pub proof fn lemma_lookup_subscriber_props(subs: Seq<SubscriberView>, id: u128)
    ensures
        lookup_subscriber(subs, id) is None ==> !has_subscriber(subs, id),
        lookup_subscriber(subs, id) matches Some(r) ==> exists|i: int|
            0 <= i < subs.len() && subs[i] == r && #[trigger] subs[i].id == id,
    decreases subs.len(),
{
    if subs.len() > 0 && subs[0].id != id {
        lemma_lookup_subscriber_props(subs.drop_first(), id);
        if lookup_subscriber(subs, id) is None {
            assert forall|i: int| 0 <= i < subs.len() implies #[trigger] subs[i].id != id by {
                if i > 0 {
                    assert(subs.drop_first()[i - 1] == subs[i]);
                    assert(!has_subscriber(subs.drop_first(), id));
                }
            }
        }
        if lookup_subscriber(subs, id) is Some {
            let r = lookup_subscriber(subs, id)->Some_0;
            let i = choose|i: int|
                0 <= i < subs.drop_first().len() && subs.drop_first()[i] == r
                    && #[trigger] subs.drop_first()[i].id == id;
            assert(subs[i + 1] == r && subs[i + 1].id == id);
        }
    }
}

/// The same facts for user lookup by username.
pub proof fn lemma_lookup_user_props(users: Seq<UserView>, username: Seq<char>)
    ensures
        lookup_user(users, username) is None ==> forall|i: int|
            0 <= i < users.len() ==> #[trigger] users[i].username != username,
        lookup_user(users, username) matches Some(u) ==> exists|i: int|
            0 <= i < users.len() && users[i] == u && #[trigger] users[i].username == username,
    decreases users.len(),
{
    if users.len() > 0 && users[0].username != username {
        lemma_lookup_user_props(users.drop_first(), username);
        assert forall|i: int|
            0 <= i < users.len() && lookup_user(users, username) is None implies #[trigger] users[i].username
            != username by {
            if i > 0 {
                assert(users.drop_first()[i - 1] == users[i]);
            }
        }
        if lookup_user(users, username) is Some {
            let u = lookup_user(users, username)->Some_0;
            let i = choose|i: int|
                0 <= i < users.drop_first().len() && users.drop_first()[i] == u
                    && #[trigger] users.drop_first()[i].username == username;
            assert(users[i + 1] == u && users[i + 1].username == username);
        }
    }
}

/// The same facts for user lookup by id.
pub proof fn lemma_lookup_user_by_id_props(users: Seq<UserView>, user_id: u128)
    ensures
        lookup_user_by_id(users, user_id) is None ==> forall|i: int|
            0 <= i < users.len() ==> #[trigger] users[i].user_id != user_id,
        lookup_user_by_id(users, user_id) matches Some(u) ==> exists|i: int|
            0 <= i < users.len() && users[i] == u && #[trigger] users[i].user_id == user_id,
    decreases users.len(),
{
    if users.len() > 0 && users[0].user_id != user_id {
        lemma_lookup_user_by_id_props(users.drop_first(), user_id);
        assert forall|i: int|
            0 <= i < users.len() && lookup_user_by_id(users, user_id) is None implies #[trigger] users[i].user_id
            != user_id by {
            if i > 0 {
                assert(users.drop_first()[i - 1] == users[i]);
            }
        }
        if lookup_user_by_id(users, user_id) is Some {
            let u = lookup_user_by_id(users, user_id)->Some_0;
            let i = choose|i: int|
                0 <= i < users.drop_first().len() && users.drop_first()[i] == u
                    && #[trigger] users.drop_first()[i].user_id == user_id;
            assert(users[i + 1] == u && users[i + 1].user_id == user_id);
        }
    }
}

/// Under unique usernames, looking the user found by id up again by its
/// username finds the same row.
pub proof fn lemma_lookup_user_by_id_then_name(users: Seq<UserView>, user_id: u128)
    requires
        forall|i: int, j: int|
            0 <= i < j < users.len() ==> #[trigger] users[i].username != #[trigger] users[j].username,
        lookup_user_by_id(users, user_id) is Some,
    ensures
        lookup_user(users, lookup_user_by_id(users, user_id)->Some_0.username) == lookup_user_by_id(
            users,
            user_id,
        ),
{
    let u = lookup_user_by_id(users, user_id)->Some_0;
    lemma_lookup_user_by_id_props(users, user_id);
    let i = choose|i: int| 0 <= i < users.len() && users[i] == u && #[trigger] users[i].user_id == user_id;
    lemma_lookup_user_props(users, u.username);
    if lookup_user(users, u.username) is None {
        assert(users[i].username != u.username);
    }
    let u2 = lookup_user(users, u.username)->Some_0;
    let j = choose|j: int|
        0 <= j < users.len() && users[j] == u2 && #[trigger] users[j].username == u.username;
    if i != j {
        assert(users[i].username != users[j].username);
    }
}

/// A pending write: the staged rows of one subscription, applied to the store
/// atomically at commit or dropped at rollback.
pub struct Transaction {
    pub staged_subscriber: Option<SubscriberRow>,
    pub staged_token: Option<TokenRow>,
}

/// Mathematical model of a transaction.
#[verifier::ext_equal]
pub struct TransactionView {
    pub staged_subscriber: Option<SubscriberView>,
    pub staged_token: Option<TokenView>,
}

impl View for Transaction {
    type V = TransactionView;

    open spec fn view(&self) -> TransactionView {
        TransactionView {
            staged_subscriber: match self.staged_subscriber {
                Some(ref r) => Some(r@),
                None => None,
            },
            staged_token: match self.staged_token {
                Some(ref t) => Some(t@),
                None => None,
            },
        }
    }
}

/// Whether a transaction can commit against store state `s` without breaking
/// a constraint: a staged token needs a staged subscriber it is bound to, the
/// staged subscriber id must be fresh, and the staged token must be unused.
pub open spec fn txn_admissible(s: StoreView, t: TransactionView) -> bool {
    &&& t.staged_token is Some ==> t.staged_subscriber is Some
    &&& (t.staged_subscriber matches Some(sv) ==> !has_subscriber(s.subscribers, sv.id))
    &&& (t.staged_token matches Some(tv) ==> lookup_token(s.tokens, tv.token) is None)
    &&& match (t.staged_token, t.staged_subscriber) {
        (Some(tv), Some(sv)) => tv.subscriber_id == sv.id,
        _ => true,
    }
}

/// The store after a transaction is applied: staged rows are appended.
pub open spec fn apply_txn(s: StoreView, t: TransactionView) -> StoreView {
    StoreView {
        subscribers: match t.staged_subscriber {
            Some(sv) => s.subscribers.push(sv),
            None => s.subscribers,
        },
        tokens: match t.staged_token {
            Some(tv) => s.tokens.push(tv),
            None => s.tokens,
        },
        users: s.users,
    }
}

impl Transaction {
    /// Stages a subscriber row.
    pub fn stage_subscriber(&mut self, row: SubscriberRow)
        ensures
            final(self)@.staged_subscriber == Some(row@),
            final(self)@.staged_token == old(self)@.staged_token,
    {
        self.staged_subscriber = Some(row);
    }

    /// Stages a token row.
    pub fn stage_token(&mut self, row: TokenRow)
        ensures
            final(self)@.staged_token == Some(row@),
            final(self)@.staged_subscriber == old(self)@.staged_subscriber,
    {
        self.staged_token = Some(row);
    }
}

/// The in-memory store.
pub struct Store {
    subscribers: Vec<SubscriberRow>,
    tokens: Vec<TokenRow>,
    users: Vec<UserRow>,
}

impl View for Store {
    type V = StoreView;

    closed spec fn view(&self) -> StoreView {
        StoreView {
            subscribers: self.subscribers@.map_values(|r: SubscriberRow| r@),
            tokens: self.tokens@.map_values(|t: TokenRow| t@),
            users: self.users@.map_values(|u: UserRow| u@),
        }
    }
}

impl Store {
    /// Well-formedness: the constraints every public operation preserves.
    pub open spec fn wf(&self) -> bool {
        store_wf(self@)
    }

    /// An empty store.
    pub fn new() -> (r: Store)
        ensures
            r@.subscribers.len() == 0,
            r@.tokens.len() == 0,
            r@.users.len() == 0,
            r.wf(),
    {
        Store { subscribers: Vec::new(), tokens: Vec::new(), users: Vec::new() }
    }

    /// Opens a transaction with nothing staged.
    pub fn begin(&self) -> (r: Transaction)
        ensures
            r@.staged_subscriber is None,
            r@.staged_token is None,
    {
        Transaction { staged_subscriber: None, staged_token: None }
    }

    /// Number of subscriber rows.
    pub fn subscriber_count(&self) -> (r: usize)
        ensures
            r == self@.subscribers.len(),
    {
        self.subscribers.len()
    }

    /// Number of token rows.
    pub fn token_count(&self) -> (r: usize)
        ensures
            r == self@.tokens.len(),
    {
        self.tokens.len()
    }

    /// Whether a subscriber row with `id` exists.
    pub fn has_subscriber_id(&self, id: u128) -> (r: bool)
        ensures
            r == has_subscriber(self@.subscribers, id),
    {
        let n = self.subscribers.len();
        let mut i: usize = 0;
        proof {
            assert(self@.subscribers.skip(0) =~= self@.subscribers);
        }
        while i < n
            invariant
                n == self.subscribers@.len(),
                i <= n,
                self@.subscribers.len() == n,
                forall|j: int| 0 <= j < i ==> #[trigger] self@.subscribers[j].id != id,
            decreases n - i,
        {
            if self.subscribers[i].id == id {
                assert(self@.subscribers[i as int].id == id);
                return true;
            }
            i += 1;
        }
        false
    }

    /// The subscriber id bound to a stored token.
    pub fn get_subscriber_by_token(&self, subscription_token: &String) -> (r: Option<u128>)
        ensures
            r == lookup_token(self@.tokens, subscription_token@),
    {
        let n = self.tokens.len();
        let mut i: usize = 0;
        proof {
            assert(self@.tokens.skip(0) =~= self@.tokens);
        }
        while i < n
            invariant
                n == self.tokens@.len(),
                i <= n,
                self@.tokens.len() == n,
                lookup_token(self@.tokens, subscription_token@) == lookup_token(
                    self@.tokens.skip(i as int),
                    subscription_token@,
                ),
            decreases n - i,
        {
            proof {
                assert(self@.tokens.skip(i as int)[0] == self@.tokens[i as int]);
                assert(self@.tokens.skip(i as int).drop_first() =~= self@.tokens.skip(i + 1));
            }
            if self.tokens[i].token == *subscription_token {
                return Some(self.tokens[i].subscriber_id);
            }
            i += 1;
        }
        proof {
            assert(self@.tokens.skip(n as int) =~= Seq::<TokenView>::empty());
        }
        None
    }

    /// A copy of the subscriber row with `id`, if it exists.
    pub fn get_subscriber(&self, id: u128) -> (r: Option<SubscriberRow>)
        ensures
            match lookup_subscriber(self@.subscribers, id) {
                Some(sv) => r matches Some(row) && row@ == sv,
                None => r is None,
            },
    {
        let n = self.subscribers.len();
        let mut i: usize = 0;
        proof {
            assert(self@.subscribers.skip(0) =~= self@.subscribers);
        }
        while i < n
            invariant
                n == self.subscribers@.len(),
                i <= n,
                self@.subscribers.len() == n,
                lookup_subscriber(self@.subscribers, id) == lookup_subscriber(
                    self@.subscribers.skip(i as int),
                    id,
                ),
            decreases n - i,
        {
            proof {
                assert(self@.subscribers.skip(i as int)[0] == self@.subscribers[i as int]);
                assert(self@.subscribers.skip(i as int).drop_first() =~= self@.subscribers.skip(
                    i + 1,
                ));
            }
            if self.subscribers[i].id == id {
                return Some(
                    SubscriberRow {
                        id: self.subscribers[i].id,
                        email: self.subscribers[i].email.clone(),
                        name: self.subscribers[i].name.clone(),
                        subscribed_at: self.subscribers[i].subscribed_at,
                        status: self.subscribers[i].status,
                    },
                );
            }
            i += 1;
        }
        proof {
            assert(self@.subscribers.skip(n as int) =~= Seq::<SubscriberView>::empty());
        }
        None
    }


    /// Marks the subscriber with `subscriber_id` as confirmed. Confirming an
    /// already confirmed subscriber, or an id with no row, changes nothing.
    pub fn set_confirmed(&mut self, subscriber_id: u128)
        requires
            old(self).wf(),
        ensures
            final(self)@ == confirm_view(old(self)@, subscriber_id),
            final(self).wf(),
    {
        let n = self.subscribers.len();
        let mut i: usize = 0;
        proof {
            assert(self@.subscribers.skip(0) =~= self@.subscribers);
        }
        while i < n
            invariant
                n == self.subscribers@.len(),
                i <= n,
                self@.subscribers.len() == n,
                self@.tokens == old(self)@.tokens,
                self@.users == old(self)@.users,
                old(self)@.subscribers.len() == n,
                forall|j: int|
                    0 <= j < i ==> #[trigger] self@.subscribers[j] == confirm_one(
                        old(self)@.subscribers[j],
                        subscriber_id,
                    ),
                forall|j: int|
                    i <= j < n ==> #[trigger] self@.subscribers[j] == old(self)@.subscribers[j],
            decreases n - i,
        {
            let ghost prev_subs = self@.subscribers;
            proof {
                assert(self@.subscribers[i as int] == self.subscribers@[i as int]@);
            }
            if self.subscribers[i].id == subscriber_id {
                self.subscribers[i].status = SubscriptionStatus::Confirmed;
            }
            proof {
                assert forall|j: int| 0 <= j < n implies #[trigger] self@.subscribers[j] == (
                if j == i {
                    confirm_one(prev_subs[j], subscriber_id)
                } else {
                    prev_subs[j]
                }) by {
                    assert(self@.subscribers[j] == self.subscribers@[j]@);
                    assert(prev_subs[j] == prev_subs[j]);
                }
            }
            i += 1;
        }
        proof {
            assert(self@.subscribers =~= old(self)@.subscribers.map_values(
                |r: SubscriberView| confirm_one(r, subscriber_id),
            ));
            assert(self@ =~= confirm_view(old(self)@, subscriber_id));
            assert forall|i_: int|
                0 <= i_ < self@.tokens.len() implies has_subscriber(
                self@.subscribers,
                #[trigger] self@.tokens[i_].subscriber_id,
            ) by {
                let target = self@.tokens[i_].subscriber_id;
                assert(has_subscriber(old(self)@.subscribers, target));
                let j = choose|j: int|
                    0 <= j < old(self)@.subscribers.len() && old(self)@.subscribers[j].id == target;
                assert(self@.subscribers[j].id == target);
            }
        }
    }

    /// The stored credential of `username`, if any.
    pub fn get_credential(&self, username: &String) -> (r: Option<StoredCredential>)
        ensures
            match lookup_user(self@.users, username@) {
                Some(u) => r matches Some(c) && c@ == u,
                None => r is None,
            },
    {
        let n = self.users.len();
        let mut i: usize = 0;
        proof {
            assert(self@.users.skip(0) =~= self@.users);
        }
        while i < n
            invariant
                n == self.users@.len(),
                i <= n,
                self@.users.len() == n,
                lookup_user(self@.users, username@) == lookup_user(
                    self@.users.skip(i as int),
                    username@,
                ),
            decreases n - i,
        {
            proof {
                assert(self@.users.skip(i as int)[0] == self@.users[i as int]);
                assert(self@.users.skip(i as int).drop_first() =~= self@.users.skip(i + 1));
            }
            if self.users[i].username == *username {
                return Some(
                    StoredCredential {
                        user_id: self.users[i].user_id,
                        username: self.users[i].username.clone(),
                        password_hash: self.users[i].password_hash.clone(),
                    },
                );
            }
            i += 1;
        }
        proof {
            assert(self@.users.skip(n as int) =~= Seq::<UserView>::empty());
        }
        None
    }

    /// The username of `user_id`, if the row exists.
    pub fn get_username(&self, user_id: u128) -> (r: Option<String>)
        ensures
            match lookup_user_by_id(self@.users, user_id) {
                Some(u) => r matches Some(nm) && nm@ == u.username,
                None => r is None,
            },
    {
        let n = self.users.len();
        let mut i: usize = 0;
        proof {
            assert(self@.users.skip(0) =~= self@.users);
        }
        while i < n
            invariant
                n == self.users@.len(),
                i <= n,
                self@.users.len() == n,
                lookup_user_by_id(self@.users, user_id) == lookup_user_by_id(
                    self@.users.skip(i as int),
                    user_id,
                ),
            decreases n - i,
        {
            proof {
                assert(self@.users.skip(i as int)[0] == self@.users[i as int]);
                assert(self@.users.skip(i as int).drop_first() =~= self@.users.skip(i + 1));
            }
            if self.users[i].user_id == user_id {
                return Some(self.users[i].username.clone());
            }
            i += 1;
        }
        proof {
            assert(self@.users.skip(n as int) =~= Seq::<UserView>::empty());
        }
        None
    }

    /// Adds a user row; refused when the username or the user id is taken.
    pub fn add_user(&mut self, user_id: u128, username: String, password_hash: String) -> (r:
        Result<(), StoreError>)
        requires
            old(self).wf(),
        ensures
            final(self).wf(),
            r is Ok <==> (lookup_user(old(self)@.users, username@) is None && lookup_user_by_id(
                old(self)@.users,
                user_id,
            ) is None),
            r is Ok ==> final(self)@ == (StoreView {
                users: old(self)@.users.push(
                    (UserView { user_id, username: username@, password_hash: password_hash@ }),
                ),
                ..old(self)@
            }),
            r is Err ==> final(self)@ == old(self)@,
    {
        let by_name = self.get_credential(&username);
        let by_id = self.get_username(user_id);
        if by_name.is_some() || by_id.is_some() {
            return Err(StoreError::ConstraintViolation);
        }
        proof {
            lemma_lookup_user_props(self@.users, username@);
            lemma_lookup_user_by_id_props(self@.users, user_id);
        }
        let ghost old_view = self@;
        self.users.push(UserRow { user_id, username, password_hash });
        proof {
            assert(self@.users =~= old_view.users.push(
                UserView { user_id, username: username@, password_hash: password_hash@ },
            ));
            assert(self@ =~= (StoreView {
                users: old_view.users.push(
                    UserView { user_id, username: username@, password_hash: password_hash@ },
                ),
                ..old_view
            }));
        }
        Ok(())
    }

    /// Overwrites the password hash of `user_id`; refused when no such user
    /// exists.
    pub fn update_password_hash(&mut self, user_id: u128, password_hash: String) -> (r: Result<
        (),
        StoreError,
    >)
        requires
            old(self).wf(),
        ensures
            final(self).wf(),
            r is Ok <==> lookup_user_by_id(old(self)@.users, user_id) is Some,
            r is Ok ==> final(self)@ == update_hash_view(old(self)@, user_id, password_hash@),
            r is Err ==> final(self)@ == old(self)@,
    {
        let n = self.users.len();
        let mut i: usize = 0;
        let mut found = false;
        while i < n
            invariant
                n == self.users@.len(),
                i <= n,
                self@.users.len() == n,
                self@.subscribers == old(self)@.subscribers,
                self@.tokens == old(self)@.tokens,
                old(self)@.users.len() == n,
                found == exists|j: int| 0 <= j < i && #[trigger] old(self)@.users[j].user_id == user_id,
                forall|j: int|
                    0 <= j < i ==> #[trigger] self@.users[j] == rehash_one(
                        old(self)@.users[j],
                        user_id,
                        password_hash@,
                    ),
                forall|j: int| i <= j < n ==> #[trigger] self@.users[j] == old(self)@.users[j],
            decreases n - i,
        {
            let ghost prev_users = self@.users;
            proof {
                assert(self@.users[i as int] == self.users@[i as int]@);
            }
            if self.users[i].user_id == user_id {
                self.users[i].password_hash = password_hash.clone();
                found = true;
            }
            proof {
                assert forall|j: int| 0 <= j < n implies #[trigger] self@.users[j] == (
                if j == i {
                    rehash_one(prev_users[j], user_id, password_hash@)
                } else {
                    prev_users[j]
                }) by {
                    assert(self@.users[j] == self.users@[j]@);
                    assert(prev_users[j] == prev_users[j]);
                }
                assert(old(self)@.users[i as int].user_id == prev_users[i as int].user_id);
            }
            i += 1;
        }
        proof {
            lemma_lookup_user_by_id_props(old(self)@.users, user_id);
        }
        if found {
            proof {
                assert(self@.users =~= old(self)@.users.map_values(
                    |u: UserView| rehash_one(u, user_id, password_hash@),
                ));
                assert(self@ =~= update_hash_view(old(self)@, user_id, password_hash@));
            }
            Ok(())
        } else {
            proof {
                assert(self@.users =~= old(self)@.users);
                assert(self@ =~= old(self)@);
            }
            Err(StoreError::NotFound)
        }
    }

    /// Commits a transaction: appends the staged rows atomically, after
    /// re-checking every constraint; on a violation nothing is applied.
    pub fn commit(&mut self, txn: Transaction) -> (r: Result<(), StoreError>)
        requires
            old(self).wf(),
        ensures
            final(self).wf(),
            r is Ok <==> txn_admissible(old(self)@, txn@),
            r is Ok ==> final(self)@ == apply_txn(old(self)@, txn@),
            r is Err ==> final(self)@ == old(self)@,
    {
        let admissible: bool = match (&txn.staged_subscriber, &txn.staged_token) {
            (None, Some(_)) => false,
            (None, None) => true,
            (Some(sub), None) => !self.has_subscriber_id(sub.id),
            (Some(sub), Some(tok)) => {
                let id_fresh = !self.has_subscriber_id(sub.id);
                let tok_fresh = self.get_subscriber_by_token(&tok.token).is_none();
                id_fresh && tok_fresh && tok.subscriber_id == sub.id
            },
        };
        if !admissible {
            return Err(StoreError::ConstraintViolation);
        }
        let ghost old_view = self@;
        let ghost txn_view = txn@;
        let Transaction { staged_subscriber, staged_token } = txn;
        if let Some(row) = staged_subscriber {
            self.subscribers.push(row);
        }
        if let Some(row) = staged_token {
            self.tokens.push(row);
        }
        proof {
            assert(self@ =~= apply_txn(old_view, txn_view));
            let applied = apply_txn(old_view, txn_view);
            if txn_view.staged_subscriber is Some {
                let sv = txn_view.staged_subscriber->Some_0;
                assert forall|i: int, j: int|
                    0 <= i < j < applied.subscribers.len() implies #[trigger] applied.subscribers[i].id
                    != #[trigger] applied.subscribers[j].id by {
                    if j == applied.subscribers.len() - 1 {
                        assert(applied.subscribers[i] == old_view.subscribers[i]);
                        assert(!has_subscriber(old_view.subscribers, sv.id));
                    }
                }
            }
            if txn_view.staged_token is Some {
                let tv = txn_view.staged_token->Some_0;
                lemma_lookup_token_props(old_view.tokens, tv.token);
                assert forall|i: int, j: int|
                    0 <= i < j < applied.tokens.len() implies #[trigger] applied.tokens[i].token
                    != #[trigger] applied.tokens[j].token by {
                    if j == applied.tokens.len() - 1 {
                        assert(applied.tokens[i] == old_view.tokens[i]);
                    }
                }
            }
            assert forall|i: int|
                0 <= i < applied.tokens.len() implies has_subscriber(
                applied.subscribers,
                #[trigger] applied.tokens[i].subscriber_id,
            ) by {
                if i < old_view.tokens.len() {
                    assert(has_subscriber(old_view.subscribers, old_view.tokens[i].subscriber_id));
                    let j = choose|j: int|
                        0 <= j < old_view.subscribers.len() && old_view.subscribers[j].id
                            == old_view.tokens[i].subscriber_id;
                    assert(applied.subscribers[j].id == applied.tokens[i].subscriber_id);
                } else {
                    let sv = txn_view.staged_subscriber->Some_0;
                    assert(applied.subscribers[applied.subscribers.len() - 1] == sv);
                }
            }
        }
        Ok(())
    }
}

} // verus!
