//! The transactional persistence boundary, realized in memory: subscriber
//! rows and confirmation-token rows, a staged transaction that commits both
//! rows together or not at all, a point lookup by token, and the
//! pending-to-confirmed status transition.
//!
//! The backing storage collaborator can fail on any operation; since memory
//! itself cannot, every operation takes the collaborator's health for this
//! call as a `fault` argument, exactly as fault-injection exercises it.

use vstd::prelude::*;
use vstd::string::StringExecFns;

use crate::error::StorageError;
use crate::text::str_eq;

verus! {

/// Status of a subscriber row. Only ever transitions
/// `PendingConfirmation -> Confirmed`; never reverses, never skips.
#[derive(Clone, Copy, Debug, PartialEq, Eq, Structural)]
pub enum SubscriberStatus {
    PendingConfirmation,
    Confirmed,
}

/// One subscriber row.
#[derive(Debug, Clone)]
pub struct SubscriberRecord {
    pub id: u128,
    pub email: String,
    pub name: String,
    pub subscribed_at: i64,
    pub status: SubscriberStatus,
}

/// The view of a [`SubscriberRecord`].
#[verifier::ext_equal]
pub ghost struct SubscriberModel {
    pub id: u128,
    pub email: Seq<char>,
    pub name: Seq<char>,
    pub subscribed_at: i64,
    pub status: SubscriberStatus,
}

impl View for SubscriberRecord {
    type V = SubscriberModel;

    open spec fn view(&self) -> SubscriberModel {
        SubscriberModel {
            id: self.id,
            email: self.email@,
            name: self.name@,
            subscribed_at: self.subscribed_at,
            status: self.status,
        }
    }
}

/// One confirmation-token row, back-referencing exactly one subscriber.
#[derive(Debug, Clone)]
pub struct TokenRecord {
    pub token: String,
    pub subscriber_id: u128,
}

/// The view of a [`TokenRecord`].
#[verifier::ext_equal]
pub ghost struct TokenModel {
    pub token: Seq<char>,
    pub subscriber_id: u128,
}

impl View for TokenRecord {
    type V = TokenModel;

    open spec fn view(&self) -> TokenModel {
        TokenModel { token: self.token@, subscriber_id: self.subscriber_id }
    }
}

/// The view of a [`Store`]: the two logical tables.
#[verifier::ext_equal]
pub ghost struct StoreModel {
    pub subscribers: Seq<SubscriberModel>,
    pub tokens: Seq<TokenModel>,
}

/// The subscriber id of the first token row whose token string equals `q`,
/// in row order.
pub open spec fn first_token_match(tokens: Seq<TokenModel>, q: Seq<char>) -> Option<u128>
    decreases tokens.len(),
{
    if tokens.len() == 0 {
        None
    } else if tokens[0].token == q {
        Some(tokens[0].subscriber_id)
    } else {
        first_token_match(tokens.drop_first(), q)
    }
}

/// How many token rows reference subscriber `id`.
pub open spec fn token_count_for(tokens: Seq<TokenModel>, id: u128) -> nat
    decreases tokens.len(),
{
    if tokens.len() == 0 {
        0
    } else {
        token_count_for(tokens.drop_last(), id) + (if tokens.last().subscriber_id == id {
            1nat
        } else {
            0nat
        })
    }
}

/// How many subscriber rows carry the email `email`.
pub open spec fn email_count(subscribers: Seq<SubscriberModel>, email: Seq<char>) -> nat
    decreases subscribers.len(),
{
    if subscribers.len() == 0 {
        0
    } else {
        email_count(subscribers.drop_last(), email) + (if subscribers.last().email == email {
            1nat
        } else {
            0nat
        })
    }
}

impl StoreModel {
    pub open spec fn empty() -> StoreModel {
        StoreModel { subscribers: Seq::empty(), tokens: Seq::empty() }
    }

    pub open spec fn has_subscriber(self, id: u128) -> bool {
        exists|i: int|
            0 <= i < self.subscribers.len() && (#[trigger] self.subscribers[i]).id == id
    }

    /// The index of the subscriber row with id `id`; meaningful only when
    /// `has_subscriber(id)` holds and ids are distinct.
    pub open spec fn subscriber_index(self, id: u128) -> int {
        choose|i: int|
            0 <= i < self.subscribers.len() && (#[trigger] self.subscribers[i]).id == id
    }

    pub open spec fn subscriber(self, id: u128) -> SubscriberModel {
        self.subscribers[self.subscriber_index(id)]
    }

    pub open spec fn status_of(self, id: u128) -> SubscriberStatus {
        self.subscriber(id).status
    }

    /// The point lookup by token: the first matching row, `None` if unknown.
    pub open spec fn lookup_token(self, q: Seq<char>) -> Option<u128> {
        first_token_match(self.tokens, q)
    }

    /// Both rows of one subscription appended together.
    pub open spec fn with_subscription(
        self,
        id: u128,
        email: Seq<char>,
        name: Seq<char>,
        at: i64,
        token: Seq<char>,
    ) -> StoreModel {
        StoreModel {
            subscribers: self.subscribers.push(
                SubscriberModel {
                    id,
                    email,
                    name,
                    subscribed_at: at,
                    status: SubscriberStatus::PendingConfirmation,
                },
            ),
            tokens: self.tokens.push(TokenModel { token, subscriber_id: id }),
        }
    }

    /// The status transition: every row with id `id` becomes `Confirmed`;
    /// everything else is untouched.
    pub open spec fn with_confirmed(self, id: u128) -> StoreModel {
        StoreModel {
            subscribers: self.subscribers.map_values(
                |s: SubscriberModel|
                    if s.id == id {
                        SubscriberModel {
                            id: s.id,
                            email: s.email,
                            name: s.name,
                            subscribed_at: s.subscribed_at,
                            status: SubscriberStatus::Confirmed,
                        }
                    } else {
                        s
                    },
            ),
            tokens: self.tokens,
        }
    }

    /// The store's invariant: subscriber ids are distinct, every token row
    /// references an existing subscriber, and every subscriber created
    /// through this workflow has exactly one token row.
    pub open spec fn well_formed(self) -> bool {
        &&& forall|i: int, j: int|
            0 <= i < j < self.subscribers.len() ==> (#[trigger] self.subscribers[i]).id != (
            #[trigger] self.subscribers[j]).id
        &&& forall|i: int|
            0 <= i < self.tokens.len() ==> self.has_subscriber(
                (#[trigger] self.tokens[i]).subscriber_id,
            )
        &&& forall|i: int|
            0 <= i < self.subscribers.len() ==> token_count_for(
                self.tokens,
                (#[trigger] self.subscribers[i]).id,
            ) == 1
    }
}

pub proof fn lemma_token_count_push(tokens: Seq<TokenModel>, t: TokenModel, id: u128)
    ensures
        token_count_for(tokens.push(t), id) == token_count_for(tokens, id) + (
        if t.subscriber_id == id {
            1nat
        } else {
            0nat
        }),
{
    assert(tokens.push(t).drop_last() =~= tokens);
    assert(tokens.push(t).last() == t);
}

pub proof fn lemma_first_match_none(tokens: Seq<TokenModel>, q: Seq<char>)
    requires
        forall|j: int| 0 <= j < tokens.len() ==> (#[trigger] tokens[j]).token != q,
    ensures
        first_token_match(tokens, q) is None,
    decreases tokens.len(),
{
    if tokens.len() > 0 {
        lemma_first_match_none(tokens.drop_first(), q);
    }
}

pub proof fn lemma_first_match_at(tokens: Seq<TokenModel>, q: Seq<char>, i: int)
    requires
        0 <= i < tokens.len(),
        forall|j: int| 0 <= j < i ==> (#[trigger] tokens[j]).token != q,
        tokens[i].token == q,
    ensures
        first_token_match(tokens, q) == Some(tokens[i].subscriber_id),
    decreases i,
{
    if i > 0 {
        lemma_first_match_at(tokens.drop_first(), q, i - 1);
    }
}

/// Appending a token row leaves an earlier match in place; when the token
/// string was unknown, the lookup now finds the new row.
pub proof fn lemma_first_match_push(tokens: Seq<TokenModel>, t: TokenModel, q: Seq<char>)
    ensures
        first_token_match(tokens.push(t), q) == (if first_token_match(tokens, q) is Some {
            first_token_match(tokens, q)
        } else if t.token == q {
            Some(t.subscriber_id)
        } else {
            None::<u128>
        }),
    decreases tokens.len(),
{
    if tokens.len() == 0 {
        assert(tokens.push(t).len() == 1);
        assert(tokens.push(t)[0] == t);
        assert(tokens.push(t).drop_first() =~= Seq::<TokenModel>::empty());
        assert(first_token_match(tokens, q) is None);
        if t.token == q {
            assert(first_token_match(tokens.push(t), q) == Some(t.subscriber_id));
        } else {
            assert(first_token_match(tokens.push(t), q) == first_token_match(
                tokens.push(t).drop_first(),
                q,
            ));
            assert(first_token_match(tokens.push(t), q) is None);
        }
    } else {
        assert(tokens.push(t)[0] == tokens[0]);
        assert(tokens.push(t).drop_first() =~= tokens.drop_first().push(t));
        lemma_first_match_push(tokens.drop_first(), t, q);
        if tokens[0].token == q {
            assert(first_token_match(tokens, q) == Some(tokens[0].subscriber_id));
            assert(first_token_match(tokens.push(t), q) == Some(tokens[0].subscriber_id));
        } else {
            assert(first_token_match(tokens, q) == first_token_match(tokens.drop_first(), q));
            assert(first_token_match(tokens.push(t), q) == first_token_match(
                tokens.drop_first().push(t),
                q,
            ));
        }
    }
}

/// A successful token lookup names the subscriber of some matching row.
pub proof fn lemma_first_match_row(tokens: Seq<TokenModel>, q: Seq<char>)
    requires
        first_token_match(tokens, q) is Some,
    ensures
        exists|i: int|
            0 <= i < tokens.len() && (#[trigger] tokens[i]).token == q && tokens[i].subscriber_id
                == first_token_match(tokens, q)->0,
    decreases tokens.len(),
{
    if tokens.len() > 0 && tokens[0].token != q {
        lemma_first_match_row(tokens.drop_first(), q);
        let i = choose|i: int|
            0 <= i < tokens.drop_first().len() && (#[trigger] tokens.drop_first()[i]).token == q
                && tokens.drop_first()[i].subscriber_id == first_token_match(
                tokens.drop_first(),
                q,
            )->0;
        assert(tokens[i + 1] == tokens.drop_first()[i]);
    }
}

/// After the status transition the subscriber still exists and is confirmed.
pub proof fn lemma_with_confirmed_status(s: StoreModel, id: u128)
    requires
        s.has_subscriber(id),
    ensures
        s.with_confirmed(id).has_subscriber(id),
        s.with_confirmed(id).status_of(id) == SubscriberStatus::Confirmed,
{
    let sc = s.with_confirmed(id);
    let w = choose|i: int|
        0 <= i < s.subscribers.len() && (#[trigger] s.subscribers[i]).id == id;
    assert(sc.subscribers[w].id == id);
    assert(sc.has_subscriber(id));
    let k = sc.subscriber_index(id);
    assert(0 <= k < sc.subscribers.len() && sc.subscribers[k].id == id);
    assert(s.subscribers[k].id == id);
}

/// The freshly committed subscriber is present, pending, and carries the
/// email, name and timestamp it was created with.
pub proof fn lemma_with_subscription_status(
    s: StoreModel,
    id: u128,
    email: Seq<char>,
    name: Seq<char>,
    at: i64,
    token: Seq<char>,
)
    requires
        !s.has_subscriber(id),
    ensures
        s.with_subscription(id, email, name, at, token).has_subscriber(id),
        s.with_subscription(id, email, name, at, token).subscriber(id) == (SubscriberModel {
            id,
            email,
            name,
            subscribed_at: at,
            status: SubscriberStatus::PendingConfirmation,
        }),
{
    let s1 = s.with_subscription(id, email, name, at, token);
    let n = s.subscribers.len() as int;
    assert(s1.subscribers[n].id == id);
    assert(s1.has_subscriber(id));
    let k = s1.subscriber_index(id);
    assert(0 <= k < s1.subscribers.len() && s1.subscribers[k].id == id);
    if k < n {
        assert(s.subscribers[k].id == id);
        assert(false);
    }
}

/// Appending one subscription whose id is fresh keeps the store invariant.
pub proof fn lemma_with_subscription_well_formed(
    s: StoreModel,
    id: u128,
    email: Seq<char>,
    name: Seq<char>,
    at: i64,
    token: Seq<char>,
)
    requires
        s.well_formed(),
        !s.has_subscriber(id),
    ensures
        s.with_subscription(id, email, name, at, token).well_formed(),
{
    let s1 = s.with_subscription(id, email, name, at, token);
    let t = TokenModel { token, subscriber_id: id };
    assert forall|i: int| 0 <= i < s1.tokens.len() implies s1.has_subscriber(
        (#[trigger] s1.tokens[i]).subscriber_id,
    ) by {
        if i < s.tokens.len() {
            let sid = s.tokens[i].subscriber_id;
            let k = choose|k: int|
                0 <= k < s.subscribers.len() && (#[trigger] s.subscribers[k]).id == sid;
            assert(s1.subscribers[k].id == sid);
        } else {
            assert(s1.subscribers[s.subscribers.len() as int].id == id);
        }
    }
    assert forall|i: int| 0 <= i < s1.subscribers.len() implies token_count_for(
        s1.tokens,
        (#[trigger] s1.subscribers[i]).id,
    ) == 1 by {
        let sid = s1.subscribers[i].id;
        lemma_token_count_push(s.tokens, t, sid);
        if i < s.subscribers.len() {
            // the old subscriber keeps its one token: the new row cannot
            // reference it because `id` is fresh
            assert(sid != id);
        } else {
            // the new subscriber has exactly the new token row
            assert(sid == id);
            lemma_token_count_of_absent(s, id);
        }
    }
}

/// A subscriber id absent from a well-formed store has no token rows.
proof fn lemma_token_count_of_absent(s: StoreModel, id: u128)
    requires
        s.well_formed(),
        !s.has_subscriber(id),
    ensures
        token_count_for(s.tokens, id) == 0,
{
    lemma_token_count_zero_when_unreferenced(s.tokens, id);
}

proof fn lemma_token_count_zero_when_unreferenced(tokens: Seq<TokenModel>, id: u128)
    requires
        forall|j: int| 0 <= j < tokens.len() ==> (#[trigger] tokens[j]).subscriber_id != id,
    ensures
        token_count_for(tokens, id) == 0,
    decreases tokens.len(),
{
    if tokens.len() > 0 {
        assert(forall|j: int|
            0 <= j < tokens.drop_last().len() ==> (#[trigger] tokens.drop_last()[j]).subscriber_id
                != id);
        lemma_token_count_zero_when_unreferenced(tokens.drop_last(), id);
    }
}

/// The status transition keeps the store invariant: ids, token rows and the
/// pairing are all untouched.
pub proof fn lemma_with_confirmed_well_formed(s: StoreModel, id: u128)
    requires
        s.well_formed(),
    ensures
        s.with_confirmed(id).well_formed(),
        s.with_confirmed(id).subscribers.len() == s.subscribers.len(),
        forall|i: int|
            0 <= i < s.subscribers.len() ==> (#[trigger] s.with_confirmed(
                id,
            ).subscribers[i]).id == s.subscribers[i].id,
{
    let s1 = s.with_confirmed(id);
    assert forall|i: int| 0 <= i < s1.tokens.len() implies s1.has_subscriber(
        (#[trigger] s1.tokens[i]).subscriber_id,
    ) by {
        let sid = s.tokens[i].subscriber_id;
        let k = choose|k: int|
            0 <= k < s.subscribers.len() && (#[trigger] s.subscribers[k]).id == sid;
        assert(s1.subscribers[k].id == sid);
    }
}

/// The in-memory store: the `subscriptions` and `subscription_tokens` tables.
#[derive(Debug)]
pub struct Store {
    subscribers: Vec<SubscriberRecord>,
    tokens: Vec<TokenRecord>,
}

impl View for Store {
    type V = StoreModel;

    closed spec fn view(&self) -> StoreModel {
        StoreModel {
            subscribers: self.subscribers@.map_values(|r: SubscriberRecord| r@),
            tokens: self.tokens@.map_values(|r: TokenRecord| r@),
        }
    }
}

/// A staged unit of work: the subscriber row and its token row are held
/// here until [`Store::commit`] makes both durable together. Dropping the
/// transaction without committing is a rollback and leaves the store as it
/// was.
#[derive(Debug)]
pub struct StoreTransaction {
    subscriber: Option<SubscriberRecord>,
    token: Option<TokenRecord>,
}

/// The view of a [`StoreTransaction`]: what has been staged so far.
#[verifier::ext_equal]
pub ghost struct TransactionModel {
    pub subscriber: Option<SubscriberModel>,
    pub token: Option<TokenModel>,
}

impl View for StoreTransaction {
    type V = TransactionModel;

    closed spec fn view(&self) -> TransactionModel {
        TransactionModel {
            subscriber: match self.subscriber {
                Some(r) => Some(r@),
                None => None,
            },
            token: match self.token {
                Some(r) => Some(r@),
                None => None,
            },
        }
    }
}

impl Store {
    /// An empty store; trivially well-formed.
    pub fn new() -> (s: Store)
        ensures
            s@ == StoreModel::empty(),
            s@.well_formed(),
    {
        let s = Store { subscribers: Vec::new(), tokens: Vec::new() };
        proof {
            assert(s@ =~= StoreModel::empty());
        }
        s
    }

    /// Opens a unit of work with nothing staged yet.
    pub fn begin(&self) -> (tx: StoreTransaction)
        ensures
            tx@.subscriber is None,
            tx@.token is None,
    {
        StoreTransaction { subscriber: None, token: None }
    }

    /// Makes the staged subscriber row and token row durable together, or —
    /// on a storage fault — rolls the whole unit of work back. No reader
    /// ever observes one row without the other.
    pub fn commit(&mut self, tx: StoreTransaction, fault: bool) -> (r: Result<(), StorageError>)
        requires
            old(self)@.well_formed(),
            tx@.subscriber is Some,
            tx@.token is Some,
            tx@.token->0.subscriber_id == tx@.subscriber->0.id,
            tx@.subscriber->0.status is PendingConfirmation,
            !old(self)@.has_subscriber(tx@.subscriber->0.id),
        ensures
            r is Err <==> fault,
            fault ==> final(self)@ == old(self)@,
            !fault ==> final(self)@ == old(self)@.with_subscription(
                tx@.subscriber->0.id,
                tx@.subscriber->0.email,
                tx@.subscriber->0.name,
                tx@.subscriber->0.subscribed_at,
                tx@.token->0.token,
            ),
            final(self)@.well_formed(),
    {
        if fault {
            return Err(StorageError);
        }
        let StoreTransaction { subscriber, token } = tx;
        let sub = match subscriber {
            Some(s) => s,
            None => {
                return vstd::pervasive::unreached();
            },
        };
        let tok = match token {
            Some(t) => t,
            None => {
                return vstd::pervasive::unreached();
            },
        };
        let ghost pre = self@;
        self.subscribers.push(sub);
        self.tokens.push(tok);
        proof {
            assert(self@.subscribers =~= pre.subscribers.push(
                SubscriberModel {
                    id: sub.id,
                    email: sub.email@,
                    name: sub.name@,
                    subscribed_at: sub.subscribed_at,
                    status: sub.status,
                },
            ));
            assert(self@.tokens =~= pre.tokens.push(
                TokenModel { token: tok.token@, subscriber_id: tok.subscriber_id },
            ));
            assert(self@ =~= pre.with_subscription(
                sub.id,
                sub.email@,
                sub.name@,
                sub.subscribed_at,
                tok.token@,
            ));
            lemma_with_subscription_well_formed(
                pre,
                sub.id,
                sub.email@,
                sub.name@,
                sub.subscribed_at,
                tok.token@,
            );
        }
        Ok(())
    }

    /// The point lookup by token. Returns `Ok(None)` (not an error) when the
    /// token is unknown, distinguishing "not found" from a storage fault.
    pub fn find_subscriber_id_by_token(&self, token: &str, fault: bool) -> (r: Result<
        Option<u128>,
        StorageError,
    >)
        ensures
            r is Err <==> fault,
            !fault ==> r == Ok::<_, StorageError>(self@.lookup_token(token@)),
    {
        if fault {
            return Err(StorageError);
        }
        let n = self.tokens.len();
        let mut i: usize = 0;
        while i < n
            invariant
                !fault,
                n == self.tokens.len(),
                i <= n,
                self@.tokens.len() == n,
                forall|j: int| 0 <= j < i ==> (#[trigger] self@.tokens[j]).token != token@,
            decreases n - i,
        {
            proof {
                assert(self@.tokens[i as int] == self.tokens@[i as int]@);
            }
            if str_eq(self.tokens[i].token.as_str(), token) {
                let id = self.tokens[i].subscriber_id;
                proof {
                    assert(self@.tokens[i as int].token == token@);
                    lemma_first_match_at(self@.tokens, token@, i as int);
                }
                return Ok(Some(id));
            }
            i += 1;
        }
        proof {
            lemma_first_match_none(self@.tokens, token@);
        }
        Ok(None)
    }

    /// Updates the status to `Confirmed` unconditionally if the subscriber
    /// exists; idempotent, and not an error when the id matches no row.
    pub fn mark_confirmed(&mut self, id: u128, fault: bool) -> (r: Result<(), StorageError>)
        requires
            old(self)@.well_formed(),
        ensures
            r is Err <==> fault,
            fault ==> final(self)@ == old(self)@,
            !fault ==> final(self)@ == old(self)@.with_confirmed(id),
            final(self)@.well_formed(),
    {
        if fault {
            return Err(StorageError);
        }
        let ghost pre = self@;
        let n = self.subscribers.len();
        let mut i: usize = 0;
        while i < n
            invariant
                n == self.subscribers.len(),
                i <= n,
                self@.tokens == pre.tokens,
                self@.subscribers.len() == pre.subscribers.len(),
                forall|j: int|
                    0 <= j < n ==> #[trigger] self@.subscribers[j] == (
                    if j < i {
                        pre.with_confirmed(id).subscribers[j]
                    } else {
                        pre.subscribers[j]
                    }),
            decreases n - i,
        {
            let ghost snap = self@;
            if self.subscribers[i].id == id {
                self.subscribers[i].status = SubscriberStatus::Confirmed;
                proof {
                    let updated = SubscriberModel {
                        id: snap.subscribers[i as int].id,
                        email: snap.subscribers[i as int].email,
                        name: snap.subscribers[i as int].name,
                        subscribed_at: snap.subscribers[i as int].subscribed_at,
                        status: SubscriberStatus::Confirmed,
                    };
                    assert(self@.subscribers =~= snap.subscribers.update(i as int, updated));
                }
            }
            proof {
                assert forall|j: int| 0 <= j < n implies #[trigger] self@.subscribers[j] == (
                if j < i + 1 {
                    pre.with_confirmed(id).subscribers[j]
                } else {
                    pre.subscribers[j]
                }) by {
                    if j == i {
                        assert(snap.subscribers[j] == pre.subscribers[j]);
                        assert(pre.with_confirmed(id).subscribers[j] == (
                        if pre.subscribers[j].id == id {
                            SubscriberModel {
                                id: pre.subscribers[j].id,
                                email: pre.subscribers[j].email,
                                name: pre.subscribers[j].name,
                                subscribed_at: pre.subscribers[j].subscribed_at,
                                status: SubscriberStatus::Confirmed,
                            }
                        } else {
                            pre.subscribers[j]
                        }));
                    }
                }
            }
            i += 1;
        }
        proof {
            assert(self@ =~= pre.with_confirmed(id));
            lemma_with_confirmed_well_formed(pre, id);
        }
        Ok(())
    }

    /// How many subscriber rows there are.
    pub fn subscriber_count(&self) -> (n: usize)
        ensures
            n == self@.subscribers.len(),
    {
        self.subscribers.len()
    }

    /// How many subscriber rows carry this email. The store does not
    /// deduplicate by email: repeated subscriptions each add a row.
    pub fn count_with_email(&self, email: &str) -> (n: usize)
        ensures
            n == email_count(self@.subscribers, email@),
    {
        let len = self.subscribers.len();
        let mut i: usize = 0;
        let mut n: usize = 0;
        while i < len
            invariant
                len == self.subscribers.len(),
                i <= len,
                self@.subscribers.len() == len,
                n == email_count(self@.subscribers.take(i as int), email@),
                n <= i,
            decreases len - i,
        {
            proof {
                lemma_email_count_take_step(self@.subscribers, email@, i as int);
            }
            if str_eq(self.subscribers[i].email.as_str(), email) {
                n += 1;
            }
            i += 1;
        }
        proof {
            assert(self@.subscribers.take(len as int) =~= self@.subscribers);
        }
        n
    }

    /// The status of the subscriber with this id, `None` if there is none.
    pub fn status_of(&self, id: u128) -> (r: Option<SubscriberStatus>)
        requires
            self@.well_formed(),
        ensures
            r == (if self@.has_subscriber(id) {
                Some(self@.status_of(id))
            } else {
                None::<SubscriberStatus>
            }),
    {
        let n = self.subscribers.len();
        let mut i: usize = 0;
        while i < n
            invariant
                n == self.subscribers.len(),
                i <= n,
                self@.subscribers.len() == n,
                self@.well_formed(),
                forall|j: int| 0 <= j < i ==> (#[trigger] self@.subscribers[j]).id != id,
            decreases n - i,
        {
            if self.subscribers[i].id == id {
                proof {
                    let k = self@.subscriber_index(id);
                    assert(self@.subscribers[i as int].id == id);
                    assert(0 <= k < self@.subscribers.len() && self@.subscribers[k].id == id);
                    if k != i as int {
                        assert(false);
                    }
                }
                return Some(self.subscribers[i].status);
            }
            i += 1;
        }
        None
    }
}

proof fn lemma_email_count_take_step(subscribers: Seq<SubscriberModel>, email: Seq<char>, i: int)
    requires
        0 <= i < subscribers.len(),
    ensures
        email_count(subscribers.take(i + 1), email) == email_count(subscribers.take(i), email) + (
        if subscribers[i].email == email {
            1nat
        } else {
            0nat
        }),
{
    lemma_email_count_push(subscribers.take(i), subscribers[i], email);
    assert(subscribers.take(i + 1) =~= subscribers.take(i).push(subscribers[i]));
}

proof fn lemma_email_count_push(subscribers: Seq<SubscriberModel>, s: SubscriberModel, email: Seq<char>)
    ensures
        email_count(subscribers.push(s), email) == email_count(subscribers, email) + (
        if s.email == email {
            1nat
        } else {
            0nat
        }),
{
    assert(subscribers.push(s).drop_last() =~= subscribers);
    assert(subscribers.push(s).last() == s);
}

impl StoreTransaction {
    /// Assigns the given fresh identifier and stages a subscriber row in
    /// status `PendingConfirmation` carrying the current time. Fails — with
    /// nothing staged — on a storage fault or when the id would violate the
    /// id constraint of the subscriber table.
    pub fn create_pending_subscriber(
        &mut self,
        store: &Store,
        id: u128,
        email: &str,
        name: &str,
        now: i64,
        fault: bool,
    ) -> (r: Result<u128, StorageError>)
        requires
            old(self)@.subscriber is None,
            old(self)@.token is None,
        ensures
            r is Err <==> (fault || store@.has_subscriber(id)),
            r is Err ==> final(self)@ == old(self)@,
            r matches Ok(rid) ==> rid == id && final(self)@.subscriber == Some(
                SubscriberModel {
                    id,
                    email: email@,
                    name: name@,
                    subscribed_at: now,
                    status: SubscriberStatus::PendingConfirmation,
                },
            ) && final(self)@.token is None,
    {
        if fault || store.has_subscriber_with_id(id) {
            proof {
                assert(final(self)@ =~= old(self)@);
            }
            return Err(StorageError);
        }
        self.subscriber = Some(
            SubscriberRecord {
                id,
                email: String::from_str(email),
                name: String::from_str(name),
                subscribed_at: now,
                status: SubscriberStatus::PendingConfirmation,
            },
        );
        Ok(id)
    }

    /// Stages the confirmation-token row for the staged subscriber, within
    /// the same unit of work. Fails — with nothing further staged — on a
    /// storage fault.
    pub fn attach_token(&mut self, token: &str, fault: bool) -> (r: Result<(), StorageError>)
        requires
            old(self)@.subscriber is Some,
            old(self)@.token is None,
        ensures
            r is Err <==> fault,
            r is Err ==> final(self)@ == old(self)@,
            r is Ok ==> final(self)@.subscriber == old(self)@.subscriber && final(self)@.token
                == Some(
                TokenModel { token: token@, subscriber_id: old(self)@.subscriber->0.id },
            ),
    {
        if fault {
            proof {
                assert(final(self)@ =~= old(self)@);
            }
            return Err(StorageError);
        }
        let sid = match &self.subscriber {
            Some(s) => s.id,
            None => {
                return vstd::pervasive::unreached();
            },
        };
        self.token = Some(
            TokenRecord { token: String::from_str(token), subscriber_id: sid },
        );
        Ok(())
    }
}

impl Store {
    /// Whether a subscriber row with this id exists.
    pub fn has_subscriber_with_id(&self, id: u128) -> (r: bool)
        ensures
            r == self@.has_subscriber(id),
    {
        let n = self.subscribers.len();
        let mut i: usize = 0;
        while i < n
            invariant
                n == self.subscribers.len(),
                i <= n,
                self@.subscribers.len() == n,
                forall|j: int| 0 <= j < i ==> (#[trigger] self@.subscribers[j]).id != id,
            decreases n - i,
        {
            if self.subscribers[i].id == id {
                assert(self@.subscribers[i as int].id == id);
                return true;
            }
            i += 1;
        }
        false
    }
}

} // verus!
