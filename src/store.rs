use vstd::prelude::*;

use crate::new_subscriber::NewSubscriber;
use crate::newsletter::{get_confirmed_subscribers, parse_outcome, rows_view, ConfirmedSubscriber};

verus! {

/// Where a subscriber stands: created pending, confirmed once, never reverted.
#[derive(Clone, Copy, Debug, PartialEq, Eq, Structural)]
pub enum SubscriptionStatus {
    PendingConfirmation,
    Confirmed,
}

/// One stored subscriber.
#[derive(Debug)]
pub struct SubscriberRecord {
    pub id: u128,
    pub email: String,
    pub name: String,
    pub status: SubscriptionStatus,
    pub subscribed_at: i64,
}

/// One stored confirmation token and the subscriber it was issued for.
#[derive(Debug)]
pub struct TokenRecord {
    pub subscription_token: String,
    pub subscriber_id: u128,
}

/// A stored subscriber as plain values.
pub struct SubscriberRow {
    pub id: u128,
    pub email: Seq<char>,
    pub name: Seq<char>,
    pub status: SubscriptionStatus,
    pub subscribed_at: i64,
}

/// A stored token as plain values.
pub struct TokenRow {
    pub token: Seq<char>,
    pub subscriber_id: u128,
}

/// The whole store: subscribers and tokens, each in storage order.
pub struct StoreView {
    pub subscribers: Seq<SubscriberRow>,
    pub tokens: Seq<TokenRow>,
}

impl View for SubscriberRecord {
    type V = SubscriberRow;

    open spec fn view(&self) -> SubscriberRow {
        SubscriberRow {
            id: self.id,
            email: self.email@,
            name: self.name@,
            status: self.status,
            subscribed_at: self.subscribed_at,
        }
    }
}

impl View for TokenRecord {
    type V = TokenRow;

    open spec fn view(&self) -> TokenRow {
        TokenRow { token: self.subscription_token@, subscriber_id: self.subscriber_id }
    }
}

/// The store cannot take a write; nothing of it was kept.
#[derive(Clone, Copy, Debug, PartialEq, Eq, Structural)]
pub enum StoreError {
    /// A subscriber with the drawn identifier is already stored.
    DuplicateSubscriberId,
    /// The drawn token is already stored.
    DuplicateToken,
}

/// `confirm` was handed a token that was never issued.
#[derive(Clone, Copy, Debug, PartialEq, Eq, Structural)]
pub enum ConfirmError {
    TokenNotFound,
}

pub open spec fn has_subscriber(v: StoreView, id: u128) -> bool {
    exists|j: int| 0 <= j < v.subscribers.len() && (#[trigger] v.subscribers[j]).id == id
}

pub open spec fn has_token(v: StoreView, token: Seq<char>) -> bool {
    exists|i: int| 0 <= i < v.tokens.len() && (#[trigger] v.tokens[i]).token == token
}

/// Identifiers and tokens are unique, and every token belongs to a stored subscriber.
pub open spec fn store_wf(v: StoreView) -> bool {
    &&& forall|i: int, j: int|
        0 <= i < v.subscribers.len() && 0 <= j < v.subscribers.len() && i != j ==> (
        #[trigger] v.subscribers[i]).id != (#[trigger] v.subscribers[j]).id
    &&& forall|i: int, j: int|
        0 <= i < v.tokens.len() && 0 <= j < v.tokens.len() && i != j ==> (
        #[trigger] v.tokens[i]).token != (#[trigger] v.tokens[j]).token
    &&& forall|i: int|
        0 <= i < v.tokens.len() ==> has_subscriber(v, (#[trigger] v.tokens[i]).subscriber_id)
}

/// The subscriber a token was issued for, if it was issued.
pub open spec fn token_owner(v: StoreView, token: Seq<char>) -> Option<u128> {
    if has_token(v, token) {
        let i = choose|i: int| 0 <= i < v.tokens.len() && (#[trigger] v.tokens[i]).token == token;
        Some(v.tokens[i].subscriber_id)
    } else {
        None
    }
}

/// The status of the subscriber `id`, if it is stored.
pub open spec fn status_of(v: StoreView, id: u128) -> Option<SubscriptionStatus> {
    if has_subscriber(v, id) {
        let j = choose|j: int| 0 <= j < v.subscribers.len() && (#[trigger] v.subscribers[j]).id == id;
        Some(v.subscribers[j].status)
    } else {
        None
    }
}

/// A registration can only be stored when neither its identifier nor its token is taken.
pub open spec fn register_conflict(v: StoreView, id: u128, token: Seq<char>) -> bool {
    has_subscriber(v, id) || has_token(v, token)
}

/// The pending row that registering `name` and `email` as `id` stores.
pub open spec fn pending_row(id: u128, name: Seq<char>, email: Seq<char>, at: i64) -> SubscriberRow {
    SubscriberRow {
        id,
        email,
        name,
        status: SubscriptionStatus::PendingConfirmation,
        subscribed_at: at,
    }
}

/// The store after a registration: the subscriber and its token, together.
pub open spec fn registered(
    v: StoreView,
    id: u128,
    name: Seq<char>,
    email: Seq<char>,
    at: i64,
    token: Seq<char>,
) -> StoreView {
    StoreView {
        subscribers: v.subscribers.push(pending_row(id, name, email, at)),
        tokens: v.tokens.push(TokenRow { token, subscriber_id: id }),
    }
}

pub open spec fn confirmed_row(r: SubscriberRow, id: u128) -> SubscriberRow {
    if r.id == id {
        SubscriberRow { status: SubscriptionStatus::Confirmed, ..r }
    } else {
        r
    }
}

/// The store after subscriber `id` is confirmed; nothing else changes.
pub open spec fn confirmed(v: StoreView, id: u128) -> StoreView {
    StoreView {
        subscribers: v.subscribers.map_values(|r: SubscriberRow| confirmed_row(r, id)),
        tokens: v.tokens,
    }
}

/// What `confirm` does with `token`: the new store and the outcome.
pub open spec fn confirm_spec(v: StoreView, token: Seq<char>) -> (StoreView, Result<(), ConfirmError>) {
    match token_owner(v, token) {
        Some(id) => (confirmed(v, id), Ok(())),
        None => (v, Err(ConfirmError::TokenNotFound)),
    }
}

/// The addresses of the confirmed subscribers, in storage order.
pub open spec fn confirmed_emails(rows: Seq<SubscriberRow>) -> Seq<Seq<char>>
    decreases rows.len(),
{
    if rows.len() == 0 {
        Seq::empty()
    } else {
        let prev = confirmed_emails(rows.drop_last());
        if rows.last().status == SubscriptionStatus::Confirmed {
            prev.push(rows.last().email)
        } else {
            prev
        }
    }
}

/// Subscribers and their confirmation tokens, held in memory.
pub struct SubscriberStore {
    subscribers: Vec<SubscriberRecord>,
    tokens: Vec<TokenRecord>,
}

impl View for SubscriberStore {
    type V = StoreView;

    closed spec fn view(&self) -> StoreView {
        StoreView {
            subscribers: self.subscribers@.map_values(|r: SubscriberRecord| r@),
            tokens: self.tokens@.map_values(|t: TokenRecord| t@),
        }
    }
}

impl SubscriberStore {
    pub open spec fn wf(&self) -> bool {
        store_wf(self@)
    }

    /// An empty store.
    pub fn new() -> (r: Self)
        ensures
            r@.subscribers.len() == 0,
            r@.tokens.len() == 0,
            r.wf(),
    {
        let r = SubscriberStore { subscribers: Vec::new(), tokens: Vec::new() };
        assert(r@.subscribers =~= Seq::empty());
        assert(r@.tokens =~= Seq::empty());
        r
    }

    /// The stored subscribers, in storage order.
    pub fn subscribers(&self) -> (r: &Vec<SubscriberRecord>)
        ensures
            r@.map_values(|s: SubscriberRecord| s@) == self@.subscribers,
    {
        &self.subscribers
    }

    /// The stored tokens, in storage order.
    pub fn tokens(&self) -> (r: &Vec<TokenRecord>)
        ensures
            r@.map_values(|t: TokenRecord| t@) == self@.tokens,
    {
        &self.tokens
    }

    fn contains_subscriber(&self, id: u128) -> (r: bool)
        ensures
            r == has_subscriber(self@, id),
    {
        let mut j: usize = 0;
        while j < self.subscribers.len()
            invariant
                j <= self.subscribers@.len(),
                forall|k: int| 0 <= k < j ==> (#[trigger] self@.subscribers[k]).id != id,
            decreases self.subscribers@.len() - j,
        {
            if self.subscribers[j].id == id {
                assert(self@.subscribers[j as int].id == id);
                return true;
            }
            j = j + 1;
        }
        false
    }

    fn find_token(&self, token: &String) -> (r: Option<usize>)
        ensures
            r is None <==> !has_token(self@, token@),
            r matches Some(i) ==> i < self@.tokens.len() && self@.tokens[i as int].token == token@,
    {
        let mut i: usize = 0;
        while i < self.tokens.len()
            invariant
                i <= self.tokens@.len(),
                forall|k: int| 0 <= k < i ==> (#[trigger] self@.tokens[k]).token != token@,
            decreases self.tokens@.len() - i,
        {
            if self.tokens[i].subscription_token == *token {
                assert(self@.tokens[i as int].token == token@);
                return Some(i);
            }
            i = i + 1;
        }
        None
    }

    /// Stores a pending subscriber and its token as one unit: both are kept,
    /// or, when the identifier or the token is already taken, neither.
    pub fn register(
        &mut self,
        new_subscriber: &NewSubscriber,
        subscriber_id: u128,
        subscribed_at: i64,
        subscription_token: String,
    ) -> (r: Result<(), StoreError>)
        requires
            old(self).wf(),
        ensures
            final(self).wf(),
            r is Ok <==> !register_conflict(old(self)@, subscriber_id, subscription_token@),
            r is Ok ==> final(self)@ == registered(
                old(self)@,
                subscriber_id,
                new_subscriber.name@,
                new_subscriber.email@,
                subscribed_at,
                subscription_token@,
            ),
            r is Err ==> final(self)@ == old(self)@,
            r == Err::<(), _>(StoreError::DuplicateSubscriberId) <==> has_subscriber(
                old(self)@,
                subscriber_id,
            ),
    {
        if self.contains_subscriber(subscriber_id) {
            return Err(StoreError::DuplicateSubscriberId);
        }
        if self.find_token(&subscription_token).is_some() {
            return Err(StoreError::DuplicateToken);
        }
        let ghost old_view = self@;
        let record = SubscriberRecord {
            id: subscriber_id,
            email: new_subscriber.email.as_str().to_owned(),
            name: new_subscriber.name.as_str().to_owned(),
            status: SubscriptionStatus::PendingConfirmation,
            subscribed_at,
        };
        self.subscribers.push(record);
        self.tokens.push(TokenRecord { subscription_token, subscriber_id });
        let ghost new_view = registered(
            old_view,
            subscriber_id,
            new_subscriber.name@,
            new_subscriber.email@,
            subscribed_at,
            subscription_token@,
        );
        assert(self@.subscribers =~= new_view.subscribers);
        assert(self@.tokens =~= new_view.tokens);
        proof {
            let v = self@;
            assert forall|i: int| 0 <= i < v.tokens.len() implies has_subscriber(
                v,
                (#[trigger] v.tokens[i]).subscriber_id,
            ) by {
                if i < v.tokens.len() - 1 {
                    let j = choose|j: int|
                        0 <= j < old_view.subscribers.len() && (#[trigger] old_view.subscribers[j]).id
                            == old_view.tokens[i].subscriber_id;
                    assert(v.subscribers[j].id == v.tokens[i].subscriber_id);
                } else {
                    assert(v.subscribers[v.subscribers.len() - 1].id == subscriber_id);
                }
            }
        }
        Ok(())
    }

    /// The subscriber a token was issued for, if it was issued.
    pub fn get_subscriber_id_from_token(&self, subscription_token: &str) -> (r: Option<u128>)
        requires
            self.wf(),
        ensures
            r == token_owner(self@, subscription_token@),
    {
        let token = subscription_token.to_owned();
        match self.find_token(&token) {
            Some(i) => {
                let ghost c = choose|k: int|
                    0 <= k < self@.tokens.len() && (#[trigger] self@.tokens[k]).token == token@;
                assert(c == i);
                Some(self.tokens[i].subscriber_id)
            },
            None => None,
        }
    }

    /// Marks subscriber `subscriber_id` confirmed; a confirmed subscriber stays
    /// so, and an unknown identifier changes nothing.
    pub fn confirm_subscriber(&mut self, subscriber_id: u128)
        requires
            old(self).wf(),
        ensures
            final(self).wf(),
            final(self)@ == confirmed(old(self)@, subscriber_id),
    {
        let ghost old_view = self@;
        let mut j: usize = 0;
        while j < self.subscribers.len()
            invariant
                j <= self.subscribers@.len(),
                self.tokens@ == old(self).tokens@,
                self.subscribers@.len() == old_view.subscribers.len(),
                store_wf(old_view),
                old_view == old(self)@,
                forall|k: int| 0 <= k < j ==> (#[trigger] old_view.subscribers[k]).id != subscriber_id,
                self@ == old_view,
            decreases self.subscribers@.len() - j,
        {
            if self.subscribers[j].id == subscriber_id {
                let mut record = self.subscribers.remove(j);
                record.status = SubscriptionStatus::Confirmed;
                self.subscribers.insert(j, record);
                let ghost target = confirmed(old_view, subscriber_id);
                assert(self@.subscribers =~= target.subscribers) by {
                    assert forall|k: int| 0 <= k < self@.subscribers.len() implies #[trigger]
                        self@.subscribers[k] == target.subscribers[k] by {
                        if k != j {
                            assert(old_view.subscribers[j as int].id == subscriber_id);
                            assert(old_view.subscribers[k].id != old_view.subscribers[j as int].id);
                        }
                    }
                }
                assert(self@.tokens =~= target.tokens);
                proof {
                    let v = self@;
                    assert forall|i: int| 0 <= i < v.tokens.len() implies has_subscriber(
                        v,
                        (#[trigger] v.tokens[i]).subscriber_id,
                    ) by {
                        let k = choose|k: int|
                            0 <= k < old_view.subscribers.len() && (#[trigger] old_view.subscribers[k]).id
                                == old_view.tokens[i].subscriber_id;
                        assert(v.subscribers[k].id == v.tokens[i].subscriber_id);
                    }
                }
                return ;
            }
            j = j + 1;
        }
        assert(self@.subscribers =~= confirmed(old_view, subscriber_id).subscribers);
    }

    /// Confirms the subscriber that `subscription_token` was issued for; a token
    /// that was never issued changes nothing.
    pub fn confirm(&mut self, subscription_token: &str) -> (r: Result<(), ConfirmError>)
        requires
            old(self).wf(),
        ensures
            final(self).wf(),
            (final(self)@, r) == confirm_spec(old(self)@, subscription_token@),
            !has_token(old(self)@, subscription_token@) ==> r == Err::<(), _>(
                ConfirmError::TokenNotFound,
            ) && final(self)@ == old(self)@,
            has_token(old(self)@, subscription_token@) ==> r is Ok && status_of(
                final(self)@,
                token_owner(old(self)@, subscription_token@)->Some_0,
            ) == Some(SubscriptionStatus::Confirmed),
    {
        match self.get_subscriber_id_from_token(subscription_token) {
            Some(id) => {
                proof {
                    let i = choose|i: int|
                        0 <= i < self@.tokens.len() && (#[trigger] self@.tokens[i]).token
                            == subscription_token@;
                    assert(has_subscriber(self@, self@.tokens[i].subscriber_id));
                    crate::laws::lemma_confirmed_status(self@, id);
                }
                self.confirm_subscriber(id);
                Ok(())
            },
            None => Err(ConfirmError::TokenNotFound),
        }
    }

    /// The confirmed subscribers, in storage order, each read on its own: a
    /// stored address that is not valid is reported in its row.
    pub fn list_confirmed(&self) -> (r: Vec<Result<ConfirmedSubscriber, String>>)
        ensures
            rows_view(r@) == confirmed_emails(self@.subscribers).map_values(
                |e: Seq<char>| parse_outcome(e),
            ),
    {
        let ghost subs = self@.subscribers;
        let mut emails: Vec<String> = Vec::new();
        let mut j: usize = 0;
        while j < self.subscribers.len()
            invariant
                j <= self.subscribers@.len(),
                subs == self@.subscribers,
                emails@.map_values(|s: String| s@) == confirmed_emails(subs.take(j as int)),
            decreases self.subscribers@.len() - j,
        {
            assert(subs.take(j + 1).drop_last() =~= subs.take(j as int));
            assert(subs.take(j + 1).last() == self.subscribers@[j as int]@);
            match self.subscribers[j].status {
                SubscriptionStatus::Confirmed => {
                    let ghost before = emails@;
                    emails.push(self.subscribers[j].email.clone());
                    assert(emails@.map_values(|s: String| s@) =~= before.map_values(|s: String| s@).push(
                        self.subscribers@[j as int].email@,
                    ));
                },
                SubscriptionStatus::PendingConfirmation => {},
            }
            j = j + 1;
        }
        assert(subs.take(self.subscribers@.len() as int) =~= subs);
        let ghost ev = emails@;
        let r = get_confirmed_subscribers(emails);
        assert(ev.map_values(|e: String| parse_outcome(e@)) =~= ev.map_values(|s: String| s@).map_values(
            |e: Seq<char>| parse_outcome(e),
        ));
        r
    }
}

} // verus!
