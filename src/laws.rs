use vstd::prelude::*;

use crate::newsletter::{
    action_spec,
    drive,
    initial_publication,
    parse_outcome,
    publication_wf,
    recipients_of,
    ActionView,
    PublicationView,
};
use crate::store::{
    confirm_spec,
    confirmed,
    confirmed_emails,
    has_subscriber,
    has_token,
    register_conflict,
    registered,
    status_of,
    store_wf,
    token_owner,
    StoreView,
    SubscriptionStatus,
};
use crate::subscriber_email::is_valid_email;
use crate::subscriber_name::is_valid_name;

verus! {

/// Some confirmed subscriber of `v` has the address `e`.
pub open spec fn is_confirmed_address(v: StoreView, e: Seq<char>) -> bool {
    exists|j: int|
        0 <= j < v.subscribers.len() && (#[trigger] v.subscribers[j]).status
            == SubscriptionStatus::Confirmed && v.subscribers[j].email == e
}

proof fn lemma_registered_wf(
    v: StoreView,
    id: u128,
    name: Seq<char>,
    email: Seq<char>,
    at: i64,
    token: Seq<char>,
)
    requires
        store_wf(v),
        !register_conflict(v, id, token),
    ensures
        store_wf(registered(v, id, name, email, at, token)),
{
    let r = registered(v, id, name, email, at, token);
    assert forall|i: int, j: int|
        0 <= i < r.subscribers.len() && 0 <= j < r.subscribers.len() && i != j implies (
        #[trigger] r.subscribers[i]).id != (#[trigger] r.subscribers[j]).id by {
        if i == r.subscribers.len() - 1 {
            assert(v.subscribers[j].id != id);
        } else if j == r.subscribers.len() - 1 {
            assert(v.subscribers[i].id != id);
        }
    }
    assert forall|i: int, j: int|
        0 <= i < r.tokens.len() && 0 <= j < r.tokens.len() && i != j implies (
        #[trigger] r.tokens[i]).token != (#[trigger] r.tokens[j]).token by {
        if i == r.tokens.len() - 1 {
            assert(v.tokens[j].token != token);
        } else if j == r.tokens.len() - 1 {
            assert(v.tokens[i].token != token);
        }
    }
    assert forall|i: int| 0 <= i < r.tokens.len() implies has_subscriber(
        r,
        (#[trigger] r.tokens[i]).subscriber_id,
    ) by {
        if i < r.tokens.len() - 1 {
            let j = choose|j: int|
                0 <= j < v.subscribers.len() && (#[trigger] v.subscribers[j]).id
                    == v.tokens[i].subscriber_id;
            assert(r.subscribers[j].id == r.tokens[i].subscriber_id);
        } else {
            assert(r.subscribers[r.subscribers.len() - 1].id == id);
        }
    }
}

pub(crate) proof fn lemma_confirmed_status(v: StoreView, id: u128)
    requires
        store_wf(v),
        has_subscriber(v, id),
    ensures
        status_of(confirmed(v, id), id) == Some(SubscriptionStatus::Confirmed),
        store_wf(confirmed(v, id)),
{
    let c = confirmed(v, id);
    let j = choose|j: int| 0 <= j < v.subscribers.len() && (#[trigger] v.subscribers[j]).id == id;
    assert(c.subscribers[j].id == id);
    assert(has_subscriber(c, id));
    let k = choose|k: int| 0 <= k < c.subscribers.len() && (#[trigger] c.subscribers[k]).id == id;
    assert(c.subscribers[k].status == SubscriptionStatus::Confirmed);
    assert forall|i: int, l: int|
        0 <= i < c.subscribers.len() && 0 <= l < c.subscribers.len() && i != l implies (
        #[trigger] c.subscribers[i]).id != (#[trigger] c.subscribers[l]).id by {
        assert(v.subscribers[i].id != v.subscribers[l].id);
    }
    assert forall|i: int| 0 <= i < c.tokens.len() implies has_subscriber(
        c,
        (#[trigger] c.tokens[i]).subscriber_id,
    ) by {
        let m = choose|m: int|
            0 <= m < v.subscribers.len() && (#[trigger] v.subscribers[m]).id
                == v.tokens[i].subscriber_id;
        assert(c.subscribers[m].id == c.tokens[i].subscriber_id);
    }
}

/// Registering a valid name and address, then confirming with the token that
/// the registration issued, leaves that subscriber confirmed.
pub proof fn lemma_register_then_confirm(
    v: StoreView,
    id: u128,
    name: Seq<char>,
    email: Seq<char>,
    at: i64,
    token: Seq<char>,
)
    requires
        store_wf(v),
        is_valid_name(name),
        is_valid_email(email),
        !register_conflict(v, id, token),
    ensures
        ({
            let r = registered(v, id, name, email, at, token);
            &&& status_of(r, id) == Some(SubscriptionStatus::PendingConfirmation)
            &&& confirm_spec(r, token).1 is Ok
            &&& confirm_spec(r, token).0 == confirmed(r, id)
            &&& status_of(confirm_spec(r, token).0, id) == Some(SubscriptionStatus::Confirmed)
        }),
{
    let r = registered(v, id, name, email, at, token);
    lemma_registered_wf(v, id, name, email, at, token);
    let last = r.tokens.len() - 1;
    assert(r.tokens[last].token == token);
    assert(has_token(r, token));
    let i = choose|i: int| 0 <= i < r.tokens.len() && (#[trigger] r.tokens[i]).token == token;
    assert(i == last);
    assert(token_owner(r, token) == Some(id));
    let s = r.subscribers.len() - 1;
    assert(r.subscribers[s].id == id);
    assert(has_subscriber(r, id));
    let j = choose|j: int| 0 <= j < r.subscribers.len() && (#[trigger] r.subscribers[j]).id == id;
    assert(j == s);
    lemma_confirmed_status(r, id);
}

/// Confirming twice with the same issued token succeeds both times, and the
/// second confirmation changes nothing: the subscriber stays confirmed.
pub proof fn lemma_confirm_twice(v: StoreView, token: Seq<char>)
    requires
        store_wf(v),
        has_token(v, token),
    ensures
        ({
            let (first, r1) = confirm_spec(v, token);
            let (second, r2) = confirm_spec(first, token);
            &&& r1 is Ok
            &&& r2 is Ok
            &&& second == first
            &&& status_of(second, token_owner(v, token)->Some_0) == Some(
                SubscriptionStatus::Confirmed,
            )
        }),
{
    let i = choose|i: int| 0 <= i < v.tokens.len() && (#[trigger] v.tokens[i]).token == token;
    let id = v.tokens[i].subscriber_id;
    assert(token_owner(v, token) == Some(id));
    let first = confirmed(v, id);
    assert(first.tokens == v.tokens);
    assert(has_token(first, token));
    assert(token_owner(first, token) == Some(id));
    let second = confirmed(first, id);
    assert(second.subscribers =~= first.subscribers);
    assert(has_subscriber(v, id));
    lemma_confirmed_status(v, id);
}

proof fn lemma_drive_all_delivered(p: PublicationView, outcomes: Seq<bool>)
    requires
        publication_wf(p),
        !p.failed,
        !p.awaiting,
        outcomes.len() >= p.recipients.len() - p.delivered,
        forall|i: int| 0 <= i < outcomes.len() ==> #[trigger] outcomes[i],
    ensures
        drive(p, outcomes).0 == p.recipients.subrange(p.delivered as int, p.recipients.len() as int),
        action_spec(drive(p, outcomes).1) == ActionView::Completed,
    decreases p.recipients.len() - p.delivered,
{
    if p.delivered < p.recipients.len() {
        let q = PublicationView { delivered: p.delivered + 1, awaiting: false, ..p };
        assert(outcomes[0]);
        assert forall|i: int| 0 <= i < outcomes.drop_first().len() implies #[trigger] outcomes.drop_first()[i] by {
            assert(outcomes[i + 1]);
        }
        lemma_drive_all_delivered(q, outcomes.drop_first());
        assert(p.recipients.subrange(p.delivered as int, p.recipients.len() as int) =~= seq![
            p.recipients[p.delivered as int],
        ] + q.recipients.subrange(q.delivered as int, q.recipients.len() as int));
    } else {
        assert(p.recipients.subrange(p.delivered as int, p.recipients.len() as int) =~= Seq::empty());
    }
}

proof fn lemma_drive_fails_at(p: PublicationView, outcomes: Seq<bool>, n: int)
    requires
        publication_wf(p),
        !p.failed,
        !p.awaiting,
        0 <= n,
        p.delivered + n < p.recipients.len(),
        n < outcomes.len(),
        !outcomes[n],
        forall|i: int| 0 <= i < n ==> #[trigger] outcomes[i],
    ensures
        drive(p, outcomes).0 == p.recipients.subrange(p.delivered as int, p.delivered as int + n + 1),
        action_spec(drive(p, outcomes).1) == ActionView::Aborted(
            p.recipients[p.delivered as int + n],
        ),
    decreases n,
{
    if n == 0 {
        let q = PublicationView { awaiting: false, failed: true, ..p };
        assert(drive(q, outcomes.drop_first()).0 == Seq::<Seq<char>>::empty());
        assert(p.recipients.subrange(p.delivered as int, p.delivered as int + 1) =~= seq![
            p.recipients[p.delivered as int],
        ]);
    } else {
        let q = PublicationView { delivered: p.delivered + 1, awaiting: false, ..p };
        assert(outcomes[0]);
        let rest = outcomes.drop_first();
        assert forall|i: int| 0 <= i < n - 1 implies #[trigger] rest[i] by {
            assert(outcomes[i + 1]);
        }
        assert(!rest[n - 1]);
        lemma_drive_fails_at(q, rest, n - 1);
        assert(p.recipients.subrange(p.delivered as int, p.delivered as int + n + 1) =~= seq![
            p.recipients[p.delivered as int],
        ] + q.recipients.subrange(q.delivered as int, q.delivered as int + (n - 1) + 1));
    }
}

proof fn lemma_confirmed_emails_are_confirmed(rows: Seq<crate::store::SubscriberRow>, k: int)
    requires
        0 <= k < confirmed_emails(rows).len(),
    ensures
        exists|j: int|
            0 <= j < rows.len() && (#[trigger] rows[j]).status == SubscriptionStatus::Confirmed
                && rows[j].email == confirmed_emails(rows)[k],
    decreases rows.len(),
{
    let prev = rows.drop_last();
    if k < confirmed_emails(prev).len() {
        lemma_confirmed_emails_are_confirmed(prev, k);
        let j = choose|j: int|
            0 <= j < prev.len() && (#[trigger] prev[j]).status == SubscriptionStatus::Confirmed
                && prev[j].email == confirmed_emails(prev)[k];
        assert(rows[j] == prev[j]);
    } else {
        assert(rows[rows.len() - 1].status == SubscriptionStatus::Confirmed);
    }
}

proof fn lemma_recipients_come_from_rows(rows: Seq<Result<Seq<char>, Seq<char>>>, k: int)
    requires
        0 <= k < recipients_of(rows).len(),
    ensures
        exists|i: int| 0 <= i < rows.len() && #[trigger] rows[i] == Ok::<Seq<char>, Seq<char>>(
            recipients_of(rows)[k],
        ),
    decreases rows.len(),
{
    let prev = rows.drop_last();
    if k < recipients_of(prev).len() {
        lemma_recipients_come_from_rows(prev, k);
        let i = choose|i: int| 0 <= i < prev.len() && #[trigger] prev[i] == Ok::<
            Seq<char>,
            Seq<char>,
        >(recipients_of(prev)[k]);
        assert(rows[i] == prev[i]);
    } else {
        assert(rows[rows.len() - 1] == Ok::<Seq<char>, Seq<char>>(recipients_of(rows)[k]));
    }
}

proof fn lemma_all_valid_recipients(emails: Seq<Seq<char>>)
    requires
        forall|i: int| 0 <= i < emails.len() ==> is_valid_email(#[trigger] emails[i]),
    ensures
        recipients_of(emails.map_values(|e: Seq<char>| parse_outcome(e))) == emails,
    decreases emails.len(),
{
    if emails.len() > 0 {
        let prev = emails.drop_last();
        lemma_all_valid_recipients(prev);
        let rows = emails.map_values(|e: Seq<char>| parse_outcome(e));
        assert(rows.drop_last() =~= prev.map_values(|e: Seq<char>| parse_outcome(e)));
        assert(is_valid_email(emails[emails.len() - 1]));
        assert(emails =~= prev.push(emails.last()));
    }
}

proof fn lemma_confirmed_emails_valid(rows: Seq<crate::store::SubscriberRow>)
    requires
        forall|j: int| 0 <= j < rows.len() ==> is_valid_email(#[trigger] rows[j].email),
    ensures
        forall|i: int|
            0 <= i < confirmed_emails(rows).len() ==> is_valid_email(
                #[trigger] confirmed_emails(rows)[i],
            ),
{
    assert forall|i: int| 0 <= i < confirmed_emails(rows).len() implies is_valid_email(
        #[trigger] confirmed_emails(rows)[i],
    ) by {
        lemma_confirmed_emails_are_confirmed(rows, i);
        let j = choose|j: int|
            0 <= j < rows.len() && (#[trigger] rows[j]).status == SubscriptionStatus::Confirmed
                && rows[j].email == confirmed_emails(rows)[i];
        assert(is_valid_email(rows[j].email));
    }
}

/// A publication over the confirmed subscribers of a store, with every send
/// going out, contacts each of them once, in storage order, and nobody else: every
/// address it sends to is that of a confirmed subscriber, and when every stored
/// address is valid it sends to exactly the confirmed subscribers' addresses.
pub proof fn lemma_publish_reaches_confirmed(v: StoreView, outcomes: Seq<bool>)
    requires
        outcomes.len() >= confirmed_emails(v.subscribers).len(),
        forall|i: int| 0 <= i < outcomes.len() ==> #[trigger] outcomes[i],
    ensures
        ({
            let rows = confirmed_emails(v.subscribers).map_values(|e: Seq<char>| parse_outcome(e));
            let (sent, last) = drive(initial_publication(rows), outcomes);
            &&& sent == recipients_of(rows)
            &&& action_spec(last) == ActionView::Completed
            &&& forall|k: int| 0 <= k < sent.len() ==> is_confirmed_address(v, #[trigger] sent[k])
            &&& (forall|j: int|
                0 <= j < v.subscribers.len() ==> is_valid_email(#[trigger] v.subscribers[j].email))
                ==> sent == confirmed_emails(v.subscribers)
        }),
{
    let ce = confirmed_emails(v.subscribers);
    let rows = ce.map_values(|e: Seq<char>| parse_outcome(e));
    let p = initial_publication(rows);
    lemma_recipients_len(rows);
    lemma_drive_all_delivered(p, outcomes);
    assert(p.recipients.subrange(0, p.recipients.len() as int) =~= p.recipients);
    let sent = drive(p, outcomes).0;
    assert forall|k: int| 0 <= k < sent.len() implies is_confirmed_address(v, #[trigger] sent[k]) by {
        lemma_recipients_come_from_rows(rows, k);
        let i = choose|i: int| 0 <= i < rows.len() && #[trigger] rows[i] == Ok::<
            Seq<char>,
            Seq<char>,
        >(recipients_of(rows)[k]);
        assert(ce[i] == sent[k]);
        lemma_confirmed_emails_are_confirmed(v.subscribers, i);
    }
    if forall|j: int|
        0 <= j < v.subscribers.len() ==> is_valid_email(#[trigger] v.subscribers[j].email) {
        lemma_confirmed_emails_valid(v.subscribers);
        lemma_all_valid_recipients(ce);
    }
}

proof fn lemma_recipients_len(rows: Seq<Result<Seq<char>, Seq<char>>>)
    ensures
        recipients_of(rows).len() <= rows.len(),
    decreases rows.len(),
{
    if rows.len() > 0 {
        lemma_recipients_len(rows.drop_last());
    }
}

/// When the gateway fails on the recipient at position `n` after every earlier
/// send went out, the publication has contacted exactly the first `n + 1`
/// recipients, contacts no later one, and reports the failure.
pub proof fn lemma_publish_fail_fast(
    rows: Seq<Result<Seq<char>, Seq<char>>>,
    outcomes: Seq<bool>,
    n: int,
)
    requires
        0 <= n < recipients_of(rows).len(),
        n < outcomes.len(),
        !outcomes[n],
        forall|i: int| 0 <= i < n ==> #[trigger] outcomes[i],
    ensures
        ({
            let (sent, last) = drive(initial_publication(rows), outcomes);
            &&& sent == recipients_of(rows).take(n + 1)
            &&& action_spec(last) == ActionView::Aborted(recipients_of(rows)[n])
        }),
{
    let p = initial_publication(rows);
    lemma_drive_fails_at(p, outcomes, n);
    assert(p.recipients.subrange(0, n + 1) =~= p.recipients.take(n + 1));
}

} // verus!
