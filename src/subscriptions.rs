use rand::distributions::Alphanumeric;
use rand::{thread_rng, Rng};
use vstd::prelude::*;

use crate::errors::SubscribeError;
use crate::new_subscriber::NewSubscriber;
use crate::store::{has_subscriber, register_conflict, registered, StoreError, SubscriberStore};
use crate::subscriber_email::is_valid_email;
use crate::subscriber_name::is_valid_name;

verus! {

/// The number of characters in a confirmation token.
pub const SUBSCRIPTION_TOKEN_LENGTH: usize = 25;

pub open spec fn is_ascii_alphanumeric(c: char) -> bool {
    ||| 'A' <= c <= 'Z'
    ||| 'a' <= c <= 'z'
    ||| '0' <= c <= '9'
}

/// Relies on rand's `Alphanumeric` distribution over `thread_rng`: each of the
/// `len` characters is drawn from `A-Z`, `a-z` and `0-9`.
#[verifier::external_body]
fn random_alphanumeric(len: usize) -> (r: String)
    ensures
        r@.len() == len,
        forall|i: int| 0 <= i < len ==> is_ascii_alphanumeric(#[trigger] r@[i]),
{
    thread_rng().sample_iter(&Alphanumeric).take(len).map(char::from).collect()
}

/// Relies on uuid's `Uuid::new_v4`: a random identifier whose version bits
/// read 4 and whose variant bits read RFC 4122.
#[verifier::external_body]
fn new_subscriber_id() -> (r: u128)
    ensures
        r & 0xf000_c000_0000_0000_0000u128 == 0x4000_8000_0000_0000_0000u128,
{
    uuid::Uuid::new_v4().as_u128()
}

/// Relies on chrono's `Utc::now`: the current time, in whole seconds since the Unix epoch.
#[verifier::external_body]
fn now_timestamp() -> (r: i64) {
    chrono::Utc::now().timestamp()
}

/// A fresh, unguessable confirmation token.
pub fn generate_subscription_token() -> (r: String)
    ensures
        r@.len() == SUBSCRIPTION_TOKEN_LENGTH,
        forall|i: int| 0 <= i < r@.len() ==> is_ascii_alphanumeric(#[trigger] r@[i]),
{
    random_alphanumeric(SUBSCRIPTION_TOKEN_LENGTH)
}

/// The refusal that validating `name` and `email` gives, the name first.
pub open spec fn validation_message(name: Seq<char>) -> Seq<char> {
    if !is_valid_name(name) {
        "invalid subscriber name"@
    } else {
        "invalid subscriber email"@
    }
}

/// Registers `name` and `email` as subscriber `subscriber_id`, with the given
/// creation time and token: refused unless both validate, and stored as one
/// unit unless the identifier or the token is already taken.
pub fn subscribe_with(
    store: &mut SubscriberStore,
    name: String,
    email: String,
    subscriber_id: u128,
    subscribed_at: i64,
    subscription_token: String,
) -> (r: Result<(), SubscribeError>)
    requires
        old(store).wf(),
    ensures
        final(store).wf(),
        !(is_valid_name(name@) && is_valid_email(email@)) ==> (r matches Err(
            SubscribeError::ValidationError(m),
        ) && m@ == validation_message(name@)),
        is_valid_name(name@) && is_valid_email(email@) ==> (r is Ok <==> !register_conflict(
            old(store)@,
            subscriber_id,
            subscription_token@,
        )),
        r is Ok ==> final(store)@ == registered(
            old(store)@,
            subscriber_id,
            name@,
            email@,
            subscribed_at,
            subscription_token@,
        ),
        r is Err ==> final(store)@ == old(store)@,
        is_valid_name(name@) && is_valid_email(email@) && has_subscriber(old(store)@, subscriber_id)
            ==> r == Err::<(), _>(SubscribeError::StoreError(StoreError::DuplicateSubscriberId)),
        is_valid_name(name@) && is_valid_email(email@) && !has_subscriber(old(store)@, subscriber_id)
            && register_conflict(old(store)@, subscriber_id, subscription_token@) ==> r == Err::<
            (),
            _,
        >(SubscribeError::StoreError(StoreError::DuplicateToken)),
{
    let new_subscriber = match NewSubscriber::parse(name, email) {
        Ok(s) => s,
        Err(e) => {
            return Err(SubscribeError::ValidationError(e));
        },
    };
    match store.register(&new_subscriber, subscriber_id, subscribed_at, subscription_token) {
        Ok(()) => Ok(()),
        Err(e) => Err(SubscribeError::StoreError(e)),
    }
}

/// Registers `name` and `email` under a fresh identifier and a fresh token,
/// which it returns. Refused unless both validate; then nothing is stored.
pub fn subscribe(store: &mut SubscriberStore, name: String, email: String) -> (r: Result<
    (u128, String),
    SubscribeError,
>)
    requires
        old(store).wf(),
    ensures
        final(store).wf(),
        !(is_valid_name(name@) && is_valid_email(email@)) ==> (r matches Err(
            SubscribeError::ValidationError(m),
        ) && m@ == validation_message(name@)),
        r matches Ok((id, token)) ==> is_valid_name(name@) && is_valid_email(email@),
        r matches Ok((id, token)) ==> !register_conflict(old(store)@, id, token@),
        r matches Ok((id, token)) ==> final(store)@ == registered(
            old(store)@,
            id,
            name@,
            email@,
            final(store)@.subscribers.last().subscribed_at,
            token@,
        ),
        r matches Ok((id, token)) ==> token@.len() == SUBSCRIPTION_TOKEN_LENGTH,
        r matches Ok((id, token)) ==> forall|i: int|
            0 <= i < token@.len() ==> is_ascii_alphanumeric(#[trigger] token@[i]),
        r is Err ==> final(store)@ == old(store)@,
        r matches Err(e) ==> e is ValidationError || e is StoreError,
        is_valid_name(name@) && is_valid_email(email@) ==> !(r matches Err(e) && e is ValidationError),
        is_valid_name(name@) && is_valid_email(email@) && old(store)@.subscribers.len() == 0
            && old(store)@.tokens.len() == 0 ==> r is Ok,
        r == Err::<(u128, String), _>(SubscribeError::StoreError(StoreError::DuplicateSubscriberId))
            ==> old(store)@.subscribers.len() > 0,
        r == Err::<(u128, String), _>(SubscribeError::StoreError(StoreError::DuplicateToken))
            ==> old(store)@.tokens.len() > 0,
{
    let subscriber_id = new_subscriber_id();
    let subscribed_at = now_timestamp();
    let subscription_token = generate_subscription_token();
    let token = subscription_token.clone();
    match subscribe_with(store, name, email, subscriber_id, subscribed_at, subscription_token) {
        Ok(()) => Ok((subscriber_id, token)),
        Err(e) => Err(e),
    }
}

} // verus!
