//! The subscription workflow: validation, transactional persistence of the
//! subscriber with its confirmation token, the confirmation email, and the
//! redemption of the token.
//!
//! A subscriber row and its token are committed together or not at all, and
//! only after the confirmation email was accepted by the transport: a failed
//! send rolls the transaction back, so a subscriber only persists if the
//! email at least left the building.

use vstd::prelude::*;

use crate::domain::NewSubscriber;
use crate::domain::SubscriberEmail;
use crate::domain::SubscriberName;
use crate::domain::valid_subscriber_email;
use crate::domain::valid_subscriber_name;
use crate::email::ApplicationBaseUrl;
use crate::email::EmailMessageView;
use crate::email::Outbox;
use crate::email::confirmation_html_body;
use crate::email::confirmation_link;
use crate::email::confirmation_text_body;
use crate::email::send_confirmation_email;
use crate::errors::ConfirmError;
use crate::errors::StoreTokenError;
use crate::errors::SubscriberError;
use crate::store::Store;
use crate::store::StoreError;
use crate::store::StoreView;
use crate::store::SubscriberRow;
use crate::store::SubscriptionStatus;
use crate::store::TokenRow;
use crate::store::TokenView;
use crate::store::Transaction;
use crate::store::confirm_view;
use crate::store::has_subscriber;
use crate::store::lemma_lookup_subscriber_props;
use crate::store::lemma_lookup_token_props;
use crate::store::lookup_subscriber;
use crate::store::lookup_token;
use crate::store::store_wf;
use crate::token::generate_subscription_token;
use crate::token::well_formed_token;

verus! {

/// A subscription submission, as the boundary hands it in.
#[derive(Debug)]
pub struct FormData {
    pub email: String,
    pub name: String,
}

impl NewSubscriber {
    /// Validates a submission into a `NewSubscriber`; the name is checked
    /// first, as the error message reports one field at a time.
    pub fn try_from(form: FormData) -> (r: Result<NewSubscriber, String>)
        ensures
            r is Ok <==> valid_subscriber_name(form.name@) && valid_subscriber_email(form.email@),
            r matches Ok(ns) ==> ns.name@ == form.name@ && ns.email@ == form.email@,
            r matches Err(m) ==> (if !valid_subscriber_name(form.name@) {
                m@ == form.name@ + " is not a valid subscriber name."@
            } else {
                m@ == form.email@ + " is not a valid subscriber email."@
            }),
    {
        let name = match SubscriberName::parse(form.name) {
            Ok(n) => n,
            Err(m) => return Err(m),
        };
        let email = match SubscriberEmail::parse(form.email) {
            Ok(e) => e,
            Err(m) => return Err(m),
        };
        Ok(NewSubscriber { email, name })
    }
}

/// Relies on uuid's `Uuid::new_v4`: a fresh random identifier whose version
/// nibble is 4 and whose variant bits are the standard form. Nothing else is
/// assumed of the draw.
#[verifier::external_body]
fn generate_subscriber_id() -> (r: u128)
    ensures
        (r >> 76) & 0xf == 4,
        (r >> 62) & 0x3 == 2,
{
    uuid::Uuid::new_v4().as_u128()
}

/// Relies on chrono's `Utc::now`: the number of non-leap seconds since the
/// Unix epoch, as the clock reports it. Nothing is assumed of the value.
#[verifier::external_body]
fn current_timestamp() -> (t: i64) {
    chrono::Utc::now().timestamp()
}

/// Stages the subscriber row of a new subscription: a fresh random id in the
/// standard version-4 form, the validated name and email, the clock reading,
/// and pending status. Fails, leaving the transaction untouched, when the
/// drawn id is already taken — possible only in a non-empty store. What the
/// clock read cannot be promised, so `subscribed_at` stays unconstrained.
pub fn insert_subscriber(
    store: &Store,
    transaction: &mut Transaction,
    new_subscriber: &NewSubscriber,
) -> (r: Result<u128, StoreError>)
    requires
        old(transaction)@.staged_subscriber is None,
        old(transaction)@.staged_token is None,
    ensures
        r matches Ok(id) ==> (final(transaction)@.staged_subscriber matches Some(sv) && sv.id == id
            && sv.email == new_subscriber.email@ && sv.name == new_subscriber.name@
            && sv.status is PendingConfirmation && !has_subscriber(store@.subscribers, id)
            && (id >> 76) & 0xf == 4 && (id >> 62) & 0x3 == 2
            && final(transaction)@.staged_token is None),
        r is Err ==> final(transaction)@ == old(transaction)@ && store@.subscribers.len() > 0,
{
    let subscriber_id = generate_subscriber_id();
    if store.has_subscriber_id(subscriber_id) {
        proof {
            let j = choose|j: int|
                0 <= j < store@.subscribers.len() && store@.subscribers[j].id == subscriber_id;
            assert(store@.subscribers.len() > 0);
        }
        return Err(StoreError::ConstraintViolation);
    }
    let subscribed_at = current_timestamp();
    transaction.stage_subscriber(
        SubscriberRow {
            id: subscriber_id,
            email: new_subscriber.email.as_string(),
            name: new_subscriber.name.as_string(),
            subscribed_at,
            status: SubscriptionStatus::PendingConfirmation,
        },
    );
    Ok(subscriber_id)
}

/// Stages the confirmation token of a new subscription, bound to the staged
/// subscriber. Fails, leaving the transaction untouched, exactly when the
/// token is already stored: the uniqueness constraint on the token column,
/// checked at insert time.
pub fn store_token(
    store: &Store,
    transaction: &mut Transaction,
    subscriber_id: u128,
    subscription_token: &String,
) -> (r: Result<(), StoreTokenError>)
    requires
        old(transaction)@.staged_token is None,
    ensures
        r is Ok <==> lookup_token(store@.tokens, subscription_token@) is None,
        r is Ok ==> final(transaction)@.staged_token == Some(
            (TokenView { token: subscription_token@, subscriber_id }),
        ) && final(transaction)@.staged_subscriber == old(transaction)@.staged_subscriber,
        r is Err ==> final(transaction)@ == old(transaction)@,
{
    if store.get_subscriber_by_token(subscription_token).is_some() {
        return Err(StoreTokenError {});
    }
    transaction.stage_token(TokenRow { token: subscription_token.clone(), subscriber_id });
    Ok(())
}

/// Registers a new subscriber.
///
/// The submission is validated, the subscriber row and a fresh confirmation
/// token are staged in one transaction, the confirmation email is handed to
/// the transport, and only then is the transaction committed. A validation
/// failure reports the offending field; a refused email rolls everything
/// back; a collision of the random id or token — impossible in an empty
/// store — surfaces as the matching store failure, after one fresh token is
/// retried. No error path changes the store or the outbox.
pub fn subscribe(
    form: FormData,
    store: &mut Store,
    outbox: &mut Outbox,
    base_url: &ApplicationBaseUrl,
) -> (r: Result<(), SubscriberError>)
    requires
        old(store).wf(),
    ensures
        final(store).wf(),
        r is Err ==> final(store)@ == old(store)@ && final(outbox)@ == old(outbox)@,
        ((r matches Err(e) && e is ValidationError) <==> !(valid_subscriber_name(form.name@)
            && valid_subscriber_email(form.email@))),
        r matches Err(SubscriberError::ValidationError(m)) ==> (if !valid_subscriber_name(
            form.name@,
        ) {
            m@ == form.name@ + " is not a valid subscriber name."@
        } else {
            m@ == form.email@ + " is not a valid subscriber email."@
        }),
        ((r matches Err(e) && e is SendEmailError) ==> !old(outbox)@.accepting),
        ((r matches Err(e) && e is InsertSubscriberError) ==> old(store)@.subscribers.len() > 0),
        ((r matches Err(e) && e is StoreTokenError) ==> old(store)@.tokens.len() > 0),
        !(r matches Err(e) && e is PoolError),
        !(r matches Err(e) && e is TransactionCommitError),
        (valid_subscriber_name(form.name@) && valid_subscriber_email(form.email@) && old(
            outbox,
        )@.accepting && old(store)@.subscribers.len() == 0 && old(store)@.tokens.len() == 0)
            ==> r is Ok,
        r is Ok ==> ({
            let s0 = old(store)@;
            let s1 = final(store)@;
            &&& valid_subscriber_name(form.name@) && valid_subscriber_email(form.email@)
            &&& s1.subscribers == s0.subscribers.push(s1.subscribers.last())
            &&& s1.tokens == s0.tokens.push(s1.tokens.last())
            &&& s1.users == s0.users
            &&& s1.subscribers.last().email == form.email@
            &&& s1.subscribers.last().name == form.name@
            &&& s1.subscribers.last().status is PendingConfirmation
            &&& s1.tokens.last().subscriber_id == s1.subscribers.last().id
            &&& well_formed_token(s1.tokens.last().token)
            &&& old(outbox)@.accepting && final(outbox)@.accepting
            &&& final(outbox)@.sent == old(outbox)@.sent.push(
                (EmailMessageView {
                    to: form.email@,
                    subject: "Welcome!"@,
                    html_body: confirmation_html_body(
                        confirmation_link(base_url.0@, s1.tokens.last().token),
                    ),
                    text_body: confirmation_text_body(
                        confirmation_link(base_url.0@, s1.tokens.last().token),
                    ),
                }),
            )
        }),
{
    let new_subscriber = match NewSubscriber::try_from(form) {
        Ok(ns) => ns,
        Err(m) => return Err(SubscriberError::ValidationError(m)),
    };
    let mut transaction = store.begin();
    let subscriber_id = match insert_subscriber(store, &mut transaction, &new_subscriber) {
        Ok(id) => id,
        Err(e) => return Err(SubscriberError::InsertSubscriberError(e)),
    };
    let mut subscription_token = generate_subscription_token();
    if store_token(store, &mut transaction, subscriber_id, &subscription_token).is_err() {
        subscription_token = generate_subscription_token();
        match store_token(store, &mut transaction, subscriber_id, &subscription_token) {
            Ok(_) => (),
            Err(e) => {
                return Err(SubscriberError::StoreTokenError(e));
            },
        }
    }
    match send_confirmation_email(outbox, &new_subscriber, base_url, &subscription_token) {
        Ok(_) => (),
        Err(e) => return Err(SubscriberError::SendEmailError(e)),
    }
    match store.commit(transaction) {
        Ok(_) => Ok(()),
        Err(_) => {
            proof {
                assert(false);
            }
            Err(SubscriberError::TransactionCommitError(StoreError::ConstraintViolation))
        },
    }
}

/// Redeems a confirmation token: the subscriber bound to it becomes
/// confirmed. An unknown token is a bad request; redeeming a token a second
/// time is a harmless no-op that still reports success.
pub fn confirm(store: &mut Store, subscription_token: &String) -> (r: Result<(), ConfirmError>)
    requires
        old(store).wf(),
    ensures
        final(store).wf(),
        match lookup_token(old(store)@.tokens, subscription_token@) {
            Some(id) => r is Ok && final(store)@ == confirm_view(old(store)@, id),
            None => r matches Err(e) && e is UnknownToken && final(store)@ == old(store)@,
        },
{
    match store.get_subscriber_by_token(subscription_token) {
        Some(subscriber_id) => {
            store.set_confirmed(subscriber_id);
            Ok(())
        },
        None => Err(ConfirmError::UnknownToken),
    }
}

/// Confirmation is idempotent and keeps the token bound: after a confirmed
/// redemption, the same token still looks up the same subscriber, that
/// subscriber is confirmed, and confirming again changes nothing.
pub proof fn lemma_confirm_idempotent(s: StoreView, tok: Seq<char>)
    requires
        store_wf(s),
        lookup_token(s.tokens, tok) is Some,
    ensures
        lookup_token(confirm_view(s, lookup_token(s.tokens, tok)->Some_0).tokens, tok)
            == lookup_token(s.tokens, tok),
        confirm_view(
            confirm_view(s, lookup_token(s.tokens, tok)->Some_0),
            lookup_token(s.tokens, tok)->Some_0,
        ) == confirm_view(s, lookup_token(s.tokens, tok)->Some_0),
        lookup_subscriber(
            confirm_view(s, lookup_token(s.tokens, tok)->Some_0).subscribers,
            lookup_token(s.tokens, tok)->Some_0,
        ) matches Some(sv) && sv.status is Confirmed,
{
    let id = lookup_token(s.tokens, tok)->Some_0;
    let once = confirm_view(s, id);
    assert(once.tokens == s.tokens);
    assert(confirm_view(once, id).subscribers =~= once.subscribers) by {
        assert forall|j: int|
            0 <= j < once.subscribers.len() implies confirm_view(once, id).subscribers[j]
            == once.subscribers[j] by {
            assert(once.subscribers[j] == crate::store::confirm_one(s.subscribers[j], id));
        }
    }
    assert(confirm_view(once, id) =~= once);
    lemma_lookup_token_props(s.tokens, tok);
    let i = choose|i: int|
        0 <= i < s.tokens.len() && #[trigger] s.tokens[i].token == tok && s.tokens[i].subscriber_id
            == id;
    assert(has_subscriber(s.subscribers, id));
    lemma_lookup_subscriber_props(once.subscribers, id);
    if lookup_subscriber(once.subscribers, id) is None {
        let j = choose|j: int| 0 <= j < s.subscribers.len() && s.subscribers[j].id == id;
        assert(once.subscribers[j] == crate::store::confirm_one(s.subscribers[j], id));
        assert(once.subscribers[j].id == id);
    }
    let sv = lookup_subscriber(once.subscribers, id)->Some_0;
    let k = choose|k: int|
        0 <= k < once.subscribers.len() && once.subscribers[k] == sv
            && #[trigger] once.subscribers[k].id == id;
    assert(once.subscribers[k] == crate::store::confirm_one(s.subscribers[k], id));
}

} // verus!
