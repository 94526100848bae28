use vstd::prelude::*;

use crate::store::{confirmed_emails, SubscriberStore};
use crate::subscriber_email::{is_valid_email, SubscriberEmail};

verus! {

/// The two renderings of an issue.
#[derive(Debug, PartialEq, Eq)]
pub struct Content {
    pub text: String,
    pub html: String,
}

/// An issue to publish: its title and its content.
#[derive(Debug, PartialEq, Eq)]
pub struct BodyData {
    pub title: String,
    pub content: Content,
}

/// A confirmed subscriber whose stored address is a valid one.
#[derive(Debug)]
pub struct ConfirmedSubscriber {
    pub email: SubscriberEmail,
}

/// One stored address as the dispatcher sees it: the address, or why it was refused.
pub open spec fn row_view(r: Result<ConfirmedSubscriber, String>) -> Result<Seq<char>, Seq<char>> {
    match r {
        Ok(s) => Ok(s.email@),
        Err(e) => Err(e@),
    }
}

/// What reading the stored address `e` gives.
pub open spec fn parse_outcome(e: Seq<char>) -> Result<Seq<char>, Seq<char>> {
    if is_valid_email(e) {
        Ok(e)
    } else {
        Err("invalid subscriber email"@)
    }
}

pub open spec fn rows_view(rows: Seq<Result<ConfirmedSubscriber, String>>) -> Seq<
    Result<Seq<char>, Seq<char>>,
> {
    rows.map_values(|r: Result<ConfirmedSubscriber, String>| row_view(r))
}

/// The addresses of the rows that were read, in order.
pub open spec fn recipients_of(rows: Seq<Result<Seq<char>, Seq<char>>>) -> Seq<Seq<char>>
    decreases rows.len(),
{
    if rows.len() == 0 {
        Seq::empty()
    } else {
        let prev = recipients_of(rows.drop_last());
        match rows.last() {
            Ok(e) => prev.push(e),
            Err(_) => prev,
        }
    }
}

/// Why each refused row was refused, in order.
pub open spec fn refusals_of(rows: Seq<Result<Seq<char>, Seq<char>>>) -> Seq<Seq<char>>
    decreases rows.len(),
{
    if rows.len() == 0 {
        Seq::empty()
    } else {
        let prev = refusals_of(rows.drop_last());
        match rows.last() {
            Ok(_) => prev,
            Err(e) => prev.push(e),
        }
    }
}

/// Reads each stored address of a confirmed subscriber on its own: a malformed
/// one is reported in its row and does not stop the others.
pub fn get_confirmed_subscribers(emails: Vec<String>) -> (r: Vec<Result<ConfirmedSubscriber, String>>)
    ensures
        rows_view(r@) == emails@.map_values(|e: String| parse_outcome(e@)),
{
    let mut out: Vec<Result<ConfirmedSubscriber, String>> = Vec::new();
    let mut i: usize = 0;
    while i < emails.len()
        invariant
            i <= emails@.len(),
            rows_view(out@) =~= emails@.take(i as int).map_values(|e: String| parse_outcome(e@)),
        decreases emails@.len() - i,
    {
        let row = match SubscriberEmail::parse(emails[i].clone()) {
            Ok(email) => Ok(ConfirmedSubscriber { email }),
            Err(error) => Err(error),
        };
        assert(row_view(row) == parse_outcome(emails@[i as int]@));
        let ghost before = out@;
        out.push(row);
        assert(rows_view(out@) =~= rows_view(before).push(row_view(row)));
        assert(emails@.take(i + 1) =~= emails@.take(i as int).push(emails@[i as int]));
        i = i + 1;
    }
    assert(emails@.take(emails@.len() as int) =~= emails@);
    out
}

/// What the gateway should do next.
#[derive(Debug, PartialEq, Eq)]
pub enum PublishAction {
    /// Send the issue to this address, then report whether it went out.
    Send(String),
    /// Every recipient got the issue.
    Completed,
    /// Delivery to this address failed; no later recipient is contacted.
    Aborted(String),
}

pub enum ActionView {
    Send(Seq<char>),
    Completed,
    Aborted(Seq<char>),
}

impl View for PublishAction {
    type V = ActionView;

    open spec fn view(&self) -> ActionView {
        match self {
            PublishAction::Send(e) => ActionView::Send(e@),
            PublishAction::Completed => ActionView::Completed,
            PublishAction::Aborted(e) => ActionView::Aborted(e@),
        }
    }
}

/// The state of one publication: the recipients in order, how many got the
/// issue, whether a send is under way, and whether one failed.
pub struct PublicationView {
    pub recipients: Seq<Seq<char>>,
    pub delivered: nat,
    pub awaiting: bool,
    pub failed: bool,
}

pub open spec fn publication_wf(p: PublicationView) -> bool {
    &&& p.delivered <= p.recipients.len()
    &&& p.awaiting ==> p.delivered < p.recipients.len() && !p.failed
    &&& p.failed ==> p.delivered < p.recipients.len()
}

/// A publication that has not contacted anyone yet.
pub open spec fn initial_publication(rows: Seq<Result<Seq<char>, Seq<char>>>) -> PublicationView {
    PublicationView { recipients: recipients_of(rows), delivered: 0, awaiting: false, failed: false }
}

/// The action a publication asks for next: fail fast once a send failed.
pub open spec fn action_spec(p: PublicationView) -> ActionView {
    if p.failed {
        ActionView::Aborted(p.recipients[p.delivered as int])
    } else if p.delivered == p.recipients.len() {
        ActionView::Completed
    } else {
        ActionView::Send(p.recipients[p.delivered as int])
    }
}

/// The state once the next action has been handed out.
pub open spec fn start_spec(p: PublicationView) -> PublicationView {
    if !p.failed && p.delivered < p.recipients.len() {
        PublicationView { awaiting: true, ..p }
    } else {
        p
    }
}

/// The state once the gateway has answered for the send under way.
pub open spec fn delivery_spec(p: PublicationView, delivered: bool) -> PublicationView {
    if delivered {
        PublicationView { delivered: p.delivered + 1, awaiting: false, ..p }
    } else {
        PublicationView { awaiting: false, failed: true, ..p }
    }
}

/// Runs a publication against a gateway that answers `outcomes` in turn: the
/// addresses sent to, and the state it ends in.
pub open spec fn drive(p: PublicationView, outcomes: Seq<bool>) -> (Seq<Seq<char>>, PublicationView)
    decreases outcomes.len(),
{
    match action_spec(p) {
        ActionView::Send(e) => {
            if outcomes.len() == 0 {
                (Seq::empty(), p)
            } else {
                let q = delivery_spec(start_spec(p), outcomes[0]);
                let (rest, last) = drive(q, outcomes.drop_first());
                (seq![e] + rest, last)
            }
        },
        _ => (Seq::empty(), p),
    }
}

/// The delivery of one issue to the confirmed subscribers, one at a time. The
/// caller performs each `Send` and reports its outcome with `record_delivery`.
pub struct Publication {
    recipients: Vec<String>,
    skipped: Vec<String>,
    delivered: usize,
    awaiting: bool,
    failed: bool,
}

impl View for Publication {
    type V = PublicationView;

    closed spec fn view(&self) -> PublicationView {
        PublicationView {
            recipients: self.recipients@.map_values(|s: String| s@),
            delivered: self.delivered as nat,
            awaiting: self.awaiting,
            failed: self.failed,
        }
    }
}

impl Publication {
    pub open spec fn wf(&self) -> bool {
        publication_wf(self@)
    }

    /// Starts a publication over the rows of the confirmed subscribers; the
    /// rows that could not be read are set aside, to be reported.
    pub fn new(rows: Vec<Result<ConfirmedSubscriber, String>>) -> (r: Self)
        ensures
            r.wf(),
            r@ == initial_publication(rows_view(rows@)),
            r.skipped_view() == refusals_of(rows_view(rows@)),
    {
        let ghost rv = rows_view(rows@);
        let mut recipients: Vec<String> = Vec::new();
        let mut skipped: Vec<String> = Vec::new();
        let mut i: usize = 0;
        while i < rows.len()
            invariant
                i <= rows@.len(),
                rv == rows_view(rows@),
                recipients@.map_values(|s: String| s@) == recipients_of(rv.take(i as int)),
                skipped@.map_values(|s: String| s@) == refusals_of(rv.take(i as int)),
            decreases rows@.len() - i,
        {
            let ghost prefix = rv.take(i as int);
            assert(rv.take(i + 1).drop_last() =~= prefix);
            assert(rv.take(i + 1).last() == row_view(rows@[i as int]));
            match &rows[i] {
                Ok(s) => {
                    recipients.push(s.email.as_str().to_owned());
                    assert(recipients@.map_values(|s: String| s@) =~= recipients_of(prefix).push(
                        s.email@,
                    ));
                },
                Err(e) => {
                    skipped.push(e.clone());
                    assert(skipped@.map_values(|s: String| s@) =~= refusals_of(prefix).push(e@));
                },
            }
            i = i + 1;
        }
        assert(rv.take(rows@.len() as int) =~= rv);
        Publication { recipients, skipped, delivered: 0, awaiting: false, failed: false }
    }

    /// Starts a publication to the subscribers that are confirmed in `store` now.
    pub fn for_confirmed(store: &SubscriberStore) -> (r: Self)
        ensures
            r.wf(),
            r@ == initial_publication(
                confirmed_emails(store@.subscribers).map_values(|e: Seq<char>| parse_outcome(e)),
            ),
            r.skipped_view() == refusals_of(
                confirmed_emails(store@.subscribers).map_values(|e: Seq<char>| parse_outcome(e)),
            ),
    {
        Publication::new(store.list_confirmed())
    }

    pub closed spec fn skipped_view(&self) -> Seq<Seq<char>> {
        self.skipped@.map_values(|s: String| s@)
    }

    /// The reasons why rows were set aside, in order.
    pub fn skipped(&self) -> (r: &Vec<String>)
        ensures
            r@.map_values(|s: String| s@) == self.skipped_view(),
    {
        &self.skipped
    }

    /// What to do next: send to the next recipient, report that every
    /// recipient got the issue, or, once a send failed, report the failure.
    pub fn next_action(&mut self) -> (r: PublishAction)
        requires
            old(self).wf(),
            !old(self)@.awaiting,
        ensures
            final(self).wf(),
            final(self)@ == start_spec(old(self)@),
            final(self).skipped_view() == old(self).skipped_view(),
            r@ == action_spec(old(self)@),
    {
        if self.failed {
            PublishAction::Aborted(self.recipients[self.delivered].clone())
        } else if self.delivered == self.recipients.len() {
            PublishAction::Completed
        } else {
            self.awaiting = true;
            PublishAction::Send(self.recipients[self.delivered].clone())
        }
    }

    /// Records whether the send under way went out: on success the next
    /// recipient is due, on failure the publication stops for good.
    pub fn record_delivery(&mut self, delivered: bool)
        requires
            old(self).wf(),
            old(self)@.awaiting,
        ensures
            final(self).wf(),
            final(self)@ == delivery_spec(old(self)@, delivered),
            final(self).skipped_view() == old(self).skipped_view(),
    {
        assert(self.delivered < self.recipients.len());
        self.awaiting = false;
        if delivered {
            self.delivered = self.delivered + 1;
        } else {
            self.failed = true;
        }
    }
}

} // verus!
