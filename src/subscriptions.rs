use crate::new_subscriber::{FormData, NewSubscriber};
use crate::sub_email::{email_valid, invalid_email_message, SubscriberEmail};
use crate::sub_name::is_valid_name_spec;
use crate::token::{gen_sub_token, is_sub_token};
use vstd::prelude::*;

verus! {

/// The lifecycle of a stored subscriber: created pending, confirmed once.
#[derive(Clone, Copy, PartialEq, Eq, Structural, Debug)]
pub enum SubscriptionStatus {
    PendingConfirmation,
    Confirmed,
}

pub open spec fn status_text(s: SubscriptionStatus) -> Seq<char> {
    match s {
        SubscriptionStatus::PendingConfirmation => "pending_confirmation"@,
        SubscriptionStatus::Confirmed => "confirmed"@,
    }
}

impl SubscriptionStatus {
    /// The text stored in the `status` column.
    pub fn as_str(&self) -> (r: &'static str)
        ensures
            r@ == status_text(*self),
    {
        match self {
            SubscriptionStatus::PendingConfirmation => "pending_confirmation",
            SubscriptionStatus::Confirmed => "confirmed",
        }
    }
}

/// The link that confirms the subscription holding `sub_token`.
pub open spec fn confirmation_link_spec(base_url: Seq<char>, sub_token: Seq<char>) -> Seq<char> {
    base_url + "/subscriptions/confirm?sub_token="@ + sub_token
}

pub open spec fn html_body_spec(link: Seq<char>) -> Seq<char> {
    "Welcome to our newsletter!<br />Click <a href=\""@ + link
        + "\">here</a> to confirm your subscription."@
}

pub open spec fn plain_body_spec(link: Seq<char>) -> Seq<char> {
    "Welcome to our newsletter!\nVisit "@ + link + " to confirm your subscription."@
}

/// The subject of every confirmation email.
pub open spec fn welcome_subject() -> Seq<char> {
    "Welcome!"@
}

pub fn confirmation_link(base_url: &str, sub_token: &str) -> (r: String)
    ensures
        r@ == confirmation_link_spec(base_url@, sub_token@),
{
    let mut r = String::from_str(base_url);
    r.append("/subscriptions/confirm?sub_token=");
    r.append(sub_token);
    r
}

/// An email that asks a new subscriber to confirm.
pub struct ConfirmationEmail {
    pub recipient: String,
    pub subject: String,
    pub html_body: String,
    pub plain_body: String,
}

/// `e` is the confirmation email for `recipient` and the token's link.
pub open spec fn is_confirmation_email(
    e: ConfirmationEmail,
    recipient: Seq<char>,
    base_url: Seq<char>,
    sub_token: Seq<char>,
) -> bool {
    let link = confirmation_link_spec(base_url, sub_token);
    &&& e.recipient@ == recipient
    &&& e.subject@ == welcome_subject()
    &&& e.html_body@ == html_body_spec(link)
    &&& e.plain_body@ == plain_body_spec(link)
}

/// Builds the email that carries the confirmation link, in HTML and in plain text.
pub fn confirmation_email(recipient: &SubscriberEmail, base_url: &str, sub_token: &str) -> (r:
    ConfirmationEmail)
    ensures
        is_confirmation_email(r, recipient@, base_url@, sub_token@),
{
    let link = confirmation_link(base_url, sub_token);
    let mut html_body = String::from_str("Welcome to our newsletter!<br />Click <a href=\"");
    html_body.append(link.as_str());
    html_body.append("\">here</a> to confirm your subscription.");
    let mut plain_body = String::from_str("Welcome to our newsletter!\nVisit ");
    plain_body.append(link.as_str());
    plain_body.append(" to confirm your subscription.");
    ConfirmationEmail {
        recipient: String::from_str(recipient.as_ref()),
        subject: String::from_str("Welcome!"),
        html_body,
        plain_body,
    }
}

/// Why a subscription failed; each kind but the first carries its cause.
pub enum SubscribeError {
    ValidationError(String),
    PoolError(String),
    InsertSubscriberError(String),
    StoreTokenError(String),
    TransactionCommitError(String),
    SendEmailError(String),
}

impl SubscribeError {
    /// Invalid input is the client's fault (400); every other kind is the server's (500).
    pub fn status_code(&self) -> (r: u16)
        ensures
            self is ValidationError ==> r == 400,
            !(self is ValidationError) ==> r == 500,
    {
        match self {
            SubscribeError::ValidationError(_) => 400,
            _ => 500,
        }
    }

    /// A message that is safe to show or log, without the cause's detail.
    pub fn message(&self) -> (r: String)
        ensures
            self matches SubscribeError::ValidationError(m) ==> r@ == m@,
            self is PoolError ==> r@ == "Failed to acquire a Postgres connection from the pool"@,
            self is InsertSubscriberError ==> r@
                == "Failed to insert new subscriber in the database."@,
            self is StoreTokenError ==> r@
                == "Failed to store the confirmation token for a new subscriber."@,
            self is TransactionCommitError ==> r@
                == "Failed to commit SQL transaction to store a new subscriber."@,
            self is SendEmailError ==> r@ == "Failed to send a confirmation email."@,
    {
        match self {
            SubscribeError::ValidationError(m) => m.clone(),
            SubscribeError::PoolError(_) => String::from_str(
                "Failed to acquire a Postgres connection from the pool",
            ),
            SubscribeError::InsertSubscriberError(_) => String::from_str(
                "Failed to insert new subscriber in the database.",
            ),
            SubscribeError::StoreTokenError(_) => String::from_str(
                "Failed to store the confirmation token for a new subscriber.",
            ),
            SubscribeError::TransactionCommitError(_) => String::from_str(
                "Failed to commit SQL transaction to store a new subscriber.",
            ),
            SubscribeError::SendEmailError(_) => String::from_str(
                "Failed to send a confirmation email.",
            ),
        }
    }
}

impl From<String> for SubscribeError {
    fn from(e: String) -> (r: SubscribeError) {
        SubscribeError::ValidationError(e)
    }
}

impl vstd::std_specs::convert::FromSpecImpl<String> for SubscribeError {
    open spec fn obeys_from_spec() -> bool {
        true
    }

    open spec fn from_spec(v: String) -> SubscribeError {
        SubscribeError::ValidationError(v)
    }
}

/// The step of a subscription whose outcome is awaited next.
#[derive(Clone, Copy, PartialEq, Eq, Structural, Debug)]
pub enum SubscribeStage {
    BeginTransaction,
    InsertSubscriber,
    StoreToken,
    CommitTransaction,
    SendEmail,
    Done,
}

/// The stage after `stage` reported success (`ok`) or failure.
pub open spec fn next_stage(stage: SubscribeStage, ok: bool) -> SubscribeStage {
    if !ok {
        SubscribeStage::Done
    } else {
        match stage {
            SubscribeStage::BeginTransaction => SubscribeStage::InsertSubscriber,
            SubscribeStage::InsertSubscriber => SubscribeStage::StoreToken,
            SubscribeStage::StoreToken => SubscribeStage::CommitTransaction,
            SubscribeStage::CommitTransaction => SubscribeStage::SendEmail,
            SubscribeStage::SendEmail => SubscribeStage::Done,
            SubscribeStage::Done => SubscribeStage::Done,
        }
    }
}

/// What the caller must do next. The first three run inside one transaction,
/// which is dropped, and so rolled back, on any failure before the commit.
pub enum SubscribeAction {
    BeginTransaction,
    InsertSubscriber {
        sub_id: u128,
        email: String,
        name: String,
        subscribed_at: i64,
        status: SubscriptionStatus,
    },
    StoreToken { sub_token: String, sub_id: u128 },
    CommitTransaction,
    SendEmail(ConfirmationEmail),
    Finish(Result<(), SubscribeError>),
}

/// One subscription in progress: the validated subscriber, the identity and
/// token made for it, and the stage reached.
pub struct SubscribeFlow {
    pub new_subscriber: NewSubscriber,
    pub sub_id: u128,
    pub sub_token: String,
    pub subscribed_at: i64,
    pub base_url: String,
    pub stage: SubscribeStage,
}

/// `a` is what `flow` asks for on entering its current stage.
pub open spec fn is_stage_action(flow: SubscribeFlow, a: SubscribeAction) -> bool {
    match flow.stage {
        SubscribeStage::BeginTransaction => a is BeginTransaction,
        SubscribeStage::InsertSubscriber => a matches SubscribeAction::InsertSubscriber {
            sub_id,
            email,
            name,
            subscribed_at,
            status,
        } && sub_id == flow.sub_id && email@ == flow.new_subscriber.email@ && name@
            == flow.new_subscriber.name@ && subscribed_at == flow.subscribed_at && status
            == SubscriptionStatus::PendingConfirmation,
        SubscribeStage::StoreToken => a matches SubscribeAction::StoreToken { sub_token, sub_id }
            && sub_token@ == flow.sub_token@ && sub_id == flow.sub_id,
        SubscribeStage::CommitTransaction => a is CommitTransaction,
        SubscribeStage::SendEmail => a matches SubscribeAction::SendEmail(e)
            && is_confirmation_email(e, flow.new_subscriber.email@, flow.base_url@, flow.sub_token@),
        SubscribeStage::Done => a matches SubscribeAction::Finish(Ok(())),
    }
}

/// `e` is the error that reports `cause` as the failure of `stage`.
pub open spec fn is_stage_failure(stage: SubscribeStage, cause: Seq<char>, e: SubscribeError) -> bool {
    match stage {
        SubscribeStage::BeginTransaction => e matches SubscribeError::PoolError(c) && c@ == cause,
        SubscribeStage::InsertSubscriber => e matches SubscribeError::InsertSubscriberError(c)
            && c@ == cause,
        SubscribeStage::StoreToken => e matches SubscribeError::StoreTokenError(c) && c@ == cause,
        SubscribeStage::CommitTransaction => e matches SubscribeError::TransactionCommitError(c)
            && c@ == cause,
        SubscribeStage::SendEmail => e matches SubscribeError::SendEmailError(c) && c@ == cause,
        SubscribeStage::Done => false,
    }
}

/// Relies on `uuid::Uuid::new_v4`: a random identifier, as its 128 bits.
#[verifier::external_body]
fn new_subscriber_id() -> (r: u128) {
    uuid::Uuid::new_v4().as_u128()
}

/// Relies on `chrono::Utc::now`: the current time, in microseconds since the epoch.
#[verifier::external_body]
fn now_micros() -> (r: i64) {
    chrono::Utc::now().timestamp_micros()
}

impl SubscribeFlow {
    /// A flow for `new_subscriber` that has not begun its transaction.
    pub fn new(
        new_subscriber: NewSubscriber,
        sub_id: u128,
        sub_token: String,
        subscribed_at: i64,
        base_url: String,
    ) -> (r: SubscribeFlow)
        ensures
            r.new_subscriber == new_subscriber,
            r.sub_id == sub_id,
            r.sub_token == sub_token,
            r.subscribed_at == subscribed_at,
            r.base_url == base_url,
            r.stage == SubscribeStage::BeginTransaction,
    {
        SubscribeFlow {
            new_subscriber,
            sub_id,
            sub_token,
            subscribed_at,
            base_url,
            stage: SubscribeStage::BeginTransaction,
        }
    }

    /// Validates the request; on success gives a fresh identity, a fresh
    /// token and the time, and asks to begin the transaction. Invalid input
    /// fails at once, before anything is stored.
    pub fn start(form: FormData, base_url: String) -> (r: Result<
        (SubscribeFlow, SubscribeAction),
        SubscribeError,
    >)
        ensures
            r is Ok <==> is_valid_name_spec(form.name@) && email_valid(form.email@),
            r matches Ok((f, a)) ==> {
                &&& f.new_subscriber.name@ == form.name@
                &&& f.new_subscriber.email@ == form.email@
                &&& is_sub_token(f.sub_token@)
                &&& f.base_url@ == base_url@
                &&& f.stage == SubscribeStage::BeginTransaction
                &&& is_stage_action(f, a)
            },
            !is_valid_name_spec(form.name@) ==> (r matches Err(
                SubscribeError::ValidationError(m),
            ) && m@ == "bad name"@),
            is_valid_name_spec(form.name@) && !email_valid(form.email@) ==> (r matches Err(
                SubscribeError::ValidationError(m),
            ) && m@ == invalid_email_message(form.email@)),
    {
        let new_subscriber = match form.try_into() {
            Ok(s) => s,
            Err(e) => {
                return Err(SubscribeError::ValidationError(e));
            },
        };
        let sub_id = new_subscriber_id();
        let sub_token = gen_sub_token();
        let subscribed_at = now_micros();
        let flow = SubscribeFlow::new(new_subscriber, sub_id, sub_token, subscribed_at, base_url);
        Ok((flow, SubscribeAction::BeginTransaction))
    }

    /// Takes the outcome of the action last asked for. A success moves to the
    /// next stage and asks for its action; a failure ends the flow with the
    /// error of the failed stage. Nothing already committed is undone.
    pub fn step(&mut self, outcome: Result<(), String>) -> (a: SubscribeAction)
        requires
            old(self).stage != SubscribeStage::Done,
        ensures
            final(self).new_subscriber == old(self).new_subscriber,
            final(self).sub_id == old(self).sub_id,
            final(self).sub_token == old(self).sub_token,
            final(self).subscribed_at == old(self).subscribed_at,
            final(self).base_url == old(self).base_url,
            final(self).stage == next_stage(old(self).stage, outcome is Ok),
            outcome is Ok ==> is_stage_action(*final(self), a),
            outcome matches Err(c) ==> (a matches SubscribeAction::Finish(Err(e))
                && is_stage_failure(old(self).stage, c@, e)),
    {
        match outcome {
            Err(c) => {
                let e = match self.stage {
                    SubscribeStage::BeginTransaction => SubscribeError::PoolError(c),
                    SubscribeStage::InsertSubscriber => SubscribeError::InsertSubscriberError(c),
                    SubscribeStage::StoreToken => SubscribeError::StoreTokenError(c),
                    SubscribeStage::CommitTransaction => SubscribeError::TransactionCommitError(c),
                    _ => SubscribeError::SendEmailError(c),
                };
                self.stage = SubscribeStage::Done;
                SubscribeAction::Finish(Err(e))
            },
            Ok(()) => match self.stage {
                SubscribeStage::BeginTransaction => {
                    self.stage = SubscribeStage::InsertSubscriber;
                    SubscribeAction::InsertSubscriber {
                        sub_id: self.sub_id,
                        email: String::from_str(self.new_subscriber.email.as_ref()),
                        name: String::from_str(self.new_subscriber.name.as_ref()),
                        subscribed_at: self.subscribed_at,
                        status: SubscriptionStatus::PendingConfirmation,
                    }
                },
                SubscribeStage::InsertSubscriber => {
                    self.stage = SubscribeStage::StoreToken;
                    SubscribeAction::StoreToken {
                        sub_token: self.sub_token.clone(),
                        sub_id: self.sub_id,
                    }
                },
                SubscribeStage::StoreToken => {
                    self.stage = SubscribeStage::CommitTransaction;
                    SubscribeAction::CommitTransaction
                },
                SubscribeStage::CommitTransaction => {
                    self.stage = SubscribeStage::SendEmail;
                    SubscribeAction::SendEmail(
                        confirmation_email(
                            &self.new_subscriber.email,
                            self.base_url.as_str(),
                            self.sub_token.as_str(),
                        ),
                    )
                },
                _ => {
                    self.stage = SubscribeStage::Done;
                    SubscribeAction::Finish(Ok(()))
                },
            },
        }
    }
}

/// The stages a flow enters from `stage`, one for each outcome in `oks`
/// (`true` for success); a finished flow takes no further outcome.
pub open spec fn stages_entered(stage: SubscribeStage, oks: Seq<bool>) -> Seq<SubscribeStage>
    decreases oks.len(),
{
    if oks.len() == 0 || stage == SubscribeStage::Done {
        Seq::empty()
    } else {
        let n = next_stage(stage, oks[0]);
        seq![n] + stages_entered(n, oks.drop_first())
    }
}

/// A subscription whose steps all succeed inserts the subscriber, stores its
/// token, commits, sends exactly one confirmation email, and then finishes.
pub proof fn lemma_successful_subscribe_sends_one_email(oks: Seq<bool>)
    requires
        oks.len() >= 5,
        forall|i: int| 0 <= i < 5 ==> #[trigger] oks[i],
    ensures
        stages_entered(SubscribeStage::BeginTransaction, oks) == seq![
            SubscribeStage::InsertSubscriber,
            SubscribeStage::StoreToken,
            SubscribeStage::CommitTransaction,
            SubscribeStage::SendEmail,
            SubscribeStage::Done,
        ],
{
    let o1 = oks.drop_first();
    let o2 = o1.drop_first();
    let o3 = o2.drop_first();
    let o4 = o3.drop_first();
    let o5 = o4.drop_first();
    assert(oks[0] && o1[0] && o2[0] && o3[0] && o4[0]) by {
        assert(oks[1] && oks[2] && oks[3] && oks[4]);
    }
    let t5 = stages_entered(SubscribeStage::Done, o5);
    assert(t5 == Seq::<SubscribeStage>::empty());
    let t4 = stages_entered(SubscribeStage::SendEmail, o4);
    assert(t4 == seq![SubscribeStage::Done] + t5);
    let t3 = stages_entered(SubscribeStage::CommitTransaction, o3);
    assert(t3 == seq![SubscribeStage::SendEmail] + t4);
    let t2 = stages_entered(SubscribeStage::StoreToken, o2);
    assert(t2 == seq![SubscribeStage::CommitTransaction] + t3);
    let t1 = stages_entered(SubscribeStage::InsertSubscriber, o1);
    assert(t1 == seq![SubscribeStage::StoreToken] + t2);
    assert(stages_entered(SubscribeStage::BeginTransaction, oks) == seq![
        SubscribeStage::InsertSubscriber,
    ] + t1);
    assert(stages_entered(SubscribeStage::BeginTransaction, oks) =~= seq![
        SubscribeStage::InsertSubscriber,
        SubscribeStage::StoreToken,
        SubscribeStage::CommitTransaction,
        SubscribeStage::SendEmail,
        SubscribeStage::Done,
    ]);
}

/// The transaction is committed only after it began and both the subscriber
/// and its token were written; so when the token cannot be stored, nothing
/// is committed and no email is sent.
pub proof fn lemma_commit_only_after_both_writes(oks: Seq<bool>, i: int)
    requires
        0 <= i < stages_entered(SubscribeStage::BeginTransaction, oks).len(),
        stages_entered(SubscribeStage::BeginTransaction, oks)[i]
            == SubscribeStage::CommitTransaction,
    ensures
        i == 2,
        oks[0] && oks[1] && oks[2],
{
    let o1 = oks.drop_first();
    let o2 = o1.drop_first();
    let o3 = o2.drop_first();
    let t0 = stages_entered(SubscribeStage::BeginTransaction, oks);
    let s1 = next_stage(SubscribeStage::BeginTransaction, oks[0]);
    let t1 = stages_entered(s1, o1);
    assert(t0 == seq![s1] + t1);
    if s1 == SubscribeStage::Done {
        assert(t1.len() == 0);
    } else {
        let s2 = next_stage(s1, o1[0]);
        let t2 = stages_entered(s2, o2);
        assert(t1 == seq![s2] + t2);
        if s2 == SubscribeStage::Done {
            assert(t2.len() == 0);
        } else {
            let s3 = next_stage(s2, o2[0]);
            let t3 = stages_entered(s3, o3);
            assert(t2 == seq![s3] + t3);
            if s3 == SubscribeStage::Done {
                assert(t3.len() == 0);
            } else {
                lemma_no_commit_after_token_store(s3, o3);
            }
        }
    }
}

/// Past the token store, the commit is never entered again.
proof fn lemma_no_commit_after_token_store(stage: SubscribeStage, oks: Seq<bool>)
    requires
        stage == SubscribeStage::CommitTransaction || stage == SubscribeStage::SendEmail || stage
            == SubscribeStage::Done,
    ensures
        forall|j: int|
            0 <= j < stages_entered(stage, oks).len() ==> #[trigger] stages_entered(stage, oks)[j]
                != SubscribeStage::CommitTransaction,
    decreases oks.len(),
{
    if oks.len() > 0 && stage != SubscribeStage::Done {
        let n = next_stage(stage, oks[0]);
        lemma_no_commit_after_token_store(n, oks.drop_first());
        assert(stages_entered(stage, oks) == seq![n] + stages_entered(n, oks.drop_first()));
    }
}

/// Both bodies of a confirmation email carry the same link, which ends in the token.
pub proof fn lemma_email_bodies_share_link(
    e: ConfirmationEmail,
    recipient: Seq<char>,
    base_url: Seq<char>,
    sub_token: Seq<char>,
)
    requires
        is_confirmation_email(e, recipient, base_url, sub_token),
    ensures
        ({
            let link = confirmation_link_spec(base_url, sub_token);
            let h = "Welcome to our newsletter!<br />Click <a href=\""@.len() as int;
            let p = "Welcome to our newsletter!\nVisit "@.len() as int;
            &&& e.html_body@.subrange(h, h + link.len()) == link
            &&& e.plain_body@.subrange(p, p + link.len()) == link
            &&& link.subrange(link.len() - sub_token.len(), link.len() as int) == sub_token
        }),
{
    let link = confirmation_link_spec(base_url, sub_token);
    let h = "Welcome to our newsletter!<br />Click <a href=\""@.len() as int;
    let p = "Welcome to our newsletter!\nVisit "@.len() as int;
    assert(e.html_body@.subrange(h, h + link.len()) =~= link);
    assert(e.plain_body@.subrange(p, p + link.len()) =~= link);
    assert(link.subrange(link.len() - sub_token.len(), link.len() as int) =~= sub_token);
}

} // verus!
