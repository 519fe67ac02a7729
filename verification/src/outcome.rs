//! What became of one push: the registry's answer, the registry's refusal,
//! or a task that never delivered either.

use vstd::prelude::*;

verus! {

/// What the registry client hands back for an accepted push. Its contents
/// are carried through untouched.
#[verifier::external_type_specification]
#[verifier::external_body]
pub struct ExPushResponse(oci_distribution::client::PushResponse);

/// The registry client's error. Its contents are carried through untouched.
#[verifier::external_type_specification]
#[verifier::external_body]
pub struct ExOciDistributionError(oci_distribution::errors::OciDistributionError);

/// The runtime's report that a task was cancelled or panicked. Its contents
/// are carried through untouched.
#[verifier::external_type_specification]
#[verifier::external_body]
pub struct ExJoinError(tokio::task::JoinError);

/// Why a task has no pushed image to show.
pub enum LoadTestError {
    /// The task ran, and the registry client reported a failure.
    OciDistributionError(oci_distribution::errors::OciDistributionError),
    /// The task did not run to completion, so there is no answer from the
    /// registry client at all.
    JoinError(tokio::task::JoinError),
}

/// The three ways a task can end.
#[derive(Clone, Copy, Debug, PartialEq, Eq, Structural)]
pub enum OutcomeKind {
    /// The registry accepted the image.
    Pushed,
    /// The registry client reported a failure.
    ProtocolFailure,
    /// The task itself could not be joined.
    SchedulingFailure,
}

/// What a push yields when its task runs to completion.
pub type PushResult = Result<
    oci_distribution::client::PushResponse,
    oci_distribution::errors::OciDistributionError,
>;

/// What joining a push task yields.
pub type JoinedPush = Result<PushResult, tokio::task::JoinError>;

/// One entry of a report.
pub type TaskOutcome = Result<oci_distribution::client::PushResponse, LoadTestError>;

/// The report entry that stands for a joined task.
pub open spec fn classified(joined: JoinedPush) -> TaskOutcome {
    match joined {
        Ok(Ok(response)) => Ok(response),
        Ok(Err(cause)) => Err(LoadTestError::OciDistributionError(cause)),
        Err(cause) => Err(LoadTestError::JoinError(cause)),
    }
}

/// The way a report entry ended.
pub open spec fn outcome_kind(outcome: TaskOutcome) -> OutcomeKind {
    match outcome {
        Ok(_) => OutcomeKind::Pushed,
        Err(LoadTestError::OciDistributionError(_)) => OutcomeKind::ProtocolFailure,
        Err(LoadTestError::JoinError(_)) => OutcomeKind::SchedulingFailure,
    }
}

/// Turns what joining a task yielded into a report entry. Nothing is
/// retried and nothing is dropped: the response or the error moves into the
/// entry as it is.
pub fn classify(joined: JoinedPush) -> (outcome: TaskOutcome)
    ensures
        outcome == classified(joined),
{
    match joined {
        Ok(Ok(response)) => Ok(response),
        Ok(Err(cause)) => Err(LoadTestError::OciDistributionError(cause)),
        Err(cause) => Err(LoadTestError::JoinError(cause)),
    }
}

/// Tells how a report entry ended.
pub fn kind_of(outcome: &TaskOutcome) -> (kind: OutcomeKind)
    ensures
        kind == outcome_kind(*outcome),
{
    match outcome {
        Ok(_) => OutcomeKind::Pushed,
        Err(LoadTestError::OciDistributionError(_)) => OutcomeKind::ProtocolFailure,
        Err(LoadTestError::JoinError(_)) => OutcomeKind::SchedulingFailure,
    }
}

/// The way an entry ends follows from what joining the task yielded, and
/// from that alone: an accepted push is reported as pushed, a push that the
/// registry client failed as a protocol failure, and a task that could not
/// be joined as a scheduling failure. The three never coincide.
pub proof fn lemma_kind_follows_join(joined: JoinedPush)
    ensures
        joined matches Ok(Ok(_)) <==> outcome_kind(classified(joined)) == OutcomeKind::Pushed,
        joined matches Ok(Err(_)) <==> outcome_kind(classified(joined))
            == OutcomeKind::ProtocolFailure,
        joined is Err <==> outcome_kind(classified(joined)) == OutcomeKind::SchedulingFailure,
{
}

/// A failed push is reported with the registry client's own error, and a
/// task that could not be joined with the runtime's own error: the cause is
/// kept as it came.
pub proof fn lemma_cause_is_kept(joined: JoinedPush)
    ensures
        joined matches Ok(Ok(response)) ==> classified(joined) == Ok::<
            oci_distribution::client::PushResponse,
            LoadTestError,
        >(response),
        joined matches Ok(Err(cause)) ==> classified(joined) == Err::<
            oci_distribution::client::PushResponse,
            LoadTestError,
        >(LoadTestError::OciDistributionError(cause)),
        joined matches Err(cause) ==> classified(joined) == Err::<
            oci_distribution::client::PushResponse,
            LoadTestError,
        >(LoadTestError::JoinError(cause)),
{
}

impl LoadTestError {
    /// The words that open the error's text and name its kind.
    pub open spec fn label(self) -> Seq<char> {
        match self {
            LoadTestError::OciDistributionError(_) => "OciDistributionError: "@,
            LoadTestError::JoinError(_) => "JoinError: "@,
        }
    }

    /// The error's text for a given text of its cause: the label, then the
    /// cause.
    pub fn text_with_cause(&self, cause: &str) -> (text: String)
        ensures
            text@ == self.label() + cause@,
    {
        let label = match self {
            LoadTestError::OciDistributionError(_) => "OciDistributionError: ",
            LoadTestError::JoinError(_) => "JoinError: ",
        };
        let mut text = String::from_str(label);
        text.append(cause);
        text
    }

    /// Whether `cause` is a text that the error's cause writes of itself.
    pub open spec fn cause_says(self, cause: String) -> bool {
        match self {
            LoadTestError::OciDistributionError(inner) => {
                vstd::string::to_string_from_display_ensures::<
                    oci_distribution::errors::OciDistributionError,
                >(&inner, cause)
            },
            LoadTestError::JoinError(inner) => {
                vstd::string::to_string_from_display_ensures::<tokio::task::JoinError>(
                    &inner,
                    cause,
                )
            },
        }
    }

    /// The error's text: the label, then what the cause says of itself.
    pub fn to_string(&self) -> (text: String)
        ensures
            exists|cause: String| #[trigger] self.cause_says(cause) && text@ == self.label() + cause@,
            self.label().is_prefix_of(text@),
    {
        let cause = match self {
            LoadTestError::OciDistributionError(inner) => inner.to_string(),
            LoadTestError::JoinError(inner) => inner.to_string(),
        };
        assert(self.cause_says(cause));
        self.text_with_cause(cause.as_str())
    }
}

} // verus!
