//! Classifying the outcome of one service-control invocation.

use crate::config::{ServiceModel, ServiceSpec};
use crate::text::{contains, contains_text};
use vstd::prelude::*;
use vstd::utf8::{decode_utf8, valid_utf8};

verus! {

/// The state of a service as one check found it.
#[derive(Clone, Copy, Debug, PartialEq, Eq, Structural)]
pub enum StatusResult {
    Active,
    Inactive,
    Unknown,
    Error,
}

/// The word that stands for a status in reports.
pub open spec fn status_text(status: StatusResult) -> Seq<char> {
    match status {
        StatusResult::Active => "active"@,
        StatusResult::Inactive => "inactive"@,
        StatusResult::Unknown => "unknown"@,
        StatusResult::Error => "error"@,
    }
}

impl StatusResult {
    /// The word that stands for this status in reports.
    pub fn as_str(&self) -> (r: &'static str)
        ensures
            r@ == status_text(*self),
    {
        match self {
            StatusResult::Active => "active",
            StatusResult::Inactive => "inactive",
            StatusResult::Unknown => "unknown",
            StatusResult::Error => "error",
        }
    }
}

/// What became of one invocation of the service-control command.
#[derive(Clone, Debug, PartialEq, Eq)]
pub enum Invocation {
    /// The command could not be started.
    NotStarted,
    /// The command ran to its end.
    Finished {
        /// Whether it exited successfully.
        success: bool,
        /// What it wrote to its standard output.
        stdout: Vec<u8>,
        /// What it wrote to its standard error.
        stderr: Vec<u8>,
    },
}

/// Why a check gave no status. Each variant carries the service's name.
#[derive(Clone, Debug, PartialEq, Eq)]
pub enum CheckError {
    /// The command ran and reported failure.
    CommandFailed(String),
    /// The command could not be started.
    ExecutionFailed(String),
}

/// A `CheckError` as a mathematical value.
pub enum CheckErrorModel {
    CommandFailed(Seq<char>),
    ExecutionFailed(Seq<char>),
}

impl View for CheckError {
    type V = CheckErrorModel;

    open spec fn view(&self) -> CheckErrorModel {
        match self {
            CheckError::CommandFailed(name) => CheckErrorModel::CommandFailed(name@),
            CheckError::ExecutionFailed(name) => CheckErrorModel::ExecutionFailed(name@),
        }
    }
}

impl CheckErrorModel {
    /// The sentence that is logged for this error.
    pub open spec fn message(self) -> Seq<char> {
        match self {
            CheckErrorModel::CommandFailed(name) => "Failed to check status of "@ + name,
            CheckErrorModel::ExecutionFailed(name) => "Failed to execute service command for "@
                + name,
        }
    }
}

impl CheckError {
    /// The sentence that is logged for this error.
    pub fn message(&self) -> (r: String)
        ensures
            r@ == self@.message(),
    {
        match self {
            CheckError::CommandFailed(name) => String::from_str("Failed to check status of ").concat(
                name.as_str(),
            ),
            CheckError::ExecutionFailed(name) => String::from_str(
                "Failed to execute service command for ",
            ).concat(name.as_str()),
        }
    }
}

/// The status that an output shows: active where the active marker occurs in
/// it, else inactive where the inactive marker occurs, else unknown.
pub open spec fn classify(output: Seq<char>, active: Seq<char>, inactive: Seq<char>)
    -> StatusResult {
    if contains_text(output, active) {
        StatusResult::Active
    } else if contains_text(output, inactive) {
        StatusResult::Inactive
    } else {
        StatusResult::Unknown
    }
}

/// Classifies the output of a successful invocation by the service's markers.
pub fn classify_output(stdout: &str, service: &ServiceSpec) -> (r: StatusResult)
    ensures
        r == classify(stdout@, service.active_text@, service.inactive_text@),
{
    if contains(stdout, service.active_text.as_str()) {
        StatusResult::Active
    } else if contains(stdout, service.inactive_text.as_str()) {
        StatusResult::Inactive
    } else {
        StatusResult::Unknown
    }
}

/// The text that `String::from_utf8_lossy` reads from bytes.
pub uninterp spec fn utf8_lossy(bytes: Seq<u8>) -> Seq<char>;

/// `String::from_utf8_lossy`, as an owned string: the result is the named
/// reading of the bytes, which for well-formed UTF-8 is the text they encode.
#[verifier::external_body]
fn decode_lossy(bytes: &[u8]) -> (r: String)
    ensures
        r@ == utf8_lossy(bytes@),
        valid_utf8(bytes@) ==> r@ == decode_utf8(bytes@),
{
    String::from_utf8_lossy(bytes).into_owned()
}

/// Whether the command ran and exited successfully.
pub open spec fn succeeded(invocation: Invocation) -> bool {
    match invocation {
        Invocation::NotStarted => false,
        Invocation::Finished { success, stdout, stderr } => success,
    }
}

/// What the command wrote to its standard output, where it ran.
pub open spec fn output_bytes(invocation: Invocation) -> Seq<u8> {
    match invocation {
        Invocation::NotStarted => Seq::empty(),
        Invocation::Finished { success, stdout, stderr } => stdout@,
    }
}

/// The command's output as the check reads it.
pub open spec fn output_text(invocation: Invocation) -> Seq<char> {
    utf8_lossy(output_bytes(invocation))
}

/// What a check yields for a service and the outcome of its invocation.
pub open spec fn check_result(service: ServiceModel, invocation: Invocation) -> Result<
    StatusResult,
    CheckErrorModel,
> {
    match invocation {
        Invocation::NotStarted => Err(CheckErrorModel::ExecutionFailed(service.name)),
        Invocation::Finished { success, stdout, stderr } => if success {
            Ok(classify(output_text(invocation), service.active_text, service.inactive_text))
        } else {
            Err(CheckErrorModel::CommandFailed(service.name))
        },
    }
}

/// A check's result with its error as a mathematical value.
pub open spec fn check_view(r: Result<StatusResult, CheckError>) -> Result<
    StatusResult,
    CheckErrorModel,
> {
    match r {
        Ok(status) => Ok(status),
        Err(e) => Err(e@),
    }
}

/// Turns the outcome of invoking the service-control command for `service`
/// into a status: a command that could not be started and one that reported
/// failure are errors; the output of a successful one is read as text,
/// leniently, and classified.
pub fn check_service_status(service: &ServiceSpec, invocation: &Invocation) -> (r: Result<
    StatusResult,
    CheckError,
>)
    ensures
        check_view(r) == check_result(service@, *invocation),
        succeeded(*invocation) && valid_utf8(output_bytes(*invocation)) ==> r == Ok::<
            StatusResult,
            CheckError,
        >(
            classify(
                decode_utf8(output_bytes(*invocation)),
                service.active_text@,
                service.inactive_text@,
            ),
        ),
{
    match invocation {
        Invocation::NotStarted => Err(CheckError::ExecutionFailed(service.name.clone())),
        Invocation::Finished { success, stdout, stderr } => {
            if *success {
                let text = decode_lossy(stdout.as_slice());
                Ok(classify_output(text.as_str(), service))
            } else {
                Err(CheckError::CommandFailed(service.name.clone()))
            }
        },
    }
}

/// Where the active marker occurs in the output of a successful invocation,
/// the service is active, whether or not the inactive marker occurs too.
pub proof fn lemma_active_takes_priority(service: ServiceModel, invocation: Invocation)
    requires
        succeeded(invocation),
        contains_text(output_text(invocation), service.active_text),
    ensures
        check_result(service, invocation) == Ok::<StatusResult, CheckErrorModel>(
            StatusResult::Active,
        ),
{
}

/// Where the active marker does not occur in the output of a successful
/// invocation, the service is inactive if the inactive marker occurs, and
/// its status is unknown if neither does.
pub proof fn lemma_classification_fallback(service: ServiceModel, invocation: Invocation)
    requires
        succeeded(invocation),
        !contains_text(output_text(invocation), service.active_text),
    ensures
        contains_text(output_text(invocation), service.inactive_text) ==> check_result(
            service,
            invocation,
        ) == Ok::<StatusResult, CheckErrorModel>(StatusResult::Inactive),
        !contains_text(output_text(invocation), service.inactive_text) ==> check_result(
            service,
            invocation,
        ) == Ok::<StatusResult, CheckErrorModel>(StatusResult::Unknown),
{
}

/// A check never yields the status `Error`, an unsuccessful exit yields
/// `CommandFailed` and a command that did not start `ExecutionFailed`, each
/// with the service's name, whatever the command wrote.
pub proof fn lemma_failure_mapping(service: ServiceModel, invocation: Invocation)
    ensures
        check_result(service, invocation) != Ok::<StatusResult, CheckErrorModel>(
            StatusResult::Error,
        ),
        invocation is NotStarted ==> check_result(service, invocation) == Err::<
            StatusResult,
            CheckErrorModel,
        >(CheckErrorModel::ExecutionFailed(service.name)),
        invocation is Finished && !succeeded(invocation) ==> check_result(service, invocation)
            == Err::<StatusResult, CheckErrorModel>(CheckErrorModel::CommandFailed(service.name)),
        succeeded(invocation) <==> check_result(service, invocation) is Ok,
{
}

} // verus!
