use vstd::prelude::*;
use vstd::string::StringExecFns;

verus! {

/// The failure a worker reports for one message.
#[derive(Debug, Clone, PartialEq, Eq)]
pub enum WorkError {
    /// A transient failure: the message is worth another try later.
    RecoverableError(String),
    /// A permanent failure: the message is dropped.
    UnRecoverableError(String),
}

pub open spec fn work_error_text(e: WorkError) -> Seq<char> {
    match e {
        WorkError::RecoverableError(m) => "A recoverable error occurred: "@ + m@,
        WorkError::UnRecoverableError(m) => "A unrecoverable error occurred: "@ + m@,
    }
}

impl WorkError {
    /// The reason the worker gave.
    pub fn reason(&self) -> (r: &String)
        ensures
            r == match self {
                WorkError::RecoverableError(m) => m,
                WorkError::UnRecoverableError(m) => m,
            },
    {
        match self {
            WorkError::RecoverableError(m) => m,
            WorkError::UnRecoverableError(m) => m,
        }
    }

    /// A human readable account of the failure.
    pub fn describe(&self) -> (r: String)
        ensures
            r@ == work_error_text(*self),
    {
        match self {
            WorkError::RecoverableError(m) => {
                let mut s = String::from_str("A recoverable error occurred: ");
                s.append(m.as_str());
                s
            },
            WorkError::UnRecoverableError(m) => {
                let mut s = String::from_str("A unrecoverable error occurred: ");
                s.append(m.as_str());
                s
            },
        }
    }
}

/// Everything that can go wrong in the consumer. Failures of the queue
/// service carry the service's own account of them as text.
#[derive(Debug, Clone, PartialEq, Eq)]
pub enum ProcessorError {
    IOError(String),
    /// A fetch from the queue failed.
    SqsReceiveMessageError(String),
    /// A delete failed; the message comes back after its visibility timeout.
    SqsDeleteMessageError(String),
    /// A resend failed; the original comes back after its visibility timeout.
    SqsSendMessageError(String),
    CredentialsError(String),
    HttpDispatchError(String),
    /// The options given do not name a usable queue.
    CommandLineError(&'static str),
    WorkErrorOccurred(WorkError),
    Unknown,
}

pub open spec fn processor_error_text(e: ProcessorError) -> Seq<char> {
    match e {
        ProcessorError::IOError(d) => "An std::io::Error occurred: "@ + d@,
        ProcessorError::SqsReceiveMessageError(d) => "Error receiving SQS message: "@ + d@,
        ProcessorError::SqsDeleteMessageError(d) => "An error occurred when attempted to delete a message "@ + d@,
        ProcessorError::SqsSendMessageError(d) => "Error Sending message "@ + d@,
        ProcessorError::CredentialsError(d) => "A credentials error occurred: "@ + d@,
        ProcessorError::HttpDispatchError(d) => "An HttpDispatch Error occurred: "@ + d@,
        ProcessorError::CommandLineError(d) => "A command line error occurred: "@ + d@,
        ProcessorError::WorkErrorOccurred(w) => "A work error occurred: "@ + work_error_text(w),
        ProcessorError::Unknown => "An unknown error occurred"@,
    }
}

fn prefixed(prefix: &str, detail: &str) -> (r: String)
    ensures
        r@ == prefix@ + detail@,
{
    let mut s = String::from_str(prefix);
    s.append(detail);
    s
}

impl ProcessorError {
    /// A human readable account of the error.
    pub fn describe(&self) -> (r: String)
        ensures
            r@ == processor_error_text(*self),
    {
        match self {
            ProcessorError::IOError(d) => prefixed("An std::io::Error occurred: ", d.as_str()),
            ProcessorError::SqsReceiveMessageError(d) => prefixed("Error receiving SQS message: ", d.as_str()),
            ProcessorError::SqsDeleteMessageError(d) => prefixed(
                "An error occurred when attempted to delete a message ",
                d.as_str(),
            ),
            ProcessorError::SqsSendMessageError(d) => prefixed("Error Sending message ", d.as_str()),
            ProcessorError::CredentialsError(d) => prefixed("A credentials error occurred: ", d.as_str()),
            ProcessorError::HttpDispatchError(d) => prefixed("An HttpDispatch Error occurred: ", d.as_str()),
            ProcessorError::CommandLineError(d) => prefixed("A command line error occurred: ", d),
            ProcessorError::WorkErrorOccurred(w) => {
                let inner = w.describe();
                prefixed("A work error occurred: ", inner.as_str())
            },
            ProcessorError::Unknown => String::from_str("An unknown error occurred"),
        }
    }

    /// The worker's failure behind this error, if it is one.
    pub fn work_error(&self) -> (r: Option<&WorkError>)
        ensures
            r == match self {
                ProcessorError::WorkErrorOccurred(w) => Some(w),
                _ => None::<&WorkError>,
            },
    {
        match self {
            ProcessorError::WorkErrorOccurred(w) => Some(w),
            _ => None,
        }
    }
}

impl From<WorkError> for ProcessorError {
    fn from(e: WorkError) -> (r: ProcessorError) {
        ProcessorError::WorkErrorOccurred(e)
    }
}

impl vstd::std_specs::convert::FromSpecImpl<WorkError> for ProcessorError {
    open spec fn obeys_from_spec() -> bool {
        true
    }

    open spec fn from_spec(e: WorkError) -> ProcessorError {
        ProcessorError::WorkErrorOccurred(e)
    }
}

} // verus!
