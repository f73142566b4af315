use vstd::prelude::*;
use vstd::string::{to_string_from_display_ensures, StringExecFns};

verus! {

#[verifier::external_type_specification]
#[verifier::external_body]
pub struct ExIoError(std::io::Error);

/// Why an adapter could not be built or could not hand out an item.
#[derive(Debug)]
pub enum TimeoutIteratorError {
    /// The background relay could not be started; carries the spawner's error.
    ErrorSpawningThread(std::io::Error),
    /// The wait elapsed before an item became available.
    TimedOut,
    /// The source is exhausted and will never produce another item.
    Disconnected,
}

pub open spec fn message_prefix() -> Seq<char> {
    "TimeoutIteratorError:: "@
}

pub open spec fn timed_out_text() -> Seq<char> {
    "Timed out waiting on the underlying iterator for the next item"@
}

pub open spec fn disconnected_text() -> Seq<char> {
    "Underlying iterator closed/disconnected"@
}

pub open spec fn spawn_failure_text() -> Seq<char> {
    "Error when spawing a thread for sinking events. Inner io::Error: "@
}

impl TimeoutIteratorError {
    /// A human-readable description of the error.
    pub fn message(&self) -> (r: String)
        ensures
            *self is TimedOut ==> r@ == message_prefix() + timed_out_text(),
            *self is Disconnected ==> r@ == message_prefix() + disconnected_text(),
            *self matches TimeoutIteratorError::ErrorSpawningThread(e) ==> exists|inner: String|
                to_string_from_display_ensures::<std::io::Error>(&e, inner) && r@
                    == message_prefix() + spawn_failure_text() + inner@,
    {
        let text = String::from_str("TimeoutIteratorError:: ");
        proof {
            reveal_strlit("TimeoutIteratorError:: ");
            reveal_strlit("Timed out waiting on the underlying iterator for the next item");
            reveal_strlit("Underlying iterator closed/disconnected");
            reveal_strlit("Error when spawing a thread for sinking events. Inner io::Error: ");
        }
        match self {
            TimeoutIteratorError::TimedOut => text.concat(
                "Timed out waiting on the underlying iterator for the next item",
            ),
            TimeoutIteratorError::Disconnected => text.concat(
                "Underlying iterator closed/disconnected",
            ),
            TimeoutIteratorError::ErrorSpawningThread(e) => {
                let inner = e.to_string();
                let r = text.concat(
                    "Error when spawing a thread for sinking events. Inner io::Error: ",
                ).concat(inner.as_str());
                assert(to_string_from_display_ensures::<std::io::Error>(e, inner) && r@
                    == message_prefix() + spawn_failure_text() + inner@);
                r
            },
        }
    }
}

impl From<std::io::Error> for TimeoutIteratorError {
    fn from(err: std::io::Error) -> (r: TimeoutIteratorError)
        ensures
            r == TimeoutIteratorError::ErrorSpawningThread(err),
    {
        TimeoutIteratorError::ErrorSpawningThread(err)
    }
}

impl vstd::std_specs::convert::FromSpecImpl<std::io::Error> for TimeoutIteratorError {
    open spec fn obeys_from_spec() -> bool {
        true
    }

    open spec fn from_spec(v: std::io::Error) -> TimeoutIteratorError {
        TimeoutIteratorError::ErrorSpawningThread(v)
    }
}

} // verus!
