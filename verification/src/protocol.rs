//! Message shapes of the correlation protocol.
//!
//! A request carries a script and a correlation id; the response to it
//! carries the same id and either the text the script evaluated to or a
//! description of why it failed. One id is reserved: the worker answers under
//! it once, unasked, when the engine has become ready.

use vstd::prelude::*;

verus! {

/// The reserved correlation id under which the worker reports its boot.
pub open spec fn boot_id() -> Seq<char> {
    "initialized"@
}

/// The description an engine failure gets when it arrives without any text.
pub open spec fn unnamed_failure() -> Seq<char> {
    "script evaluation failed"@
}

/// Whether `c` is a digit of lower-case hexadecimal notation.
pub open spec fn is_lower_hex(c: char) -> bool {
    ('0' <= c && c <= '9') || ('a' <= c && c <= 'f')
}

/// The shape of a call's correlation id: a random (version 4) UUID in
/// hyphenated lower-case notation, 36 characters in groups of 8, 4, 4, 4
/// and 12 digits.
pub open spec fn is_call_id(id: Seq<char>) -> bool {
    &&& id.len() == 36
    &&& forall|i: int|
        0 <= i < 36 ==> if i == 8 || i == 13 || i == 18 || i == 23 {
            id[i] == '-'
        } else {
            is_lower_hex(#[trigger] id[i])
        }
    &&& id[14] == '4'
    &&& (id[19] == '8' || id[19] == '9' || id[19] == 'a' || id[19] == 'b')
}

/// What the engine hands back for one script, as plain text on both sides.
pub type Outcome = Result<Seq<char>, Seq<char>>;

/// A failure reported by the engine. Its description is never empty.
#[derive(Debug, PartialEq, Eq)]
pub struct EngineError {
    description: String,
}

impl View for EngineError {
    type V = Seq<char>;

    closed spec fn view(&self) -> Seq<char> {
        self.description@
    }
}

impl EngineError {
    #[verifier::type_invariant]
    pub closed spec fn described(&self) -> bool {
        self.description@.len() > 0
    }

    /// Wraps a failure description. An empty description is replaced by
    /// `unnamed_failure()`, so that every failure says something.
    pub fn new(description: String) -> (error: EngineError)
        ensures
            error@ == (if description@.len() > 0 {
                description@
            } else {
                unnamed_failure()
            }),
            error@.len() > 0,
    {
        proof {
            reveal_strlit("script evaluation failed");
        }
        if description.as_str().is_empty() {
            EngineError { description: String::from_str("script evaluation failed") }
        } else {
            EngineError { description }
        }
    }

    /// The description of the failure.
    pub fn description(&self) -> (text: &String)
        ensures
            text@ == self@,
            text@.len() > 0,
    {
        proof {
            use_type_invariant(self);
        }
        &self.description
    }
}

impl Clone for EngineError {
    fn clone(&self) -> (copy: EngineError)
        ensures
            copy@ == self@,
    {
        proof {
            use_type_invariant(self);
        }
        EngineError { description: self.description.clone() }
    }
}

/// The view of a result as it travels in a response.
pub open spec fn outcome_view(result: Result<String, EngineError>) -> Outcome {
    match result {
        Ok(text) => Ok(text@),
        Err(error) => Err(error@),
    }
}

/// The evaluation message: one script for the engine.
#[derive(Debug, PartialEq, Eq)]
pub struct Execute {
    pub script: String,
}

impl View for Execute {
    type V = Seq<char>;

    open spec fn view(&self) -> Seq<char> {
        self.script@
    }
}

impl Clone for Execute {
    fn clone(&self) -> (copy: Execute)
        ensures
            copy@ == self@,
    {
        Execute { script: self.script.clone() }
    }
}

/// A call on its way to the worker.
#[derive(Debug, PartialEq, Eq)]
pub struct JsCoreRequest {
    pub script: String,
    pub id: String,
}

/// The model of a request.
pub struct RequestView {
    pub script: Seq<char>,
    pub id: Seq<char>,
}

impl View for JsCoreRequest {
    type V = RequestView;

    open spec fn view(&self) -> RequestView {
        RequestView { script: self.script@, id: self.id@ }
    }
}

impl Clone for JsCoreRequest {
    fn clone(&self) -> (copy: JsCoreRequest)
        ensures
            copy@ == self@,
    {
        JsCoreRequest { script: self.script.clone(), id: self.id.clone() }
    }
}

/// An answer on its way back to the host.
#[derive(Debug, PartialEq, Eq)]
pub struct JsCoreResponse {
    pub result: Result<String, EngineError>,
    pub id: String,
}

/// The model of a response.
pub struct ResponseView {
    pub result: Outcome,
    pub id: Seq<char>,
}

impl View for JsCoreResponse {
    type V = ResponseView;

    open spec fn view(&self) -> ResponseView {
        ResponseView { result: outcome_view(self.result), id: self.id@ }
    }
}

impl Clone for JsCoreResponse {
    fn clone(&self) -> (copy: JsCoreResponse)
        ensures
            copy@ == self@,
    {
        let result = match &self.result {
            Ok(text) => Ok(text.clone()),
            Err(error) => Err(error.clone()),
        };
        JsCoreResponse { result, id: self.id.clone() }
    }
}

/// The boot signal: the reserved id, carrying its own name as the result.
pub open spec fn boot_signal() -> ResponseView {
    ResponseView { result: Ok(boot_id()), id: boot_id() }
}

/// The notice that the engine will never become ready, and why.
pub open spec fn boot_failure(reason: Seq<char>) -> ResponseView {
    ResponseView { result: Err(reason), id: boot_id() }
}

/// The answer to `request` when its script evaluated to `outcome`.
pub open spec fn answer(request: RequestView, outcome: Outcome) -> ResponseView {
    ResponseView { result: outcome, id: request.id }
}

/// A call id never collides with the reserved id.
pub proof fn lemma_call_id_not_reserved(id: Seq<char>)
    requires
        is_call_id(id),
    ensures
        id != boot_id(),
{
    reveal_strlit("initialized");
}

/// Draws a new correlation id from `uuid::Uuid::new_v4` and renders it with
/// the `to_string` of its `Display`. Trusted: the text has the shape
/// `is_call_id`, which is the hyphenated lower-case rendering of a UUID whose
/// version digit is 4 and whose variant bits are those of RFC 9562. Nothing is
/// claimed of the random digits, nor that two draws differ. The draw panics
/// only where the operating system refuses to supply random bytes.
#[verifier::external_body]
pub(crate) fn fresh_call_id() -> (id: String)
    ensures
        is_call_id(id@),
{
    uuid::Uuid::new_v4().to_string()
}

/// The reserved correlation id, as text.
pub fn boot_signal_id() -> (id: String)
    ensures
        id@ == boot_id(),
{
    String::from_str("initialized")
}

impl JsCoreResponse {
    /// The boot signal.
    pub fn boot_signal() -> (signal: JsCoreResponse)
        ensures
            signal@ == boot_signal(),
    {
        JsCoreResponse { result: Ok(boot_signal_id()), id: boot_signal_id() }
    }

    /// The notice that replaces the boot signal when the engine cannot start.
    pub fn boot_failure(reason: EngineError) -> (notice: JsCoreResponse)
        ensures
            notice@ == boot_failure(reason@),
    {
        JsCoreResponse { result: Err(reason), id: boot_signal_id() }
    }

    /// The response that carries `outcome` back to the call registered as `id`.
    pub fn reply(id: String, outcome: Result<String, EngineError>) -> (response: JsCoreResponse)
        ensures
            response@.id == id@,
            response@.result == outcome_view(outcome),
    {
        JsCoreResponse { result: outcome, id }
    }

    /// Whether this response travels under the reserved id.
    pub fn is_boot_message(&self) -> (reserved: bool)
        ensures
            reserved == (self@.id == boot_id()),
    {
        let reserved_id = boot_signal_id();
        self.id == reserved_id
    }
}

} // verus!
