//! The identity-verification side of the service: the outcome vocabulary, the
//! verifier's decision payload, and the interface every identity verifier
//! offers to the access flow.

use vstd::prelude::*;

verus! {

/// Binary verification result: access granted or denied.
///
/// A token the verifier does not know yields a normal `Failure` outcome,
/// never an error: errors are reserved for the verification mechanism
/// itself breaking down.
#[derive(Clone, Copy, PartialEq, Eq, Structural, Debug)]
pub enum Outcome {
    Success,
    Failure,
}

/// The verification mechanism itself broke down (connectivity, corruption);
/// distinct from a `Failure` outcome, which is a normal denial.
#[derive(Clone, Copy, PartialEq, Eq, Structural, Debug)]
pub struct VerifierError;

/// The verifier's decision payload: the outcome, plus the identity
/// metadata ("name") the verifier may attach to the decision. It is
/// returned to the caller and archived in the history entry of the
/// attempt, so it must clone without side effects.
#[derive(Debug)]
pub struct AccessResponse {
    pub outcome: Outcome,
    pub name: Option<String>,
}

/// Mathematical value of an `AccessResponse`.
#[verifier::ext_equal]
pub struct AccessResponseView {
    pub outcome: Outcome,
    pub name: Option<Seq<char>>,
}

impl View for AccessResponse {
    type V = AccessResponseView;

    open spec fn view(&self) -> AccessResponseView {
        AccessResponseView {
            outcome: self.outcome,
            name: match self.name {
                Some(s) => Some(s@),
                None => None,
            },
        }
    }
}

impl Clone for AccessResponse {
    fn clone(&self) -> (r: Self)
        ensures
            r@ == self@,
    {
        AccessResponse {
            outcome: self.outcome,
            name: match &self.name {
                Some(s) => Some(s.clone()),
                None => None,
            },
        }
    }
}

/// Interface of the identity-verification collaborator: it alone decides
/// whether the holder of a token is granted access. `spec_access` is the
/// decision the verifier would reach in its current state; `access` reaches
/// exactly that decision, and may update internal state while doing so.
pub trait IdentityStore {
    /// The decision this verifier reaches for `token` in its current state.
    spec fn spec_access(&self, token: Seq<char>) -> Result<AccessResponseView, VerifierError>;

    /// Decide whether the holder of `token` is granted access.
    fn access(&mut self, token: &str) -> (r: Result<AccessResponse, VerifierError>)
        ensures
            match r {
                Ok(resp) => old(self).spec_access(token@) matches Ok(d) && d == resp@,
                Err(e) => old(self).spec_access(token@) matches Err(d) && d == e,
            },
    ;
}

/// A verifier that reaches the same configured outcome for every token,
/// and attaches no identity metadata.
pub struct FixedVerifier {
    pub outcome: Outcome,
}

impl IdentityStore for FixedVerifier {
    open spec fn spec_access(&self, token: Seq<char>) -> Result<AccessResponseView, VerifierError> {
        Ok(AccessResponseView { outcome: self.outcome, name: None })
    }

    fn access(&mut self, token: &str) -> (r: Result<AccessResponse, VerifierError>) {
        Ok(AccessResponse { outcome: self.outcome, name: None })
    }
}

/// A verifier that reaches the same configured outcome for every token and
/// attaches the same identity metadata to every decision.
pub struct NamedVerifier {
    pub outcome: Outcome,
    pub name: String,
}

impl IdentityStore for NamedVerifier {
    open spec fn spec_access(&self, token: Seq<char>) -> Result<AccessResponseView, VerifierError> {
        Ok(AccessResponseView { outcome: self.outcome, name: Some(self.name@) })
    }

    fn access(&mut self, token: &str) -> (r: Result<AccessResponse, VerifierError>) {
        Ok(AccessResponse { outcome: self.outcome, name: Some(self.name.clone()) })
    }
}

/// A verifier whose mechanism is broken: every call reports `VerifierError`.
pub struct FailingVerifier;

impl IdentityStore for FailingVerifier {
    open spec fn spec_access(&self, token: Seq<char>) -> Result<AccessResponseView, VerifierError> {
        Err(VerifierError)
    }

    fn access(&mut self, token: &str) -> (r: Result<AccessResponse, VerifierError>) {
        Err(VerifierError)
    }
}

} // verus!
