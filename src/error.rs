use vstd::prelude::*;
use crate::text::joined;

verus! {

#[verifier::external_type_specification]
#[verifier::external_body]
pub struct ExParseError(url::ParseError);

/// Every failure that a reconciliation cycle can report. Failures of the
/// network and store clients are carried as their description.
#[derive(Debug)]
pub enum Error {
    Reqwest(String),
    AzureCore(String),
    URLParse(url::ParseError),
    KubeRS(String),
    NamespaceMissing(String),
    IntoMemberFailed(String),
    IntoAzureGroupSpecFailed(String),
    MissingObjectKey(String),
    MissingDisplayName(String),
    AzureGroupCreationFailed(String),
}

/// The text that `message` gives for an error that carries a description:
/// a prefix naming the kind of failure, then the description.
pub open spec fn message_of(e: Error) -> Seq<char> {
    match e {
        Error::Reqwest(s) => "reqwest:Error: "@ + s@,
        Error::AzureCore(s) => "azure_core::Error: "@ + s@,
        Error::URLParse(_) => "url::ParseError"@,
        Error::KubeRS(s) => "kube::Error: "@ + s@,
        Error::NamespaceMissing(s) => "Namespace is missing from AzureGroup resource "@ + s@,
        Error::IntoMemberFailed(s) => "could not convert GroupResponseMember into Member. "@ + s@,
        Error::IntoAzureGroupSpecFailed(s) => "could not convert GroupResponse into AzureGroupSpec. "@ + s@,
        Error::MissingObjectKey(s) => "MissingObjectKey: "@ + s@,
        Error::MissingDisplayName(s) => "GroupResponse is missing display_name property: "@ + s@,
        Error::AzureGroupCreationFailed(s) => "AzureGroupCreationFailed: "@ + s@,
    }
}

impl Error {
    /// A human-readable description of the failure, for logs.
    pub fn message(&self) -> (r: String)
        ensures
            r@ == message_of(*self),
    {
        match self {
            Error::Reqwest(s) => joined("reqwest:Error: ", s.as_str()),
            Error::AzureCore(s) => joined("azure_core::Error: ", s.as_str()),
            Error::URLParse(_) => "url::ParseError".to_owned(),
            Error::KubeRS(s) => joined("kube::Error: ", s.as_str()),
            Error::NamespaceMissing(s) => joined(
                "Namespace is missing from AzureGroup resource ",
                s.as_str(),
            ),
            Error::IntoMemberFailed(s) => joined(
                "could not convert GroupResponseMember into Member. ",
                s.as_str(),
            ),
            Error::IntoAzureGroupSpecFailed(s) => joined(
                "could not convert GroupResponse into AzureGroupSpec. ",
                s.as_str(),
            ),
            Error::MissingObjectKey(s) => joined("MissingObjectKey: ", s.as_str()),
            Error::MissingDisplayName(s) => joined(
                "GroupResponse is missing display_name property: ",
                s.as_str(),
            ),
            Error::AzureGroupCreationFailed(s) => joined("AzureGroupCreationFailed: ", s.as_str()),
        }
    }
}

} // verus!
