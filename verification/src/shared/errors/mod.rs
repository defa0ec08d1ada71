//! Errors of the domain, application, infrastructure and presentation
//! layers.

use crate::text::joined;
use vstd::prelude::*;

verus! {

/// A broken rule of the domain. An out-of-range volume level is reported
/// where levels are handled, as a fractional number.
#[derive(Debug, PartialEq, Eq)]
pub enum DomainError {
    InvalidSongTitle(String),
    InvalidFilePath(String),
    InvalidDuration(String),
    InvalidPlaylistName(String),
    SongNotFound(String),
    BusinessRuleViolation(String),
}

impl DomainError {
    /// The words that introduce an error of this kind.
    pub open spec fn heading(self) -> Seq<char> {
        match self {
            DomainError::InvalidSongTitle(_) => "Invalid song title: "@,
            DomainError::InvalidFilePath(_) => "Invalid file path: "@,
            DomainError::InvalidDuration(_) => "Invalid duration: "@,
            DomainError::InvalidPlaylistName(_) => "Invalid playlist name: "@,
            DomainError::SongNotFound(_) => "Song not found: "@,
            DomainError::BusinessRuleViolation(_) => "Business rule violation: "@,
        }
    }

    /// The detail carried by the error.
    pub open spec fn detail(self) -> Seq<char> {
        match self {
            DomainError::InvalidSongTitle(d) => d@,
            DomainError::InvalidFilePath(d) => d@,
            DomainError::InvalidDuration(d) => d@,
            DomainError::InvalidPlaylistName(d) => d@,
            DomainError::SongNotFound(d) => d@,
            DomainError::BusinessRuleViolation(d) => d@,
        }
    }

    /// The error as one line of text: its heading, then its detail.
    pub open spec fn text(self) -> Seq<char> {
        self.heading() + self.detail()
    }

    /// The error as one line of text.
    pub fn message(&self) -> (text: String)
        ensures
            text@ == self.text(),
    {
        match self {
            DomainError::InvalidSongTitle(d) => joined("Invalid song title: ", d.as_str()),
            DomainError::InvalidFilePath(d) => joined("Invalid file path: ", d.as_str()),
            DomainError::InvalidDuration(d) => joined("Invalid duration: ", d.as_str()),
            DomainError::InvalidPlaylistName(d) => joined("Invalid playlist name: ", d.as_str()),
            DomainError::SongNotFound(d) => joined("Song not found: ", d.as_str()),
            DomainError::BusinessRuleViolation(d) => joined(
                "Business rule violation: ",
                d.as_str(),
            ),
        }
    }
}

/// A failure of the application layer.
#[derive(Debug, Clone, PartialEq, Eq)]
pub enum ApplicationError {
    Domain(DomainError),
    Repository(String),
    ValidationFailed(String),
    UseCaseFailed(String),
}

impl ApplicationError {
    /// The error as one line of text: its heading, then its detail.
    pub open spec fn text(self) -> Seq<char> {
        match self {
            ApplicationError::Domain(e) => "Domain error: "@ + e.text(),
            ApplicationError::Repository(d) => "Repository error: "@ + d@,
            ApplicationError::ValidationFailed(d) => "Validation failed: "@ + d@,
            ApplicationError::UseCaseFailed(d) => "Use case failed: "@ + d@,
        }
    }

    /// The error as one line of text.
    pub fn message(&self) -> (text: String)
        ensures
            text@ == self.text(),
    {
        match self {
            ApplicationError::Domain(e) => {
                let inner = e.message();
                joined("Domain error: ", inner.as_str())
            },
            ApplicationError::Repository(d) => joined("Repository error: ", d.as_str()),
            ApplicationError::ValidationFailed(d) => joined("Validation failed: ", d.as_str()),
            ApplicationError::UseCaseFailed(d) => joined("Use case failed: ", d.as_str()),
        }
    }
}

/// A failure of the infrastructure layer.
#[derive(Debug, Clone, PartialEq, Eq)]
pub enum InfrastructureError {
    General(String),
}

impl InfrastructureError {
    /// The error as one line of text.
    pub fn message(&self) -> (text: String)
        ensures
            text@ == "Infrastructure error: "@ + self->0@,
    {
        match self {
            InfrastructureError::General(d) => joined("Infrastructure error: ", d.as_str()),
        }
    }
}

/// A failure of the presentation layer.
#[derive(Debug, Clone, PartialEq, Eq)]
pub enum PresentationError {
    Application(ApplicationError),
    General(String),
}

impl PresentationError {
    /// The error as one line of text: its heading, then its detail.
    pub open spec fn text(self) -> Seq<char> {
        match self {
            PresentationError::Application(e) => "Application error: "@ + e.text(),
            PresentationError::General(d) => "Presentation error: "@ + d@,
        }
    }

    /// The error as one line of text.
    pub fn message(&self) -> (text: String)
        ensures
            text@ == self.text(),
    {
        match self {
            PresentationError::Application(e) => {
                let inner = e.message();
                joined("Application error: ", inner.as_str())
            },
            PresentationError::General(d) => joined("Presentation error: ", d.as_str()),
        }
    }
}

impl Clone for DomainError {
    fn clone(&self) -> (copy: Self)
        ensures
            copy == *self,
    {
        match self {
            DomainError::InvalidSongTitle(d) => DomainError::InvalidSongTitle(d.clone()),
            DomainError::InvalidFilePath(d) => DomainError::InvalidFilePath(d.clone()),
            DomainError::InvalidDuration(d) => DomainError::InvalidDuration(d.clone()),
            DomainError::InvalidPlaylistName(d) => DomainError::InvalidPlaylistName(d.clone()),
            DomainError::SongNotFound(d) => DomainError::SongNotFound(d.clone()),
            DomainError::BusinessRuleViolation(d) => DomainError::BusinessRuleViolation(d.clone()),
        }
    }
}

} // verus!
