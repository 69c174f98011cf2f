//! What can go wrong, and how it is told to a client.

use crate::model::ResourceKind;
use vstd::prelude::*;

verus! {

/// The failures that the operations report.
#[derive(Debug, PartialEq, Eq, Hash, Clone, Copy, Structural)]
pub enum CustomError {
    /// The request is malformed.
    BadRequest,
    /// A record was to be made under a parent that does not exist.
    ParentNotFound,
    ThemeNotFound,
    ObjectiveNotFound,
    KeyResultNotFound,
    InitiativeNotFound,
    ProjectNotFound,
    TaskNotFound,
    MeasurementNotFound,
    /// The store could not carry out the operation.
    InternalServerError,
}

impl CustomError {
    /// The error that says that no record of the kind has the id asked for.
    pub open spec fn spec_not_found(kind: ResourceKind) -> CustomError {
        match kind {
            ResourceKind::Theme => CustomError::ThemeNotFound,
            ResourceKind::Objective => CustomError::ObjectiveNotFound,
            ResourceKind::KeyResult => CustomError::KeyResultNotFound,
            ResourceKind::Initiative => CustomError::InitiativeNotFound,
            ResourceKind::Project => CustomError::ProjectNotFound,
            ResourceKind::Task => CustomError::TaskNotFound,
            ResourceKind::Measurement => CustomError::MeasurementNotFound,
        }
    }

    /// The error that says that no record of the kind has the id asked for.
    #[verifier::when_used_as_spec(spec_not_found)]
    pub fn not_found(kind: ResourceKind) -> (error: CustomError)
        ensures
            error == CustomError::spec_not_found(kind),
    {
        match kind {
            ResourceKind::Theme => CustomError::ThemeNotFound,
            ResourceKind::Objective => CustomError::ObjectiveNotFound,
            ResourceKind::KeyResult => CustomError::KeyResultNotFound,
            ResourceKind::Initiative => CustomError::InitiativeNotFound,
            ResourceKind::Project => CustomError::ProjectNotFound,
            ResourceKind::Task => CustomError::TaskNotFound,
            ResourceKind::Measurement => CustomError::MeasurementNotFound,
        }
    }

    /// The HTTP status code under which the error is reported: 400 for a
    /// malformed request, 500 for a failure of the store, 404 for all that
    /// was not found.
    pub open spec fn status_code(self) -> u16 {
        match self {
            CustomError::InternalServerError => 500,
            CustomError::BadRequest => 400,
            _ => 404,
        }
    }

    /// The words under which the error is reported.
    pub open spec fn message(self) -> Seq<char> {
        match self {
            CustomError::InternalServerError => "Internal Server Error"@,
            CustomError::BadRequest => "Bad Request"@,
            CustomError::ParentNotFound => "Parent Not Found"@,
            CustomError::ThemeNotFound => "Theme Not Found"@,
            CustomError::ObjectiveNotFound => "Objective Not Found"@,
            CustomError::KeyResultNotFound => "Key Result Not Found"@,
            CustomError::InitiativeNotFound => "Initiative Not Found"@,
            CustomError::ProjectNotFound => "Project Not Found"@,
            CustomError::TaskNotFound => "Task Not Found"@,
            CustomError::MeasurementNotFound => "Measurement Not Found"@,
        }
    }

    /// The status code and the words under which the error is reported.
    pub fn get_error_message(self) -> (reported: (u16, String))
        ensures
            reported.0 == self.status_code(),
            reported.1@ == self.message(),
    {
        let (status, error_message): (u16, &str) = match self {
            Self::InternalServerError => (500, "Internal Server Error"),
            Self::BadRequest => (400, "Bad Request"),
            Self::ParentNotFound => (404, "Parent Not Found"),
            Self::ThemeNotFound => (404, "Theme Not Found"),
            Self::ObjectiveNotFound => (404, "Objective Not Found"),
            Self::KeyResultNotFound => (404, "Key Result Not Found"),
            Self::InitiativeNotFound => (404, "Initiative Not Found"),
            Self::ProjectNotFound => (404, "Project Not Found"),
            Self::TaskNotFound => (404, "Task Not Found"),
            Self::MeasurementNotFound => (404, "Measurement Not Found"),
        };
        (status, String::from_str(error_message))
    }
}

} // verus!
