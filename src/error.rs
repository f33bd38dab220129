use vstd::prelude::*;

verus! {

/// Every failure the core reports, each with a stable code and status.
pub enum AppError {
    Database(String),
    Authentication(String),
    Authorization(String),
    Validation(String),
    NotFound(String),
    Conflict(String),
    RateLimit,
    ExternalService(String),
    Configuration(String),
    InternalServer(String),
}

/// The HTTP status that each kind of failure maps to.
pub open spec fn status_of(e: AppError) -> u16 {
    match e {
        AppError::Database(_) => 500,
        AppError::Authentication(_) => 401,
        AppError::Authorization(_) => 403,
        AppError::Validation(_) => 400,
        AppError::NotFound(_) => 404,
        AppError::Conflict(_) => 409,
        AppError::RateLimit => 429,
        AppError::ExternalService(_) => 502,
        AppError::Configuration(_) => 500,
        AppError::InternalServer(_) => 500,
    }
}

/// The stable machine-readable code of each kind of failure.
pub open spec fn code_of(e: AppError) -> Seq<char> {
    match e {
        AppError::Database(_) => "DATABASE_ERROR"@,
        AppError::Authentication(_) => "AUTHENTICATION_ERROR"@,
        AppError::Authorization(_) => "AUTHORIZATION_ERROR"@,
        AppError::Validation(_) => "VALIDATION_ERROR"@,
        AppError::NotFound(_) => "NOT_FOUND"@,
        AppError::Conflict(_) => "CONFLICT"@,
        AppError::RateLimit => "RATE_LIMIT_EXCEEDED"@,
        AppError::ExternalService(_) => "EXTERNAL_SERVICE_ERROR"@,
        AppError::Configuration(_) => "CONFIGURATION_ERROR"@,
        AppError::InternalServer(_) => "INTERNAL_SERVER_ERROR"@,
    }
}

/// The human-readable message of a failure: a prefix per kind, then its detail.
pub open spec fn message_of(e: AppError) -> Seq<char> {
    match e {
        AppError::Database(m) => "Database error: "@ + m@,
        AppError::Authentication(m) => "Authentication error: "@ + m@,
        AppError::Authorization(m) => "Authorization error: "@ + m@,
        AppError::Validation(m) => "Validation error: "@ + m@,
        AppError::NotFound(m) => "Not found: "@ + m@,
        AppError::Conflict(m) => "Conflict: "@ + m@,
        AppError::RateLimit => "Rate limit exceeded"@,
        AppError::ExternalService(m) => "External service error: "@ + m@,
        AppError::Configuration(m) => "Configuration error: "@ + m@,
        AppError::InternalServer(m) => "Internal server error: "@ + m@,
    }
}

/// Failures whose detail comes from inside the service or from downstream:
/// it is never shown to clients.
pub open spec fn is_internal(e: AppError) -> bool {
    e is Database || e is ExternalService || e is Configuration || e is InternalServer
}

fn prefixed(prefix: &str, detail: &String) -> (r: String)
    ensures
        r@ == prefix@ + detail@,
{
    String::from_str(prefix).concat(detail.as_str())
}

impl AppError {
    /// The HTTP status code of this failure.
    pub fn status_code(&self) -> (r: u16)
        ensures
            r == status_of(*self),
    {
        match self {
            AppError::Database(_) => 500,
            AppError::Authentication(_) => 401,
            AppError::Authorization(_) => 403,
            AppError::Validation(_) => 400,
            AppError::NotFound(_) => 404,
            AppError::Conflict(_) => 409,
            AppError::RateLimit => 429,
            AppError::ExternalService(_) => 502,
            AppError::Configuration(_) => 500,
            AppError::InternalServer(_) => 500,
        }
    }

    pub fn error_code(&self) -> (r: &'static str)
        ensures
            r@ == code_of(*self),
    {
        match self {
            AppError::Database(_) => "DATABASE_ERROR",
            AppError::Authentication(_) => "AUTHENTICATION_ERROR",
            AppError::Authorization(_) => "AUTHORIZATION_ERROR",
            AppError::Validation(_) => "VALIDATION_ERROR",
            AppError::NotFound(_) => "NOT_FOUND",
            AppError::Conflict(_) => "CONFLICT",
            AppError::RateLimit => "RATE_LIMIT_EXCEEDED",
            AppError::ExternalService(_) => "EXTERNAL_SERVICE_ERROR",
            AppError::Configuration(_) => "CONFIGURATION_ERROR",
            AppError::InternalServer(_) => "INTERNAL_SERVER_ERROR",
        }
    }

    /// The message shown for this failure.
    pub fn message(&self) -> (r: String)
        ensures
            r@ == message_of(*self),
    {
        match self {
            AppError::Database(m) => prefixed("Database error: ", m),
            AppError::Authentication(m) => prefixed("Authentication error: ", m),
            AppError::Authorization(m) => prefixed("Authorization error: ", m),
            AppError::Validation(m) => prefixed("Validation error: ", m),
            AppError::NotFound(m) => prefixed("Not found: ", m),
            AppError::Conflict(m) => prefixed("Conflict: ", m),
            AppError::RateLimit => String::from_str("Rate limit exceeded"),
            AppError::ExternalService(m) => prefixed("External service error: ", m),
            AppError::Configuration(m) => prefixed("Configuration error: ", m),
            AppError::InternalServer(m) => prefixed("Internal server error: ", m),
        }
    }

    /// The message a client sees: internal failures show only the generic
    /// internal-error text, the others their full message.
    pub fn public_message(&self) -> (r: String)
        ensures
            is_internal(*self) ==> r@ == "Internal server error"@,
            !is_internal(*self) ==> r@ == message_of(*self),
    {
        match self {
            AppError::Database(_) | AppError::ExternalService(_) | AppError::Configuration(_)
            | AppError::InternalServer(_) => String::from_str("Internal server error"),
            _ => self.message(),
        }
    }

    pub fn authentication(msg: &str) -> (r: AppError)
        ensures
            r matches AppError::Authentication(m) && m@ == msg@,
    {
        AppError::Authentication(String::from_str(msg))
    }

    pub fn authorization(msg: &str) -> (r: AppError)
        ensures
            r matches AppError::Authorization(m) && m@ == msg@,
    {
        AppError::Authorization(String::from_str(msg))
    }

    pub fn validation(msg: &str) -> (r: AppError)
        ensures
            r matches AppError::Validation(m) && m@ == msg@,
    {
        AppError::Validation(String::from_str(msg))
    }

    /// A missing resource: its detail reads "<resource> not found".
    pub fn not_found(resource: &str) -> (r: AppError)
        ensures
            r matches AppError::NotFound(m) && m@ == resource@ + " not found"@,
    {
        AppError::NotFound(String::from_str(resource).concat(" not found"))
    }

    pub fn conflict(msg: &str) -> (r: AppError)
        ensures
            r matches AppError::Conflict(m) && m@ == msg@,
    {
        AppError::Conflict(String::from_str(msg))
    }

    pub fn internal(msg: &str) -> (r: AppError)
        ensures
            r matches AppError::InternalServer(m) && m@ == msg@,
    {
        AppError::InternalServer(String::from_str(msg))
    }
}

} // verus!
