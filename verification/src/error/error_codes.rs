//! Wire-level error code constants. Passed through verbatim from the API;
//! callers may still see codes that are not listed here.
//!
//! `STORAGE_REQUIRED` was retired from the API and is intentionally absent.

use vstd::prelude::*;

verus! {

/// Returned when the request omits the `Authorization` header entirely.
pub const MISSING_API_KEY: &'static str = "MISSING_API_KEY";
/// The supplied API key is malformed or doesn't match any tenant.
pub const INVALID_API_KEY: &'static str = "INVALID_API_KEY";
/// The tenant's billing is past due (402-class).
pub const PAYMENT_REQUIRED: &'static str = "PAYMENT_REQUIRED";
/// The credentials are valid but lack permission for the action.
pub const FORBIDDEN: &'static str = "FORBIDDEN";
/// The tenant's organization was cancelled.
pub const ORGANIZATION_CANCELLED: &'static str = "ORGANIZATION_CANCELLED";
/// The tenant's organization data was purged.
pub const ORGANIZATION_PURGED: &'static str = "ORGANIZATION_PURGED";
/// Generic 404 — no resource matched the request.
pub const NOT_FOUND: &'static str = "NOT_FOUND";
/// The requested template version doesn't exist for the project/template.
pub const VERSION_NOT_FOUND: &'static str = "VERSION_NOT_FOUND";
/// The requested document ID doesn't exist.
pub const DOCUMENT_NOT_FOUND: &'static str = "DOCUMENT_NOT_FOUND";
/// The resource was deleted (410-class).
pub const GONE: &'static str = "GONE";
/// Request body failed schema validation.
pub const VALIDATION_ERROR: &'static str = "VALIDATION_ERROR";
/// `data` field was omitted from a render request.
pub const MISSING_DATA: &'static str = "MISSING_DATA";
/// Neither `project` nor `template` was provided in project-mode input.
pub const MISSING_PROJECT_OR_TEMPLATE: &'static str = "MISSING_PROJECT_OR_TEMPLATE";
/// `template` slug missing in project-mode input.
pub const MISSING_TEMPLATE_SLUG: &'static str = "MISSING_TEMPLATE_SLUG";
/// `documents.preview` requires a `project` selector.
pub const PROJECT_REQUIRED_FOR_DOCUMENT: &'static str = "PROJECT_REQUIRED_FOR_DOCUMENT";
/// Version selector wasn't `draft` or an exact semver.
pub const INVALID_VERSION_FORMAT: &'static str = "INVALID_VERSION_FORMAT";
/// Project mode requires an explicit `version` selector.
pub const VERSION_REQUIRED: &'static str = "VERSION_REQUIRED";
/// `draft` versions can't be rendered with a live key (or vice versa).
pub const INVALID_VERSION_FOR_KEY_ENV: &'static str = "INVALID_VERSION_FOR_KEY_ENV";
/// Tenant exceeded its plan quota.
pub const QUOTA_EXCEEDED: &'static str = "QUOTA_EXCEEDED";
/// Tenant exceeded its overage cap.
pub const OVERAGE_CAP_EXCEEDED: &'static str = "OVERAGE_CAP_EXCEEDED";
/// Generic 5xx — server-side internal failure.
pub const INTERNAL_ERROR: &'static str = "INTERNAL_ERROR";

} // verus!
