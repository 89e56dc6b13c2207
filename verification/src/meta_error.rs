//! The errors of the meta service as a whole, and the error codes that
//! queries see for them.
use vstd::prelude::*;

use crate::app_error::AppError;
use crate::app_error::app_error_code;
use crate::error_code::ErrorCode;
use crate::error_code::ErrorKind;
use crate::error_code::ErrorView;
use crate::meta_storage_errors::MetaStorageError;
use crate::meta_storage_errors::meta_storage_error_text;
use crate::text::decimal;
use crate::text::push_decimal;
use crate::text::push_str;

verus! {

/// An error of the meta service. Failures that come from the network layer
/// are held as the error code they convert to; failures of consensus, of
/// results, of encoding and fatal failures hold the text of the underlying
/// error.
#[derive(Debug)]
pub enum MetaError {
    AppError(AppError),
    MetaNetworkError(ErrorCode),
    MetaRaftError(String),
    MetaStorageError(MetaStorageError),
    MetaResultError(String),
    InvalidConfig(String),
    MetaStoreAlreadyExists(u64),
    MetaStoreNotFound,
    StartMetaServiceError(String),
    ConcurrentSnapshotInstall(String),
    MetaServiceError(String),
    IllegalRoleInfoFormat(String),
    IllegalUserInfoFormat(String),
    SerdeError(String),
    EncodeError(String),
    Fatal(String),
}

/// A `MetaServiceError` code with the given message.
pub open spec fn service_error(message: Seq<char>) -> ErrorView {
    ErrorView { kind: ErrorKind::MetaServiceError, message }
}

/// The error code of a meta service error: an application error converts by
/// its kind, a network failure to its own code, and everything else is a
/// `MetaServiceError` that carries the text of the failure.
pub open spec fn meta_error_code(e: MetaError) -> ErrorView {
    match e {
        MetaError::AppError(a) => app_error_code(a),
        MetaError::MetaNetworkError(c) => c@,
        MetaError::MetaRaftError(s) => service_error(s@),
        MetaError::MetaStorageError(s) => service_error(meta_storage_error_text(s)),
        MetaError::MetaResultError(s) => service_error(s@),
        MetaError::InvalidConfig(s) => service_error(s@),
        MetaError::MetaStoreAlreadyExists(id) => service_error("meta store already exists: "@ + decimal(id as nat)),
        MetaError::MetaStoreNotFound => service_error("MetaStoreNotFound"@),
        MetaError::StartMetaServiceError(s) => service_error(s@),
        MetaError::ConcurrentSnapshotInstall(s) => service_error(s@),
        MetaError::MetaServiceError(s) => service_error(s@),
        MetaError::IllegalRoleInfoFormat(s) => service_error(s@),
        MetaError::IllegalUserInfoFormat(s) => service_error(s@),
        MetaError::SerdeError(s) => service_error(s@),
        MetaError::EncodeError(s) => service_error(s@),
        MetaError::Fatal(s) => service_error(s@),
    }
}

impl MetaError {
    /// The error code that the error converts to.
    pub fn to_error_code(self) -> (r: ErrorCode)
        ensures
            r@ == meta_error_code(self),
    {
        match self {
            MetaError::AppError(a) => a.to_error_code(),
            MetaError::MetaNetworkError(c) => c,
            MetaError::MetaRaftError(s) => ErrorCode::create(ErrorKind::MetaServiceError, s),
            MetaError::MetaStorageError(s) => ErrorCode::create(ErrorKind::MetaServiceError, s.display_text()),
            MetaError::MetaResultError(s) => ErrorCode::create(ErrorKind::MetaServiceError, s),
            MetaError::InvalidConfig(s) => ErrorCode::create(ErrorKind::MetaServiceError, s),
            MetaError::MetaStoreAlreadyExists(id) => {
                let mut m = String::new();
                push_str(&mut m, "meta store already exists: ");
                push_decimal(&mut m, id);
                ErrorCode::create(ErrorKind::MetaServiceError, m)
            },
            MetaError::MetaStoreNotFound => ErrorCode::create(
                ErrorKind::MetaServiceError,
                String::from_str("MetaStoreNotFound"),
            ),
            MetaError::StartMetaServiceError(s) => ErrorCode::create(ErrorKind::MetaServiceError, s),
            MetaError::ConcurrentSnapshotInstall(s) => ErrorCode::create(ErrorKind::MetaServiceError, s),
            MetaError::MetaServiceError(s) => ErrorCode::create(ErrorKind::MetaServiceError, s),
            MetaError::IllegalRoleInfoFormat(s) => ErrorCode::create(ErrorKind::MetaServiceError, s),
            MetaError::IllegalUserInfoFormat(s) => ErrorCode::create(ErrorKind::MetaServiceError, s),
            MetaError::SerdeError(s) => ErrorCode::create(ErrorKind::MetaServiceError, s),
            MetaError::EncodeError(s) => ErrorCode::create(ErrorKind::MetaServiceError, s),
            MetaError::Fatal(s) => ErrorCode::create(ErrorKind::MetaServiceError, s),
        }
    }
}

/// The text of a meta service error raised while doing something: what was
/// being done and the cause (`map_error_to_meta_error`).
pub fn map_error_to_meta_error_text(context: &str, cause: &str) -> (r: String)
    ensures
        r@ == context@ + ", cause: "@ + cause@,
{
    let mut s = String::new();
    push_str(&mut s, context);
    push_str(&mut s, ", cause: ");
    push_str(&mut s, cause);
    s
}

/// Wraps the error of a result into a meta service error, built only when
/// there is an error.
pub trait ToMetaError<T, E, CtxFn> where E: core::fmt::Display {
    /// On an error: the text of what was being done (from `context_fn`),
    /// `, cause: ` and the error's text, handed to `err_code_fn`, which
    /// builds the meta service error. A success stays as it is.
    fn map_error_to_meta_error<ErrFn, D>(self, err_code_fn: ErrFn, context_fn: CtxFn) -> Result<T, MetaError> where
        ErrFn: FnOnce(String) -> MetaError,
        D: core::fmt::Display,
        CtxFn: FnOnce() -> D,
        requires
            call_requires(context_fn, ()),
            forall|s: String| call_requires(err_code_fn, (s,)),
    ;
}

impl<T, E, CtxFn> ToMetaError<T, E, CtxFn> for Result<T, E> where E: core::fmt::Display {
    fn map_error_to_meta_error<ErrFn, D>(self, err_code_fn: ErrFn, context_fn: CtxFn) -> (r: Result<T, MetaError>) where
        ErrFn: FnOnce(String) -> MetaError,
        D: core::fmt::Display,
        CtxFn: FnOnce() -> D,
        ensures
            match self {
                Ok(v) => r == Ok::<T, MetaError>(v),
                Err(e) => r matches Err(m) && exists|ctx: D, ctx_text: String, cause_text: String, text: String| {
                    &&& call_ensures(context_fn, (), ctx)
                    &&& vstd::string::to_string_from_display_ensures::<D>(&ctx, ctx_text)
                    &&& vstd::string::to_string_from_display_ensures::<E>(&e, cause_text)
                    &&& text@ == ctx_text@ + ", cause: "@ + cause_text@
                    &&& call_ensures(err_code_fn, (text,), m)
                },
            },
    {
        match self {
            Ok(v) => Ok(v),
            Err(error) => {
                let ctx = context_fn();
                let ctx_text = ctx.to_string();
                let cause_text = error.to_string();
                let text = map_error_to_meta_error_text(ctx_text.as_str(), cause_text.as_str());
                Err(err_code_fn(text))
            },
        }
    }
}

/// A meta service client needs at least one endpoint: an empty list is an
/// `InvalidConfig` error.
pub fn endpoints_non_empty(endpoints: &[String]) -> (r: Result<(), MetaError>)
    ensures
        match r {
            Ok(()) => endpoints@.len() > 0,
            Err(e) => endpoints@.len() == 0 && (e matches MetaError::InvalidConfig(s) && s@ == "endpoints is empty"@),
        },
{
    if endpoints.len() == 0 {
        return Err(MetaError::InvalidConfig(String::from_str("endpoints is empty")));
    }
    Ok(())
}

} // verus!
