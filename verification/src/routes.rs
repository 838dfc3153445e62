//! The transport-facing decision layer: request validation, identifier
//! parsing, orchestration of the entity controller, and the mapping of
//! domain error kinds to transport status codes. Invalid input is rejected
//! before the store is touched; what remains of the transport — sockets,
//! encoding, interceptors — lives outside the library.

use vstd::prelude::*;

use crate::book::{book_desc, Book, BookForCreate, BookForUpdate};
use crate::controller::{book_rows, BookBmc};
use crate::crud::{matching, update_rows, without};
use crate::db::store;
use crate::error::Error;
use crate::iterable::Iterable;
use crate::model::ModelManager;
use crate::requests::{
    create_parsed, upd_parsed, CreateBookRequest, CreateBookResponse, DeleteBookRequest,
    DeleteBookResponse, HealthCheckRequest, HealthCheckResponse, UpdateBookRequest,
    UpdateBookResponse,
};
use crate::values::{uuid_from_text, uuid_parse, Uuid};

verus! {

/// The transport status classes the adapter maps domain errors to.
#[derive(Debug, Clone, Copy, PartialEq, Eq, Structural)]
pub enum StatusCode {
    InvalidArgument,
    NotFound,
    Internal,
}

/// A transport failure: a status class and a human-readable message.
#[derive(Debug)]
pub struct Status {
    pub code: StatusCode,
    pub message: String,
}

/// The status class of each domain error kind: invalid input is an invalid
/// argument, a missing entity is not found, everything else is internal.
pub open spec fn status_code_of(e: Error) -> StatusCode {
    match e {
        Error::BookTitleNotSet => StatusCode::InvalidArgument,
        Error::BookAuthorsNotSet => StatusCode::InvalidArgument,
        Error::InvalidDateTimeFormat => StatusCode::InvalidArgument,
        Error::InvalidUuidFormat => StatusCode::InvalidArgument,
        Error::SqlxEntityNotFound { .. } => StatusCode::NotFound,
        _ => StatusCode::Internal,
    }
}

/// Maps a domain error to its transport status.
pub fn status_of_error(e: &Error) -> (s: Status)
    ensures
        s.code == status_code_of(*e),
{
    match e {
        Error::BookTitleNotSet => Status {
            code: StatusCode::InvalidArgument,
            message: String::from_str("title is not set"),
        },
        Error::BookAuthorsNotSet => Status {
            code: StatusCode::InvalidArgument,
            message: String::from_str("authors are not set"),
        },
        Error::InvalidDateTimeFormat => Status {
            code: StatusCode::InvalidArgument,
            message: String::from_str("invalid datetime format"),
        },
        Error::InvalidUuidFormat => Status {
            code: StatusCode::InvalidArgument,
            message: String::from_str("invalid uuid format"),
        },
        Error::SqlxEntityNotFound { .. } => Status {
            code: StatusCode::NotFound,
            message: String::from_str("entity not found"),
        },
        _ => Status { code: StatusCode::Internal, message: String::from_str("internal error") },
    }
}

/// The service facade the transport drives: it owns the model manager.
#[derive(Debug)]
pub struct ServiceGaladriel {
    pub model_manager: ModelManager,
}

impl ServiceGaladriel {
    /// A service over the given model manager.
    pub fn new(model_manager: ModelManager) -> (r: ServiceGaladriel)
        ensures
            r.model_manager == model_manager,
    {
        Self { model_manager }
    }

    /// Reports that the service is up.
    pub fn health_check(&self, _request: HealthCheckRequest) -> (r: HealthCheckResponse)
        ensures
            r.success,
    {
        HealthCheckResponse { success: true }
    }
}

/// The book some create request persisted: it carries the request's title
/// and authors under a fresh identifier.
pub open spec fn route_created(b: Book, cbr: CreateBookRequest) -> bool {
    &&& b.title@ == cbr.title@
    &&& b.authors.deep_view() == cbr.authors.deep_view()
    &&& b.id@ != 0
}

/// Creates a book from a wire request: an empty title or authors list, or a
/// malformed field, is an invalid argument and the store is not touched.
pub fn create_book(create_book_request: CreateBookRequest, model_manager: &mut ModelManager) -> (r:
    core::result::Result<CreateBookResponse, Status>)
    requires
        old(model_manager).wf(),
    ensures
        final(model_manager).wf(),
        match r {
            Ok(resp) => {
                &&& resp.success
                &&& create_book_request.title@.len() > 0
                &&& create_book_request.authors@.len() > 0
                &&& exists|b: Book|
                    #[trigger] route_created(b, create_book_request) && final(model_manager).db@
                        == store(
                        old(model_manager).db@,
                        "books"@,
                        book_rows(*old(model_manager)).push(book_desc(b)),
                    )
            },
            Err(s) => {
                &&& final(model_manager).db@ == old(model_manager).db@
                &&& (create_book_request.title@.len() == 0 || create_book_request.authors@.len()
                    == 0 ==> s.code == StatusCode::InvalidArgument)
            },
        },
        (create_book_request.title@.len() > 0 && create_book_request.authors@.len() > 0
            && (create_book_request.edition_id matches Some(es) ==> uuid_from_text(es@) is Some)
            && (create_book_request.published_date matches Some(ds) ==> crate::values::datetime_from_text(
            ds@,
        ) is Some) && book_rows(*old(model_manager)).len() == 0) ==> (r matches Ok(_)),
        (create_book_request.title@.len() > 0 && create_book_request.authors@.len() > 0 && ((
        create_book_request.edition_id matches Some(es) && uuid_from_text(es@) is None) || (
        create_book_request.published_date matches Some(ds) && crate::values::datetime_from_text(
            ds@,
        ) is None))) ==> (r matches Err(s2) && s2.code == StatusCode::InvalidArgument),
{
    if create_book_request.title.as_str().is_empty()
        || create_book_request.authors.is_empty() {
        return Err(
            Status {
                code: StatusCode::InvalidArgument,
                message: String::from_str("one or more fields are empty"),
            },
        );
    }
    let ghost cbr = create_book_request;
    let book_fc = match BookForCreate::from_request(create_book_request) {
        Ok(b) => b,
        Err(e) => {
            return Err(status_of_error(&e));
        },
    };
    let ghost fc = book_fc;
    match BookBmc::create(model_manager, book_fc) {
        Ok(id) => {
            proof {
                let b = choose|b: Book|
                    #[trigger] crate::controller::created_book(b, fc, id@) && model_manager.db@
                        == store(
                        old(model_manager).db@,
                        "books"@,
                        book_rows(*old(model_manager)).push(book_desc(b)),
                    );
                assert(route_created(b, cbr));
            }
            Ok(CreateBookResponse { success: true })
        },
        Err(e) => Err(status_of_error(&e)),
    }
}

/// Updates a book from a wire request: an empty or malformed target
/// identifier is an invalid argument, a missing book is not found, and in
/// either case the store is not touched.
pub fn update_book(update_book_request: UpdateBookRequest, model_manager: &mut ModelManager) -> (r:
    core::result::Result<UpdateBookResponse, Status>)
    requires
        old(model_manager).wf(),
    ensures
        final(model_manager).wf(),
        match r {
            Ok(resp) => {
                &&& resp.success
                &&& uuid_from_text(update_book_request.book_id@) matches Some(uid)
                    && matching(book_rows(*old(model_manager)), uid).len() >= 1 && exists|
                    fu: BookForUpdate,
                |
                    #[trigger] upd_parsed(update_book_request, fu) && final(model_manager).db@
                        == store(
                        old(model_manager).db@,
                        "books"@,
                        update_rows(book_rows(*old(model_manager)), uid, fu.fields_spec()),
                    )
            },
            Err(s) => {
                &&& final(model_manager).db@ == old(model_manager).db@
                &&& (update_book_request.book_id@.len() == 0 || uuid_from_text(
                    update_book_request.book_id@,
                ) is None ==> s.code == StatusCode::InvalidArgument)
                &&& (s.code == StatusCode::NotFound ==> (uuid_from_text(
                    update_book_request.book_id@,
                ) matches Some(uid) && matching(book_rows(*old(model_manager)), uid).len() == 0))
            },
        },
        (update_book_request.book_id@.len() > 0 && uuid_from_text(update_book_request.book_id@)
            is Some && (update_book_request.edition_id matches Some(es) ==> uuid_from_text(es@)
            is Some) && (update_book_request.published_date matches Some(ds)
            ==> crate::values::datetime_from_text(ds@) is Some) && (r matches Err(_))) ==> (
        r matches Err(s3) && s3.code == StatusCode::NotFound && matching(
            book_rows(*old(model_manager)),
            uuid_from_text(update_book_request.book_id@)->0,
        ).len() == 0),
{
    if update_book_request.book_id.as_str().is_empty() {
        return Err(
            Status {
                code: StatusCode::InvalidArgument,
                message: String::from_str("book_id is empty"),
            },
        );
    }
    let book_uuid = match uuid_parse(update_book_request.book_id.as_str()) {
        Some(u) => Uuid(u),
        None => {
            return Err(
                Status {
                    code: StatusCode::InvalidArgument,
                    message: String::from_str("invalid uuid format"),
                },
            );
        },
    };
    let ghost ubr = update_book_request;
    let book_fu = match BookForUpdate::from_request(update_book_request) {
        Ok(b) => b,
        Err(e) => {
            return Err(status_of_error(&e));
        },
    };
    let ghost fu = book_fu;
    match BookBmc::update(model_manager, book_fu, book_uuid) {
        Ok(()) => {
            proof {
                assert(upd_parsed(ubr, fu));
            }
            Ok(UpdateBookResponse { success: true })
        },
        Err(e) => Err(status_of_error(&e)),
    }
}

/// Deletes a book from a wire request: a malformed identifier is an invalid
/// argument, a missing book is not found, and in either case the store is
/// not touched.
pub fn delete_book(delete_book_request: DeleteBookRequest, model_manager: &mut ModelManager) -> (r:
    core::result::Result<DeleteBookResponse, Status>)
    requires
        old(model_manager).wf(),
    ensures
        final(model_manager).wf(),
        match r {
            Ok(resp) => {
                &&& resp.success
                &&& uuid_from_text(delete_book_request.book_id@) matches Some(uid) && matching(
                    book_rows(*old(model_manager)),
                    uid,
                ).len() >= 1 && final(model_manager).db@ == store(
                    old(model_manager).db@,
                    "books"@,
                    without(book_rows(*old(model_manager)), uid),
                )
            },
            Err(s) => {
                &&& final(model_manager).db@ == old(model_manager).db@
                &&& (uuid_from_text(delete_book_request.book_id@) is None ==> s.code
                    == StatusCode::InvalidArgument)
                &&& (uuid_from_text(delete_book_request.book_id@) matches Some(uid) ==> s.code
                    == StatusCode::NotFound && matching(
                    book_rows(*old(model_manager)),
                    uid,
                ).len() == 0)
            },
        },
{
    let book_uuid = match uuid_parse(delete_book_request.book_id.as_str()) {
        Some(u) => Uuid(u),
        None => {
            return Err(
                Status {
                    code: StatusCode::InvalidArgument,
                    message: String::from_str("invalid uuid format"),
                },
            );
        },
    };
    match BookBmc::delete(model_manager, book_uuid) {
        Ok(()) => Ok(DeleteBookResponse { success: true }),
        Err(e) => Err(status_of_error(&e)),
    }
}

} // verus!
