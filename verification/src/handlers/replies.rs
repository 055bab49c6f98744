use vstd::prelude::*;
use vstd::string::*;

use crate::errors::http_error::ErrorReply;
use crate::schema::response_schema::Response;
use crate::text::search::{contains_str, contains_text};

verus! {

/// The kinds of stored items that the API creates, lists, reads and deletes.
#[derive(Clone, Copy, Debug, PartialEq, Eq, Structural)]
pub enum Resource {
    Category,
    Provider,
    Tag,
    Deal,
}

/// The ways an item is looked up before it is shown or changed.
#[derive(Clone, Copy, Debug, PartialEq, Eq, Structural)]
pub enum Lookup {
    /// `GET /category/{id}`.
    CategoryGet,
    /// `PATCH /category/{id}`.
    CategoryPatch,
    /// `GET` and `PATCH /deals/{id}`.
    Deal,
    /// `GET /tags/{id}`.
    Tag,
}

/// The text by which the database reports a broken unique constraint.
pub open spec fn duplicate_key_phrase() -> Seq<char> {
    "duplicate key value violates unique constraint"@
}

/// The HTTP status of the answer to inserting a duplicate.
pub open spec fn duplicate_status(resource: Resource) -> u16 {
    match resource {
        Resource::Category => 409,
        Resource::Provider => 409,
        Resource::Tag => 400,
        Resource::Deal => 400,
    }
}

/// The message of the answer to inserting a duplicate.
pub open spec fn duplicate_message(resource: Resource) -> Seq<char> {
    match resource {
        Resource::Category => "Category with that title already exists"@,
        Resource::Provider => "Provider with that title already exists"@,
        Resource::Tag => "Note with that title already exists"@,
        Resource::Deal => "Note with that title already exists"@,
    }
}

/// The name of an item in the answer to a delete that found nothing.
pub open spec fn delete_noun(resource: Resource) -> Seq<char> {
    match resource {
        Resource::Category => "Category"@,
        Resource::Provider => "Provider"@,
        Resource::Tag => "Tag"@,
        Resource::Deal => "Note"@,
    }
}

/// The message of the answer to a delete that found nothing.
pub open spec fn delete_missing_message(resource: Resource, id: Seq<char>) -> Seq<char> {
    delete_noun(resource) + " with ID: "@ + id + " note found"@
}

/// The message of the answer to a lookup that found nothing; `error` is the database's own
/// report, which only the tag lookup shows.
pub open spec fn lookup_missing_message(lookup: Lookup, id: Seq<char>, error: Seq<char>) -> Seq<
    char,
> {
    match lookup {
        Lookup::CategoryGet => "category with ID: "@ + id + " not found"@,
        Lookup::CategoryPatch => "Category with ID: "@ + id + " not found"@,
        Lookup::Deal => "Note with ID: "@ + id + " not found"@,
        Lookup::Tag => "tag with ID: "@ + id + " not found err: "@ + error,
    }
}

/// The message of the answer to a list query that failed.
pub open spec fn list_failure_message(resource: Resource) -> Seq<char> {
    match resource {
        Resource::Tag => "Something bad happened while fetching all tags items"@,
        _ => "Something bad happened while fetching all deal items"@,
    }
}

fn reply(http_status: u16, status: &'static str, message: String) -> (r: ErrorReply)
    ensures
        r.http_status == http_status,
        r.body.status == status,
        r.body.message == message,
{
    ErrorReply { http_status, body: Response { status, message } }
}

/// The answer to an insert that the database refused with `error_text`: a duplicate (the
/// text names a broken unique constraint) is answered with the resource's own status and
/// message and the word `fail`; anything else is a 500 with the word `error` and the error's
/// debug text `error_debug`.
pub fn insert_failure_reply(resource: Resource, error_text: &str, error_debug: String) -> (r:
    ErrorReply)
    ensures
        contains_text(error_text@, duplicate_key_phrase()) ==> {
            &&& r.http_status == (if resource == Resource::Category || resource
                == Resource::Provider {
                409u16
            } else {
                400u16
            })
            &&& r.http_status == duplicate_status(resource)
            &&& r.body.status@ == "fail"@
            &&& r.body.message@ == duplicate_message(resource)
        },
        !contains_text(error_text@, duplicate_key_phrase()) ==> {
            &&& r.http_status == 500
            &&& r.body.status@ == "error"@
            &&& r.body.message@ == error_debug@
        },
{
    if contains_str(error_text, "duplicate key value violates unique constraint") {
        match resource {
            Resource::Category => reply(
                409,
                "fail",
                String::from_str("Category with that title already exists"),
            ),
            Resource::Provider => reply(
                409,
                "fail",
                String::from_str("Provider with that title already exists"),
            ),
            Resource::Tag => reply(400, "fail", String::from_str("Note with that title already exists")),
            Resource::Deal => reply(400, "fail", String::from_str("Note with that title already exists")),
        }
    } else {
        reply(500, "error", error_debug)
    }
}

/// The answer to a delete that removed `rows_affected` rows of the item `id`: none where a
/// row went (the handler answers 204 with no body), else a 404 with the word `fail`.
pub fn delete_reply(resource: Resource, rows_affected: u64, id: &str) -> (r: Option<ErrorReply>)
    ensures
        rows_affected != 0 ==> r is None,
        rows_affected == 0 ==> (r matches Some(e) && e.http_status == 404 && e.body.status@
            == "fail"@ && e.body.message@ == delete_missing_message(resource, id@)),
{
    if rows_affected != 0 {
        return None;
    }
    let mut message = match resource {
        Resource::Category => String::from_str("Category"),
        Resource::Provider => String::from_str("Provider"),
        Resource::Tag => String::from_str("Tag"),
        Resource::Deal => String::from_str("Note"),
    };
    message.append(" with ID: ");
    message.append(id);
    message.append(" note found");
    Some(reply(404, "fail", message))
}

/// The answer to removing a user's mark on a deal that removed `rows_affected` rows: none
/// where a row went (204), else a 404 whose JSON body is the text
/// `Deal marked with ID: not found`.
pub fn unmark_reply(rows_affected: u64) -> (r: Option<(u16, String)>)
    ensures
        rows_affected != 0 ==> r is None,
        rows_affected == 0 ==> (r matches Some(a) && a.0 == 404 && a.1@
            == "Deal marked with ID: not found"@),
{
    if rows_affected != 0 {
        None
    } else {
        Some((404, String::from_str("Deal marked with ID: not found")))
    }
}

/// The answer to a lookup of the item `id` that found nothing: a 404 with the word `fail`.
pub fn lookup_missing_reply(lookup: Lookup, id: &str, error: &str) -> (r: ErrorReply)
    ensures
        r.http_status == 404,
        r.body.status@ == "fail"@,
        r.body.message@ == lookup_missing_message(lookup, id@, error@),
{
    let mut message = match lookup {
        Lookup::CategoryGet => String::from_str("category with ID: "),
        Lookup::CategoryPatch => String::from_str("Category with ID: "),
        Lookup::Deal => String::from_str("Note with ID: "),
        Lookup::Tag => String::from_str("tag with ID: "),
    };
    message.append(id);
    match lookup {
        Lookup::Tag => {
            message.append(" not found err: ");
            message.append(error);
        },
        _ => {
            message.append(" not found");
        },
    }
    reply(404, "fail", message)
}

/// The answer to a list query that failed: a 500 with the word `error`.
pub fn list_failure_reply(resource: Resource) -> (r: ErrorReply)
    ensures
        r.http_status == 500,
        r.body.status@ == "error"@,
        r.body.message@ == list_failure_message(resource),
{
    match resource {
        Resource::Tag => reply(
            500,
            "error",
            String::from_str("Something bad happened while fetching all tags items"),
        ),
        _ => reply(
            500,
            "error",
            String::from_str("Something bad happened while fetching all deal items"),
        ),
    }
}

/// The answer to an update that failed with the debug text `error_debug`: a 500 with the
/// word `error` and the message `Error: {error_debug}`.
pub fn update_failure_reply(error_debug: &str) -> (r: ErrorReply)
    ensures
        r.http_status == 500,
        r.body.status@ == "error"@,
        r.body.message@ == "Error: "@ + error_debug@,
{
    let mut message = String::from_str("Error: ");
    message.append(error_debug);
    reply(500, "error", message)
}

} // verus!
