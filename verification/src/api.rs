//! The answers of the HTTP API: controller creation and removal, and the
//! driver operations.

use vstd::prelude::*;
use crate::text::{decimal, decimal_chars, push_chars, push_str, str_chars, string_from_chars};

verus! {

/// Answer to `POST /api/controllers`.
#[derive(Debug, Clone, PartialEq, Eq)]
pub struct AddControllerResponse {
    pub success: bool,
    pub id: Option<u32>,
    pub message: String,
}

/// Answer to `DELETE /api/controllers/:id`.
#[derive(Debug, Clone, PartialEq, Eq)]
pub struct SimpleResponse {
    pub success: bool,
    pub message: String,
}

/// Answer to the driver operations.
#[derive(Debug, Clone, PartialEq, Eq)]
pub struct DriverResponse {
    pub success: bool,
    pub message: String,
}

/// HTTP 200 OK.
pub const STATUS_OK: u16 = 200;
/// HTTP 201 Created.
pub const STATUS_CREATED: u16 = 201;
/// HTTP 404 Not Found.
pub const STATUS_NOT_FOUND: u16 = 404;
/// HTTP 500 Internal Server Error.
pub const STATUS_INTERNAL_SERVER_ERROR: u16 = 500;

/// `<before><id><after>` with the id in decimal.
fn id_message(before: &str, id: u32, after: &str) -> (res: String)
    ensures
        res@ == before@ + decimal(id as nat) + after@,
{
    let mut cs = str_chars(before);
    push_chars(&mut cs, &decimal_chars(id));
    push_str(&mut cs, after);
    string_from_chars(cs.as_slice())
}

/// The message for a controller id that is not registered.
pub open spec fn not_found_text(id: u32) -> Seq<char> {
    "コントローラー id="@ + decimal(id as nat) + " が見つかりません"@
}

/// The message for a controller id that is not registered.
pub fn controller_not_found(id: u32) -> (res: String)
    ensures
        res@ == not_found_text(id),
{
    id_message("コントローラー id=", id, " が見つかりません")
}

/// The answer to a controller creation: 201 with the new id, or 500 with the
/// reason of the failure.
pub fn add_controller_response(result: Result<u32, String>) -> (r: (u16, AddControllerResponse))
    ensures
        match result {
            Ok(id) => r.0 == STATUS_CREATED && r.1.success && r.1.id == Some(id)
                && r.1.message@ == "コントローラー id="@ + decimal(id as nat) + " を追加しました"@,
            Err(e) => r.0 == STATUS_INTERNAL_SERVER_ERROR && !r.1.success && r.1.id is None
                && r.1.message == e,
        },
{
    match result {
        Ok(id) => (
            STATUS_CREATED,
            AddControllerResponse {
                success: true,
                id: Some(id),
                message: id_message("コントローラー id=", id, " を追加しました"),
            },
        ),
        Err(e) => (STATUS_INTERNAL_SERVER_ERROR, AddControllerResponse { success: false, id: None, message: e }),
    }
}

/// The answer to a controller removal: 200, or 404 with the reason.
pub fn remove_controller_response(id: u32, result: Result<(), String>) -> (r: (u16, SimpleResponse))
    ensures
        match result {
            Ok(()) => r.0 == STATUS_OK && r.1.success
                && r.1.message@ == "コントローラー id="@ + decimal(id as nat) + " を削除しました"@,
            Err(e) => r.0 == STATUS_NOT_FOUND && !r.1.success && r.1.message == e,
        },
{
    match result {
        Ok(()) => (
            STATUS_OK,
            SimpleResponse { success: true, message: id_message("コントローラー id=", id, " を削除しました") },
        ),
        Err(e) => (STATUS_NOT_FOUND, SimpleResponse { success: false, message: e }),
    }
}

/// The answer to a driver operation: its message, marked as success or not.
pub fn driver_response(result: Result<String, String>) -> (r: DriverResponse)
    ensures
        match result {
            Ok(m) => r.success && r.message == m,
            Err(e) => !r.success && r.message == e,
        },
{
    match result {
        Ok(message) => DriverResponse { success: true, message },
        Err(message) => DriverResponse { success: false, message },
    }
}

} // verus!
