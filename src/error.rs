//! The error taxonomy shared by every operation.

use vstd::prelude::*;
use crate::text::{owned, append_str};

verus! {

/// Why an operation failed. Messages carried by `Internal` and
/// `DatabaseError` are for the server's log, never for the client.
#[derive(Debug, Clone, PartialEq, Eq)]
pub enum AppError {
    Internal(String),
    BadRequest(String),
    Unauthorized,
    Forbidden,
    NotFound,
    ValidationError(String),
    DatabaseError(String),
}

impl AppError {
    /// A validation failure whose message is `msg`.
    pub open spec fn is_validation(self, msg: Seq<char>) -> bool {
        self matches AppError::ValidationError(m) && m@ == msg
    }

    /// A validation failure with the given message.
    pub fn validation(msg: &str) -> (r: AppError)
        ensures
            r.is_validation(msg@),
    {
        AppError::ValidationError(owned(msg))
    }
}

/// The status code a client receives for `e`.
pub open spec fn status_of(e: AppError) -> u16 {
    match e {
        AppError::Internal(_) => 500,
        AppError::BadRequest(_) => 400,
        AppError::Unauthorized => 401,
        AppError::Forbidden => 403,
        AppError::NotFound => 404,
        AppError::ValidationError(_) => 400,
        AppError::DatabaseError(_) => 500,
    }
}

/// The text a client receives for `e`: client errors carry their message,
/// server failures a fixed phrase that reveals nothing of the store.
pub open spec fn client_text_of(e: AppError) -> Seq<char> {
    match e {
        AppError::Internal(_) => "Внутренняя ошибка сервера"@,
        AppError::BadRequest(m) => m@,
        AppError::Unauthorized => "Требуется авторизация"@,
        AppError::Forbidden => "Доступ запрещён"@,
        AppError::NotFound => "Ресурс не найден"@,
        AppError::ValidationError(m) => m@,
        AppError::DatabaseError(_) => "Ошибка базы данных"@,
    }
}

/// The full description of `e`, detail included, for the server's log.
pub open spec fn description_of(e: AppError) -> Seq<char> {
    match e {
        AppError::Internal(m) => "Внутренняя ошибка сервера: "@ + m@,
        AppError::BadRequest(m) => "Неверный запрос: "@ + m@,
        AppError::Unauthorized => "Неавторизован"@,
        AppError::Forbidden => "Запрещено"@,
        AppError::NotFound => "Не найдено"@,
        AppError::ValidationError(m) => "Ошибка валидации: "@ + m@,
        AppError::DatabaseError(m) => "Ошибка базы данных: "@ + m@,
    }
}

impl AppError {
    /// The status code a client receives.
    pub fn status_code(&self) -> (r: u16)
        ensures
            r == status_of(*self),
    {
        match self {
            AppError::Internal(_) => 500,
            AppError::BadRequest(_) => 400,
            AppError::Unauthorized => 401,
            AppError::Forbidden => 403,
            AppError::NotFound => 404,
            AppError::ValidationError(_) => 400,
            AppError::DatabaseError(_) => 500,
        }
    }

    /// The text a client receives.
    pub fn client_message(&self) -> (r: String)
        ensures
            r@ == client_text_of(*self),
    {
        match self {
            AppError::Internal(_) => owned("Внутренняя ошибка сервера"),
            AppError::BadRequest(m) => m.clone(),
            AppError::Unauthorized => owned("Требуется авторизация"),
            AppError::Forbidden => owned("Доступ запрещён"),
            AppError::NotFound => owned("Ресурс не найден"),
            AppError::ValidationError(m) => m.clone(),
            AppError::DatabaseError(_) => owned("Ошибка базы данных"),
        }
    }

    /// The full description, detail included, for the server's log.
    pub fn description(&self) -> (r: String)
        ensures
            r@ == description_of(*self),
    {
        let (head, detail) = match self {
            AppError::Internal(m) => ("Внутренняя ошибка сервера: ", m.as_str()),
            AppError::BadRequest(m) => ("Неверный запрос: ", m.as_str()),
            AppError::Unauthorized => ("Неавторизован", ""),
            AppError::Forbidden => ("Запрещено", ""),
            AppError::NotFound => ("Не найдено", ""),
            AppError::ValidationError(m) => ("Ошибка валидации: ", m.as_str()),
            AppError::DatabaseError(m) => ("Ошибка базы данных: ", m.as_str()),
        };
        let mut r = owned(head);
        append_str(&mut r, detail);
        proof {
            reveal_strlit("");
        }
        assert(r@ =~= description_of(*self));
        r
    }
}

} // verus!
