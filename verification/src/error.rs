//! The errors of a search.

use crate::text::{join, joined, views_of};
use vstd::prelude::*;

verus! {

/// Errors returned by the server, in the order in which it gave them.
#[derive(Debug, PartialEq)]
pub struct RzdErrors(pub Vec<String>);

impl Default for RzdErrors {
    fn default() -> (r: Self)
        ensures
            r.0@.len() == 0,
    {
        RzdErrors(Vec::new())
    }
}

impl RzdErrors {
    pub fn new(errors: Vec<String>) -> (r: Self)
        ensures
            r.0 == errors,
    {
        RzdErrors(errors)
    }

    /// Performs the conversion into `Vec`.
    pub fn to_vec(self) -> (r: Vec<String>)
        ensures
            r == self.0,
    {
        self.0
    }

    /// The messages, by their characters.
    pub open spec fn messages(self) -> Seq<Seq<char>> {
        views_of(self.0@)
    }

    /// The messages in one line.
    pub open spec fn text(self) -> Seq<char> {
        joined(self.messages(), "; "@)
    }

    /// The messages in one line, with `"; "` between each two.
    pub fn to_string(&self) -> (r: String)
        ensures
            r@ == self.text(),
    {
        join(&self.0, "; ")
    }
}

/// The errors that may occur.
#[derive(Debug)]
#[non_exhaustive]
pub enum Error {
    /// An unsupported operation was called.
    UnsupportedOperation,
    /// Parsing of the date failed.
    ParseDateError(String),
    /// Parsing of the time failed.
    ParseTimeError(String),
    /// Parsing of the station code failed.
    ParseStationCodeError(String),
    /// A too short query passed.
    TooShortQuery,
    /// An empty number of the train passed.
    EmptyTrainNumber,
    /// The request finished with an error; the text says which.
    ReqwestError(String),
    /// A header could not be built of what the server returned.
    ReqwestHeaderError,
    /// Data serialization failed.
    SerializeError(String),
    /// Data deserialization failed.
    DeserializeError(String),
    /// The server is probably overloaded.
    RzdServerOverloaded,
    /// The server has not got the answer ready: in place of the data it sent
    /// an identifier again.
    RzdReplyNotReady,
    /// The server returned a bad reply.
    FailRzdResponse,
    /// The server returned an error description.
    RzdError(RzdErrors),
    /// Dummy error by default.
    Empty,
}

impl Error {
    /// What the error says to a reader.
    pub open spec fn text(self) -> Seq<char> {
        match self {
            Error::UnsupportedOperation => "операция не поддерживается"@,
            Error::ParseDateError(_) => "ошибка преобразования даты"@,
            Error::ParseTimeError(_) => "ошибка преобразования времени"@,
            Error::ParseStationCodeError(_) => "ошибка преобразования кода станции"@,
            Error::TooShortQuery => "передан слишком короткий запрос"@,
            Error::EmptyTrainNumber => "передан некорректный номер поезда"@,
            Error::ReqwestError(_) => "не удалось получить данные с сервера \"РЖД\""@,
            Error::ReqwestHeaderError => "сервер \"РЖД\" вернул некорректные данные"@,
            Error::SerializeError(_) => "не удалось упаковать данные"@,
            Error::DeserializeError(_) => "не удалось распаковать данные"@,
            Error::RzdServerOverloaded => "удаленный сервер перегружен, измените запрос или попробуйте позднее"@,
            Error::RzdReplyNotReady => "ответ сервера \"РЖД\" ещё не готов"@,
            Error::FailRzdResponse => "сервер \"РЖД\" вернул некорректные данные"@,
            Error::RzdError(e) => e.text(),
            Error::Empty => "ошибок нет"@,
        }
    }

    /// What the error says to a reader.
    pub fn to_string(&self) -> (r: String)
        ensures
            r@ == self.text(),
    {
        match self {
            Error::UnsupportedOperation => String::from_str("операция не поддерживается"),
            Error::ParseDateError(_) => String::from_str("ошибка преобразования даты"),
            Error::ParseTimeError(_) => String::from_str("ошибка преобразования времени"),
            Error::ParseStationCodeError(_) => String::from_str(
                "ошибка преобразования кода станции",
            ),
            Error::TooShortQuery => String::from_str("передан слишком короткий запрос"),
            Error::EmptyTrainNumber => String::from_str("передан некорректный номер поезда"),
            Error::ReqwestError(_) => String::from_str(
                "не удалось получить данные с сервера \"РЖД\"",
            ),
            Error::ReqwestHeaderError => String::from_str(
                "сервер \"РЖД\" вернул некорректные данные",
            ),
            Error::SerializeError(_) => String::from_str("не удалось упаковать данные"),
            Error::DeserializeError(_) => String::from_str("не удалось распаковать данные"),
            Error::RzdServerOverloaded => String::from_str(
                "удаленный сервер перегружен, измените запрос или попробуйте позднее",
            ),
            Error::RzdReplyNotReady => String::from_str("ответ сервера \"РЖД\" ещё не готов"),
            Error::FailRzdResponse => String::from_str("сервер \"РЖД\" вернул некорректные данные"),
            Error::RzdError(e) => e.to_string(),
            Error::Empty => String::from_str("ошибок нет"),
        }
    }
}

} // verus!
