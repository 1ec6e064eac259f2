//! The retrieval service's decisions: input checks made before any store
//! access, and the mapping of store outcomes to results.

use vstd::prelude::*;
use crate::error::AppError;
use crate::ids::{parse_uuid, uuid_parse_of};
use crate::query::{
    build_search, insert_work, insert_params, search_params, search_sql, update_params,
    update_work, SearchCriteria, SqlStatement, PAGE_MESSAGE, LIMIT_MESSAGE, QUERY_MESSAGE, has_word, has_word_str, DEFAULT_PAGE_SIZE, MAX_PAGE_SIZE, INSERT_WORK,
    UPDATE_WORK,
};
use crate::work::{create_rejection, update_rejection, Work, WorkCreateDto, WorkType, WorkUpdateDto};

verus! {

/// Search parameters as a client sends them: every one may be missing.
#[derive(Debug, Clone)]
pub struct SearchQuery {
    pub query: Option<String>,
    pub specialty: Option<String>,
    pub work_type: Option<String>,
    pub year: Option<i32>,
    pub page: Option<u32>,
    pub limit: Option<u32>,
}

pub const WORK_TYPE_MESSAGE: &'static str = "Неизвестный тип работы";

pub const ID_MESSAGE: &'static str = "Неверный формат ID";

impl SearchQuery {
    /// The page asked for; 1 where none is given.
    pub open spec fn page_or_default(&self) -> u32 {
        match self.page {
            Some(p) => p,
            None => 1,
        }
    }

    /// The page size asked for; `DEFAULT_PAGE_SIZE` where none is given.
    pub open spec fn limit_or_default(&self) -> u32 {
        match self.limit {
            Some(l) => l,
            None => DEFAULT_PAGE_SIZE,
        }
    }

    /// Why the parameters are refused, checked in order: page, page size,
    /// free text without a word, kind; `None` where they are accepted.
    pub open spec fn rejection(&self) -> Option<Seq<char>> {
        if self.page_or_default() < 1 {
            Some(PAGE_MESSAGE@)
        } else if self.limit_or_default() < 1 || self.limit_or_default() > MAX_PAGE_SIZE {
            Some(LIMIT_MESSAGE@)
        } else if self.query matches Some(q) && !has_word(q@) {
            Some(QUERY_MESSAGE@)
        } else if self.work_type matches Some(t) && WorkType::from_token(t@) is None {
            Some(WORK_TYPE_MESSAGE@)
        } else {
            None
        }
    }

    /// The criteria that accepted parameters stand for.
    pub open spec fn criteria_of(&self, c: SearchCriteria) -> bool {
        &&& c.query == self.query
        &&& c.specialty == self.specialty
        &&& c.work_type == (match self.work_type {
            Some(t) => WorkType::from_token(t@),
            None => None,
        })
        &&& c.year == self.year
        &&& c.page == self.page_or_default()
        &&& c.limit == self.limit_or_default()
    }

    /// Checks the parameters and fills in the defaults. A kind must be one of
    /// the storage tokens; page numbers count from 1; page sizes lie in
    /// [1, `MAX_PAGE_SIZE`].
    pub fn to_criteria(&self) -> (r: Result<SearchCriteria, AppError>)
        ensures
            match r {
                Ok(c) => self.rejection() is None && self.criteria_of(c) && c.valid(),
                Err(e) => self.rejection() matches Some(m) && e.is_validation(m),
            },
    {
        let page = match self.page {
            Some(p) => p,
            None => 1,
        };
        let limit = match self.limit {
            Some(l) => l,
            None => DEFAULT_PAGE_SIZE,
        };
        if page < 1 {
            return Err(AppError::validation(PAGE_MESSAGE));
        }
        if limit < 1 || limit > MAX_PAGE_SIZE {
            return Err(AppError::validation(LIMIT_MESSAGE));
        }
        if let Some(q) = &self.query {
            if !has_word_str(q.as_str()) {
                return Err(AppError::validation(QUERY_MESSAGE));
            }
        }
        let work_type = match &self.work_type {
            Some(t) => match WorkType::from_db_str(t.as_str()) {
                Some(w) => Some(w),
                None => {
                    return Err(AppError::validation(WORK_TYPE_MESSAGE));
                },
            },
            None => None,
        };
        let query = match &self.query {
            Some(q) => Some(q.clone()),
            None => None,
        };
        let specialty = match &self.specialty {
            Some(s) => Some(s.clone()),
            None => None,
        };
        Ok(SearchCriteria { query, specialty, work_type, year: self.year, page, limit })
    }

    /// Checks the parameters and composes the search statement; nothing is
    /// composed for refused parameters.
    pub fn to_statement(&self) -> (r: Result<SqlStatement, AppError>)
        ensures
            match r {
                Ok(s) => self.rejection() is None && exists|c: SearchCriteria|
                    self.criteria_of(c) && s.sql@ == search_sql(c.shape()) && s.param_values()
                        == search_params(c),
                Err(e) => self.rejection() matches Some(m) && e.is_validation(m),
            },
    {
        match self.to_criteria() {
            Ok(c) => Ok(build_search(&c)),
            Err(e) => Err(e),
        }
    }
}

/// One page of search results. `total` counts the records of this page, not
/// of every match: a client that wants to know whether more follow asks for
/// the next page, or runs the statement of `query::build_count`.
#[derive(Debug, Clone)]
pub struct SearchResponse {
    pub works: Vec<Work>,
    pub total: usize,
    pub page: u32,
    pub limit: u32,
}

impl SearchResponse {
    /// Wraps the rows that the store returned for `c`.
    pub fn from_page(works: Vec<Work>, c: &SearchCriteria) -> (r: SearchResponse)
        ensures
            r.works@ == works@,
            r.total == works@.len(),
            r.page == c.page,
            r.limit == c.limit,
    {
        let total = works.len();
        SearchResponse { works, total, page: c.page, limit: c.limit }
    }
}

/// Checks a create request and composes its insert statement; nothing is
/// composed for a refused request.
pub fn prepare_create(d: &WorkCreateDto) -> (r: Result<SqlStatement, AppError>)
    ensures
        match r {
            Ok(s) => create_rejection(*d) is None && s.sql@ == INSERT_WORK@ && s.param_values()
                == insert_params(*d),
            Err(e) => create_rejection(*d) matches Some(m) && e.is_validation(m),
        },
{
    match d.validate() {
        Ok(()) => Ok(insert_work(d)),
        Err(e) => Err(e),
    }
}

/// Checks an update and composes its statement; nothing is composed for a
/// refused update.
pub fn prepare_update(id: u128, d: &WorkUpdateDto) -> (r: Result<SqlStatement, AppError>)
    ensures
        match r {
            Ok(s) => update_rejection(*d) is None && s.sql@ == UPDATE_WORK@ && s.param_values()
                == update_params(id, *d),
            Err(e) => update_rejection(*d) matches Some(m) && e.is_validation(m),
        },
{
    match d.validate() {
        Ok(()) => Ok(update_work(id, d)),
        Err(e) => Err(e),
    }
}

/// The identifier that `parsed` holds, or a client error where the text it
/// was read from is no UUID.
pub fn id_from_parsed(parsed: Option<u128>) -> (r: Result<u128, AppError>)
    ensures
        match parsed {
            Some(v) => r == Ok::<u128, AppError>(v),
            None => r matches Err(e) && e.is_validation(ID_MESSAGE@),
        },
{
    match parsed {
        Some(v) => Ok(v),
        None => Err(AppError::validation(ID_MESSAGE)),
    }
}

/// Reads a work identifier; a malformed one is a client error, never "absent".
pub fn parse_work_id(s: &str) -> (r: Result<u128, AppError>)
    ensures
        match uuid_parse_of(s@) {
            Some(v) => r == Ok::<u128, AppError>(v),
            None => r matches Err(e) && e.is_validation(ID_MESSAGE@),
        },
{
    id_from_parsed(parse_uuid(s))
}

/// A lookup that must find its record: absence becomes `NotFound`.
pub fn require_found(found: Option<Work>) -> (r: Result<Work, AppError>)
    ensures
        match found {
            Some(w) => r matches Ok(v) && v == w,
            None => r matches Err(e) && e == AppError::NotFound,
        },
{
    match found {
        Some(w) => Ok(w),
        None => Err(AppError::NotFound),
    }
}

/// Whether a delete removed a row, from the number of rows it affected.
pub fn removed_any(rows_affected: u64) -> (r: bool)
    ensures
        r == (rows_affected > 0),
{
    rows_affected > 0
}

} // verus!
