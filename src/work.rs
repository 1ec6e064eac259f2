//! The work record, its closed classification, and the input objects of the
//! create and update operations.

use vstd::prelude::*;
use crate::text::{trim, trim_str, same_text};
use crate::error::AppError;

verus! {

/// The closed set of work kinds.
#[derive(Debug, Clone, Copy, PartialEq, Eq, Structural)]
pub enum WorkType {
    Article,
    Competition,
    Essay,
    Report,
    Project,
    Presentation,
    Speech,
    Other,
}

/// Every work kind, in declaration order.
pub open spec fn all_work_types() -> Seq<WorkType> {
    seq![
        WorkType::Article,
        WorkType::Competition,
        WorkType::Essay,
        WorkType::Report,
        WorkType::Project,
        WorkType::Presentation,
        WorkType::Speech,
        WorkType::Other,
    ]
}

impl WorkType {
    /// The human-readable name of the kind.
    pub open spec fn display_name(self) -> Seq<char> {
        match self {
            WorkType::Article => "Статья"@,
            WorkType::Competition => "Конкурсная работа"@,
            WorkType::Essay => "Эссе"@,
            WorkType::Report => "Реферат"@,
            WorkType::Project => "Проект"@,
            WorkType::Presentation => "Презентация"@,
            WorkType::Speech => "Доклад"@,
            WorkType::Other => "Другое"@,
        }
    }

    /// The lowercase token under which the store keeps the kind.
    pub open spec fn storage_token(self) -> Seq<char> {
        match self {
            WorkType::Article => "article"@,
            WorkType::Competition => "competition"@,
            WorkType::Essay => "essay"@,
            WorkType::Report => "report"@,
            WorkType::Project => "project"@,
            WorkType::Presentation => "presentation"@,
            WorkType::Speech => "speech"@,
            WorkType::Other => "other"@,
        }
    }

    /// The kind whose storage token is `s`, if there is one.
    pub open spec fn from_token(s: Seq<char>) -> Option<WorkType> {
        if exists|w: WorkType| w.storage_token() == s {
            Some(choose|w: WorkType| w.storage_token() == s)
        } else {
            None
        }
    }

    /// The human-readable name of the kind.
    pub fn as_str(&self) -> (r: &'static str)
        ensures
            r@ == self.display_name(),
    {
        match self {
            WorkType::Article => "Статья",
            WorkType::Competition => "Конкурсная работа",
            WorkType::Essay => "Эссе",
            WorkType::Report => "Реферат",
            WorkType::Project => "Проект",
            WorkType::Presentation => "Презентация",
            WorkType::Speech => "Доклад",
            WorkType::Other => "Другое",
        }
    }

    /// The lowercase token under which the store keeps the kind.
    pub fn as_db_str(&self) -> (r: &'static str)
        ensures
            r@ == self.storage_token(),
    {
        match self {
            WorkType::Article => "article",
            WorkType::Competition => "competition",
            WorkType::Essay => "essay",
            WorkType::Report => "report",
            WorkType::Project => "project",
            WorkType::Presentation => "presentation",
            WorkType::Speech => "speech",
            WorkType::Other => "other",
        }
    }

    /// The kind whose storage token is `s`; `None` for any other text.
    pub fn from_db_str(s: &str) -> (r: Option<WorkType>)
        ensures
            r == WorkType::from_token(s@),
            r matches Some(w) ==> w.storage_token() == s@,
    {
        let kinds = [
            WorkType::Article,
            WorkType::Competition,
            WorkType::Essay,
            WorkType::Report,
            WorkType::Project,
            WorkType::Presentation,
            WorkType::Speech,
            WorkType::Other,
        ];
        assert(kinds@ == all_work_types());
        let mut i: usize = 0;
        while i < 8
            invariant
                kinds@ == all_work_types(),
                i <= 8,
                forall|k: int| 0 <= k < i ==> all_work_types()[k].storage_token() != s@,
            decreases 8 - i,
        {
            let w = kinds[i];
            let t = w.as_db_str();
            if same_text(t, s) {
                proof {
                    lemma_storage_tokens_distinct();
                    let c = choose|x: WorkType| x.storage_token() == s@;
                    assert(c.storage_token() == s@);
                }
                return Some(w);
            }
            i = i + 1;
        }
        proof {
            assert forall|w: WorkType| w.storage_token() != s@ by {
                lemma_listed(w);
            }
        }
        None
    }
}

/// Every kind stands in the list of all kinds.
proof fn lemma_listed(w: WorkType)
    ensures
        exists|k: int| 0 <= k < 8 && all_work_types()[k] == w,
{
    match w {
        WorkType::Article => assert(all_work_types()[0] == w),
        WorkType::Competition => assert(all_work_types()[1] == w),
        WorkType::Essay => assert(all_work_types()[2] == w),
        WorkType::Report => assert(all_work_types()[3] == w),
        WorkType::Project => assert(all_work_types()[4] == w),
        WorkType::Presentation => assert(all_work_types()[5] == w),
        WorkType::Speech => assert(all_work_types()[6] == w),
        WorkType::Other => assert(all_work_types()[7] == w),
    }
}

/// Two kinds never share a storage token.
pub proof fn lemma_storage_tokens_distinct()
    ensures
        forall|a: WorkType, b: WorkType| a.storage_token() == b.storage_token() ==> a == b,
{
    reveal_strlit("article");
    reveal_strlit("competition");
    reveal_strlit("essay");
    reveal_strlit("report");
    reveal_strlit("project");
    reveal_strlit("presentation");
    reveal_strlit("speech");
    reveal_strlit("other");
    assert forall|a: WorkType, b: WorkType| a.storage_token() == b.storage_token() implies a
        == b by {
        if a != b {
            assert(a.storage_token()[0] != b.storage_token()[0] || a.storage_token().len()
                != b.storage_token().len() || a.storage_token()[1] != b.storage_token()[1]);
        }
    }
}

/// Storage tokens read back as the kind they were written for.
pub proof fn lemma_token_round_trip(w: WorkType)
    ensures
        WorkType::from_token(w.storage_token()) == Some(w),
{
    lemma_storage_tokens_distinct();
}

/// Roles of the archive's users.
#[derive(Debug, Clone, Copy, PartialEq, Eq, Structural)]
pub enum UserRole {
    Admin,
    Methodist,
    Teacher,
    Student,
}

impl UserRole {
    /// The lowercase token under which the store keeps the role.
    pub open spec fn storage_token(self) -> Seq<char> {
        match self {
            UserRole::Admin => "admin"@,
            UserRole::Methodist => "methodist"@,
            UserRole::Teacher => "teacher"@,
            UserRole::Student => "student"@,
        }
    }

    /// The lowercase token under which the store keeps the role.
    pub fn as_db_str(&self) -> (r: &'static str)
        ensures
            r@ == self.storage_token(),
    {
        match self {
            UserRole::Admin => "admin",
            UserRole::Methodist => "methodist",
            UserRole::Teacher => "teacher",
            UserRole::Student => "student",
        }
    }
}

/// A user of the archive. `id` is the user's UUID as a 128-bit integer; the
/// two timestamps are microseconds since the Unix epoch.
#[derive(Debug, Clone)]
pub struct User {
    pub id: u128,
    pub username: String,
    pub password_hash: String,
    pub role: UserRole,
    pub full_name: Option<String>,
    pub email: Option<String>,
    pub is_active: bool,
    pub created_at: i64,
    pub updated_at: i64,
}

/// A stored work. `id` is the record's UUID as a 128-bit integer; the two
/// timestamps are microseconds since the Unix epoch.
#[derive(Debug, Clone, PartialEq, Eq)]
pub struct Work {
    pub id: u128,
    pub title: String,
    pub work_type: WorkType,
    pub specialty: String,
    pub author_name: String,
    pub supervisor_name: String,
    pub year: i32,
    pub annotation: Option<String>,
    pub keywords: Option<String>,
    pub file_path: String,
    pub thumbnail_path: Option<String>,
    pub created_at: i64,
    pub updated_at: i64,
}

/// The fields a client supplies to create a work.
#[derive(Debug, Clone)]
pub struct WorkCreateDto {
    pub title: String,
    pub work_type: WorkType,
    pub specialty: String,
    pub author_name: String,
    pub supervisor_name: String,
    pub year: i32,
    pub annotation: Option<String>,
    pub keywords: Option<String>,
    pub file_path: String,
    pub thumbnail_path: Option<String>,
}

/// The fields a client may overwrite; `None` keeps the stored value.
#[derive(Debug, Clone, Default)]
pub struct WorkUpdateDto {
    pub title: Option<String>,
    pub work_type: Option<WorkType>,
    pub specialty: Option<String>,
    pub author_name: Option<String>,
    pub supervisor_name: Option<String>,
    pub year: Option<i32>,
    pub annotation: Option<String>,
    pub keywords: Option<String>,
    pub thumbnail_path: Option<String>,
}

/// The earliest publication year accepted.
pub const MIN_YEAR: i32 = 1900;

/// The latest publication year accepted.
pub const MAX_YEAR: i32 = 2100;

/// A text that holds something besides white space.
pub open spec fn filled(s: Seq<char>) -> bool {
    trim(s).len() > 0
}

/// The longest title accepted, in characters.
pub const MAX_TITLE_LEN: usize = 500;

/// The longest specialty accepted, in characters.
pub const MAX_SPECIALTY_LEN: usize = 200;

/// The longest author or supervisor name accepted, in characters.
pub const MAX_NAME_LEN: usize = 300;

pub const TITLE_EMPTY: &'static str = "Название работы не может быть пустым";

pub const TITLE_LONG: &'static str = "Название работы не может быть длиннее 500 символов";

pub const SPECIALTY_EMPTY: &'static str = "Специальность не может быть пустой";

pub const SPECIALTY_LONG: &'static str = "Специальность не может быть длиннее 200 символов";

pub const AUTHOR_EMPTY: &'static str = "Имя автора не может быть пустым";

pub const AUTHOR_LONG: &'static str = "Имя автора не может быть длиннее 300 символов";

pub const SUPERVISOR_EMPTY: &'static str = "Имя руководителя не может быть пустым";

pub const SUPERVISOR_LONG: &'static str = "Имя руководителя не может быть длиннее 300 символов";

pub const YEAR_RANGE: &'static str = "Год должен быть в диапазоне 1900-2100";

/// Why a required text field is refused: it holds only white space, or more
/// than `max` characters.
pub open spec fn text_rejection(s: Seq<char>, max: nat, empty: Seq<char>, long: Seq<char>) -> Option<
    Seq<char>,
> {
    if !filled(s) {
        Some(empty)
    } else if s.len() > max {
        Some(long)
    } else {
        None
    }
}

/// Why a year is refused: it lies outside [`MIN_YEAR`, `MAX_YEAR`].
pub open spec fn year_rejection(y: i32) -> Option<Seq<char>> {
    if y < MIN_YEAR || y > MAX_YEAR {
        Some(YEAR_RANGE@)
    } else {
        None
    }
}

/// The first of two rejections, if any.
pub open spec fn first(a: Option<Seq<char>>, b: Option<Seq<char>>) -> Option<Seq<char>> {
    if a is Some {
        a
    } else {
        b
    }
}

pub open spec fn title_rejection(s: Seq<char>) -> Option<Seq<char>> {
    text_rejection(s, MAX_TITLE_LEN as nat, TITLE_EMPTY@, TITLE_LONG@)
}

pub open spec fn specialty_rejection(s: Seq<char>) -> Option<Seq<char>> {
    text_rejection(s, MAX_SPECIALTY_LEN as nat, SPECIALTY_EMPTY@, SPECIALTY_LONG@)
}

pub open spec fn author_rejection(s: Seq<char>) -> Option<Seq<char>> {
    text_rejection(s, MAX_NAME_LEN as nat, AUTHOR_EMPTY@, AUTHOR_LONG@)
}

pub open spec fn supervisor_rejection(s: Seq<char>) -> Option<Seq<char>> {
    text_rejection(s, MAX_NAME_LEN as nat, SUPERVISOR_EMPTY@, SUPERVISOR_LONG@)
}

/// The rejection message of a create request, or `None` when it is valid.
/// The fields are checked in order: title, specialty, author, supervisor, year.
pub open spec fn create_rejection(dto: WorkCreateDto) -> Option<Seq<char>> {
    first(
        title_rejection(dto.title@),
        first(
            specialty_rejection(dto.specialty@),
            first(
                author_rejection(dto.author_name@),
                first(supervisor_rejection(dto.supervisor_name@), year_rejection(dto.year)),
            ),
        ),
    )
}

/// The rejection of an optional field: none where it is not supplied.
pub open spec fn supplied_rejection(
    o: Option<String>,
    max: nat,
    empty: Seq<char>,
    long: Seq<char>,
) -> Option<Seq<char>> {
    match o {
        Some(s) => text_rejection(s@, max, empty, long),
        None => None,
    }
}

/// The rejection message of an update, or `None` when it is valid. Only the
/// supplied fields are checked, by the rules of a create request and in the
/// same order.
pub open spec fn update_rejection(d: WorkUpdateDto) -> Option<Seq<char>> {
    first(
        supplied_rejection(d.title, MAX_TITLE_LEN as nat, TITLE_EMPTY@, TITLE_LONG@),
        first(
            supplied_rejection(d.specialty, MAX_SPECIALTY_LEN as nat, SPECIALTY_EMPTY@, SPECIALTY_LONG@),
            first(
                supplied_rejection(d.author_name, MAX_NAME_LEN as nat, AUTHOR_EMPTY@, AUTHOR_LONG@),
                first(
                    supplied_rejection(
                        d.supervisor_name,
                        MAX_NAME_LEN as nat,
                        SUPERVISOR_EMPTY@,
                        SUPERVISOR_LONG@,
                    ),
                    match d.year {
                        Some(y) => year_rejection(y),
                        None => None,
                    },
                ),
            ),
        ),
    )
}

fn is_filled(s: &String) -> (r: bool)
    ensures
        r == filled(s@),
{
    trim_str(s.as_str()).unicode_len() > 0
}

/// Checks one required text field.
fn check_text(s: &String, max: usize, empty: &str, long: &str) -> (r: Result<(), AppError>)
    ensures
        match r {
            Ok(_) => text_rejection(s@, max as nat, empty@, long@) is None,
            Err(e) => text_rejection(s@, max as nat, empty@, long@) matches Some(m)
                && e.is_validation(m),
        },
{
    if !is_filled(s) {
        return Err(AppError::validation(empty));
    }
    if s.as_str().unicode_len() > max {
        return Err(AppError::validation(long));
    }
    Ok(())
}

/// Checks one optional text field, where it is supplied.
fn check_supplied(o: &Option<String>, max: usize, empty: &str, long: &str) -> (r: Result<
    (),
    AppError,
>)
    ensures
        match r {
            Ok(_) => supplied_rejection(*o, max as nat, empty@, long@) is None,
            Err(e) => supplied_rejection(*o, max as nat, empty@, long@) matches Some(m)
                && e.is_validation(m),
        },
{
    match o {
        Some(s) => check_text(s, max, empty, long),
        None => Ok(()),
    }
}

/// Checks a year.
fn check_year(y: i32) -> (r: Result<(), AppError>)
    ensures
        match r {
            Ok(_) => year_rejection(y) is None,
            Err(e) => year_rejection(y) matches Some(m) && e.is_validation(m),
        },
{
    if y < MIN_YEAR || y > MAX_YEAR {
        return Err(AppError::validation(YEAR_RANGE));
    }
    Ok(())
}

impl WorkCreateDto {
    /// Checks a create request before any store access: the four text fields
    /// must hold more than white space and at most their bound of characters
    /// (500 for the title, 200 for the specialty, 300 for each name), and the
    /// year must lie in [`MIN_YEAR`, `MAX_YEAR`].
    pub fn validate(&self) -> (r: Result<(), AppError>)
        ensures
            match r {
                Ok(_) => create_rejection(*self) is None,
                Err(e) => create_rejection(*self) matches Some(m) && e.is_validation(m),
            },
    {
        check_text(&self.title, MAX_TITLE_LEN, TITLE_EMPTY, TITLE_LONG)?;
        check_text(&self.specialty, MAX_SPECIALTY_LEN, SPECIALTY_EMPTY, SPECIALTY_LONG)?;
        check_text(&self.author_name, MAX_NAME_LEN, AUTHOR_EMPTY, AUTHOR_LONG)?;
        check_text(&self.supervisor_name, MAX_NAME_LEN, SUPERVISOR_EMPTY, SUPERVISOR_LONG)?;
        check_year(self.year)
    }
}

impl WorkUpdateDto {
    /// Checks an update before any store access: each supplied field obeys
    /// the rules of a create request; fields left out are not checked.
    pub fn validate(&self) -> (r: Result<(), AppError>)
        ensures
            match r {
                Ok(_) => update_rejection(*self) is None,
                Err(e) => update_rejection(*self) matches Some(m) && e.is_validation(m),
            },
    {
        check_supplied(&self.title, MAX_TITLE_LEN, TITLE_EMPTY, TITLE_LONG)?;
        check_supplied(&self.specialty, MAX_SPECIALTY_LEN, SPECIALTY_EMPTY, SPECIALTY_LONG)?;
        check_supplied(&self.author_name, MAX_NAME_LEN, AUTHOR_EMPTY, AUTHOR_LONG)?;
        check_supplied(&self.supervisor_name, MAX_NAME_LEN, SUPERVISOR_EMPTY, SUPERVISOR_LONG)?;
        match self.year {
            Some(y) => check_year(y),
            None => Ok(()),
        }
    }
}

} // verus!
