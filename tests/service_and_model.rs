use work_archive::error::AppError;
use work_archive::query::{SearchCriteria, SqlParam};
use work_archive::service::{
    id_from_parsed, parse_work_id, prepare_create, prepare_update, removed_any, require_found,
    SearchQuery, SearchResponse,
};
use work_archive::work::{UserRole, Work, WorkCreateDto, WorkType, WorkUpdateDto};

fn dto() -> WorkCreateDto {
    WorkCreateDto {
        title: "Веб-дизайн".to_string(),
        work_type: WorkType::Article,
        specialty: "Информационные системы".to_string(),
        author_name: "Иванов".to_string(),
        supervisor_name: "Петров".to_string(),
        year: 2021,
        annotation: None,
        keywords: None,
        file_path: "/files/a.pdf".to_string(),
        thumbnail_path: None,
    }
}

fn work(specialty: &str, year: i32, created_at: i64) -> Work {
    Work {
        id: created_at as u128,
        title: "Т".to_string(),
        work_type: WorkType::Report,
        specialty: specialty.to_string(),
        author_name: "А".to_string(),
        supervisor_name: "Р".to_string(),
        year,
        annotation: None,
        keywords: None,
        file_path: "/f".to_string(),
        thumbnail_path: None,
        created_at,
        updated_at: created_at,
    }
}

fn query() -> SearchQuery {
    SearchQuery {
        query: None,
        specialty: None,
        work_type: None,
        year: None,
        page: None,
        limit: None,
    }
}

#[test]
fn display_names_of_work_types() {
    assert_eq!(WorkType::Article.as_str(), "Статья");
    assert_eq!(WorkType::Competition.as_str(), "Конкурсная работа");
    assert_eq!(WorkType::Report.as_str(), "Реферат");
    assert_eq!(WorkType::Speech.as_str(), "Доклад");
    assert_eq!(WorkType::Other.as_str(), "Другое");
}

#[test]
fn storage_tokens_round_trip() {
    let all = [
        WorkType::Article,
        WorkType::Competition,
        WorkType::Essay,
        WorkType::Report,
        WorkType::Project,
        WorkType::Presentation,
        WorkType::Speech,
        WorkType::Other,
    ];
    for w in all {
        assert_eq!(WorkType::from_db_str(w.as_db_str()), Some(w));
    }
    assert_eq!(WorkType::Presentation.as_db_str(), "presentation");
}

#[test]
fn unknown_storage_tokens_are_rejected() {
    assert_eq!(WorkType::from_db_str("Article"), None);
    assert_eq!(WorkType::from_db_str("thesis"), None);
    assert_eq!(WorkType::from_db_str(""), None);
}

#[test]
fn user_role_tokens() {
    assert_eq!(UserRole::Admin.as_db_str(), "admin");
    assert_eq!(UserRole::Methodist.as_db_str(), "methodist");
    assert_eq!(UserRole::Student.as_db_str(), "student");
}

#[test]
fn valid_create_request_passes() {
    assert_eq!(dto().validate(), Ok(()));
    let mut d = dto();
    d.year = 1900;
    assert_eq!(d.validate(), Ok(()));
    d.year = 2100;
    assert_eq!(d.validate(), Ok(()));
}

#[test]
fn blank_title_is_rejected() {
    let mut d = dto();
    d.title = " \t ".to_string();
    assert_eq!(
        d.validate(),
        Err(AppError::ValidationError(
            "Название работы не может быть пустым".to_string()
        ))
    );
}

#[test]
fn blank_specialty_author_and_supervisor_are_rejected() {
    let mut d = dto();
    d.specialty = String::new();
    assert_eq!(
        d.validate(),
        Err(AppError::ValidationError("Специальность не может быть пустой".to_string()))
    );
    let mut d = dto();
    d.author_name = "\u{3000}".to_string();
    assert_eq!(
        d.validate(),
        Err(AppError::ValidationError("Имя автора не может быть пустым".to_string()))
    );
    let mut d = dto();
    d.supervisor_name = "\n".to_string();
    assert_eq!(
        d.validate(),
        Err(AppError::ValidationError("Имя руководителя не может быть пустым".to_string()))
    );
}

#[test]
fn year_outside_range_is_rejected() {
    for year in [1899, 2101, 0, -5] {
        let mut d = dto();
        d.year = year;
        assert_eq!(
            d.validate(),
            Err(AppError::ValidationError(
                "Год должен быть в диапазоне 1900-2100".to_string()
            ))
        );
    }
}

#[test]
fn first_failing_field_decides_the_message() {
    let mut d = dto();
    d.title = String::new();
    d.year = 3000;
    assert_eq!(
        d.validate(),
        Err(AppError::ValidationError(
            "Название работы не может быть пустым".to_string()
        ))
    );
}

#[test]
fn prepare_create_composes_insert_only_when_valid() {
    let s = prepare_create(&dto()).unwrap();
    assert_eq!(s.params[0], SqlParam::Text("Веб-дизайн".to_string()));
    assert_eq!(s.params[1], SqlParam::Text("article".to_string()));
    let mut d = dto();
    d.year = 1800;
    assert!(matches!(prepare_create(&d), Err(AppError::ValidationError(_))));
}

#[test]
fn query_defaults_to_first_page_of_twenty() {
    let c = query().to_criteria().unwrap();
    assert_eq!(c.page, 1);
    assert_eq!(c.limit, 20);
    assert!(c.query.is_none() && c.specialty.is_none() && c.work_type.is_none());
}

#[test]
fn query_keeps_given_filters() {
    let mut q = query();
    q.query = Some("web".to_string());
    q.specialty = Some("Право".to_string());
    q.work_type = Some("speech".to_string());
    q.year = Some(2023);
    q.page = Some(4);
    q.limit = Some(100);
    let c = q.to_criteria().unwrap();
    assert_eq!(c.query.as_deref(), Some("web"));
    assert_eq!(c.specialty.as_deref(), Some("Право"));
    assert_eq!(c.work_type, Some(WorkType::Speech));
    assert_eq!(c.year, Some(2023));
    assert_eq!(c.page, 4);
    assert_eq!(c.limit, 100);
}

#[test]
fn page_zero_is_rejected() {
    let mut q = query();
    q.page = Some(0);
    assert_eq!(
        q.to_criteria().unwrap_err(),
        AppError::ValidationError("Номер страницы должен быть не меньше 1".to_string())
    );
}

#[test]
fn page_size_out_of_range_is_rejected() {
    for limit in [0, 101, 5000] {
        let mut q = query();
        q.limit = Some(limit);
        assert_eq!(
            q.to_criteria().unwrap_err(),
            AppError::ValidationError("Размер страницы должен быть от 1 до 100".to_string())
        );
    }
}

#[test]
fn unknown_work_type_is_a_client_error() {
    let mut q = query();
    q.work_type = Some("dissertation".to_string());
    assert_eq!(
        q.to_statement().unwrap_err(),
        AppError::ValidationError("Неизвестный тип работы".to_string())
    );
}

#[test]
fn statement_from_query_binds_year() {
    let mut q = query();
    q.year = Some(2022);
    let s = q.to_statement().unwrap();
    assert!(s.sql.contains(" AND year = $1 "));
    assert_eq!(
        s.params,
        vec![SqlParam::Int(2022), SqlParam::Int(20), SqlParam::Int(0)]
    );
}

#[test]
fn response_total_counts_the_page() {
    let c = SearchCriteria {
        query: None,
        specialty: None,
        work_type: None,
        year: Some(2022),
        page: 1,
        limit: 20,
    };
    let r = SearchResponse::from_page(vec![work("Экономика", 2022, 2)], &c);
    assert_eq!(r.total, 1);
    assert_eq!(r.works[0].specialty, "Экономика");
    assert_eq!(r.page, 1);
    assert_eq!(r.limit, 20);
    let empty = SearchResponse::from_page(Vec::new(), &c);
    assert_eq!(empty.total, 0);
}

#[test]
fn work_ids_parse_from_uuid_text() {
    assert_eq!(
        parse_work_id("123e4567-e89b-12d3-a456-426614174000"),
        Ok(0x123e4567_e89b_12d3_a456_426614174000)
    );
    assert_eq!(
        parse_work_id("123e4567e89b12d3a456426614174000"),
        Ok(0x123e4567_e89b_12d3_a456_426614174000)
    );
}

#[test]
fn malformed_work_id_is_a_client_error() {
    let e = AppError::ValidationError("Неверный формат ID".to_string());
    assert_eq!(parse_work_id("42"), Err(e.clone()));
    assert_eq!(parse_work_id(""), Err(e.clone()));
    assert_eq!(id_from_parsed(None), Err(e));
    assert_eq!(id_from_parsed(Some(7)), Ok(7));
}

#[test]
fn absent_record_is_not_found() {
    assert_eq!(require_found(None), Err(AppError::NotFound));
    let w = work("Право", 2023, 3);
    assert_eq!(require_found(Some(w.clone())), Ok(w));
}

#[test]
fn delete_reports_whether_a_row_went() {
    assert!(removed_any(1));
    assert!(!removed_any(0));
}

#[test]
fn error_status_codes() {
    assert_eq!(AppError::NotFound.status_code(), 404);
    assert_eq!(AppError::ValidationError("x".to_string()).status_code(), 400);
    assert_eq!(AppError::BadRequest("x".to_string()).status_code(), 400);
    assert_eq!(AppError::Unauthorized.status_code(), 401);
    assert_eq!(AppError::Forbidden.status_code(), 403);
    assert_eq!(AppError::Internal("x".to_string()).status_code(), 500);
    assert_eq!(AppError::DatabaseError("x".to_string()).status_code(), 500);
}

#[test]
fn store_details_stay_out_of_client_messages() {
    let e = AppError::DatabaseError("relation works does not exist".to_string());
    assert_eq!(e.client_message(), "Ошибка базы данных");
    assert_eq!(
        e.description(),
        "Ошибка базы данных: relation works does not exist"
    );
    assert_eq!(
        AppError::ValidationError("плохо".to_string()).client_message(),
        "плохо"
    );
    assert_eq!(AppError::NotFound.description(), "Не найдено");
    assert_eq!(
        AppError::Internal("boom".to_string()).client_message(),
        "Внутренняя ошибка сервера"
    );
}

#[test]
fn three_records_scenario() {
    // Records with specialties "Информационные системы", "Экономика", "Право"
    // and years 2021, 2022, 2023, created in that order.
    let mut by_year = query();
    by_year.year = Some(2022);
    let s = by_year.to_statement().unwrap();
    assert_eq!(
        s.params,
        vec![SqlParam::Int(2022), SqlParam::Int(20), SqlParam::Int(0)]
    );
    let c = by_year.to_criteria().unwrap();
    let page = SearchResponse::from_page(vec![work("Экономика", 2022, 2)], &c);
    assert_eq!(page.total, 1);
    assert_eq!(page.works[0].specialty, "Экономика");

    let mut second = query();
    second.page = Some(2);
    second.limit = Some(1);
    let s = second.to_statement().unwrap();
    assert!(s
        .sql
        .ends_with(" WHERE 1=1 ORDER BY created_at DESC, id DESC LIMIT $1 OFFSET $2"));
    assert_eq!(s.params, vec![SqlParam::Int(1), SqlParam::Int(1)]);

    let s = work_archive::query::select_specialties();
    assert!(s.sql.ends_with("ORDER BY specialty"));
}

#[test]
fn overlong_text_fields_are_rejected() {
    let mut d = dto();
    d.title = "я".repeat(500);
    assert_eq!(d.validate(), Ok(()));
    d.title = "я".repeat(501);
    assert_eq!(
        d.validate(),
        Err(AppError::ValidationError(
            "Название работы не может быть длиннее 500 символов".to_string()
        ))
    );
    let mut d = dto();
    d.specialty = "a".repeat(201);
    assert_eq!(
        d.validate(),
        Err(AppError::ValidationError(
            "Специальность не может быть длиннее 200 символов".to_string()
        ))
    );
    let mut d = dto();
    d.author_name = "b".repeat(301);
    assert_eq!(
        d.validate(),
        Err(AppError::ValidationError(
            "Имя автора не может быть длиннее 300 символов".to_string()
        ))
    );
    let mut d = dto();
    d.supervisor_name = "c".repeat(301);
    assert!(matches!(prepare_create(&d), Err(AppError::ValidationError(_))));
    d.supervisor_name = "c".repeat(300);
    assert!(prepare_create(&d).is_ok());
}

#[test]
fn update_checks_supplied_fields_only() {
    assert!(prepare_update(3, &WorkUpdateDto::default()).is_ok());
    let d = WorkUpdateDto {
        year: Some(1899),
        ..WorkUpdateDto::default()
    };
    assert_eq!(
        prepare_update(3, &d),
        Err(AppError::ValidationError(
            "Год должен быть в диапазоне 1900-2100".to_string()
        ))
    );
    let d = WorkUpdateDto {
        title: Some("  ".to_string()),
        year: Some(2000),
        ..WorkUpdateDto::default()
    };
    assert_eq!(
        prepare_update(3, &d),
        Err(AppError::ValidationError(
            "Название работы не может быть пустым".to_string()
        ))
    );
    let d = WorkUpdateDto {
        year: Some(2100),
        ..WorkUpdateDto::default()
    };
    let s = prepare_update(3, &d).unwrap();
    assert_eq!(s.params[5], SqlParam::MaybeInt(Some(2100)));
    assert_eq!(s.params[9], SqlParam::Id(3));
}

#[test]
fn criteria_paging_is_checked() {
    let mut c = SearchCriteria {
        query: None,
        specialty: None,
        work_type: None,
        year: None,
        page: 0,
        limit: 20,
    };
    assert_eq!(
        c.validate(),
        Err(AppError::ValidationError(
            "Номер страницы должен быть не меньше 1".to_string()
        ))
    );
    c.page = 1;
    assert_eq!(c.validate(), Ok(()));
    c.limit = 101;
    assert_eq!(
        c.validate(),
        Err(AppError::ValidationError(
            "Размер страницы должен быть от 1 до 100".to_string()
        ))
    );
}

#[test]
fn blank_query_parameter_is_a_client_error() {
    let mut q = query();
    q.query = Some("   ".to_string());
    assert_eq!(
        q.to_criteria().unwrap_err(),
        AppError::ValidationError("Поисковый запрос не может быть пустым".to_string())
    );
    q.query = Some("web".to_string());
    assert!(q.to_criteria().is_ok());
}
