use work_archive::query::{
    build_count, build_search, delete_by_id, insert_work, select_by_id, select_specialties, to_like_pattern,
    to_ts_query, update_work, SearchCriteria, SqlParam, SEARCH_HEAD,
};
use work_archive::error::AppError;
use work_archive::work::{WorkCreateDto, WorkType, WorkUpdateDto};

fn criteria() -> SearchCriteria {
    SearchCriteria {
        query: None,
        specialty: None,
        work_type: None,
        year: None,
        page: 1,
        limit: 20,
    }
}

#[test]
fn ts_query_joins_words_with_and() {
    assert_eq!(to_ts_query("web design"), "'web' & 'design'");
}

#[test]
fn ts_query_collapses_runs_of_white_space() {
    assert_eq!(to_ts_query("  веб \t  дизайн  "), "'веб' & 'дизайн'");
}

#[test]
fn ts_query_single_word() {
    assert_eq!(to_ts_query("архив"), "'архив'");
}

#[test]
fn ts_query_blank_is_empty() {
    assert_eq!(to_ts_query("   "), "");
    assert_eq!(to_ts_query(""), "");
}

#[test]
fn ts_query_escapes_quotes_and_backslashes() {
    assert_eq!(to_ts_query("it's a\\b"), "'it''s' & 'a\\\\b'");
}

#[test]
fn ts_query_of_injection_text_is_quoted() {
    assert_eq!(
        to_ts_query("'; DROP TABLE works; --"),
        "''';' & 'DROP' & 'TABLE' & 'works;' & '--'"
    );
}

#[test]
fn like_pattern_wraps_and_escapes() {
    assert_eq!(to_like_pattern("Право"), "%Право%");
    assert_eq!(to_like_pattern("50%_a\\"), "%50\\%\\_a\\\\%");
    assert_eq!(to_like_pattern(""), "%%");
}

#[test]
fn search_without_filters_orders_and_pages() {
    let s = build_search(&criteria());
    assert_eq!(
        s.sql,
        format!("{} ORDER BY created_at DESC, id DESC LIMIT $1 OFFSET $2", SEARCH_HEAD)
    );
    assert_eq!(s.params, vec![SqlParam::Int(20), SqlParam::Int(0)]);
}

#[test]
fn search_by_year_binds_the_year() {
    let mut c = criteria();
    c.year = Some(2022);
    let s = build_search(&c);
    assert_eq!(
        s.sql,
        format!(
            "{} AND year = $1 ORDER BY created_at DESC, id DESC LIMIT $2 OFFSET $3",
            SEARCH_HEAD
        )
    );
    assert_eq!(
        s.params,
        vec![SqlParam::Int(2022), SqlParam::Int(20), SqlParam::Int(0)]
    );
}

#[test]
fn second_page_of_one_skips_one_row() {
    let mut c = criteria();
    c.page = 2;
    c.limit = 1;
    let s = build_search(&c);
    assert_eq!(s.params, vec![SqlParam::Int(1), SqlParam::Int(1)]);
}

#[test]
fn offset_is_page_minus_one_times_limit() {
    let mut c = criteria();
    c.page = 7;
    c.limit = 100;
    let s = build_search(&c);
    assert_eq!(s.params, vec![SqlParam::Int(100), SqlParam::Int(600)]);
}

#[test]
fn search_with_every_filter_numbers_placeholders_in_order() {
    let c = SearchCriteria {
        query: Some("web design".to_string()),
        specialty: Some("Эконом".to_string()),
        work_type: Some(WorkType::Essay),
        year: Some(2021),
        page: 3,
        limit: 10,
    };
    let s = build_search(&c);
    assert_eq!(
        s.sql,
        format!(
            "{} AND search_vector @@ to_tsquery('russian', $1) AND specialty ILIKE $2 AND work_type = $3::work_type AND year = $4 ORDER BY created_at DESC, id DESC LIMIT $5 OFFSET $6",
            SEARCH_HEAD
        )
    );
    assert_eq!(
        s.params,
        vec![
            SqlParam::Text("'web' & 'design'".to_string()),
            SqlParam::Text("%Эконом%".to_string()),
            SqlParam::Text("essay".to_string()),
            SqlParam::Int(2021),
            SqlParam::Int(10),
            SqlParam::Int(20),
        ]
    );
}

#[test]
fn blank_free_text_is_refused() {
    let mut c = criteria();
    c.query = Some(" \t ".to_string());
    assert_eq!(
        c.validate(),
        Err(AppError::ValidationError(
            "Поисковый запрос не может быть пустым".to_string()
        ))
    );
    c.query = Some(" x ".to_string());
    assert_eq!(c.validate(), Ok(()));
}

#[test]
fn text_depends_only_on_which_filters_are_set() {
    let mut a = criteria();
    a.query = Some("x".to_string());
    let mut b = criteria();
    b.query = Some("совсем другой запрос".to_string());
    assert_eq!(build_search(&a).sql, build_search(&b).sql);
    assert_ne!(build_search(&a).sql, build_search(&criteria()).sql);
}

#[test]
fn injection_text_changes_only_the_bound_value() {
    let mut a = criteria();
    a.query = Some("'; DROP TABLE works; --".to_string());
    let mut b = criteria();
    b.query = Some("история".to_string());
    let sa = build_search(&a);
    let sb = build_search(&b);
    assert_eq!(sa.sql, sb.sql);
    assert!(!sa.sql.contains(';'));
    assert!(!sa.sql.contains("DROP"));
    assert_eq!(
        sa.params[0],
        SqlParam::Text("''';' & 'DROP' & 'TABLE' & 'works;' & '--'".to_string())
    );
}

#[test]
fn lookup_and_delete_bind_the_identifier() {
    let id: u128 = 0x123e4567_e89b_12d3_a456_426614174000;
    let s = select_by_id(id);
    assert!(s.sql.ends_with("FROM works WHERE id = $1"));
    assert_eq!(s.params, vec![SqlParam::Id(id)]);
    let d = delete_by_id(id);
    assert_eq!(d.sql, "DELETE FROM works WHERE id = $1");
    assert_eq!(d.params, vec![SqlParam::Id(id)]);
}

#[test]
fn specialties_are_distinct_and_ordered() {
    let s = select_specialties();
    assert_eq!(s.sql, "SELECT DISTINCT specialty FROM works ORDER BY specialty");
    assert!(s.params.is_empty());
}

#[test]
fn insert_binds_every_field_in_order() {
    let d = WorkCreateDto {
        title: "Т".to_string(),
        work_type: WorkType::Project,
        specialty: "Право".to_string(),
        author_name: "А".to_string(),
        supervisor_name: "Р".to_string(),
        year: 2023,
        annotation: None,
        keywords: Some("к".to_string()),
        file_path: "/f.pdf".to_string(),
        thumbnail_path: None,
    };
    let s = insert_work(&d);
    assert!(s.sql.starts_with("INSERT INTO works"));
    assert_eq!(
        s.params,
        vec![
            SqlParam::Text("Т".to_string()),
            SqlParam::Text("project".to_string()),
            SqlParam::Text("Право".to_string()),
            SqlParam::Text("А".to_string()),
            SqlParam::Text("Р".to_string()),
            SqlParam::Int(2023),
            SqlParam::MaybeText(None),
            SqlParam::MaybeText(Some("к".to_string())),
            SqlParam::Text("/f.pdf".to_string()),
            SqlParam::MaybeText(None),
        ]
    );
}

#[test]
fn empty_update_binds_only_nulls_and_the_identifier() {
    let s = update_work(5, &WorkUpdateDto::default());
    assert!(s.sql.contains("updated_at = NOW()"));
    assert_eq!(s.params.len(), 10);
    for p in &s.params[..9] {
        assert!(matches!(p, SqlParam::MaybeText(None) | SqlParam::MaybeInt(None)));
    }
    assert_eq!(s.params[9], SqlParam::Id(5));
}

#[test]
fn update_binds_supplied_fields() {
    let d = WorkUpdateDto {
        title: Some("Новое".to_string()),
        work_type: Some(WorkType::Speech),
        year: Some(2020),
        ..WorkUpdateDto::default()
    };
    let s = update_work(9, &d);
    assert_eq!(s.params[0], SqlParam::MaybeText(Some("Новое".to_string())));
    assert_eq!(s.params[1], SqlParam::MaybeText(Some("speech".to_string())));
    assert_eq!(s.params[2], SqlParam::MaybeText(None));
    assert_eq!(s.params[5], SqlParam::MaybeInt(Some(2020)));
}

#[test]
fn count_uses_the_same_filters_without_paging() {
    let mut c = criteria();
    c.specialty = Some("Право".to_string());
    c.year = Some(2023);
    c.page = 5;
    let s = build_count(&c);
    assert_eq!(
        s.sql,
        "SELECT COUNT(*) FROM works WHERE 1=1 AND specialty ILIKE $1 AND year = $2"
    );
    assert_eq!(
        s.params,
        vec![SqlParam::Text("%Право%".to_string()), SqlParam::Int(2023)]
    );
}

#[test]
fn count_without_filters_counts_everything() {
    let s = build_count(&criteria());
    assert_eq!(s.sql, "SELECT COUNT(*) FROM works WHERE 1=1");
    assert!(s.params.is_empty());
}
