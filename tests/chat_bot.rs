use work_archive::bot::{
    format_work_card, format_work_type, handle_help, handle_search, handle_start, lookup_reply,
    parse_work_command, respond, search_results_reply, unknown_command_reply, BotAction,
    BotCommand, WorkLookup,
};
use work_archive::query::SearchCriteria;
use work_archive::error::AppError;
use work_archive::max::{message_url, SendMessageRequest, MAX_API_BASE};
use work_archive::text::{starts_with, strip_prefixes_str, trim_str};
use work_archive::work::{Work, WorkType};

const ID: u128 = 0x123e4567_e89b_12d3_a456_426614174000;

fn work() -> Work {
    Work {
        id: ID,
        title: "Цифровой архив".to_string(),
        work_type: WorkType::Report,
        specialty: "Информационные системы".to_string(),
        author_name: "Иванов И.".to_string(),
        supervisor_name: "Петров П.".to_string(),
        year: 2023,
        annotation: Some("Кратко".to_string()),
        keywords: None,
        file_path: "/files/1.pdf".to_string(),
        thumbnail_path: None,
        created_at: 10,
        updated_at: 10,
    }
}

#[test]
fn start_and_help_texts() {
    assert!(handle_start().starts_with("👋 Добро пожаловать в Цифровой архив"));
    assert!(handle_start().contains("/work <ID> — просмотр работы по ID"));
    assert!(handle_help().starts_with("📖 Справка по командам:"));
    assert!(handle_help().ends_with("с полным функционалом."));
}

#[test]
fn commands_are_recognised() {
    assert_eq!(BotCommand::parse("/start"), BotCommand::Start);
    assert_eq!(BotCommand::parse("привет"), BotCommand::Start);
    assert_eq!(BotCommand::parse("привет!"), BotCommand::Unknown);
    assert_eq!(BotCommand::parse("/help me"), BotCommand::Help);
    assert_eq!(BotCommand::parse("помощь"), BotCommand::Help);
    assert_eq!(BotCommand::parse("/search x"), BotCommand::Search);
    assert_eq!(BotCommand::parse("/поиск x"), BotCommand::Search);
    assert_eq!(BotCommand::parse("/work 1"), BotCommand::Work);
    assert_eq!(BotCommand::parse("/работа 1"), BotCommand::Work);
    assert_eq!(BotCommand::parse("hello"), BotCommand::Unknown);
    assert_eq!(BotCommand::parse(""), BotCommand::Unknown);
}

#[test]
fn search_without_query_shows_usage() {
    let usage = BotAction::Reply(
        "🔍 Укажите критерии поиска.\nПример: /search веб-разработка".to_string(),
    );
    assert_eq!(handle_search("/search   "), usage);
    assert_eq!(handle_search("/поиск"), usage);
}

fn chat_criteria(q: &str) -> SearchCriteria {
    SearchCriteria {
        query: Some(q.to_string()),
        specialty: None,
        work_type: None,
        year: None,
        page: 1,
        limit: 10,
    }
}

#[test]
fn search_runs_the_core_search() {
    assert_eq!(
        handle_search("/поиск   веб дизайн  "),
        BotAction::Search(chat_criteria("веб дизайн"))
    );
    assert_eq!(
        handle_search("/search право"),
        BotAction::Search(chat_criteria("право"))
    );
    assert_eq!(respond("/search право"), BotAction::Search(chat_criteria("право")));
}

#[test]
fn search_results_list_each_work() {
    let mut second = work();
    second.title = "Второй".to_string();
    second.work_type = WorkType::Speech;
    second.year = 2021;
    second.id = 1;
    assert_eq!(
        search_results_reply("архив", &Ok(vec![work(), second])),
        "🔍 Результаты по запросу \"архив\":\n\n📄 <b>Цифровой архив</b>\nРеферат, 2023\n/work 123e4567-e89b-12d3-a456-426614174000\n\n📄 <b>Второй</b>\nДоклад, 2021\n/work 00000000-0000-0000-0000-000000000001\n\n"
    );
}

#[test]
fn search_results_empty_and_failed() {
    assert_eq!(
        search_results_reply("ничего", &Ok(Vec::new())),
        "🔍 По запросу \"ничего\" ничего не найдено."
    );
    assert_eq!(
        search_results_reply(
            "x",
            &Err(AppError::DatabaseError("connection refused on 10.0.0.1".to_string()))
        ),
        "❌ Ошибка при поиске работ: Ошибка базы данных"
    );
}

#[test]
fn chat_names_of_work_types() {
    assert_eq!(format_work_type(&WorkType::Report), "Реферат");
    assert_eq!(format_work_type(&WorkType::Speech), "Доклад");
    assert_eq!(format_work_type(&WorkType::Essay), "Эссе");
    for w in [WorkType::Article, WorkType::Competition, WorkType::Project, WorkType::Presentation, WorkType::Other] {
        assert_eq!(format_work_type(&w), w.as_str());
    }
}

#[test]
fn work_command_reads_the_identifier() {
    assert_eq!(
        parse_work_command("/work 123e4567-e89b-12d3-a456-426614174000"),
        WorkLookup::Id(ID)
    );
    assert_eq!(
        parse_work_command("/работа   123e4567-e89b-12d3-a456-426614174000 "),
        WorkLookup::Id(ID)
    );
    assert_eq!(parse_work_command("/work"), WorkLookup::MissingId);
    assert_eq!(parse_work_command("/work   "), WorkLookup::MissingId);
    assert_eq!(parse_work_command("/work 12345"), WorkLookup::InvalidId);
}

#[test]
fn work_card_lists_the_fields() {
    assert_eq!(
        format_work_card(&work()),
        "📄 <b>Цифровой архив</b>\n\n📌 <b>Тип:</b> Реферат\n🎓 <b>Специальность:</b> Информационные системы\n👨‍🎓 <b>Автор:</b> Иванов И.\n👨‍🏫 <b>Руководитель:</b> Петров П.\n📅 <b>Год:</b> 2023\n\n📝 <b>Аннотация:</b>\nКратко\n\n🔗 <b>Скачать:</b> /files/1.pdf"
    );
}

#[test]
fn work_card_with_keywords_and_no_annotation() {
    let mut w = work();
    w.annotation = None;
    w.keywords = Some("архив, поиск".to_string());
    let card = format_work_card(&w);
    assert!(card.contains("📅 <b>Год:</b> 2023\n\n🔑 <b>Ключевые слова:</b> архив, поиск\n\n🔗"));
    assert!(!card.contains("Аннотация"));
}

#[test]
fn lookup_replies() {
    assert_eq!(lookup_reply(ID, &Ok(Some(work()))), format_work_card(&work()));
    assert_eq!(
        lookup_reply(ID, &Ok(None)),
        "❌ Работа с ID 123e4567-e89b-12d3-a456-426614174000 не найдена."
    );
    assert_eq!(
        lookup_reply(ID, &Err(AppError::DatabaseError("timeout".to_string()))),
        "❌ Ошибка при получении работы: Ошибка базы данных"
    );
}

#[test]
fn respond_decides_per_command() {
    assert_eq!(respond("/start"), BotAction::Reply(handle_start()));
    assert_eq!(respond("помощь"), BotAction::Reply(handle_help()));
    assert_eq!(
        respond("/work 123e4567-e89b-12d3-a456-426614174000"),
        BotAction::Lookup(ID)
    );
    assert_eq!(
        respond("/work"),
        BotAction::Reply(
            "📄 Укажите ID работы.\nПример: /work 123e4567-e89b-12d3-a456-426614174000".to_string()
        )
    );
    assert_eq!(
        respond("/work abc"),
        BotAction::Reply(
            "❌ Неверный формат ID. Ожидается UUID.\nПример: /work 123e4567-e89b-12d3-a456-426614174000"
                .to_string()
        )
    );
    assert_eq!(respond("что это"), BotAction::Reply(unknown_command_reply()));
    assert_eq!(
        unknown_command_reply(),
        "❌ Неизвестная команда. Введите /help для справки."
    );
}

#[test]
fn message_url_carries_both_identifiers() {
    assert_eq!(
        message_url(MAX_API_BASE, 123, -45),
        "https://platform-api.max.ru/messages?chat_id=123&user_id=-45"
    );
    assert_eq!(
        message_url("http://h", i64::MIN, 0),
        "http://h/messages?chat_id=-9223372036854775808&user_id=0"
    );
}

#[test]
fn html_message_request() {
    let r = SendMessageRequest::html("<b>x</b>");
    assert_eq!(r.format, "html");
    assert_eq!(r.text, "<b>x</b>");
}

#[test]
fn text_helpers() {
    assert_eq!(trim_str("\u{a0} a b \t"), "a b");
    assert_eq!(trim_str("   "), "");
    assert_eq!(strip_prefixes_str("/search/search x", "/search"), " x");
    assert_eq!(strip_prefixes_str("abc", ""), "abc");
    assert!(starts_with("/поиск x", "/поиск"));
    assert!(!starts_with("/по", "/поиск"));
}
