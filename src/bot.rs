//! The chat bot: which command a message holds, and the text it answers with.

use vstd::prelude::*;
use crate::error::{AppError, client_text_of};
use crate::ids::{parse_uuid, uuid_parse_of, uuid_text, uuid_text_of};
use crate::text::{
    append_str, has_prefix, is_space, lemma_trimmed_starts_with_word, owned, push_signed_decimal, same_text, signed_decimal, starts_with,
    strip_prefixes, strip_prefixes_str, trim, trim_str,
};
use crate::work::{Work, WorkType};
use crate::query::{SearchCriteria, has_word};
use vstd::string::*;

verus! {

pub const START_MESSAGE: &'static str = r#"👋 Добро пожаловать в Цифровой архив ГПОУ ЮТК им. Павлючкова Г.А.!

📚 Здесь вы можете найти конкурсные работы и статьи обучающихся и преподавателей колледжа.

🔎 Доступные команды:
/search <запрос> — поиск работ
/work <ID> — просмотр работы по ID
/help — справка

💡 Нажмите кнопку «Открыть» ниже для удобного поиска в мини-приложении!"#;

pub const HELP_MESSAGE: &'static str = r#"📖 Справка по командам:

/start — приветствие и основное меню
/search <запрос> — поиск по названию, автору, ключевым словам
/work <ID> — просмотр работы по уникальному идентификатору
/help — эта справка

💡 Совет: для удобного поиска и просмотра работ нажмите кнопку «Открыть» ниже — откроется мини-приложение с полным функционалом."#;

pub const SEARCH_USAGE: &'static str = "🔍 Укажите критерии поиска.\nПример: /search веб-разработка";

pub const WORK_USAGE: &'static str = "📄 Укажите ID работы.\nПример: /work 123e4567-e89b-12d3-a456-426614174000";

pub const BAD_ID_REPLY: &'static str = "❌ Неверный формат ID. Ожидается UUID.\nПример: /work 123e4567-e89b-12d3-a456-426614174000";

pub const UNKNOWN_REPLY: &'static str = "❌ Неизвестная команда. Введите /help для справки.";

pub const NOT_FOUND_HEAD: &'static str = "❌ Работа с ID ";

pub const NOT_FOUND_TAIL: &'static str = " не найдена.";

pub const LOOKUP_FAILED_HEAD: &'static str = "❌ Ошибка при получении работы: ";

/// The commands the bot understands.
#[derive(Debug, Clone, Copy, PartialEq, Eq, Structural)]
pub enum BotCommand {
    Start,
    Help,
    Search,
    Work,
    Unknown,
}

/// The command a message holds: a slash command at its start, or one of the
/// two greeting words alone. The first rule that applies decides.
pub open spec fn command_of(t: Seq<char>) -> BotCommand {
    if has_prefix(t, "/start"@) || t == "привет"@ {
        BotCommand::Start
    } else if has_prefix(t, "/help"@) || t == "помощь"@ {
        BotCommand::Help
    } else if has_prefix(t, "/search"@) || has_prefix(t, "/поиск"@) {
        BotCommand::Search
    } else if has_prefix(t, "/work"@) || has_prefix(t, "/работа"@) {
        BotCommand::Work
    } else {
        BotCommand::Unknown
    }
}

impl BotCommand {
    /// The command that message `text` holds.
    pub fn parse(text: &str) -> (r: BotCommand)
        ensures
            r == command_of(text@),
    {
        if starts_with(text, "/start") || same_text(text, "привет") {
            BotCommand::Start
        } else if starts_with(text, "/help") || same_text(text, "помощь") {
            BotCommand::Help
        } else if starts_with(text, "/search") || starts_with(text, "/поиск") {
            BotCommand::Search
        } else if starts_with(text, "/work") || starts_with(text, "/работа") {
            BotCommand::Work
        } else {
            BotCommand::Unknown
        }
    }
}

/// The greeting.
pub fn handle_start() -> (r: String)
    ensures
        r@ == START_MESSAGE@,
{
    owned(START_MESSAGE)
}

/// The list of commands.
pub fn handle_help() -> (r: String)
    ensures
        r@ == HELP_MESSAGE@,
{
    owned(HELP_MESSAGE)
}

/// The reply to an unknown command.
pub fn unknown_command_reply() -> (r: String)
    ensures
        r@ == UNKNOWN_REPLY@,
{
    owned(UNKNOWN_REPLY)
}

/// What follows the command word of a search message, without surrounding
/// white space.
pub open spec fn search_argument(t: Seq<char>) -> Seq<char> {
    trim(strip_prefixes(strip_prefixes(t, "/search"@), "/поиск"@))
}

/// The page size of a chat search.
pub const CHAT_PAGE_SIZE: u32 = 10;

/// `c` is the search a chat query `q` asks for: the free text alone, first
/// page of `CHAT_PAGE_SIZE` records.
pub open spec fn chat_search(c: SearchCriteria, q: Seq<char>) -> bool {
    &&& c.query matches Some(s) && s@ == q
    &&& c.specialty is None
    &&& c.work_type is None
    &&& c.year is None
    &&& c.page == 1
    &&& c.limit == CHAT_PAGE_SIZE
}

/// What the bot does with search message `t`: the usage where no query
/// follows the command, else the core search for that query.
pub open spec fn search_action(t: Seq<char>, a: BotAction) -> bool {
    if search_argument(t).len() == 0 {
        a matches BotAction::Reply(s) && s@ == SEARCH_USAGE@
    } else {
        a matches BotAction::Search(c) && chat_search(c, search_argument(t)) && c.valid()
    }
}

/// Reads a search message: the usage where no query follows the command,
/// else the search to run.
pub fn handle_search(text: &str) -> (r: BotAction)
    ensures
        search_action(text@, r),
{
    let query = trim_str(strip_prefixes_str(strip_prefixes_str(text, "/search"), "/поиск"));
    if query.unicode_len() == 0 {
        return BotAction::Reply(owned(SEARCH_USAGE));
    }
    proof {
        lemma_trimmed_starts_with_word(strip_prefixes(strip_prefixes(text@, "/search"@), "/поиск"@));
        assert(query@ == search_argument(text@));
        assert(!is_space(query@[0]));
        assert(has_word(query@));
    }
    let c = SearchCriteria {
        query: Some(owned(query)),
        specialty: None,
        work_type: None,
        year: None,
        page: 1,
        limit: CHAT_PAGE_SIZE,
    };
    assert(chat_search(c, search_argument(text@)));
    assert(c.valid());
    BotAction::Search(
        SearchCriteria {
            query: Some(owned(query)),
            specialty: None,
            work_type: None,
            year: None,
            page: 1,
            limit: CHAT_PAGE_SIZE,
        },
    )
}

pub const RESULTS_HEAD: &'static str = "🔍 Результаты по запросу \"";

pub const RESULTS_HEAD_END: &'static str = "\":\n\n";

pub const NO_RESULTS_HEAD: &'static str = "🔍 По запросу \"";

pub const NO_RESULTS_TAIL: &'static str = "\" ничего не найдено.";

pub const SEARCH_FAILED_HEAD: &'static str = "❌ Ошибка при поиске работ: ";

pub const LINE_KIND: &'static str = "</b>\n";

pub const LINE_YEAR: &'static str = ", ";

pub const LINE_OPEN: &'static str = "\n/work ";

/// One found work in a chat search reply: title, kind, year, and the command
/// that opens it.
pub open spec fn result_line(w: Work) -> Seq<char> {
    CARD_TITLE@ + w.title@ + LINE_KIND@ + w.work_type.display_name() + LINE_YEAR@
        + signed_decimal(w.year as int) + LINE_OPEN@ + uuid_text_of(w.id) + "\n\n"@
}

/// The lines of every work of `ws`, in order.
pub open spec fn result_lines(ws: Seq<Work>) -> Seq<char>
    decreases ws.len(),
{
    if ws.len() == 0 {
        seq![]
    } else {
        result_lines(ws.drop_last()) + result_line(ws.last())
    }
}

/// The reply to chat query `q` from the outcome of its search.
pub open spec fn search_results_text(q: Seq<char>, outcome: Result<Vec<Work>, AppError>) -> Seq<
    char,
> {
    match outcome {
        Ok(ws) => if ws@.len() == 0 {
            NO_RESULTS_HEAD@ + q + NO_RESULTS_TAIL@
        } else {
            RESULTS_HEAD@ + q + RESULTS_HEAD_END@ + result_lines(ws@)
        },
        Err(e) => SEARCH_FAILED_HEAD@ + client_text_of(e),
    }
}

fn push_result_line(out: &mut String, w: &Work)
    ensures
        final(out)@ == old(out)@ + result_line(*w),
{
    append_str(out, CARD_TITLE);
    append_str(out, w.title.as_str());
    append_str(out, LINE_KIND);
    append_str(out, w.work_type.as_str());
    append_str(out, LINE_YEAR);
    push_signed_decimal(out, w.year as i64);
    append_str(out, LINE_OPEN);
    let t = uuid_text(w.id);
    append_str(out, t.as_str());
    append_str(out, "\n\n");
    assert(final(out)@ =~= old(out)@ + result_line(*w));
}

/// Answers chat query `query` from the outcome of its search: the found
/// works in order, a "nothing found" notice, or the failure as a client sees
/// it, without the store's own detail.
pub fn search_results_reply(query: &str, outcome: &Result<Vec<Work>, AppError>) -> (r: String)
    ensures
        r@ == search_results_text(query@, *outcome),
{
    match outcome {
        Ok(ws) => {
            if ws.len() == 0 {
                let mut r = owned(NO_RESULTS_HEAD);
                append_str(&mut r, query);
                append_str(&mut r, NO_RESULTS_TAIL);
                return r;
            }
            let mut r = owned(RESULTS_HEAD);
            append_str(&mut r, query);
            append_str(&mut r, RESULTS_HEAD_END);
            let ghost head = r@;
            let mut i: usize = 0;
            assert(ws@.subrange(0, 0) =~= Seq::<Work>::empty());
            assert(r@ =~= head + result_lines(ws@.subrange(0, 0)));
            while i < ws.len()
                invariant
                    i <= ws@.len(),
                    r@ == head + result_lines(ws@.subrange(0, i as int)),
                decreases ws@.len() - i,
            {
                push_result_line(&mut r, &ws[i]);
                assert(ws@.subrange(0, i + 1).drop_last() =~= ws@.subrange(0, i as int));
                assert(r@ =~= head + result_lines(ws@.subrange(0, i + 1)));
                i = i + 1;
            }
            assert(ws@.subrange(0, ws@.len() as int) =~= ws@);
            r
        },
        Err(e) => {
            let mut r = owned(SEARCH_FAILED_HEAD);
            let d = e.client_message();
            append_str(&mut r, d.as_str());
            r
        },
    }
}

/// The name of a kind as the bot writes it: the kind's one display name.
pub fn format_work_type(work_type: &WorkType) -> (r: &'static str)
    ensures
        r@ == work_type.display_name(),
{
    work_type.as_str()
}

/// What a work message asks for.
#[derive(Debug, Clone, Copy, PartialEq, Eq, Structural)]
pub enum WorkLookup {
    /// No identifier follows the command.
    MissingId,
    /// What follows is no UUID.
    InvalidId,
    /// The work with this identifier.
    Id(u128),
}

/// What follows the command word of a work message, without surrounding
/// white space.
pub open spec fn work_argument(t: Seq<char>) -> Seq<char> {
    trim(strip_prefixes(strip_prefixes(t, "/work"@), "/работа"@))
}

/// The request that a non-empty identifier text stands for, given what the
/// UUID parser read from it.
pub open spec fn lookup_of(parsed: Option<u128>) -> WorkLookup {
    match parsed {
        Some(v) => WorkLookup::Id(v),
        None => WorkLookup::InvalidId,
    }
}

/// The request that a non-empty identifier text stands for, given what the
/// UUID parser read from it.
pub fn lookup_from_parsed(parsed: Option<u128>) -> (r: WorkLookup)
    ensures
        r == lookup_of(parsed),
{
    match parsed {
        Some(v) => WorkLookup::Id(v),
        None => WorkLookup::InvalidId,
    }
}

/// Reads the identifier of a work message.
pub fn parse_work_command(text: &str) -> (r: WorkLookup)
    ensures
        r == (if work_argument(text@).len() == 0 {
            WorkLookup::MissingId
        } else {
            lookup_of(uuid_parse_of(work_argument(text@)))
        }),
        ({
            let n = work_argument(text@).len();
            n > 0 && !(n == 32 || n == 36 || n == 38 || n == 45) ==> r == WorkLookup::InvalidId
        }),
{
    let arg = trim_str(strip_prefixes_str(strip_prefixes_str(text, "/work"), "/работа"));
    if arg.unicode_len() == 0 {
        return WorkLookup::MissingId;
    }
    lookup_from_parsed(parse_uuid(arg))
}

/// The section for an optional field: `head`, the value and a blank line,
/// or nothing where the field is empty.
pub open spec fn optional_part(head: Seq<char>, v: Option<String>) -> Seq<char> {
    match v {
        Some(s) => head + s@ + "\n\n"@,
        None => seq![],
    }
}

pub const CARD_TITLE: &'static str = "📄 <b>";

pub const CARD_TYPE: &'static str = "</b>\n\n📌 <b>Тип:</b> ";

pub const CARD_SPECIALTY: &'static str = "\n🎓 <b>Специальность:</b> ";

pub const CARD_AUTHOR: &'static str = "\n👨‍🎓 <b>Автор:</b> ";

pub const CARD_SUPERVISOR: &'static str = "\n👨‍🏫 <b>Руководитель:</b> ";

pub const CARD_YEAR: &'static str = "\n📅 <b>Год:</b> ";

pub const CARD_ANNOTATION: &'static str = "📝 <b>Аннотация:</b>\n";

pub const CARD_KEYWORDS: &'static str = "🔑 <b>Ключевые слова:</b> ";

pub const CARD_FILE: &'static str = "🔗 <b>Скачать:</b> ";

/// The bot's description of a work, in the messenger's HTML markup.
pub open spec fn work_card(w: Work) -> Seq<char> {
    CARD_TITLE@ + w.title@ + CARD_TYPE@ + w.work_type.display_name() + CARD_SPECIALTY@
        + w.specialty@ + CARD_AUTHOR@ + w.author_name@ + CARD_SUPERVISOR@ + w.supervisor_name@
        + CARD_YEAR@ + signed_decimal(w.year as int) + "\n\n"@ + optional_part(
        CARD_ANNOTATION@,
        w.annotation,
    ) + optional_part(CARD_KEYWORDS@, w.keywords) + CARD_FILE@ + w.file_path@
}

fn push_optional(out: &mut String, head: &str, v: &Option<String>)
    ensures
        final(out)@ == old(out)@ + optional_part(head@, *v),
{
    match v {
        Some(s) => {
            append_str(out, head);
            append_str(out, s.as_str());
            append_str(out, "\n\n");
            assert(final(out)@ =~= old(out)@ + optional_part(head@, *v));
        },
        None => {
            assert(final(out)@ =~= old(out)@ + optional_part(head@, *v));
        },
    }
}

/// The bot's description of a work.
pub fn format_work_card(w: &Work) -> (r: String)
    ensures
        r@ == work_card(*w),
{
    let mut r = owned(CARD_TITLE);
    append_str(&mut r, w.title.as_str());
    append_str(&mut r, CARD_TYPE);
    append_str(&mut r, format_work_type(&w.work_type));
    append_str(&mut r, CARD_SPECIALTY);
    append_str(&mut r, w.specialty.as_str());
    append_str(&mut r, CARD_AUTHOR);
    append_str(&mut r, w.author_name.as_str());
    append_str(&mut r, CARD_SUPERVISOR);
    append_str(&mut r, w.supervisor_name.as_str());
    append_str(&mut r, CARD_YEAR);
    push_signed_decimal(&mut r, w.year as i64);
    append_str(&mut r, "\n\n");
    push_optional(&mut r, CARD_ANNOTATION, &w.annotation);
    push_optional(&mut r, CARD_KEYWORDS, &w.keywords);
    append_str(&mut r, CARD_FILE);
    append_str(&mut r, w.file_path.as_str());
    assert(r@ =~= work_card(*w));
    r
}

/// The reply to a lookup of work `id`, from the store's outcome.
pub open spec fn lookup_reply_text(id: u128, outcome: Result<Option<Work>, AppError>) -> Seq<char> {
    match outcome {
        Ok(Some(w)) => work_card(w),
        Ok(None) => NOT_FOUND_HEAD@ + uuid_text_of(id) + NOT_FOUND_TAIL@,
        Err(e) => LOOKUP_FAILED_HEAD@ + client_text_of(e),
    }
}

/// Answers a lookup of work `id` from the store's outcome: the work's
/// description, a "not found" notice, or the failure as a client sees it,
/// without the store's own detail.
pub fn lookup_reply(id: u128, outcome: &Result<Option<Work>, AppError>) -> (r: String)
    ensures
        r@ == lookup_reply_text(id, *outcome),
{
    match outcome {
        Ok(Some(w)) => format_work_card(w),
        Ok(None) => {
            let mut r = owned(NOT_FOUND_HEAD);
            let t = uuid_text(id);
            append_str(&mut r, t.as_str());
            append_str(&mut r, NOT_FOUND_TAIL);
            r
        },
        Err(e) => {
            let mut r = owned(LOOKUP_FAILED_HEAD);
            let d = e.client_message();
            append_str(&mut r, d.as_str());
            r
        },
    }
}

/// What the bot does with a message: answer at once, or first ask the store.
#[derive(Debug, Clone, PartialEq, Eq)]
pub enum BotAction {
    /// Send this text.
    Reply(String),
    /// Look up the work with this identifier, then answer with `lookup_reply`.
    Lookup(u128),
    /// Run this search, then answer with `search_results_reply`.
    Search(SearchCriteria),
}

/// The action for message `t`.
pub open spec fn action_matches(t: Seq<char>, a: BotAction) -> bool {
    match command_of(t) {
        BotCommand::Start => a matches BotAction::Reply(s) && s@ == START_MESSAGE@,
        BotCommand::Help => a matches BotAction::Reply(s) && s@ == HELP_MESSAGE@,
        BotCommand::Search => search_action(t, a),
        BotCommand::Work => if work_argument(t).len() == 0 {
            a matches BotAction::Reply(s) && s@ == WORK_USAGE@
        } else {
            match uuid_parse_of(work_argument(t)) {
                Some(id) => a == BotAction::Lookup(id),
                None => a matches BotAction::Reply(s) && s@ == BAD_ID_REPLY@,
            }
        },
        BotCommand::Unknown => a matches BotAction::Reply(s) && s@ == UNKNOWN_REPLY@,
    }
}

/// Decides what to do with message `text`.
pub fn respond(text: &str) -> (r: BotAction)
    ensures
        action_matches(text@, r),
{
    match BotCommand::parse(text) {
        BotCommand::Start => BotAction::Reply(handle_start()),
        BotCommand::Help => BotAction::Reply(handle_help()),
        BotCommand::Search => handle_search(text),
        BotCommand::Work => match parse_work_command(text) {
            WorkLookup::MissingId => BotAction::Reply(owned(WORK_USAGE)),
            WorkLookup::InvalidId => BotAction::Reply(owned(BAD_ID_REPLY)),
            WorkLookup::Id(id) => BotAction::Lookup(id),
        },
        BotCommand::Unknown => BotAction::Reply(unknown_command_reply()),
    }
}

} // verus!
