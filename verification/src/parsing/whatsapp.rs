//! WhatsApp text-export rules: the line layouts of the known locales, their
//! timestamps, system notices and layout detection.

use vstd::prelude::*;

use crate::text::{all_ws, ascii_lowercase, digits_value, is_digit, is_ascii_text, chars_of, contains_seq, contains_str, push_str_chars, str_is_blank, string_of, to_lowercase, unicode_lowercase};
use crate::pattern::{LinePattern, regex_is_match, regex_valid};
use crate::timestamp::{
    Timestamp, chrono_naive_datetime, first_layout_timestamp, lemma_first_naive_parse_at, parse_first_layout,
    reading_instant,
};

verus! {

/// The line layouts of WhatsApp exports, which vary by locale and platform.
#[derive(Debug, Clone, Copy, PartialEq, Eq, Structural)]
pub enum DateFormat {
    /// US: `[1/15/24, 10:30:45 AM] Sender: Message`.
    US,
    /// European, dotted date in brackets: `[15.01.24, 10:30:45] Sender: Message`.
    EuDotBracketed,
    /// European, dotted date without brackets: `26.10.2025, 20:40 - Sender: Message`.
    EuDotNoBracket,
    /// European, slashed date without brackets: `15/01/2024, 10:30 - Sender: Message`.
    EuSlash,
    /// European, slashed date in brackets: `[15/01/2024, 10:30:45] Sender: Message`.
    EuSlashBracketed,
}

/// The regular expression of a layout's message lines. Groups: 1 date,
/// 2 time, 3 sender, 4 message text.
pub open spec fn pattern_text(f: DateFormat) -> Seq<char> {
    match f {
        DateFormat::US => r"^\[(\d{1,2}/\d{1,2}/\d{2,4}),\s(\d{1,2}:\d{2}(?::\d{2})?(?:\s?[APap][Mm])?)\]\s([^:]+):\s?(.*)"@,
        DateFormat::EuDotBracketed => r"^\[(\d{2}\.\d{2}\.\d{2,4}),\s(\d{2}:\d{2}(?::\d{2})?)\]\s([^:]+):\s?(.*)"@,
        DateFormat::EuDotNoBracket => r"^(\d{2}\.\d{2}\.\d{2,4}),\s(\d{2}:\d{2}(?::\d{2})?)\s-\s([^:]+):\s?(.*)"@,
        DateFormat::EuSlash => r"^(\d{2}/\d{2}/\d{2,4}),\s(\d{2}:\d{2}(?::\d{2})?)\s-\s([^:]+):\s?(.*)"@,
        DateFormat::EuSlashBracketed => r"^\[(\d{2}/\d{2}/\d{2,4}),\s(\d{2}:\d{2}(?::\d{2})?)\]\s([^:]+):\s?(.*)"@,
    }
}

/// The chrono layouts tried, in order, on `"<date>, <time>"`.
pub open spec fn parse_formats(f: DateFormat) -> Seq<Seq<char>> {
    match f {
        DateFormat::US => seq![
            "%m/%d/%y, %I:%M:%S %p"@,
            "%m/%d/%y, %I:%M %p"@,
            "%m/%d/%Y, %I:%M:%S %p"@,
            "%m/%d/%Y, %I:%M %p"@,
            "%m/%d/%y, %H:%M:%S"@,
            "%m/%d/%y, %H:%M"@,
            "%m/%d/%Y, %H:%M:%S"@,
            "%m/%d/%Y, %H:%M"@,
        ],
        DateFormat::EuDotBracketed | DateFormat::EuDotNoBracket => seq![
            "%d.%m.%y, %H:%M:%S"@,
            "%d.%m.%y, %H:%M"@,
            "%d.%m.%Y, %H:%M:%S"@,
            "%d.%m.%Y, %H:%M"@,
        ],
        DateFormat::EuSlash | DateFormat::EuSlashBracketed => seq![
            "%d/%m/%y, %H:%M:%S"@,
            "%d/%m/%y, %H:%M"@,
            "%d/%m/%Y, %H:%M:%S"@,
            "%d/%m/%Y, %H:%M"@,
        ],
    }
}

/// Every layout, in the order in which detection prefers them.
pub open spec fn all_formats() -> Seq<DateFormat> {
    seq![
        DateFormat::US,
        DateFormat::EuDotBracketed,
        DateFormat::EuDotNoBracket,
        DateFormat::EuSlash,
        DateFormat::EuSlashBracketed,
    ]
}

/// The position of a layout in [`all_formats`].
pub open spec fn format_index(f: DateFormat) -> int {
    match f {
        DateFormat::US => 0,
        DateFormat::EuDotBracketed => 1,
        DateFormat::EuDotNoBracket => 2,
        DateFormat::EuSlash => 3,
        DateFormat::EuSlashBracketed => 4,
    }
}

/// The character views of a sequence of string slices.
pub open spec fn str_views(s: Seq<&str>) -> Seq<Seq<char>> {
    s.map_values(|x: &str| x@)
}

impl DateFormat {
    /// The regular expression of this layout's message lines.
    pub fn pattern(self) -> (s: &'static str)
        ensures
            s@ == pattern_text(self),
    {
        match self {
            DateFormat::US => r"^\[(\d{1,2}/\d{1,2}/\d{2,4}),\s(\d{1,2}:\d{2}(?::\d{2})?(?:\s?[APap][Mm])?)\]\s([^:]+):\s?(.*)",
            DateFormat::EuDotBracketed => r"^\[(\d{2}\.\d{2}\.\d{2,4}),\s(\d{2}:\d{2}(?::\d{2})?)\]\s([^:]+):\s?(.*)",
            DateFormat::EuDotNoBracket => r"^(\d{2}\.\d{2}\.\d{2,4}),\s(\d{2}:\d{2}(?::\d{2})?)\s-\s([^:]+):\s?(.*)",
            DateFormat::EuSlash => r"^(\d{2}/\d{2}/\d{2,4}),\s(\d{2}:\d{2}(?::\d{2})?)\s-\s([^:]+):\s?(.*)",
            DateFormat::EuSlashBracketed => r"^\[(\d{2}/\d{2}/\d{2,4}),\s(\d{2}:\d{2}(?::\d{2})?)\]\s([^:]+):\s?(.*)",
        }
    }

    /// The chrono layouts for this export layout, in the order they are tried.
    pub fn date_parse_formats(self) -> (v: Vec<&'static str>)
        ensures
            str_views(v@) == parse_formats(self),
    {
        let v = match self {
            DateFormat::US => vec![
                "%m/%d/%y, %I:%M:%S %p",
                "%m/%d/%y, %I:%M %p",
                "%m/%d/%Y, %I:%M:%S %p",
                "%m/%d/%Y, %I:%M %p",
                "%m/%d/%y, %H:%M:%S",
                "%m/%d/%y, %H:%M",
                "%m/%d/%Y, %H:%M:%S",
                "%m/%d/%Y, %H:%M",
            ],
            DateFormat::EuDotBracketed | DateFormat::EuDotNoBracket => vec![
                "%d.%m.%y, %H:%M:%S",
                "%d.%m.%y, %H:%M",
                "%d.%m.%Y, %H:%M:%S",
                "%d.%m.%Y, %H:%M",
            ],
            DateFormat::EuSlash | DateFormat::EuSlashBracketed => vec![
                "%d/%m/%y, %H:%M:%S",
                "%d/%m/%y, %H:%M",
                "%d/%m/%Y, %H:%M:%S",
                "%d/%m/%Y, %H:%M",
            ],
        };
        assert(str_views(v@) =~= parse_formats(self));
        v
    }

    /// Every layout, in detection order.
    pub fn all() -> (v: Vec<DateFormat>)
        ensures
            v@ == all_formats(),
    {
        let v = vec![
            DateFormat::US,
            DateFormat::EuDotBracketed,
            DateFormat::EuDotNoBracket,
            DateFormat::EuSlash,
            DateFormat::EuSlashBracketed,
        ];
        assert(v@ =~= all_formats());
        v
    }
}

/// The timestamp of a message line: `"<date>, <time>"` read as UTC under the
/// first of the layout's chrono layouts that accepts it.
pub open spec fn whatsapp_timestamp(date: Seq<char>, time: Seq<char>, f: DateFormat) -> Option<Timestamp> {
    first_layout_timestamp(date + ", "@ + time, parse_formats(f))
}

/// A US date with a two-digit year is read as a two-digit year (`24` is
/// 2024), never as the year 24: whenever chrono reads the line's date and
/// time with a two-digit-year layout (`%y`), that reading is the timestamp,
/// before any four-digit-year layout (`%Y`) of the same clock is tried. The
/// 12-hour layouts come first, seconds before none; the 24-hour ones count
/// when no 12-hour layout reads the text.
pub proof fn lemma_us_two_digit_year(date: Seq<char>, time: Seq<char>)
    ensures
        ({
            let s = date + ", "@ + time;
            let y12s = chrono_naive_datetime(s, "%m/%d/%y, %I:%M:%S %p"@);
            let y12 = chrono_naive_datetime(s, "%m/%d/%y, %I:%M %p"@);
            let no12 = y12s is None && y12 is None && chrono_naive_datetime(s, "%m/%d/%Y, %I:%M:%S %p"@) is None
                && chrono_naive_datetime(s, "%m/%d/%Y, %I:%M %p"@) is None;
            let y24s = chrono_naive_datetime(s, "%m/%d/%y, %H:%M:%S"@);
            let y24 = chrono_naive_datetime(s, "%m/%d/%y, %H:%M"@);
            &&& y12s is Some ==> whatsapp_timestamp(date, time, DateFormat::US) == reading_instant(y12s)
            &&& y12s is None && y12 is Some ==> whatsapp_timestamp(date, time, DateFormat::US) == reading_instant(y12)
            &&& no12 && y24s is Some ==> whatsapp_timestamp(date, time, DateFormat::US) == reading_instant(y24s)
            &&& no12 && y24s is None && y24 is Some ==> whatsapp_timestamp(date, time, DateFormat::US)
                == reading_instant(y24)
        }),
{
    let s = date + ", "@ + time;
    let fmts = parse_formats(DateFormat::US);
    if chrono_naive_datetime(s, fmts[0]) is Some {
        lemma_first_naive_parse_at(s, fmts, 0);
    }
    if chrono_naive_datetime(s, fmts[0]) is None && chrono_naive_datetime(s, fmts[1]) is Some {
        lemma_first_naive_parse_at(s, fmts, 1);
    }
    if chrono_naive_datetime(s, fmts[0]) is None && chrono_naive_datetime(s, fmts[1]) is None
        && chrono_naive_datetime(s, fmts[2]) is None && chrono_naive_datetime(s, fmts[3]) is None {
        if chrono_naive_datetime(s, fmts[4]) is Some {
            lemma_first_naive_parse_at(s, fmts, 4);
        }
        if chrono_naive_datetime(s, fmts[4]) is None && chrono_naive_datetime(s, fmts[5]) is Some {
            lemma_first_naive_parse_at(s, fmts, 5);
        }
    }
}

/// A European date with a two-digit year is read as a two-digit year: in
/// every European layout, whenever chrono reads the line's date and time
/// with a two-digit-year layout (`%y`), that reading is the timestamp,
/// before any four-digit-year layout (`%Y`) is tried; seconds are tried
/// first.
pub proof fn lemma_eu_two_digit_year(date: Seq<char>, time: Seq<char>, f: DateFormat)
    requires
        f != DateFormat::US,
    ensures
        ({
            let s = date + ", "@ + time;
            let sep = if f == DateFormat::EuDotBracketed || f == DateFormat::EuDotNoBracket { "."@ } else { "/"@ };
            let ys = chrono_naive_datetime(s, "%d"@ + sep + "%m"@ + sep + "%y, %H:%M:%S"@);
            let y = chrono_naive_datetime(s, "%d"@ + sep + "%m"@ + sep + "%y, %H:%M"@);
            &&& ys is Some ==> whatsapp_timestamp(date, time, f) == reading_instant(ys)
            &&& ys is None && y is Some ==> whatsapp_timestamp(date, time, f) == reading_instant(y)
        }),
{
    let s = date + ", "@ + time;
    let fmts = parse_formats(f);
    let sep = if f == DateFormat::EuDotBracketed || f == DateFormat::EuDotNoBracket { "."@ } else { "/"@ };
    reveal_strlit("%d");
    reveal_strlit("%m");
    reveal_strlit(".");
    reveal_strlit("/");
    reveal_strlit("%y, %H:%M:%S");
    reveal_strlit("%y, %H:%M");
    reveal_strlit("%d.%m.%y, %H:%M:%S");
    reveal_strlit("%d.%m.%y, %H:%M");
    reveal_strlit("%d/%m/%y, %H:%M:%S");
    reveal_strlit("%d/%m/%y, %H:%M");
    assert(fmts[0] =~= "%d"@ + sep + "%m"@ + sep + "%y, %H:%M:%S"@);
    assert(fmts[1] =~= "%d"@ + sep + "%m"@ + sep + "%y, %H:%M"@);
    if chrono_naive_datetime(s, fmts[0]) is Some {
        lemma_first_naive_parse_at(s, fmts, 0);
    }
    if chrono_naive_datetime(s, fmts[0]) is None && chrono_naive_datetime(s, fmts[1]) is Some {
        lemma_first_naive_parse_at(s, fmts, 1);
    }
}

/// Parses the date and time of a message line under the given layout;
/// `None` when no chrono layout of it accepts them.
pub fn parse_whatsapp_timestamp(date_str: &str, time_str: &str, format: DateFormat) -> (r: Option<Timestamp>)
    ensures
        r == whatsapp_timestamp(date_str@, time_str@, format),
{
    let mut buf: Vec<char> = Vec::new();
    push_str_chars(&mut buf, date_str);
    push_str_chars(&mut buf, ", ");
    push_str_chars(&mut buf, time_str);
    let s = string_of(&buf);
    let fmts = format.date_parse_formats();
    parse_first_layout(s.as_str(), fmts.as_slice())
}

/// English system-notice phrases, in lowercase; a message is a notice when
/// its lowercased text contains one.
pub open spec fn en_system_indicators() -> Seq<Seq<char>> {
    seq![
        "messages and calls are end-to-end encrypted"@,
        "created group"@,
        "added"@,
        "removed"@,
        "left"@,
        "changed the subject"@,
        "changed this group's icon"@,
        "changed the group description"@,
        "deleted this group's icon"@,
        "changed their phone number"@,
        "joined using this group's invite link"@,
        "security code changed"@,
        "you're now an admin"@,
        "is now an admin"@,
        "disappeared"@,
        "turned on disappearing messages"@,
        "turned off disappearing messages"@,
    ]
}

/// Russian system-notice phrases, matched case-sensitively.
pub open spec fn ru_system_indicators() -> Seq<Seq<char>> {
    seq![
        "Сообщения и звонки защищены сквозным шифрованием"@,
        "создал(а) группу"@,
        "добавил"@,
        "удалил"@,
        "вышел"@,
        "покинул"@,
        "изменил тему"@,
        "изменил иконку группы"@,
        "изменил описание группы"@,
        "удалил иконку группы"@,
        "изменил номер телефона"@,
        "присоединился по ссылке"@,
        "код безопасности изменён"@,
        "теперь администратор"@,
        "включил исчезающие сообщения"@,
        "выключил исчезающие сообщения"@,
        "Подробнее"@,
    ]
}

/// Some phrase of `needles` occurs in `hay`.
pub open spec fn contains_any(hay: Seq<char>, needles: Seq<Seq<char>>) -> bool {
    exists|i: int| 0 <= i < needles.len() && #[trigger] contains_seq(hay, needles[i])
}

/// A line is a system notice (group created, member added or left,
/// encryption notice, ...) when its lowercased text holds an English
/// phrase, its text holds a Russian phrase, or the sender is blank or
/// contains `whatsapp` or `system` in any case.
pub open spec fn is_system_notice(sender: Seq<char>, content: Seq<char>) -> bool {
    contains_any(unicode_lowercase(content), en_system_indicators())
        || contains_any(content, ru_system_indicators())
        || all_ws(sender)
        || contains_seq(unicode_lowercase(sender), "whatsapp"@)
        || contains_seq(unicode_lowercase(sender), "system"@)
}

/// A line whose sender is blank is a system notice, whatever its text.
pub proof fn lemma_blank_sender_is_system(sender: Seq<char>, content: Seq<char>)
    requires
        all_ws(sender),
    ensures
        is_system_notice(sender, content),
{
}

/// Whether some string of `needles` occurs in `hay`.
fn contains_any_of(hay: &[char], needles: &Vec<&'static str>) -> (b: bool)
    ensures
        b == contains_any(hay@, str_views(needles@)),
{
    let ghost nv = str_views(needles@);
    let mut i: usize = 0;
    while i < needles.len()
        invariant
            0 <= i <= needles@.len(),
            nv == str_views(needles@),
            forall|j: int| 0 <= j < i ==> !#[trigger] contains_seq(hay@, nv[j]),
        decreases needles@.len() - i,
    {
        if contains_str(hay, needles[i]) {
            assert(contains_seq(hay@, nv[i as int]));
            return true;
        }
        i = i + 1;
    }
    false
}

/// Whether a line with this sender and text is a system notice rather than
/// a message. Media placeholders such as `<Media omitted>` are messages.
pub fn is_whatsapp_system_message(sender: &str, content: &str) -> (b: bool)
    ensures
        b == is_system_notice(sender@, content@),
        is_ascii_text(sender@) && (contains_seq(ascii_lowercase(sender@), "whatsapp"@) || contains_seq(
            ascii_lowercase(sender@),
            "system"@,
        )) ==> b,
{
    let en = vec![
        "messages and calls are end-to-end encrypted",
        "created group",
        "added",
        "removed",
        "left",
        "changed the subject",
        "changed this group's icon",
        "changed the group description",
        "deleted this group's icon",
        "changed their phone number",
        "joined using this group's invite link",
        "security code changed",
        "you're now an admin",
        "is now an admin",
        "disappeared",
        "turned on disappearing messages",
        "turned off disappearing messages",
    ];
    let ru = vec![
        "Сообщения и звонки защищены сквозным шифрованием",
        "создал(а) группу",
        "добавил",
        "удалил",
        "вышел",
        "покинул",
        "изменил тему",
        "изменил иконку группы",
        "изменил описание группы",
        "удалил иконку группы",
        "изменил номер телефона",
        "присоединился по ссылке",
        "код безопасности изменён",
        "теперь администратор",
        "включил исчезающие сообщения",
        "выключил исчезающие сообщения",
        "Подробнее",
    ];
    assert(str_views(en@) =~= en_system_indicators());
    assert(str_views(ru@) =~= ru_system_indicators());
    let content_lower = chars_of(to_lowercase(content).as_str());
    if contains_any_of(&content_lower, &en) {
        return true;
    }
    let content_chars = chars_of(content);
    if contains_any_of(&content_chars, &ru) {
        return true;
    }
    let sender_lower = chars_of(to_lowercase(sender).as_str());
    str_is_blank(sender) || contains_str(&sender_lower, "whatsapp") || contains_str(&sender_lower, "system")
}

/// A line is a message line of layout `f`: its pattern compiles and matches
/// the line.
pub open spec fn line_matches(f: DateFormat, line: Seq<char>) -> bool {
    regex_valid(pattern_text(f)) && regex_is_match(pattern_text(f), line)
}

/// A bracketed line whose date starts with a two-digit number above 12, as
/// in `[15/01/2024, 10:30] ...`: that number is a day, not a month.
pub open spec fn day_first_line(line: Seq<char>) -> bool {
    &&& line.len() >= 4
    &&& line[0] == '['
    &&& is_digit(line[1])
    &&& is_digit(line[2])
    &&& line[3] == '/'
    &&& digits_value(line.subrange(1, 3)) > 12
}

/// A line is a message line of some European layout.
pub open spec fn eu_matches(line: Seq<char>) -> bool {
    line_matches(DateFormat::EuDotBracketed, line) || line_matches(DateFormat::EuDotNoBracket, line)
        || line_matches(DateFormat::EuSlash, line) || line_matches(DateFormat::EuSlashBracketed, line)
}

/// A line counts for layout `f` when it is a message line of `f`, with one
/// tie-break: a line that a European layout also matches, and whose first
/// number cannot be a month, does not count for US. A line that only the
/// US pattern matches always counts for US.
pub open spec fn counts_for(f: DateFormat, line: Seq<char>) -> bool {
    line_matches(f, line) && !(f == DateFormat::US && day_first_line(line) && eu_matches(line))
}

/// How many of `lines` count for layout `f`.
pub open spec fn format_score(f: DateFormat, lines: Seq<Seq<char>>) -> nat
    decreases lines.len(),
{
    if lines.len() == 0 {
        0
    } else {
        format_score(f, lines.drop_last()) + if counts_for(f, lines.last()) {
            1nat
        } else {
            0nat
        }
    }
}

/// `f` wins detection on `lines`: it matches at least one line, no layout
/// matches more lines, and every layout listed before it matches fewer.
pub open spec fn is_best_format(lines: Seq<Seq<char>>, f: DateFormat) -> bool {
    &&& format_score(f, lines) > 0
    &&& forall|g: DateFormat| #[trigger] format_score(g, lines) <= format_score(f, lines)
    &&& forall|g: DateFormat|
        format_index(g) < format_index(f) ==> #[trigger] format_score(g, lines) < format_score(f, lines)
}

/// The layout that detection picks for `lines`: the one that the most
/// lines count for, the earliest listed on a tie; `None` when no line
/// counts for any layout. A line such as `[15/01/2024, 10:30] ...` matches
/// the US pattern too, but counts only for the European layout, since 15
/// cannot be a month.
pub open spec fn detect_spec(lines: Seq<Seq<char>>) -> Option<DateFormat> {
    if exists|f: DateFormat| is_best_format(lines, f) {
        Some(choose|f: DateFormat| is_best_format(lines, f))
    } else {
        None
    }
}

/// At most one layout wins detection.
pub proof fn lemma_best_format_unique(lines: Seq<Seq<char>>, f: DateFormat, g: DateFormat)
    requires
        is_best_format(lines, f),
        is_best_format(lines, g),
    ensures
        f == g,
{
    assert(format_score(g, lines) <= format_score(f, lines));
    assert(format_score(f, lines) <= format_score(g, lines));
    if format_index(g) < format_index(f) {
        assert(format_score(g, lines) < format_score(f, lines));
    } else if format_index(f) < format_index(g) {
        assert(format_score(f, lines) < format_score(g, lines));
    }
}

/// With no sample lines, no layout is detected.
pub proof fn lemma_detect_empty()
    ensures
        detect_spec(Seq::<Seq<char>>::empty()) is None,
{
    assert forall|f: DateFormat| !is_best_format(Seq::<Seq<char>>::empty(), f) by {
        assert(format_score(f, Seq::<Seq<char>>::empty()) == 0);
    }
}

/// A layout that matches some line has a valid pattern.
pub proof fn lemma_score_needs_valid(f: DateFormat, lines: Seq<Seq<char>>)
    requires
        format_score(f, lines) > 0,
    ensures
        regex_valid(pattern_text(f)),
    decreases lines.len(),
{
    if !counts_for(f, lines.last()) {
        lemma_score_needs_valid(f, lines.drop_last());
    }
}

/// Lines whose first number cannot be a month, and that a European layout
/// also matches, never count for US.
pub proof fn lemma_day_first_rules_out_us(lines: Seq<Seq<char>>)
    requires
        forall|i: int| 0 <= i < lines.len() ==> #[trigger] day_first_line(lines[i]) && eu_matches(lines[i]),
    ensures
        format_score(DateFormat::US, lines) == 0,
    decreases lines.len(),
{
    if lines.len() > 0 {
        let d = lines.drop_last();
        assert forall|i: int| 0 <= i < d.len() implies #[trigger] day_first_line(d[i]) && eu_matches(d[i]) by {
            assert(d[i] == lines[i]);
        }
        lemma_day_first_rules_out_us(d);
        assert(day_first_line(lines[lines.len() - 1]));
    }
}

/// The tie-break never takes a line from US that no European layout
/// matches: there, a line counts for US exactly when the US pattern matches.
pub proof fn lemma_us_only_line_counts(line: Seq<char>)
    requires
        !eu_matches(line),
    ensures
        counts_for(DateFormat::US, line) == line_matches(DateFormat::US, line),
{
}

/// A layout matches no more lines than there are.
proof fn lemma_score_bound(f: DateFormat, lines: Seq<Seq<char>>)
    ensures
        format_score(f, lines) <= lines.len(),
    decreases lines.len(),
{
    if lines.len() > 0 {
        lemma_score_bound(f, lines.drop_last());
    }
}

/// Whether a compiled pattern, if any, matches the line.
fn pattern_hit(d: &Option<LinePattern>, line: &str) -> (b: bool)
    ensures
        b == (d matches Some(p) && regex_is_match(p.pattern(), line@)),
{
    match d {
        Some(p) => p.is_match(line),
        None => false,
    }
}

/// Whether a line is [`day_first_line`].
fn is_day_first_line(line: &str) -> (b: bool)
    ensures
        b == day_first_line(line@),
{
    let cs = chars_of(line);
    if cs.len() < 4 || cs[0] != '[' || cs[3] != '/' {
        return false;
    }
    let c1 = cs[1];
    let c2 = cs[2];
    if !('0' <= c1 && c1 <= '9') || !('0' <= c2 && c2 <= '9') {
        return false;
    }
    let v: u32 = (c1 as u32 - 48) * 10 + (c2 as u32 - 48);
    proof {
        let s = cs@.subrange(1, 3);
        assert(s.drop_last() =~= seq![c1]);
        assert(s.drop_last().drop_last() =~= Seq::<char>::empty());
        assert(seq![c1].drop_last() =~= Seq::<char>::empty());
        assert(seq![c1].last() == c1);
        assert(('0' as u32) == 48);
        assert(digits_value(Seq::<char>::empty()) == 0);
        assert(digits_value(seq![c1]) == (c1 as u32 - 48) as nat);
        assert(s.last() == c2);
        assert(digits_value(s) == v);
    }
    v > 12
}

/// Detects the layout of an export from sample lines: the layout whose
/// pattern matches the most lines wins, the earliest listed on a tie;
/// `None` when no line matches any layout.
pub fn detect_whatsapp_format(lines: &[&str]) -> (r: Option<DateFormat>)
    ensures
        r == detect_spec(str_views(lines@)),
        match r {
            Some(f) => is_best_format(str_views(lines@), f),
            None => forall|g: DateFormat| #[trigger] format_score(g, str_views(lines@)) == 0,
        },
{
    let ghost lv = str_views(lines@);
    let formats = DateFormat::all();
    let mut detectors: Vec<Option<LinePattern>> = Vec::new();
    let mut k: usize = 0;
    while k < formats.len()
        invariant
            formats@ == all_formats(),
            0 <= k <= 5,
            detectors@.len() == k,
            forall|j: int|
                0 <= j < k ==> (#[trigger] detectors@[j] is Some <==> regex_valid(
                    pattern_text(all_formats()[j]),
                )) && (detectors@[j] matches Some(p) ==> p.pattern() == pattern_text(
                    all_formats()[j],
                )),
        decreases 5 - k,
    {
        detectors.push(LinePattern::compile(formats[k].pattern()).ok());
        k = k + 1;
    }
    let mut scores: Vec<usize> = vec![0, 0, 0, 0, 0];
    let n: usize = lines.len();
    let mut i: usize = 0;
    while i < n
        invariant
            n == lines@.len(),
            formats@ == all_formats(),
            lv == str_views(lines@),
            0 <= i <= lines@.len(),
            detectors@.len() == 5,
            forall|j: int|
                0 <= j < 5 ==> (#[trigger] detectors@[j] is Some <==> regex_valid(
                    pattern_text(all_formats()[j]),
                )) && (detectors@[j] matches Some(p) ==> p.pattern() == pattern_text(
                    all_formats()[j],
                )),
            scores@.len() == 5,
            forall|j: int|
                0 <= j < 5 ==> #[trigger] scores@[j] == format_score(
                    all_formats()[j],
                    lv.take(i as int),
                ),
        decreases lines@.len() - i,
    {
        let line = lines[i];
        let day_first = is_day_first_line(line);
        let eu = pattern_hit(&detectors[1], line) || pattern_hit(&detectors[2], line) || pattern_hit(
            &detectors[3],
            line,
        ) || pattern_hit(&detectors[4], line);
        assert(all_formats()[1] == DateFormat::EuDotBracketed);
        assert(all_formats()[2] == DateFormat::EuDotNoBracket);
        assert(all_formats()[3] == DateFormat::EuSlash);
        assert(all_formats()[4] == DateFormat::EuSlashBracketed);
        assert(eu == eu_matches(line@));
        assert(lv.take(i + 1).drop_last() =~= lv.take(i as int));
        assert(lv.take(i + 1).last() == line@);
        let mut j: usize = 0;
        while j < 5
            invariant
                n == lines@.len(),
                formats@ == all_formats(),
                lv == str_views(lines@),
                0 <= i < lines@.len(),
                line@ == lv[i as int],
                day_first == day_first_line(line@),
                eu == eu_matches(line@),
                lv.take(i + 1).drop_last() == lv.take(i as int),
                lv.take(i + 1).last() == line@,
                0 <= j <= 5,
                detectors@.len() == 5,
                forall|m: int|
                    0 <= m < 5 ==> (#[trigger] detectors@[m] is Some <==> regex_valid(
                        pattern_text(all_formats()[m]),
                    )) && (detectors@[m] matches Some(p) ==> p.pattern() == pattern_text(
                        all_formats()[m],
                    )),
                scores@.len() == 5,
                forall|m: int|
                    0 <= m < j ==> #[trigger] scores@[m] == format_score(
                        all_formats()[m],
                        lv.take(i + 1),
                    ),
                forall|m: int|
                    j <= m < 5 ==> #[trigger] scores@[m] == format_score(
                        all_formats()[m],
                        lv.take(i as int),
                    ),
            decreases 5 - j,
        {
            proof {
                lemma_score_bound(all_formats()[j as int], lv.take(i as int));
                assert(scores@[j as int] == format_score(all_formats()[j as int], lv.take(i as int)));
                assert(lv.take(i as int).len() == i);
            }
            let matched = pattern_hit(&detectors[j], line);
            assert(matched == line_matches(all_formats()[j as int], line@));
            let hit = matched && !(j == 0 && day_first && eu);
            assert(hit == counts_for(all_formats()[j as int], line@));
            if hit {
                let v = scores[j] + 1;
                scores.set(j, v);
            }
            j = j + 1;
        }
        i = i + 1;
    }
    assert(lv.take(lines@.len() as int) =~= lv);
    let mut best: usize = 0;
    let mut k: usize = 1;
    while k < 5
        invariant
            1 <= k <= 5,
            best < k,
            scores@.len() == 5,
            forall|m: int| 0 <= m < k ==> #[trigger] scores@[m] <= scores@[best as int],
            forall|m: int| 0 <= m < best ==> #[trigger] scores@[m] < scores@[best as int],
        decreases 5 - k,
    {
        if scores[k] > scores[best] {
            best = k;
        }
        k = k + 1;
    }
    assert forall|g: DateFormat| all_formats()[#[trigger] format_index(g)] == g by {
        match g {
            DateFormat::US => {},
            DateFormat::EuDotBracketed => {},
            DateFormat::EuDotNoBracket => {},
            DateFormat::EuSlash => {},
            DateFormat::EuSlashBracketed => {},
        }
    }
    assert forall|g: DateFormat| #[trigger] format_score(g, lv) == scores@[format_index(g)] by {
        assert(all_formats()[format_index(g)] == g);
        assert(0 <= format_index(g) < 5);
    }
    if scores[best] == 0 {
        assert forall|g: DateFormat| #[trigger] format_score(g, lv) == 0 by {
            assert(format_score(g, lv) == scores@[format_index(g)]);
        }
        assert(!exists|f: DateFormat| is_best_format(lv, f));
        None
    } else {
        let f = formats[best];
        assert(format_index(f) == best);
        assert(is_best_format(lv, f)) by {
            assert forall|g: DateFormat| #[trigger] format_score(g, lv) <= format_score(f, lv) by {
                assert(format_score(g, lv) == scores@[format_index(g)]);
            }
            assert forall|g: DateFormat|
                format_index(g) < format_index(f) implies #[trigger] format_score(g, lv) < format_score(
                    f,
                    lv,
                ) by {
                assert(format_score(g, lv) == scores@[format_index(g)]);
            }
        }
        proof {
            let c = choose|h: DateFormat| is_best_format(lv, h);
            lemma_best_format_unique(lv, f, c);
        }
        Some(f)
    }
}

/// [`detect_whatsapp_format`] on owned lines.
pub fn detect_whatsapp_format_owned(lines: &[String]) -> (r: Option<DateFormat>)
    ensures
        r == detect_spec(lines@.map_values(|s: String| s@)),
{
    let mut refs: Vec<&str> = Vec::new();
    let mut i: usize = 0;
    while i < lines.len()
        invariant
            0 <= i <= lines@.len(),
            str_views(refs@) == lines@.map_values(|s: String| s@).take(i as int),
        decreases lines@.len() - i,
    {
        let r = lines[i].as_str();
        let ghost before = refs@;
        refs.push(r);
        assert(refs@ == before.push(r));
        assert(r@ == lines@.map_values(|s: String| s@)[i as int]);
        assert(str_views(refs@) =~= str_views(before).push(r@));
        assert(lines@.map_values(|s: String| s@).take(i + 1) =~= lines@.map_values(|s: String| s@).take(i as int).push(r@));
        i = i + 1;
        assert(str_views(refs@) =~= lines@.map_values(|s: String| s@).take(i as int));
    }
    assert(lines@.map_values(|s: String| s@).take(lines@.len() as int) =~= lines@.map_values(|s: String| s@));
    detect_whatsapp_format(refs.as_slice())
}

} // verus!
