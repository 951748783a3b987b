//! Text helpers of the sample-export generator.

use vstd::prelude::*;

use crate::processing::output::hex_digit;
use crate::text::{decimal, push_decimal, push_str_chars, string_of};

verus! {

/// A Unicode control character (general category `Cc`), as
/// `char::is_control` tests.
pub open spec fn is_control_char(c: char) -> bool {
    let u = c as u32;
    u <= 0x1F || (0x7F <= u && u <= 0x9F)
}

/// How the generator writes one character inside a JSON string: quote,
/// backslash, newline, carriage return and tab escaped with a backslash,
/// other control characters as `\u` and four lowercase hex digits, the
/// rest as is.
pub open spec fn escape_json_char(c: char) -> Seq<char> {
    let u = c as u32;
    if c == '"' {
        seq!['\\', '"']
    } else if c == '\\' {
        seq!['\\', '\\']
    } else if c == '\n' {
        seq!['\\', 'n']
    } else if c == '\r' {
        seq!['\\', 'r']
    } else if c == '\t' {
        seq!['\\', 't']
    } else if is_control_char(c) {
        seq!['\\', 'u', '0', '0', hex_digit((u / 16) as nat), hex_digit((u % 16) as nat)]
    } else {
        seq![c]
    }
}

/// The escaped text of `s`, character by character.
pub open spec fn escape_json_spec(s: Seq<char>) -> Seq<char>
    decreases s.len(),
{
    if s.len() == 0 {
        Seq::empty()
    } else {
        escape_json_spec(s.drop_last()) + escape_json_char(s.last())
    }
}

fn hex_char(d: u32) -> (c: char)
    requires
        d < 16,
    ensures
        c == hex_digit(d as nat),
{
    if d < 10 {
        let b = (d + 48) as u8;
        b as char
    } else {
        let b = (d + 87) as u8;
        b as char
    }
}

/// Escapes `s` for use inside a JSON string literal.
pub fn escape_json(s: &str) -> (r: String)
    ensures
        r@ == escape_json_spec(s@),
{
    let cs = crate::text::chars_of(s);
    let mut out: Vec<char> = Vec::new();
    let mut i: usize = 0;
    while i < cs.len()
        invariant
            0 <= i <= cs@.len(),
            cs@ == s@,
            out@ == escape_json_spec(cs@.take(i as int)),
        decreases cs@.len() - i,
    {
        assert(cs@.take(i + 1).drop_last() =~= cs@.take(i as int));
        let c = cs[i];
        let u = c as u32;
        let ghost before = out@;
        if c == '"' {
            out.push('\\');
            out.push('"');
        } else if c == '\\' {
            out.push('\\');
            out.push('\\');
        } else if c == '\n' {
            out.push('\\');
            out.push('n');
        } else if c == '\r' {
            out.push('\\');
            out.push('r');
        } else if c == '\t' {
            out.push('\\');
            out.push('t');
        } else if u <= 0x1F || (0x7F <= u && u <= 0x9F) {
            out.push('\\');
            out.push('u');
            out.push('0');
            out.push('0');
            out.push(hex_char(u / 16));
            out.push(hex_char(u % 16));
        } else {
            out.push(c);
        }
        assert(out@ =~= before + escape_json_char(c));
        i = i + 1;
    }
    assert(cs@.take(cs@.len() as int) =~= cs@);
    crate::text::string_of(&out)
}

/// One message record of a generated Telegram export, as a line of the
/// `messages` array (without the line break): id, Unix time, sender and
/// text, sender and text escaped, followed by a comma unless it is the last
/// record.
pub open spec fn telegram_record_spec(id: u64, unixtime: u64, sender: Seq<char>, text: Seq<char>, last: bool) -> Seq<char> {
    "    {\"id\": "@ + decimal(id as nat) + ", \"type\": \"message\", \"date_unixtime\": \""@ + decimal(
        unixtime as nat,
    ) + "\", \"from\": \""@ + escape_json_spec(sender) + "\", \"text\": \""@ + escape_json_spec(text)
        + "\"}"@ + (if last { Seq::empty() } else { seq![','] })
}

/// Builds the line of one generated Telegram message record.
pub fn telegram_record_line(id: u64, unixtime: u64, sender: &str, text: &str, last: bool) -> (r: String)
    ensures
        r@ == telegram_record_spec(id, unixtime, sender@, text@, last),
{
    let mut out: Vec<char> = Vec::new();
    push_str_chars(&mut out, "    {\"id\": ");
    push_decimal(&mut out, id);
    push_str_chars(&mut out, ", \"type\": \"message\", \"date_unixtime\": \"");
    push_decimal(&mut out, unixtime);
    push_str_chars(&mut out, "\", \"from\": \"");
    let es = escape_json(sender);
    push_str_chars(&mut out, es.as_str());
    push_str_chars(&mut out, "\", \"text\": \"");
    let et = escape_json(text);
    push_str_chars(&mut out, et.as_str());
    push_str_chars(&mut out, "\"}");
    if !last {
        out.push(',');
    }
    assert(out@ =~= telegram_record_spec(id, unixtime, sender@, text@, last));
    string_of(&out)
}

/// A number below 100 in two digits (`{:02}`).
pub open spec fn two_digits(n: nat) -> Seq<char> {
    if n < 10 {
        seq!['0'] + decimal(n)
    } else {
        decimal(n)
    }
}

/// The timestamp of the `i`-th generated WhatsApp line; the generator
/// cycles through four layouts (US, EU dotted, dotted without brackets, EU
/// slashed).
pub open spec fn whatsapp_stamp_spec(i: nat) -> Seq<char> {
    if i % 4 == 0 {
        "["@ + decimal(i % 12 + 1) + "/15/24, 10:"@ + decimal(i % 60) + ":00 AM]"@
    } else if i % 4 == 1 {
        "[15."@ + two_digits(i % 12 + 1) + ".24, 10:"@ + decimal(i % 60) + ":00]"@
    } else if i % 4 == 2 {
        "26.10.2025, "@ + decimal(10 + i % 14) + ":"@ + two_digits(i % 60)
    } else {
        decimal(i % 28 + 1) + "/01/2024, "@ + decimal(i % 24) + ":"@ + two_digits(i % 60)
    }
}

/// Text with every line break replaced by a space.
pub open spec fn one_line(s: Seq<char>) -> Seq<char> {
    s.map_values(|c: char| if c == '\n' { ' ' } else { c })
}

/// The `i`-th line of a generated WhatsApp export: timestamp, ` - `,
/// sender, `: `, the text on one line, and a line break.
pub open spec fn whatsapp_record_spec(i: nat, sender: Seq<char>, text: Seq<char>) -> Seq<char> {
    whatsapp_stamp_spec(i) + " - "@ + sender + ": "@ + one_line(text) + seq!['\n']
}

fn push_two_digits(out: &mut Vec<char>, n: u64)
    requires
        n < 100,
    ensures
        final(out)@ == old(out)@ + two_digits(n as nat),
{
    if n < 10 {
        out.push('0');
    }
    push_decimal(out, n);
}

/// Builds the timestamp of the `i`-th generated WhatsApp line.
pub fn whatsapp_stamp(i: usize) -> (r: String)
    ensures
        r@ == whatsapp_stamp_spec(i as nat),
{
    let n = i as u64;
    let mut out: Vec<char> = Vec::new();
    if n % 4 == 0 {
        push_str_chars(&mut out, "[");
        push_decimal(&mut out, n % 12 + 1);
        push_str_chars(&mut out, "/15/24, 10:");
        push_decimal(&mut out, n % 60);
        push_str_chars(&mut out, ":00 AM]");
    } else if n % 4 == 1 {
        push_str_chars(&mut out, "[15.");
        push_two_digits(&mut out, n % 12 + 1);
        push_str_chars(&mut out, ".24, 10:");
        push_decimal(&mut out, n % 60);
        push_str_chars(&mut out, ":00]");
    } else if n % 4 == 2 {
        push_str_chars(&mut out, "26.10.2025, ");
        push_decimal(&mut out, 10 + n % 14);
        push_str_chars(&mut out, ":");
        push_two_digits(&mut out, n % 60);
    } else {
        push_decimal(&mut out, n % 28 + 1);
        push_str_chars(&mut out, "/01/2024, ");
        push_decimal(&mut out, n % 24);
        push_str_chars(&mut out, ":");
        push_two_digits(&mut out, n % 60);
    }
    assert(out@ =~= whatsapp_stamp_spec(i as nat));
    string_of(&out)
}

/// Builds the `i`-th line of a generated WhatsApp export.
pub fn whatsapp_record_line(i: usize, sender: &str, text: &str) -> (r: String)
    ensures
        r@ == whatsapp_record_spec(i as nat, sender@, text@),
{
    let stamp = whatsapp_stamp(i);
    let mut out: Vec<char> = Vec::new();
    push_str_chars(&mut out, stamp.as_str());
    push_str_chars(&mut out, " - ");
    push_str_chars(&mut out, sender);
    push_str_chars(&mut out, ": ");
    let cs = crate::text::chars_of(text);
    let ghost start = out@;
    let mut k: usize = 0;
    while k < cs.len()
        invariant
            0 <= k <= cs@.len(),
            cs@ == text@,
            out@ == start + one_line(cs@.take(k as int)),
        decreases cs@.len() - k,
    {
        let c = cs[k];
        out.push(if c == '\n' { ' ' } else { c });
        k = k + 1;
        assert(one_line(cs@.take(k as int)) =~= one_line(cs@.take(k - 1)).push(if c == '\n' { ' ' } else { c }));
    }
    assert(cs@.take(cs@.len() as int) =~= cs@);
    out.push('\n');
    assert(out@ =~= whatsapp_record_spec(i as nat, sender@, text@));
    string_of(&out)
}

/// The combining marks (U+0300 to U+0341) that zalgo text stacks on
/// characters.
pub open spec fn zalgo_marks() -> Seq<char> {
    seq![
        '\u{0300}', '\u{0301}', '\u{0302}', '\u{0303}', '\u{0304}', '\u{0305}', '\u{0306}', '\u{0307}',
        '\u{0308}', '\u{0309}', '\u{030A}', '\u{030B}', '\u{030C}', '\u{030D}', '\u{030E}', '\u{030F}',
        '\u{0310}', '\u{0311}', '\u{0312}', '\u{0313}', '\u{0314}', '\u{0315}', '\u{0316}', '\u{0317}',
        '\u{0318}', '\u{0319}', '\u{031A}', '\u{031B}', '\u{031C}', '\u{031D}', '\u{031E}', '\u{031F}',
        '\u{0320}', '\u{0321}', '\u{0322}', '\u{0323}', '\u{0324}', '\u{0325}', '\u{0326}', '\u{0327}',
        '\u{0328}', '\u{0329}', '\u{032A}', '\u{032B}', '\u{032C}', '\u{032D}', '\u{032E}', '\u{032F}',
        '\u{0330}', '\u{0331}', '\u{0332}', '\u{0333}', '\u{0334}', '\u{0335}', '\u{0336}', '\u{0337}',
        '\u{0338}', '\u{0339}', '\u{033A}', '\u{033B}', '\u{033C}', '\u{033D}', '\u{033E}', '\u{033F}',
        '\u{0340}', '\u{0341}'
    ]
}

/// The marks with the given positions in [`zalgo_marks`].
pub open spec fn marks_of(ks: Seq<usize>) -> Seq<char> {
    ks.map_values(|k: usize| zalgo_marks()[k as int])
}

/// Zalgo text: each character of `text` followed by the marks drawn for it
/// (`marks[i]` for the `i`-th character, none when not given).
pub open spec fn zalgo_spec(text: Seq<char>, marks: Seq<Seq<usize>>) -> Seq<char>
    decreases text.len(),
{
    if text.len() == 0 {
        Seq::empty()
    } else {
        let i = text.len() - 1;
        zalgo_spec(text.drop_last(), marks) + seq![text.last()] + (if i < marks.len() {
            marks_of(marks[i])
        } else {
            Seq::empty()
        })
    }
}

/// Every drawn mark position is within [`zalgo_marks`].
pub open spec fn marks_in_range(marks: Seq<Seq<usize>>) -> bool {
    forall|i: int, j: int| 0 <= i < marks.len() && 0 <= j < marks[i].len() ==> #[trigger] marks[i][j] < 66
}

/// Builds zalgo text from the mark positions drawn for each character.
pub fn zalgo_text(text: &str, marks: &Vec<Vec<usize>>) -> (r: String)
    requires
        marks_in_range(marks@.map_values(|v: Vec<usize>| v@)),
    ensures
        r@ == zalgo_spec(text@, marks@.map_values(|v: Vec<usize>| v@)),
{
    let ghost mv = marks@.map_values(|v: Vec<usize>| v@);
    let table: Vec<char> = vec![
        '\u{0300}', '\u{0301}', '\u{0302}', '\u{0303}', '\u{0304}', '\u{0305}', '\u{0306}', '\u{0307}',
        '\u{0308}', '\u{0309}', '\u{030A}', '\u{030B}', '\u{030C}', '\u{030D}', '\u{030E}', '\u{030F}',
        '\u{0310}', '\u{0311}', '\u{0312}', '\u{0313}', '\u{0314}', '\u{0315}', '\u{0316}', '\u{0317}',
        '\u{0318}', '\u{0319}', '\u{031A}', '\u{031B}', '\u{031C}', '\u{031D}', '\u{031E}', '\u{031F}',
        '\u{0320}', '\u{0321}', '\u{0322}', '\u{0323}', '\u{0324}', '\u{0325}', '\u{0326}', '\u{0327}',
        '\u{0328}', '\u{0329}', '\u{032A}', '\u{032B}', '\u{032C}', '\u{032D}', '\u{032E}', '\u{032F}',
        '\u{0330}', '\u{0331}', '\u{0332}', '\u{0333}', '\u{0334}', '\u{0335}', '\u{0336}', '\u{0337}',
        '\u{0338}', '\u{0339}', '\u{033A}', '\u{033B}', '\u{033C}', '\u{033D}', '\u{033E}', '\u{033F}',
        '\u{0340}', '\u{0341}'
    ];
    assert(table@ =~= zalgo_marks());
    let cs = crate::text::chars_of(text);
    let mut out: Vec<char> = Vec::new();
    let mut i: usize = 0;
    while i < cs.len()
        invariant
            0 <= i <= cs@.len(),
            cs@ == text@,
            table@ == zalgo_marks(),
            mv == marks@.map_values(|v: Vec<usize>| v@),
            marks_in_range(mv),
            out@ == zalgo_spec(cs@.take(i as int), mv),
        decreases cs@.len() - i,
    {
        assert(cs@.take(i + 1).drop_last() =~= cs@.take(i as int));
        out.push(cs[i]);
        let ghost base = out@;
        if i < marks.len() {
            let ks = &marks[i];
            assert(ks@ == mv[i as int]);
            let mut j: usize = 0;
            while j < ks.len()
                invariant
                    0 <= j <= ks@.len(),
                    i < mv.len(),
                    ks@ == mv[i as int],
                    marks_in_range(mv),
                    table@ == zalgo_marks(),
                    out@ == base + marks_of(ks@.take(j as int)),
                decreases ks@.len() - j,
            {
                assert(ks@[j as int] < 66);
                out.push(table[ks[j]]);
                j = j + 1;
                assert(marks_of(ks@.take(j as int)) =~= marks_of(ks@.take(j - 1)).push(zalgo_marks()[ks@[j - 1] as int]));
            }
            assert(ks@.take(ks@.len() as int) =~= ks@);
        } else {
            assert(base =~= base + Seq::<char>::empty());
        }
        i = i + 1;
        assert(cs@.take(i as int).last() == cs@[i - 1]);
    }
    assert(cs@.take(cs@.len() as int) =~= cs@);
    string_of(&out)
}

/// The concatenation of some texts.
pub open spec fn concat_all(parts: Seq<Seq<char>>) -> Seq<char>
    decreases parts.len(),
{
    if parts.len() == 0 {
        Seq::empty()
    } else {
        concat_all(parts.drop_last()) + parts.last()
    }
}

/// The character views of string slices.
pub open spec fn slice_views(s: Seq<&str>) -> Seq<Seq<char>> {
    s.map_values(|x: &str| x@)
}

/// The text of the `index`-th generated message, cycling through twenty
/// kinds: plain text, delimiters, quotes, line breaks and tabs, the drawn
/// emojis, zalgo text with the drawn marks, a giant message of 100 000 `X`,
/// four scripts, empty and blank texts, and control characters.
pub open spec fn toxic_message_spec(index: nat, emojis: Seq<Seq<char>>, marks: Seq<Seq<usize>>) -> Seq<char> {
    let k = index % 20;
    let n = decimal(index);
    if k <= 5 {
        "Normal message #"@ + n + " with some text"@
    } else if k == 6 {
        "Message with semicolons; here; and; there; index="@ + n
    } else if k == 7 {
        "Message with \"quotes\" and 'apostrophes' #"@ + n
    } else if k == 8 {
        "Message with\nnewlines\nand\ttabs #"@ + n
    } else if k == 9 {
        "Emoji spam: "@ + concat_all(emojis) + " #"@ + n
    } else if k == 10 {
        zalgo_spec("This is zalgo text"@, marks)
    } else if k == 11 {
        "Giant message #"@ + n + ": "@ + Seq::new(100_000, |_i: int| 'X')
    } else if k == 12 {
        "Кириллица: Привет мир! #"@ + n
    } else if k == 13 {
        "日本語: こんにちは #"@ + n
    } else if k == 14 {
        "العربية: مرحبا #"@ + n
    } else if k == 15 {
        "Mixed: Hello Привет 你好 🌍 #"@ + n
    } else if k == 16 {
        Seq::empty()
    } else if k == 17 {
        "   "@
    } else if k == 18 {
        "\n\n\n"@
    } else {
        "Control chars: \x00\x01\x02\x03 #"@ + n
    }
}

/// Builds the text of the `index`-th generated message from the emojis and
/// zalgo marks drawn for it.
pub fn toxic_message(index: usize, emojis: &[&str], marks: &Vec<Vec<usize>>) -> (r: String)
    requires
        marks_in_range(marks@.map_values(|v: Vec<usize>| v@)),
    ensures
        r@ == toxic_message_spec(index as nat, slice_views(emojis@), marks@.map_values(|v: Vec<usize>| v@)),
{
    let k = index % 20;
    let n = index as u64;
    let mut out: Vec<char> = Vec::new();
    if k <= 5 {
        push_str_chars(&mut out, "Normal message #");
        push_decimal(&mut out, n);
        push_str_chars(&mut out, " with some text");
    } else if k == 6 {
        push_str_chars(&mut out, "Message with semicolons; here; and; there; index=");
        push_decimal(&mut out, n);
    } else if k == 7 {
        push_str_chars(&mut out, "Message with \"quotes\" and 'apostrophes' #");
        push_decimal(&mut out, n);
    } else if k == 8 {
        push_str_chars(&mut out, "Message with\nnewlines\nand\ttabs #");
        push_decimal(&mut out, n);
    } else if k == 9 {
        push_str_chars(&mut out, "Emoji spam: ");
        let ghost ev = slice_views(emojis@);
        let ghost base = out@;
        let mut j: usize = 0;
        while j < emojis.len()
            invariant
                0 <= j <= emojis@.len(),
                ev == slice_views(emojis@),
                out@ == base + concat_all(ev.take(j as int)),
            decreases emojis@.len() - j,
        {
            assert(ev.take(j + 1).drop_last() =~= ev.take(j as int));
            push_str_chars(&mut out, emojis[j]);
            j = j + 1;
        }
        assert(ev.take(emojis@.len() as int) =~= ev);
        push_str_chars(&mut out, " #");
        push_decimal(&mut out, n);
    } else if k == 10 {
        let z = zalgo_text("This is zalgo text", marks);
        push_str_chars(&mut out, z.as_str());
    } else if k == 11 {
        push_str_chars(&mut out, "Giant message #");
        push_decimal(&mut out, n);
        push_str_chars(&mut out, ": ");
        let ghost base = out@;
        let mut j: usize = 0;
        while j < 100_000
            invariant
                0 <= j <= 100_000,
                out@ == base + Seq::new(j as nat, |_i: int| 'X'),
            decreases 100_000 - j,
        {
            out.push('X');
            j = j + 1;
            assert(Seq::new(j as nat, |_i: int| 'X') =~= Seq::new((j - 1) as nat, |_i: int| 'X').push('X'));
        }
    } else if k == 12 {
        push_str_chars(&mut out, "Кириллица: Привет мир! #");
        push_decimal(&mut out, n);
    } else if k == 13 {
        push_str_chars(&mut out, "日本語: こんにちは #");
        push_decimal(&mut out, n);
    } else if k == 14 {
        push_str_chars(&mut out, "العربية: مرحبا #");
        push_decimal(&mut out, n);
    } else if k == 15 {
        push_str_chars(&mut out, "Mixed: Hello Привет 你好 🌍 #");
        push_decimal(&mut out, n);
    } else if k == 16 {
    } else if k == 17 {
        push_str_chars(&mut out, "   ");
    } else if k == 18 {
        push_str_chars(&mut out, "\n\n\n");
    } else {
        push_str_chars(&mut out, "Control chars: \x00\x01\x02\x03 #");
        push_decimal(&mut out, n);
    }
    assert(out@ =~= toxic_message_spec(index as nat, slice_views(emojis@), marks@.map_values(|v: Vec<usize>| v@)));
    string_of(&out)
}

/// One of the malformed lines the generator scatters through WhatsApp
/// exports, by the drawn choice.
pub open spec fn garbage_line_spec(choice: nat) -> Seq<char> {
    if choice == 0 {
        "This line has no timestamp or sender format\n"@
    } else if choice == 1 {
        "[Invalid date format here] - : message\n"@
    } else if choice == 2 {
        "-------------------------------------------\n"@
    } else if choice == 3 {
        "\n"@
    } else if choice == 4 {
        "☠️💀👻 Random emoji line 👻💀☠️\n"@
    } else {
        "garbage\n"@
    }
}

/// Builds a malformed line for the drawn choice.
pub fn garbage_line(choice: usize) -> (r: String)
    ensures
        r@ == garbage_line_spec(choice as nat),
{
    if choice == 0 {
        String::from_str("This line has no timestamp or sender format\n")
    } else if choice == 1 {
        String::from_str("[Invalid date format here] - : message\n")
    } else if choice == 2 {
        String::from_str("-------------------------------------------\n")
    } else if choice == 3 {
        String::from_str("\n")
    } else if choice == 4 {
        String::from_str("☠️💀👻 Random emoji line 👻💀☠️\n")
    } else {
        String::from_str("garbage\n")
    }
}

} // verus!
