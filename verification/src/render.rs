//! The text of search results and the reading of search commands.

use vstd::prelude::*;
use vstd::string::StringExecFns;
use crate::clock::{format_minute, formatted_minute};
use crate::decimal::{int_digits, nat_digits, parse_i64_chars, parse_int, push_int, push_nat};
use crate::search::{SearchHit, SearchResult};
use crate::text::{chars_of, push_char, string_of};

verus! {

/// The number of characters of a message's text that a result shows.
pub const SNIPPET_CHARS: usize = 80;

/// The number by which results are counted on from page to page.
pub const RESULTS_PER_PAGE: usize = 5;

/// What stands for the character `c` in marked-up text: `&`, `<` and `>`
/// are written out, every other character stands for itself.
pub open spec fn escape_char(c: char) -> Seq<char> {
    if c == '&' {
        "&amp;"@
    } else if c == '<' {
        "&lt;"@
    } else if c == '>' {
        "&gt;"@
    } else {
        seq![c]
    }
}

/// The text `s` with `&`, `<` and `>` written out.
pub open spec fn escape_spec(s: Seq<char>) -> Seq<char>
    decreases s.len(),
{
    if s.len() == 0 {
        Seq::empty()
    } else {
        escape_spec(s.drop_last()) + escape_char(s.last())
    }
}

/// The text `s`, cut after `max_chars` characters and followed by
/// `...` where it is longer, with `&`, `<` and `>` written out.
pub open spec fn truncate_spec(s: Seq<char>, max_chars: nat) -> Seq<char> {
    if s.len() > max_chars {
        escape_spec(s.take(max_chars as int)) + "..."@
    } else {
        escape_spec(s)
    }
}

/// The number of a chat in links: the chat's number without its sign,
/// and without the leading `100` that marks a supergroup.
pub open spec fn channel_id(chat_id: i64) -> nat {
    let magnitude: int = if chat_id < 0 {
        -(chat_id as int)
    } else {
        chat_id as int
    };
    if magnitude > 1_000_000_000_000 {
        (magnitude - 1_000_000_000_000) as nat
    } else {
        magnitude as nat
    }
}

/// The link to the message `message_id` of the chat `chat_id`.
pub open spec fn link_spec(chat_id: i64, message_id: i64) -> Seq<char> {
    "https://t.me/c/"@ + nat_digits(channel_id(chat_id)) + seq!['/'] + int_digits(
        message_id as int,
    )
}

/// The position of the first `c` in `s`; the length of `s` where there
/// is none.
pub open spec fn first_index(s: Seq<char>, c: char) -> int
    decreases s.len(),
{
    if s.len() == 0 {
        0
    } else if s[0] == c {
        0
    } else {
        1 + first_index(s.drop_first(), c)
    }
}

/// Whether `s` begins with `prefix`.
pub open spec fn starts_with(s: Seq<char>, prefix: Seq<char>) -> bool {
    prefix.len() <= s.len() && s.take(prefix.len() as int) == prefix
}

/// The user that the word `token` names: the number behind `id:`.
pub open spec fn id_prefix_spec(token: Seq<char>) -> Option<i64> {
    if starts_with(token, "id:"@) {
        match parse_int(token.skip("id:"@.len() as int)) {
            Some(v) => if i64::MIN <= v <= i64::MAX {
                Some(v as i64)
            } else {
                None
            },
            None => None,
        }
    } else {
        None
    }
}

/// The keyword and the author filter of a search query. Where the query
/// has a space, and the part before the first space names a user, the
/// keyword is the rest; else where the rest names a user, the keyword is
/// the part before. Otherwise the whole query is the keyword and the
/// author is `fallback`.
pub open spec fn query_spec(query: Seq<char>, fallback: Option<i64>) -> (Seq<char>, Option<i64>) {
    let at = first_index(query, ' ');
    if at < query.len() {
        let head = query.take(at);
        let tail = query.skip(at + 1);
        match id_prefix_spec(head) {
            Some(uid) => (tail, Some(uid)),
            None => match id_prefix_spec(tail) {
                Some(uid) => (head, Some(uid)),
                None => (query, fallback),
            },
        }
    } else {
        (query, fallback)
    }
}

/// The query of a search command: what follows `/s ` or `/search `, or
/// the whole text where it begins with neither.
pub open spec fn command_query(text: Seq<char>) -> Seq<char> {
    if starts_with(text, "/s "@) {
        text.skip("/s "@.len() as int)
    } else if starts_with(text, "/search "@) {
        text.skip("/search "@.len() as int)
    } else {
        text
    }
}

/// Appends to `out` the characters of `chars` from `from` to `to`,
/// with `&`, `<` and `>` written out.
fn push_escaped(out: &mut String, chars: &Vec<char>, to: usize)
    requires
        to <= chars.len(),
    ensures
        final(out)@ == old(out)@ + escape_spec(chars@.take(to as int)),
{
    let mut i: usize = 0;
    assert(chars@.take(0).len() == 0);
    assert(out@ =~= old(out)@ + escape_spec(chars@.take(0)));
    while i < to
        invariant
            i <= to <= chars.len(),
            out@ == old(out)@ + escape_spec(chars@.take(i as int)),
        decreases to - i,
    {
        let ghost before = out@;
        assert(chars@.take(i + 1).drop_last() == chars@.take(i as int));
        assert(chars@.take(i + 1).last() == chars@[i as int]);
        let c = chars[i];
        if c == '&' {
            out.append("&amp;");
        } else if c == '<' {
            out.append("&lt;");
        } else if c == '>' {
            out.append("&gt;");
        } else {
            push_char(out, c);
            assert(before.push(c) =~= before + seq![c]);
        }
        assert(out@ =~= old(out)@ + escape_spec(chars@.take(i + 1)));
        i = i + 1;
    }
}

/// The text `s` with `&`, `<` and `>` written out.
pub fn html_escape(s: &str) -> (escaped: String)
    ensures
        escaped@ == escape_spec(s@),
{
    let chars = chars_of(s);
    let mut out = String::new();
    push_escaped(&mut out, &chars, chars.len());
    assert(chars@.take(chars.len() as int) == chars@);
    assert(out@ =~= escape_spec(s@));
    out
}

/// The text `s`, cut after `max_chars` characters and followed by `...`
/// where it is longer, with `&`, `<` and `>` written out.
pub fn truncate_html(s: &str, max_chars: usize) -> (shown: String)
    ensures
        shown@ == truncate_spec(s@, max_chars as nat),
{
    let chars = chars_of(s);
    let mut out = String::new();
    if chars.len() > max_chars {
        push_escaped(&mut out, &chars, max_chars);
        out.append("...");
        assert(out@ =~= truncate_spec(s@, max_chars as nat));
    } else {
        push_escaped(&mut out, &chars, chars.len());
        assert(chars@.take(chars.len() as int) == chars@);
        assert(out@ =~= truncate_spec(s@, max_chars as nat));
    }
    out
}

/// Appends the link to the message `message_id` of chat `chat_id`.
fn push_message_link(out: &mut String, chat_id: i64, message_id: i64)
    ensures
        final(out)@ == old(out)@ + link_spec(chat_id, message_id),
{
    let abs_id: u64 = if chat_id == i64::MIN {
        9223372036854775808u64
    } else if chat_id < 0 {
        (-chat_id) as u64
    } else {
        chat_id as u64
    };
    let channel: u64 = if abs_id > 1_000_000_000_000 {
        abs_id - 1_000_000_000_000
    } else {
        abs_id
    };
    out.append("https://t.me/c/");
    push_nat(out, channel);
    push_char(out, '/');
    push_int(out, message_id);
    assert(out@ =~= old(out)@ + link_spec(chat_id, message_id));
}

/// The link to the message `message_id` of the chat `chat_id`.
pub fn format_message_link(chat_id: i64, message_id: i64) -> (link: String)
    ensures
        link@ == link_spec(chat_id, message_id),
{
    let mut link = String::new();
    push_message_link(&mut link, chat_id, message_id);
    assert(link@ =~= link_spec(chat_id, message_id));
    link
}

/// Whether `chars` begins with the characters of `prefix`.
fn has_prefix(chars: &Vec<char>, prefix: &str) -> (yes: bool)
    ensures
        yes == starts_with(chars@, prefix@),
{
    let p = chars_of(prefix);
    if p.len() > chars.len() {
        return false;
    }
    let mut i: usize = 0;
    while i < p.len()
        invariant
            i <= p.len() <= chars.len(),
            p@ == prefix@,
            forall|j: int| 0 <= j < i ==> chars@[j] == p@[j],
        decreases p.len() - i,
    {
        if chars[i] != p[i] {
            assert(chars@.take(p.len() as int)[i as int] != p@[i as int]);
            return false;
        }
        i = i + 1;
    }
    assert(chars@.take(p.len() as int) =~= p@);
    true
}

/// The characters of `chars` from `from` on.
fn tail_of(chars: &Vec<char>, from: usize) -> (tail: Vec<char>)
    requires
        from <= chars.len(),
    ensures
        tail@ == chars@.skip(from as int),
{
    let mut tail: Vec<char> = Vec::new();
    let mut i: usize = from;
    while i < chars.len()
        invariant
            from <= i <= chars.len(),
            tail@ == chars@.subrange(from as int, i as int),
        decreases chars.len() - i,
    {
        tail.push(chars[i]);
        i = i + 1;
        assert(tail@ =~= chars@.subrange(from as int, i as int));
    }
    assert(tail@ =~= chars@.skip(from as int));
    tail
}

/// The first `to` characters of `chars`.
fn head_of(chars: &Vec<char>, to: usize) -> (head: Vec<char>)
    requires
        to <= chars.len(),
    ensures
        head@ == chars@.take(to as int),
{
    let mut head: Vec<char> = Vec::new();
    let mut i: usize = 0;
    while i < to
        invariant
            i <= to <= chars.len(),
            head@ == chars@.take(i as int),
        decreases to - i,
    {
        head.push(chars[i]);
        i = i + 1;
        assert(head@ =~= chars@.take(i as int));
    }
    head
}

/// The user that the word `token` names: the number behind `id:`.
fn id_prefix_of(token: &Vec<char>) -> (uid: Option<i64>)
    ensures
        uid == id_prefix_spec(token@),
{
    proof {
        reveal_strlit("id:");
    }
    if has_prefix(token, "id:") {
        let digits = tail_of(token, 3);
        parse_i64_chars(&digits)
    } else {
        None
    }
}

/// The user that the word `token` names: the number behind `id:`.
pub fn try_parse_id_prefix(token: &str) -> (uid: Option<i64>)
    ensures
        uid == id_prefix_spec(token@),
{
    let chars = chars_of(token);
    id_prefix_of(&chars)
}

/// The position of the first `c` in `chars`.
fn find_first(chars: &Vec<char>, c: char) -> (at: usize)
    ensures
        at == first_index(chars@, c),
        at <= chars.len(),
{
    let mut i: usize = 0;
    assert(chars@.skip(0) == chars@);
    while i < chars.len()
        invariant
            i <= chars.len(),
            first_index(chars@, c) == i + first_index(chars@.skip(i as int), c),
        decreases chars.len() - i,
    {
        assert(chars@.skip(i as int)[0] == chars@[i as int]);
        assert(chars@.skip(i as int).drop_first() == chars@.skip(i + 1));
        if chars[i] == c {
            return i;
        }
        i = i + 1;
    }
    assert(chars@.skip(i as int).len() == 0);
    i
}

/// The keyword and the author filter of a search query; see
/// `query_spec`.
pub fn parse_search_query(query: &str, reply_user_id: Option<i64>) -> (parsed: (
    String,
    Option<i64>,
))
    ensures
        parsed.0@ == query_spec(query@, reply_user_id).0,
        parsed.1 == query_spec(query@, reply_user_id).1,
{
    let chars = chars_of(query);
    let at = find_first(&chars, ' ');
    if at < chars.len() {
        let head = head_of(&chars, at);
        let tail = tail_of(&chars, at + 1);
        match id_prefix_of(&head) {
            Some(uid) => {
                return (string_of(&tail), Some(uid));
            },
            None => {},
        }
        match id_prefix_of(&tail) {
            Some(uid) => {
                return (string_of(&head), Some(uid));
            },
            None => {},
        }
    }
    (string_of(&chars), reply_user_id)
}

/// The query of a search command: what follows `/s ` or `/search `, or
/// the whole text where it begins with neither. `None` for a message
/// without text.
pub fn extract_search_query(text: Option<&str>) -> (query: Option<String>)
    ensures
        match (text, query) {
            (Some(t), Some(q)) => q@ == command_query(t@),
            (None, None) => true,
            _ => false,
        },
{
    let text = match text {
        Some(t) => t,
        None => {
            return None;
        },
    };
    proof {
        reveal_strlit("/s ");
        reveal_strlit("/search ");
    }
    let chars = chars_of(text);
    if has_prefix(&chars, "/s ") {
        Some(string_of(&tail_of(&chars, 3)))
    } else if has_prefix(&chars, "/search ") {
        Some(string_of(&tail_of(&chars, 8)))
    } else {
        Some(string_of(&chars))
    }
}

/// What a result says of its author: a link to the user, or nothing
/// where the author is not known.
pub open spec fn user_info_spec(user_id: Option<i64>) -> Seq<char> {
    match user_id {
        Some(id) => " | <a href=\"tg://user?id="@ + int_digits(id as int) + "\">User "@
            + int_digits(id as int) + "</a>"@,
        None => Seq::empty(),
    }
}

/// What a result shows of the message: the part that matched, or else
/// the beginning of the text.
pub open spec fn snippet_spec(hit: SearchHit) -> Seq<char> {
    match hit.highlight {
        Some(h) => h@,
        None => truncate_spec(hit.message.text@, SNIPPET_CHARS as nat),
    }
}

/// The text of one result: its number, the written time `date`, the
/// author, the snippet and a link to the message.
pub open spec fn hit_text(num: nat, date: Seq<char>, hit: SearchHit, chat_id: i64) -> Seq<char> {
    nat_digits(num) + ". <i>"@ + date + "</i>"@ + user_info_spec(hit.message.user_id) + "\n"@
        + snippet_spec(hit) + "\n<a href=\""@ + link_spec(chat_id, hit.message.message_id)
        + "\">跳转到消息</a>\n\n"@
}

/// The written time of a message; nothing for a moment outside the
/// calendar.
pub open spec fn date_text(timestamp: i64) -> Seq<char> {
    match formatted_minute(timestamp) {
        Some(d) => d,
        None => Seq::empty(),
    }
}

/// The texts of the results `hits` of page `page`, one after the other,
/// numbered on from five times the page.
pub open spec fn hits_text(hits: Seq<SearchHit>, page: nat, chat_id: i64) -> Seq<char>
    decreases hits.len(),
{
    if hits.len() == 0 {
        Seq::empty()
    } else {
        hits_text(hits.drop_last(), page, chat_id) + hit_text(
            page * 5 + hits.len(),
            date_text(hits.last().message.date),
            hits.last(),
            chat_id,
        )
    }
}

/// The line above the results: how many there are and which page of
/// how many this is.
pub open spec fn header_spec(total: u64, page: nat, total_pages: nat) -> Seq<char> {
    "共找到 <b>"@ + nat_digits(total as nat) + "</b> 条结果（第 "@ + nat_digits(page + 1) + "/"@
        + nat_digits(total_pages) + " 页）：\n\n"@
}

/// The text of a page of results.
pub open spec fn results_text(result: SearchResult, chat_id: i64) -> Seq<char> {
    if result.total == 0 {
        "未找到相关消息。"@
    } else {
        header_spec(result.total, result.page as nat, result.total_pages as nat) + hits_text(
            result.messages@,
            result.page as nat,
            chat_id,
        )
    }
}

/// Appends the text of one result, whose time is written `date`.
pub fn render_hit(out: &mut String, num: usize, date: &str, hit: &SearchHit, chat_id: i64)
    ensures
        final(out)@ == old(out)@ + hit_text(num as nat, date@, *hit, chat_id),
{
    push_nat(out, num as u64);
    out.append(". <i>");
    out.append(date);
    out.append("</i>");
    match hit.message.user_id {
        Some(id) => {
            out.append(" | <a href=\"tg://user?id=");
            push_int(out, id);
            out.append("\">User ");
            push_int(out, id);
            out.append("</a>");
        },
        None => {},
    }
    assert(out@ =~= old(out)@ + nat_digits(num as nat) + ". <i>"@ + date@ + "</i>"@
        + user_info_spec(hit.message.user_id));
    out.append("\n");
    match &hit.highlight {
        Some(h) => {
            out.append(h.as_str());
        },
        None => {
            let shown = truncate_html(hit.message.text.as_str(), SNIPPET_CHARS);
            out.append(shown.as_str());
        },
    }
    out.append("\n<a href=\"");
    push_message_link(out, chat_id, hit.message.message_id);
    out.append("\">跳转到消息</a>\n\n");
    assert(out@ =~= old(out)@ + hit_text(num as nat, date@, *hit, chat_id));
}

/// The text of a page of results: a note where nothing was found, else
/// the header and the results, each with its time as `chrono` writes
/// it.
pub fn format_results(result: &SearchResult, chat_id: i64) -> (text: String)
    requires
        result.page * 5 + result.messages.len() <= usize::MAX,
        result.page < usize::MAX,
    ensures
        text@ == results_text(*result, chat_id),
{
    if result.total == 0 {
        return String::from_str("未找到相关消息。");
    }
    let mut text = String::new();
    text.append("共找到 <b>");
    push_nat(&mut text, result.total);
    text.append("</b> 条结果（第 ");
    push_nat(&mut text, (result.page + 1) as u64);
    text.append("/");
    push_nat(&mut text, result.total_pages as u64);
    text.append(" 页）：\n\n");
    let ghost header = text@;
    assert(header =~= header_spec(result.total, result.page as nat, result.total_pages as nat));
    let mut i: usize = 0;
    assert(result.messages@.take(0).len() == 0);
    assert(text@ =~= header + hits_text(result.messages@.take(0), result.page as nat, chat_id));
    while i < result.messages.len()
        invariant
            i <= result.messages.len(),
            result.page * 5 + result.messages.len() <= usize::MAX,
            text@ == header + hits_text(
                result.messages@.take(i as int),
                result.page as nat,
                chat_id,
            ),
        decreases result.messages.len() - i,
    {
        let ghost before = text@;
        assert(result.messages@.take(i + 1).drop_last() == result.messages@.take(i as int));
        assert(result.messages@.take(i + 1).last() == result.messages@[i as int]);
        let hit = &result.messages[i];
        let num = result.page * RESULTS_PER_PAGE + i + 1;
        let date = match format_minute(hit.message.date) {
            Some(d) => d,
            None => String::new(),
        };
        render_hit(&mut text, num, date.as_str(), hit, chat_id);
        assert(text@ =~= header + hits_text(
            result.messages@.take(i + 1),
            result.page as nat,
            chat_id,
        ));
        i = i + 1;
    }
    assert(result.messages@.take(result.messages.len() as int) == result.messages@);
    text
}

} // verus!
