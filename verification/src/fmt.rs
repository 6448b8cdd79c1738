//! Replies put into words: the text of a message and the spans of it that
//! are shown in a special way.

use crate::clock::format_in_local_zone;
use crate::clock::format_in_zone;
use crate::clock::is_instant;
use crate::clock::local_zone_label;
use crate::clock::zone_known;
use crate::clock::zone_parses;
use crate::clock::zone_time_text;
use crate::clock::Zone;
use crate::clock::MAX_INSTANT;
use crate::clock::MIN_INSTANT;
use crate::reply::ListEntry;
use crate::text::append_signed_decimal;
use crate::text::signed_decimal;
use crate::reply::Refusal;
use crate::reply::Reply;
use crate::text::append_decimal;
use crate::text::clip;
use crate::text::decimal;
use crate::text::utf16_len;
use crate::text::utf16_units;
use vstd::prelude::*;
use vstd::string::StrSliceExecFns;
use vstd::string::StringExecFns;

verus! {

/// How a span of a message is shown.
#[derive(Clone, Copy, Debug, PartialEq, Eq, Structural)]
pub enum EntityKind {
    /// A link to the help.
    HelpLink,
    /// A link to the source code of the program.
    SourceLink,
    /// Bold type.
    Bold,
    /// Type of fixed width.
    Code,
    /// A mention of a user.
    Mention { user_id: i64 },
}

/// A span of a message; offset and length count units of 16 bits of the
/// text in UTF-16.
#[derive(Clone, Copy, Debug, PartialEq, Eq, Structural)]
pub struct Entity {
    pub offset: u64,
    pub length: u64,
    pub kind: EntityKind,
}

/// A message as it is sent.
#[derive(Clone, Debug, PartialEq, Eq)]
pub struct Message {
    pub text: String,
    pub entities: Vec<Entity>,
}

/// The span that `part` takes when it stands right behind `before`.
pub open spec fn entity_at(before: Seq<char>, part: Seq<char>, kind: EntityKind) -> Entity {
    Entity { offset: clip(utf16_len(before)), length: clip(utf16_len(part)), kind }
}

/// The span that `part` takes when it is put at the end of `text`.
pub fn span(text: &String, part: &str, kind: EntityKind) -> (entity: Entity)
    ensures
        entity == entity_at(text@, part@, kind),
{
    Entity { offset: utf16_units(text.as_str()), length: utf16_units(part), kind }
}

/// The words that lead to the help.
pub open spec fn help_text() -> Seq<char> {
    "点击查看帮助。"@
}

/// Where the help is found.
pub fn help_url() -> (url: &'static str)
    ensures
        url@ == "https://telegra.ph/%E4%BD%BF%E7%94%A8%E5%B8%AE%E5%8A%A9-11-29"@,
{
    "https://telegra.ph/%E4%BD%BF%E7%94%A8%E5%B8%AE%E5%8A%A9-11-29"
}

/// Where the source code of the program is found, at the commit `commit`.
pub fn source_url(commit: &str) -> (url: String)
    ensures
        url@ == "https://github.com/rikakomoe/hyper_bed_caller/tree/"@ + commit@,
{
    let mut url = String::from_str("https://github.com/rikakomoe/hyper_bed_caller/tree/");
    url.append(commit);
    url
}

/// A message of plain text.
pub fn build_plain_message(s: &str) -> (message: Message)
    ensures
        message.text@ == s@,
        message.entities@.len() == 0,
{
    Message { text: s.to_owned(), entities: Vec::new() }
}

/// What the program says of itself, with a link to its source code.
pub fn f_about_message() -> (message: Message)
    ensures
        message.text@ == "是\u{1f980}女仆。"@ + "点击查看源代码。"@,
        message.entities@ == seq![
            entity_at("是\u{1f980}女仆。"@, "点击查看源代码。"@, EntityKind::SourceLink),
        ],
{
    let mut text = String::from_str("是\u{1f980}女仆。");
    let entity = span(&text, "点击查看源代码。", EntityKind::SourceLink);
    text.append("点击查看源代码。");
    let mut entities: Vec<Entity> = Vec::new();
    entities.push(entity);
    assert(entities@ =~= seq![entity]);
    Message { text, entities }
}

/// The pointer to the help.
pub fn f_help_message() -> (message: Message)
    ensures
        message.text@ == help_text(),
        message.entities@ == seq![entity_at(Seq::empty(), help_text(), EntityKind::HelpLink)],
{
    let mut text = String::new();
    let entity = span(&text, "点击查看帮助。", EntityKind::HelpLink);
    text.append("点击查看帮助。");
    let mut entities: Vec<Entity> = Vec::new();
    entities.push(entity);
    assert(entities@ =~= seq![entity]);
    assert(text@ =~= help_text());
    Message { text, entities }
}

/// A refusal: the reason, and the pointer to the help behind it.
pub fn f_bad_arguments(reason: &str) -> (message: Message)
    ensures
        message.text@ == reason@ + help_text(),
        message.entities@ == seq![entity_at(reason@, help_text(), EntityKind::HelpLink)],
{
    let mut text = reason.to_owned();
    let entity = span(&text, "点击查看帮助。", EntityKind::HelpLink);
    text.append("点击查看帮助。");
    let mut entities: Vec<Entity> = Vec::new();
    entities.push(entity);
    assert(entities@ =~= seq![entity]);
    Message { text, entities }
}

/// What stands in front of the digits of a challenge: the script to answer in.
pub open spec fn challenge_lead(script: Seq<char>) -> Seq<char> {
    "请用汉字“"@ + script + "”输入下面的数字以关闭闹钟：\n"@
}

/// A challenge: which script to answer in, and the digits, in type of
/// fixed width.
pub fn f_strict_challenge(challenge: &str, challenge_map: &str) -> (message: Message)
    ensures
        message.text@ == challenge_lead(challenge_map@) + challenge@,
        message.entities@ == seq![
            entity_at(challenge_lead(challenge_map@), challenge@, EntityKind::Code),
        ],
{
    let mut text = String::from_str("请用汉字“");
    text.append(challenge_map);
    text.append("”输入下面的数字以关闭闹钟：\n");
    let entity = span(&text, challenge, EntityKind::Code);
    text.append(challenge);
    let mut entities: Vec<Entity> = Vec::new();
    entities.push(entity);
    assert(entities@ =~= seq![entity]);
    Message { text, entities }
}

/// What stands in front of the name in a call for help.
pub open spec fn help_alarm_lead(is_discard: bool) -> Seq<char> {
    if is_discard {
        "群友们，妹抖酱叫不醒"@
    } else {
        "群友们，妹抖酱叫不到"@
    }
}

/// What stands behind the name in a call for help.
pub open spec fn help_alarm_tail(is_discard: bool) -> Seq<char> {
    if is_discard {
        "了，快来帮忙催一下！"@
    } else {
        "了，快想办法用别的方式（比如电话）叫一下！！！"@
    }
}

/// A call for help to a group: the user, mentioned by name, does not wake
/// up (the call was declined) or cannot be reached.
pub fn f_help_alarm(name: &str, user_id: i64, is_discard: bool) -> (message: Message)
    ensures
        message.text@ == help_alarm_lead(is_discard) + name@ + help_alarm_tail(is_discard),
        message.entities@ == seq![
            entity_at(help_alarm_lead(is_discard), name@, EntityKind::Mention { user_id }),
        ],
{
    let mut text = if is_discard {
        String::from_str("群友们，妹抖酱叫不醒")
    } else {
        String::from_str("群友们，妹抖酱叫不到")
    };
    let entity = span(&text, name, EntityKind::Mention { user_id });
    text.append(name);
    if is_discard {
        text.append("了，快来帮忙催一下！");
    } else {
        text.append("了，快想办法用别的方式（比如电话）叫一下！！！");
    }
    let mut entities: Vec<Entity> = Vec::new();
    entities.push(entity);
    assert(entities@ =~= seq![entity]);
    Message { text, entities }
}

/// A schedule without its seconds field, which takes the first two
/// characters.
pub open spec fn cron_tail(cron: Seq<char>) -> Seq<char> {
    if cron.len() >= 2 {
        cron.skip(2)
    } else {
        Seq::empty()
    }
}

/// The number of an alarm as the list shows it.
pub open spec fn entry_number(id: usize) -> Seq<char> {
    "["@ + decimal(id as nat) + "]"@
}

/// Whether a line of the list is one of an alarm that has expired.
pub open spec fn shows_expired(entry: ListEntry) -> bool {
    !entry.informing && entry.expired
}

/// What a line of the list says of the state of the alarm.
pub open spec fn entry_state(entry: ListEntry) -> Seq<char> {
    if entry.informing {
        "#进行中  "@
    } else if entry.expired {
        "#已过期  "@
    } else {
        Seq::empty()
    }
}

/// What a line of the list says of the alarm: state, title and mode.
pub open spec fn entry_flags(entry: ListEntry) -> Seq<char> {
    entry_state(entry) + (if entry.disabled {
        "#已禁用  "@
    } else {
        Seq::empty()
    }) + (if entry.title@.len() > 0 {
        entry.title@ + "  "@
    } else {
        Seq::empty()
    }) + (if entry.strict {
        "#严格模式  "@
    } else {
        Seq::empty()
    })
}

/// A line of the list up to the schedule: the number, and what the line
/// says of the alarm.
pub open spec fn entry_head(entry: ListEntry) -> Seq<char> {
    entry_number(entry.id) + "  "@ + entry_flags(entry)
}

/// A line of the list.
pub open spec fn entry_line(entry: ListEntry) -> Seq<char> {
    entry_head(entry) + cron_tail(entry.cron@) + "\n"@
}

/// The spans of a line of the list that stands behind `before`: the
/// number in bold type, the schedule in type of fixed width.
pub open spec fn entry_entities(before: Seq<char>, entry: ListEntry) -> Seq<Entity> {
    seq![
        entity_at(before, entry_number(entry.id), EntityKind::Bold),
        entity_at(before + entry_head(entry), cron_tail(entry.cron@), EntityKind::Code),
    ]
}

/// The lines of the list.
pub open spec fn list_lines(entries: Seq<ListEntry>) -> Seq<char>
    decreases entries.len(),
{
    if entries.len() == 0 {
        Seq::empty()
    } else {
        list_lines(entries.drop_last()) + entry_line(entries.last())
    }
}

/// The spans of the lines of the list.
pub open spec fn list_entities(entries: Seq<ListEntry>) -> Seq<Entity>
    decreases entries.len(),
{
    if entries.len() == 0 {
        Seq::empty()
    } else {
        list_entities(entries.drop_last()) + entry_entities(
            list_lines(entries.drop_last()),
            entries.last(),
        )
    }
}

/// Whether the list has a line of an alarm that has expired.
pub open spec fn any_expired(entries: Seq<ListEntry>) -> bool {
    exists|i: int| 0 <= i < entries.len() && shows_expired(#[trigger] entries[i])
}

/// The text of the list: the lines, a hint at the purge if an alarm has
/// expired; if there is no line, a word on that, and on where to look if the
/// user has alarms that this chat does not show.
pub open spec fn list_text(entries: Seq<ListEntry>, total: usize) -> Seq<char> {
    let body = list_lines(entries) + (if any_expired(entries) {
        "\nTip：使用命令 #purge 清除所有已过期的闹钟。"@
    } else {
        Seq::empty()
    });
    if body.len() == 0 {
        "还一个闹钟都没有呢。"@ + (if total > 0 {
            "回私聊中试试吧。"@
        } else {
            Seq::empty()
        })
    } else {
        body
    }
}

/// Writes the number of an alarm as the list shows it.
fn number_text(id: usize) -> (number: String)
    ensures
        number@ == entry_number(id),
{
    let mut number = String::from_str("[");
    append_decimal(&mut number, id as u64);
    number.append("]");
    number
}

/// Writes what a line says of state, title and mode at the end of `text`.
fn append_flags(text: &mut String, entry: &ListEntry)
    ensures
        final(text)@ == old(text)@ + entry_flags(*entry),
{
    if entry.informing {
        text.append("#进行中  ");
    } else if entry.expired {
        text.append("#已过期  ");
    }
    assert(text@ =~= old(text)@ + entry_state(*entry));
    if entry.disabled {
        text.append("#已禁用  ");
    }
    if entry.title.as_str().unicode_len() > 0 {
        text.append(entry.title.as_str());
        text.append("  ");
    }
    if entry.strict {
        text.append("#严格模式  ");
    }
    assert(text@ =~= old(text)@ + entry_flags(*entry));
}

/// Writes a line of the list at the end of `text` and adds its spans.
fn append_entry(text: &mut String, entities: &mut Vec<Entity>, entry: &ListEntry)
    ensures
        final(text)@ == old(text)@ + entry_line(*entry),
        final(entities)@ == old(entities)@ + entry_entities(old(text)@, *entry),
{
    let ghost before = text@;
    let number = number_text(entry.id);
    entities.push(span(text, number.as_str(), EntityKind::Bold));
    text.append(number.as_str());
    text.append("  ");
    append_flags(text, entry);
    assert(text@ =~= before + entry_head(*entry));
    let length = entry.cron.as_str().unicode_len();
    let tail = if length >= 2 {
        entry.cron.as_str().substring_char(2, length)
    } else {
        proof {
            reveal_strlit("");
        }
        ""
    };
    assert(tail@ =~= cron_tail(entry.cron@));
    entities.push(span(text, tail, EntityKind::Code));
    text.append(tail);
    text.append("\n");
    assert(text@ =~= before + entry_line(*entry));
    assert(entities@ =~= old(entities)@ + entry_entities(before, *entry));
}

/// The list of a user's alarms; `total` counts also the alarms that the
/// chat does not show.
pub fn f_list_alarms(entries: &Vec<ListEntry>, total: usize) -> (message: Message)
    ensures
        message.text@ == list_text(entries@, total),
        message.entities@ == list_entities(entries@),
{
    let mut text = String::new();
    let mut entities: Vec<Entity> = Vec::new();
    let mut have_expired = false;
    let mut i: usize = 0;
    while i < entries.len()
        invariant
            i <= entries.len(),
            text@ == list_lines(entries@.take(i as int)),
            entities@ == list_entities(entries@.take(i as int)),
            have_expired == any_expired(entries@.take(i as int)),
        decreases entries.len() - i,
    {
        let entry = &entries[i];
        let ghost seen = entries@.take(i as int);
        let ghost upto = entries@.take(i + 1);
        proof {
            assert(upto.drop_last() =~= seen);
            assert(upto.last() == *entry);
        }
        append_entry(&mut text, &mut entities, entry);
        if !entry.informing && entry.expired {
            have_expired = true;
        }
        proof {
            if shows_expired(*entry) {
                assert(shows_expired(upto[i as int]));
            }
            if any_expired(seen) {
                let k = choose|k: int| 0 <= k < seen.len() && shows_expired(#[trigger] seen[k]);
                assert(shows_expired(upto[k]));
            }
            if any_expired(upto) {
                let k = choose|k: int| 0 <= k < upto.len() && shows_expired(#[trigger] upto[k]);
                if k < i {
                    assert(shows_expired(seen[k]));
                }
            }
        }
        i += 1;
    }
    assert(entries@.take(i as int) =~= entries@);
    if have_expired {
        text.append("\nTip：使用命令 #purge 清除所有已过期的闹钟。");
    }
    if text.as_str().unicode_len() == 0 {
        text.append("还一个闹钟都没有呢。");
        if total > 0 {
            text.append("回私聊中试试吧。");
        }
    }
    assert(text@ =~= list_text(entries@, total));
    Message { text, entities }
}

/// Why a command was turned down, in words.
pub open spec fn refusal_reason(refusal: Refusal) -> Seq<char> {
    match refusal {
        Refusal::BadIndex => "闹钟编号格式有误。"@,
        Refusal::NoSuchAlarm => "没有这个编号的闹钟。"@,
        Refusal::BadExpression => "无效的表达式。"@,
        Refusal::UnknownZone => "没有这个时区。"@,
        Refusal::NoAlarmsYet => "还没有设置过闹钟呢，去设置一些吧。"@,
        Refusal::NothingUpcoming => "没有要响的闹钟了，去设置一些吧。"@,
        Refusal::NothingSoon => "最近没有要响的闹钟。"@,
        Refusal::SleepNeedsBang => "没有这个命令，使用 #sleep! "@,
    }
}

/// Why a command was turned down, in words.
pub fn reason_of(refusal: Refusal) -> (reason: &'static str)
    ensures
        reason@ == refusal_reason(refusal),
{
    match refusal {
        Refusal::BadIndex => "闹钟编号格式有误。",
        Refusal::NoSuchAlarm => "没有这个编号的闹钟。",
        Refusal::BadExpression => "无效的表达式。",
        Refusal::UnknownZone => "没有这个时区。",
        Refusal::NoAlarmsYet => "还没有设置过闹钟呢，去设置一些吧。",
        Refusal::NothingUpcoming => "没有要响的闹钟了，去设置一些吧。",
        Refusal::NothingSoon => "最近没有要响的闹钟。",
        Refusal::SleepNeedsBang => "没有这个命令，使用 #sleep! ",
    }
}

/// A sentence about an alarm: `bare` for an alarm without a title, else the
/// title between `lead` and `tail`.
pub open spec fn titled(
    title: Seq<char>,
    bare: Seq<char>,
    lead: Seq<char>,
    tail: Seq<char>,
) -> Seq<char> {
    if title.len() == 0 {
        bare
    } else {
        lead + title + tail
    }
}

/// Writes a sentence about an alarm.
pub fn titled_text(title: &str, bare: &str, lead: &str, tail: &str) -> (text: String)
    ensures
        text@ == titled(title@, bare@, lead@, tail@),
{
    if title.unicode_len() == 0 {
        bare.to_owned()
    } else {
        let mut text = lead.to_owned();
        text.append(title);
        text.append(tail);
        text
    }
}

/// An alarm named by its number, and by its title if it has one.
pub open spec fn numbered(id: usize, title: Seq<char>) -> Seq<char> {
    if title.len() == 0 {
        entry_number(id)
    } else {
        entry_number(id) + " "@ + title
    }
}

/// Names an alarm by its number, and by its title if it has one.
pub fn numbered_text(id: usize, title: &str) -> (text: String)
    ensures
        text@ == numbered(id, title@),
{
    let mut text = number_text(id);
    if title.unicode_len() > 0 {
        text.append(" ");
        text.append(title);
    }
    text
}

/// What a user without a known name is called.
pub open spec fn nameless() -> Seq<char> {
    "他"@
}

/// The text of a reply; `shown` is the instant or the zone of the reply as
/// it is shown, for the replies that have one.
pub open spec fn reply_text(reply: Reply, shown: Seq<char>) -> Seq<char> {
    match reply {
        Reply::Help => help_text(),
        Reply::Refused(refusal) => refusal_reason(refusal) + help_text(),
        Reply::Disarmed { title } => titled(title@, "闹钟已关闭。"@, "闹钟 "@, " 已关闭。"@),
        Reply::AlarmSet { title, next, zone } => titled(
            title@,
            "闹钟已设置。"@,
            "闹钟 "@,
            " 已设置。"@,
        ) + (if next is Some {
            "下次闹钟时间："@ + shown
        } else {
            "但是它看起来并不会响。"@
        }),
        Reply::ZoneIs { zone, now } => "当前时区："@ + shown,
        Reply::ZoneSet { name } => "时区已更新为 "@ + name@ + "。"@,
        Reply::Listing { entries, total } => list_text(entries@, total),
        Reply::GroupNothingUpcoming => "这群看不到更多要响的闹钟了，不如回私聊试试看？"@,
        Reply::GroupNothingSoon => "这群最近没有要响的闹钟了，不如回私聊试试看？"@,
        Reply::StillRinging => "你不能移除正在响铃的闹钟，请先关闭闹钟。"@,
        Reply::RemoveRefused => "你不能移除正在进行的闹钟，请先关闭闹钟。"@,
        Reply::Closed { title } => titled(
            title@,
            "已关闭正在进行的闹钟。"@,
            "已关闭正在进行的闹钟 "@,
            "。"@,
        ),
        Reply::Skipped { at, zone, title } => "已取消预定于 "@ + shown + titled(
            title@,
            " 的闹钟。"@,
            " 的闹钟 "@,
            "。"@,
        ),
        Reply::Removed => "闹钟已移除。"@,
        Reply::DisableRefused => "你不能禁用正在进行的闹钟，请先关闭闹钟。"@,
        Reply::AlreadyDisabled => "闹钟已经是禁用状态。"@,
        Reply::Disabled { title } => titled(title@, "闹钟已禁用。"@, "已禁用闹钟 "@, "。"@),
        Reply::AlreadyEnabled => "闹钟已经是启用状态。"@,
        Reply::Enabled { title } => titled(title@, "闹钟已启用。"@, "已启用闹钟 "@, "。"@),
        Reply::StrictRefused => "你不能对正在进行的闹钟使用此命令。"@,
        Reply::StrictOn { id, title } => "已变更闹钟 "@ + numbered(id, title@) + " 为严格模式。"@,
        Reply::StrictOff { id, title } => "已取消闹钟 "@ + numbered(id, title@) + " 的严格模式。"@,
        Reply::Next { at, zone, title } => "下次闹钟时间："@ + shown + " "@ + title@,
        Reply::NoAlarms => "还一个闹钟都没有呢。"@,
        Reply::Purged { count } => "已清除 "@ + decimal(count as nat) + " 个闹钟。"@,
        Reply::NothingExpired => "没有过期的闹钟。"@,
        Reply::Goodnight => "See you next time!"@,
        Reply::Challenge { digits, script } => challenge_lead(script@) + digits@,
        Reply::WakeHelp { display_name, user_id } => help_alarm_lead(true) + (match display_name {
            Some(name) => name@,
            None => nameless(),
        }) + help_alarm_tail(true),
        Reply::Title { title } => title@,
    }
}

/// The spans of a reply.
pub open spec fn reply_entities(reply: Reply) -> Seq<Entity> {
    match reply {
        Reply::Help => seq![entity_at(Seq::empty(), help_text(), EntityKind::HelpLink)],
        Reply::Refused(refusal) => seq![
            entity_at(refusal_reason(refusal), help_text(), EntityKind::HelpLink),
        ],
        Reply::Listing { entries, total } => list_entities(entries@),
        Reply::Challenge { digits, script } => seq![
            entity_at(challenge_lead(script@), digits@, EntityKind::Code),
        ],
        Reply::WakeHelp { display_name, user_id } => seq![
            entity_at(
                help_alarm_lead(true),
                match display_name {
                    Some(name) => name@,
                    None => nameless(),
                },
                EntityKind::Mention { user_id },
            ),
        ],
        _ => Seq::empty(),
    }
}

/// A message without spans.
fn plain(text: String) -> (message: Message)
    ensures
        message.text == text,
        message.entities@.len() == 0,
{
    Message { text, entities: Vec::new() }
}

/// Puts a reply into words; `shown` is the instant or the zone of the
/// reply as it is shown, for the replies that have one.
pub fn compose(reply: &Reply, shown: &str) -> (message: Message)
    ensures
        message.text@ == reply_text(*reply, shown@),
        message.entities@ == reply_entities(*reply),
{
    match reply {
        Reply::Help => f_help_message(),
        Reply::Refused(refusal) => f_bad_arguments(reason_of(*refusal)),
        Reply::Disarmed { title } => plain(
            titled_text(title.as_str(), "闹钟已关闭。", "闹钟 ", " 已关闭。"),
        ),
        Reply::AlarmSet { title, next, zone } => {
            let mut text = titled_text(title.as_str(), "闹钟已设置。", "闹钟 ", " 已设置。");
            if next.is_some() {
                text.append("下次闹钟时间：");
                text.append(shown);
            } else {
                text.append("但是它看起来并不会响。");
            }
            assert(text@ =~= reply_text(*reply, shown@));
            plain(text)
        },
        Reply::ZoneIs { zone, now } => {
            let mut text = String::from_str("当前时区：");
            text.append(shown);
            plain(text)
        },
        Reply::ZoneSet { name } => {
            let mut text = String::from_str("时区已更新为 ");
            text.append(name.as_str());
            text.append("。");
            plain(text)
        },
        Reply::Listing { entries, total } => f_list_alarms(entries, *total),
        Reply::GroupNothingUpcoming => build_plain_message(
            "这群看不到更多要响的闹钟了，不如回私聊试试看？",
        ),
        Reply::GroupNothingSoon => build_plain_message(
            "这群最近没有要响的闹钟了，不如回私聊试试看？",
        ),
        Reply::StillRinging => build_plain_message("你不能移除正在响铃的闹钟，请先关闭闹钟。"),
        Reply::RemoveRefused => build_plain_message("你不能移除正在进行的闹钟，请先关闭闹钟。"),
        Reply::Closed { title } => plain(
            titled_text(title.as_str(), "已关闭正在进行的闹钟。", "已关闭正在进行的闹钟 ", "。"),
        ),
        Reply::Skipped { at, zone, title } => {
            let mut text = String::from_str("已取消预定于 ");
            text.append(shown);
            let rest = titled_text(title.as_str(), " 的闹钟。", " 的闹钟 ", "。");
            text.append(rest.as_str());
            assert(text@ =~= reply_text(*reply, shown@));
            plain(text)
        },
        Reply::Removed => build_plain_message("闹钟已移除。"),
        Reply::DisableRefused => build_plain_message("你不能禁用正在进行的闹钟，请先关闭闹钟。"),
        Reply::AlreadyDisabled => build_plain_message("闹钟已经是禁用状态。"),
        Reply::Disabled { title } => plain(
            titled_text(title.as_str(), "闹钟已禁用。", "已禁用闹钟 ", "。"),
        ),
        Reply::AlreadyEnabled => build_plain_message("闹钟已经是启用状态。"),
        Reply::Enabled { title } => plain(
            titled_text(title.as_str(), "闹钟已启用。", "已启用闹钟 ", "。"),
        ),
        Reply::StrictRefused => build_plain_message("你不能对正在进行的闹钟使用此命令。"),
        Reply::StrictOn { id, title } => {
            let mut text = String::from_str("已变更闹钟 ");
            text.append(numbered_text(*id, title.as_str()).as_str());
            text.append(" 为严格模式。");
            plain(text)
        },
        Reply::StrictOff { id, title } => {
            let mut text = String::from_str("已取消闹钟 ");
            text.append(numbered_text(*id, title.as_str()).as_str());
            text.append(" 的严格模式。");
            plain(text)
        },
        Reply::Next { at, zone, title } => {
            let mut text = String::from_str("下次闹钟时间：");
            text.append(shown);
            text.append(" ");
            text.append(title.as_str());
            plain(text)
        },
        Reply::NoAlarms => build_plain_message("还一个闹钟都没有呢。"),
        Reply::Purged { count } => {
            let mut text = String::from_str("已清除 ");
            append_decimal(&mut text, *count as u64);
            text.append(" 个闹钟。");
            plain(text)
        },
        Reply::NothingExpired => build_plain_message("没有过期的闹钟。"),
        Reply::Goodnight => build_plain_message("See you next time!"),
        Reply::Challenge { digits, script } => f_strict_challenge(
            digits.as_str(),
            script.as_str(),
        ),
        Reply::WakeHelp { display_name, user_id } => match display_name {
            Some(name) => f_help_alarm(name.as_str(), *user_id, true),
            None => f_help_alarm("他", *user_id, true),
        },
        Reply::Title { title } => build_plain_message(title.as_str()),
    }
}

/// `text` shows the instant `at` in `zone`.
///
/// In a named zone that is known, an instant that the calendar reaches is
/// shown as `chrono` writes it. In the local zone the machine decides how it
/// is written. Any other instant is shown as its count of seconds.
pub open spec fn tells_time(zone: Zone, at: i64, text: Seq<char>) -> bool {
    match zone {
        Zone::Named(name) => text == if is_instant(at as int) && zone_known(name@) {
            zone_time_text(name@, at)
        } else {
            signed_decimal(at as int)
        },
        Zone::Local => !is_instant(at as int) ==> text == signed_decimal(at as int),
    }
}

/// Shows an instant in a zone.
pub fn time_text(zone: &Zone, at: i64) -> (text: String)
    ensures
        tells_time(*zone, at, text@),
{
    if MIN_INSTANT <= at && at <= MAX_INSTANT {
        match zone {
            Zone::Local => { return format_in_local_zone(at); },
            Zone::Named(name) => {
                if zone_parses(name.as_str()) {
                    return format_in_zone(name.as_str(), at);
                }
            },
        }
    }
    let mut text = String::new();
    append_signed_decimal(&mut text, at);
    assert(text@ =~= signed_decimal(at as int));
    text
}

/// `text` names the zone: a named zone by its name; what the local zone
/// is called the machine decides.
pub open spec fn names_zone(zone: Zone, text: Seq<char>) -> bool {
    zone matches Zone::Named(name) ==> text == name@
}

/// Names a zone, the local zone by what it is called at the instant `now`.
pub fn zone_text(zone: &Zone, now: i64) -> (text: String)
    ensures
        names_zone(*zone, text@),
{
    match zone {
        Zone::Named(name) => name.clone(),
        Zone::Local => {
            if MIN_INSTANT <= now && now <= MAX_INSTANT {
                local_zone_label(now)
            } else {
                String::new()
            }
        },
    }
}

/// `shown` is the instant or the zone of the reply as it is shown; for a
/// reply that has neither it is empty.
pub open spec fn shown_for(reply: Reply, shown: Seq<char>) -> bool {
    match reply {
        Reply::AlarmSet { title, next, zone } => match next {
            Some(at) => tells_time(zone, at, shown),
            None => shown.len() == 0,
        },
        Reply::Skipped { at, zone, title } => tells_time(zone, at, shown),
        Reply::Next { at, zone, title } => tells_time(zone, at, shown),
        Reply::ZoneIs { zone, now } => names_zone(zone, shown),
        _ => shown.len() == 0,
    }
}

/// Puts a reply into words.
pub fn render(reply: &Reply) -> (message: Message)
    ensures
        exists|shown: Seq<char>|
            {
                &&& #[trigger] shown_for(*reply, shown)
                &&& message.text@ == reply_text(*reply, shown)
                &&& message.entities@ == reply_entities(*reply)
            },
{
    let shown = match reply {
        Reply::AlarmSet { title, next, zone } => match next {
            Some(at) => time_text(zone, *at),
            None => String::new(),
        },
        Reply::Skipped { at, zone, title } => time_text(zone, *at),
        Reply::Next { at, zone, title } => time_text(zone, *at),
        Reply::ZoneIs { zone, now } => zone_text(zone, *now),
        _ => String::new(),
    };
    let message = compose(reply, shown.as_str());
    assert(shown_for(*reply, shown@));
    message
}

} // verus!
