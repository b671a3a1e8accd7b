//! wait-reply: send messages, then wait for a particular user's reply, in a
//! private chat or in a group.
use vstd::prelude::*;
use crate::cli::config::{opt_view, clone_opt, CliConfig, index_with_app_id};
use crate::cli::error::{CliError, CliErrorView};
use crate::cli::pattern::{check_pattern, pattern_matches, regex_compiles, regex_matches, regex_outcome};
use crate::model::common::{AppId, BotContext};
use crate::text::{
    chars_of, string_from, owned, push_str, push_decimal, same_text, text_ends_with, index_of_char,
    index_of, lower_equals, lowers_to_keyword, split, split_range, views, trim, trim_start,
    trim_bounds, skip_whitespace, find, find_in, ends_with, decimal_digits, parse_integer,
    parse_u16, last_piece_index, lemma_split_last, is_whitespace,
    int_text, occurs_at, lemma_decimal_digits, lemma_find_from_first, lemma_index_of_from_first,
    lemma_last_piece_after, lemma_trim_fixed, law_integer_text_round_trip,
};

pub use crate::cli::config::resolve_bot;

verus! {

/// wait-reply 命令参数
#[derive(Clone)]
pub struct WaitReplyArgs {
    /// 发送目标用户 wxid
    pub to_wxid: String,
    /// webhook 监听地址（如 0.0.0.0:4399）
    pub listen: String,
    /// 群 ID（群消息场景，以 @chatroom 结尾）
    pub group_wxid: Option<String>,
    /// 过滤发送者 wxid（默认同 --to-wxid）
    pub filter_wxid: Option<String>,
    /// 正则匹配回复内容
    pub match_: Option<String>,
    /// 超时秒数（默认无限等待）
    pub timeout: Option<u64>,
    /// 输出格式：text / json
    pub output_format: OutputFormat,
    /// 发送的消息（可多次指定），格式：TYPE:CONTENT
    pub message: Vec<String>,
    /// API Token
    pub token: Option<String>,
    /// App ID
    pub app_id: Option<String>,
    /// Bot App ID
    pub bot_app_id: Option<String>,
    /// Bot 别名
    pub bot_alias: Option<String>,
    /// API Base URL
    pub base_url: Option<String>,
}

/// 输出格式
#[derive(Clone, Copy, Debug, Default, PartialEq, Eq)]
pub enum OutputFormat {
    #[default]
    Text,
    Json,
}

/// `text` and `json`, in any case.
pub open spec fn output_format_named(s: Seq<char>) -> Option<OutputFormat> {
    if lower_equals(s, seq!['t', 'e', 'x', 't']) {
        Some(OutputFormat::Text)
    } else if lower_equals(s, seq!['j', 's', 'o', 'n']) {
        Some(OutputFormat::Json)
    } else {
        None
    }
}

impl OutputFormat {
    /// Reads an output format: `text` or `json`, in any case.
    pub fn parse_name(s: &str) -> (r: Result<OutputFormat, String>)
        ensures
            match output_format_named(s@) {
                Some(f) => r == Ok::<OutputFormat, String>(f),
                None => r matches Err(m) && m@ == "无效的输出格式: "@ + s@ + "，支持 text 或 json"@,
            },
    {
        let v = chars_of(s);
        if lowers_to_keyword(&v, 0, v.len(), &vec!['t', 'e', 'x', 't']) {
            assert(v@.subrange(0, v@.len() as int) =~= s@);
            return Ok(OutputFormat::Text);
        }
        if lowers_to_keyword(&v, 0, v.len(), &vec!['j', 's', 'o', 'n']) {
            assert(v@.subrange(0, v@.len() as int) =~= s@);
            return Ok(OutputFormat::Json);
        }
        assert(v@.subrange(0, v@.len() as int) =~= s@);
        let mut m = owned("无效的输出格式: ");
        push_str(&mut m, s);
        push_str(&mut m, "，支持 text 或 json");
        Err(m)
    }
}

impl std::str::FromStr for OutputFormat {
    type Err = String;

    fn from_str(s: &str) -> (r: Result<OutputFormat, String>)
        ensures
            match output_format_named(s@) {
                Some(f) => r == Ok::<OutputFormat, String>(f),
                None => r matches Err(m) && m@ == "无效的输出格式: "@ + s@ + "，支持 text 或 json"@,
            },
    {
        OutputFormat::parse_name(s)
    }
}

/// 退出码
#[derive(Debug, Clone, Copy, PartialEq, Eq)]
pub enum ExitStatus {
    /// 成功收到匹配的回复
    Success,
    /// 超时未收到回复
    Timeout,
    /// 发送消息失败
    SendFailed,
    /// webhook 启动失败
    WebhookFailed,
}

impl ExitStatus {
    /// The process exit code.
    pub fn code(&self) -> (r: i32)
        ensures
            r == match self {
                ExitStatus::Success => 0i32,
                ExitStatus::Timeout => 1i32,
                ExitStatus::SendFailed => 2i32,
                ExitStatus::WebhookFailed => 3i32,
            },
    {
        match self {
            ExitStatus::Success => 0,
            ExitStatus::Timeout => 1,
            ExitStatus::SendFailed => 2,
            ExitStatus::WebhookFailed => 3,
        }
    }
}

/// 要发送的消息
#[derive(Debug, Clone)]
pub enum WaitReplyMessage {
    Text(String),
    Image(String),
    Voice(String),
    Video(String),
    Link { title: String, desc: String, url: String, thumb_url: String },
}

/// A message to send, as values.
pub enum MessageView {
    Text(Seq<char>),
    Image(Seq<char>),
    Voice(Seq<char>),
    Video(Seq<char>),
    Link { title: Seq<char>, desc: Seq<char>, url: Seq<char>, thumb_url: Seq<char> },
}

impl View for WaitReplyMessage {
    type V = MessageView;

    open spec fn view(&self) -> MessageView {
        match self {
            WaitReplyMessage::Text(c) => MessageView::Text(c@),
            WaitReplyMessage::Image(c) => MessageView::Image(c@),
            WaitReplyMessage::Voice(c) => MessageView::Voice(c@),
            WaitReplyMessage::Video(c) => MessageView::Video(c@),
            WaitReplyMessage::Link { title, desc, url, thumb_url } => MessageView::Link {
                title: title@,
                desc: desc@,
                url: url@,
                thumb_url: thumb_url@,
            },
        }
    }
}

/// A message written `TYPE:CONTENT`: the type is what precedes the first `:`,
/// matched in any case against `text`, `image`, `voice`, `video` and `link`;
/// the content is the rest. A link's content is `title|desc|url|thumb_url`,
/// exactly four fields.
pub open spec fn parsed_message(s: Seq<char>) -> Result<MessageView, CliErrorView> {
    match index_of(s, ':') {
        None => Err(CliErrorView::InvalidMessageFormat),
        Some(p) => {
            let t = s.take(p);
            let c = s.skip(p + 1);
            if lower_equals(t, seq!['t', 'e', 'x', 't']) {
                Ok(MessageView::Text(c))
            } else if lower_equals(t, seq!['i', 'm', 'a', 'g', 'e']) {
                Ok(MessageView::Image(c))
            } else if lower_equals(t, seq!['v', 'o', 'i', 'c', 'e']) {
                Ok(MessageView::Voice(c))
            } else if lower_equals(t, seq!['v', 'i', 'd', 'e', 'o']) {
                Ok(MessageView::Video(c))
            } else if lower_equals(t, seq!['l', 'i', 'n', 'k']) {
                let parts = split(c, '|');
                if parts.len() == 4 {
                    Ok(
                        MessageView::Link {
                            title: parts[0],
                            desc: parts[1],
                            url: parts[2],
                            thumb_url: parts[3],
                        },
                    )
                } else {
                    Err(CliErrorView::InvalidLinkFormat)
                }
            } else {
                Err(CliErrorView::UnknownMessageType(t))
            }
        },
    }
}

impl WaitReplyMessage {
    /// Reads a message written `TYPE:CONTENT`.
    pub fn parse(s: &str) -> (r: Result<WaitReplyMessage, CliError>)
        ensures
            match parsed_message(s@) {
                Ok(m) => r matches Ok(x) && x@ == m,
                Err(e) => r matches Err(x) && x@ == e,
            },
    {
        let v = chars_of(s);
        let p = match index_of_char(&v, ':') {
            Some(p) => p,
            None => return Err(CliError::InvalidMessageFormat),
        };
        let n = v.len();
        assert(v@.subrange(0, p as int) =~= s@.take(p as int));
        assert(v@.subrange(p + 1, n as int) =~= s@.skip(p + 1));
        if lowers_to_keyword(&v, 0, p, &vec!['t', 'e', 'x', 't']) {
            Ok(WaitReplyMessage::Text(string_from(&v, p + 1, n)))
        } else if lowers_to_keyword(&v, 0, p, &vec!['i', 'm', 'a', 'g', 'e']) {
            Ok(WaitReplyMessage::Image(string_from(&v, p + 1, n)))
        } else if lowers_to_keyword(&v, 0, p, &vec!['v', 'o', 'i', 'c', 'e']) {
            Ok(WaitReplyMessage::Voice(string_from(&v, p + 1, n)))
        } else if lowers_to_keyword(&v, 0, p, &vec!['v', 'i', 'd', 'e', 'o']) {
            Ok(WaitReplyMessage::Video(string_from(&v, p + 1, n)))
        } else if lowers_to_keyword(&v, 0, p, &vec!['l', 'i', 'n', 'k']) {
            let mut parts = split_range(&v, p + 1, n, '|');
            assert(views(parts@).len() == parts@.len());
            assert(views(parts@) == split(s@.skip(p + 1), '|'));
            if parts.len() != 4 {
                return Err(CliError::InvalidLinkFormat);
            }
            let ghost ps = views(parts@);
            assert(ps[0] == parts@[0]@ && ps[1] == parts@[1]@ && ps[2] == parts@[2]@ && ps[3]
                == parts@[3]@);
            let thumb_url = parts.pop().unwrap();
            let url = parts.pop().unwrap();
            let desc = parts.pop().unwrap();
            let title = parts.pop().unwrap();
            Ok(WaitReplyMessage::Link { title, desc, url, thumb_url })
        } else {
            Err(CliError::UnknownMessageType { msg_type: string_from(&v, 0, p) })
        }
    }
}

/// Reads every message to send, stopping at the first that does not parse.
pub fn parse_messages(specs: &Vec<String>) -> (r: Result<Vec<WaitReplyMessage>, CliError>)
    ensures
        match r {
            Ok(ms) => ms@.len() == specs@.len() && forall|i: int|
                0 <= i < specs@.len() ==> parsed_message(#[trigger] specs@[i]@) == Ok::<
                    MessageView,
                    CliErrorView,
                >(ms@[i]@),
            Err(e) => exists|i: int|
                0 <= i < specs@.len() && parsed_message(#[trigger] specs@[i]@) == Err::<
                    MessageView,
                    CliErrorView,
                >(e@) && forall|j: int| 0 <= j < i ==> parsed_message(#[trigger] specs@[j]@) is Ok,
        },
{
    let mut out: Vec<WaitReplyMessage> = Vec::new();
    let mut i: usize = 0;
    while i < specs.len()
        invariant
            i <= specs@.len(),
            out@.len() == i,
            forall|j: int|
                0 <= j < i ==> parsed_message(#[trigger] specs@[j]@) == Ok::<
                    MessageView,
                    CliErrorView,
                >(out@[j]@),
        decreases specs@.len() - i,
    {
        match WaitReplyMessage::parse(specs[i].as_str()) {
            Ok(m) => out.push(m),
            Err(e) => {
                assert(forall|j: int| 0 <= j < i ==> parsed_message(#[trigger] specs@[j]@) is Ok);
                return Err(e);
            },
        }
        i = i + 1;
    }
    Ok(out)
}

/// 收到的回复消息
#[derive(Debug, Clone)]
pub struct ReceivedReply {
    pub from_wxid: String,
    pub group_wxid: Option<String>,
    pub content: String,
    /// When the reply arrived, in milliseconds since the Unix epoch.
    pub timestamp: i64,
}

/// A received reply as values.
pub struct ReplyView {
    pub from_wxid: Seq<char>,
    pub group_wxid: Option<Seq<char>>,
    pub content: Seq<char>,
    pub timestamp: i64,
}

impl View for ReceivedReply {
    type V = ReplyView;

    open spec fn view(&self) -> ReplyView {
        ReplyView {
            from_wxid: self.from_wxid@,
            group_wxid: opt_view(self.group_wxid),
            content: self.content@,
            timestamp: self.timestamp,
        }
    }
}

impl ReceivedReply {
    /// A copy of the reply.
    pub fn duplicate(&self) -> (r: ReceivedReply)
        ensures
            r@ == self@,
    {
        ReceivedReply {
            from_wxid: self.from_wxid.clone(),
            group_wxid: clone_opt(&self.group_wxid),
            content: self.content.clone(),
            timestamp: self.timestamp,
        }
    }
}

/// 广播消息类型
#[derive(Debug, Clone)]
pub enum BroadcastMessage {
    Message { data: ReceivedReply },
    Shutdown { reason: String },
}

/// What a webhook event says, as far as wait-reply reads it: its type name, and
/// from its data the `MsgType` integer and the `string` fields of
/// `FromUserName` and `Content`.
#[derive(Debug, Clone)]
pub struct IncomingEvent {
    pub event_type: Option<String>,
    pub msg_type: Option<i64>,
    pub from_user_name: Option<String>,
    pub content: Option<String>,
}

/// An incoming event as values.
pub struct EventView {
    pub event_type: Option<Seq<char>>,
    pub msg_type: Option<i64>,
    pub from_user_name: Option<Seq<char>>,
    pub content: Option<Seq<char>>,
}

impl View for IncomingEvent {
    type V = EventView;

    open spec fn view(&self) -> EventView {
        EventView {
            event_type: opt_view(self.event_type),
            msg_type: self.msg_type,
            from_user_name: opt_view(self.from_user_name),
            content: opt_view(self.content),
        }
    }
}

/// The state of a wait-reply run: who is awaited (in which group), the pattern a
/// reply must match, the replies so far, and whether one has matched.
pub struct WaitReplyState {
    filter_wxid: String,
    group_wxid: Option<String>,
    match_pattern: Option<String>,
    received: Vec<ReceivedReply>,
    matched: bool,
}

/// The state of a wait-reply run, as values.
pub struct StateView {
    pub filter_wxid: Seq<char>,
    pub group_wxid: Option<Seq<char>>,
    pub pattern: Option<Seq<char>>,
    pub received: Seq<ReplyView>,
    pub matched: bool,
}

/// The reply matches the pattern; without a pattern every reply does.
pub open spec fn reply_matches(pattern: Option<Seq<char>>, content: Seq<char>) -> bool {
    match pattern {
        Some(p) => regex_matches(p, content),
        None => true,
    }
}

impl View for WaitReplyState {
    type V = StateView;

    closed spec fn view(&self) -> StateView {
        StateView {
            filter_wxid: self.filter_wxid@,
            group_wxid: opt_view(self.group_wxid),
            pattern: opt_view(self.match_pattern),
            received: self.received@.map_values(|r: ReceivedReply| r@),
            matched: self.matched,
        }
    }
}

/// The pattern a reply must match: none for an absent or empty one.
pub open spec fn effective_pattern(p: Option<Seq<char>>) -> Option<Seq<char>> {
    match p {
        Some(x) => if x.len() > 0 {
            Some(x)
        } else {
            None
        },
        None => None,
    }
}

impl WaitReplyState {
    /// A pattern, if any, is one that compiles.
    #[verifier::type_invariant]
    spec fn well_formed(self) -> bool {
        match self.match_pattern {
            Some(p) => regex_compiles(p@),
            None => true,
        }
    }

    /// A fresh state that waits for `filter_wxid` (in group `group_wxid`, if
    /// given) and for a reply that matches `match_pattern` (any reply when it is
    /// absent or empty). Fails when the pattern is not a regular expression, with
    /// the regex crate's error text as the reason.
    pub fn new(filter_wxid: String, group_wxid: Option<String>, match_pattern: Option<&str>) -> (r:
        Result<WaitReplyState, CliError>)
        ensures
            match effective_pattern(
                match match_pattern {
                    Some(p) => Some(p@),
                    None => None,
                },
            ) {
                Some(p) => match regex_outcome(p) {
                    Ok(()) => r matches Ok(st) && st@ == StateView {
                        filter_wxid: filter_wxid@,
                        group_wxid: opt_view(group_wxid),
                        pattern: Some(p),
                        received: Seq::empty(),
                        matched: false,
                    },
                    Err(reason) => r matches Err(e) && e@ == CliErrorView::InvalidPattern(reason),
                },
                None => r matches Ok(st) && st@ == StateView {
                    filter_wxid: filter_wxid@,
                    group_wxid: opt_view(group_wxid),
                    pattern: None,
                    received: Seq::empty(),
                    matched: false,
                },
            },
    {
        let match_pattern = match match_pattern {
            Some(pat) => {
                if pat.is_empty() {
                    None
                } else {
                    assert(pat@.len() > 0);
                    match check_pattern(pat) {
                        Ok(()) => Some(owned(pat)),
                        Err(reason) => return Err(CliError::InvalidPattern { reason }),
                    }
                }
            },
            None => None,
        };
        let st = WaitReplyState {
            filter_wxid,
            group_wxid,
            match_pattern,
            received: Vec::new(),
            matched: false,
        };
        assert(st@.received =~= Seq::<ReplyView>::empty());
        Ok(st)
    }

    /// The wxid whose replies are awaited.
    pub fn filter_wxid(&self) -> (r: &String)
        ensures
            r@ == self@.filter_wxid,
    {
        &self.filter_wxid
    }

    /// The group in which replies are awaited.
    pub fn group_wxid(&self) -> (r: &Option<String>)
        ensures
            opt_view(*r) == self@.group_wxid,
    {
        &self.group_wxid
    }

    /// There is a pattern that replies must match.
    pub fn has_pattern(&self) -> (r: bool)
        ensures
            r == self@.pattern is Some,
    {
        self.match_pattern.is_some()
    }

    /// The replies received so far.
    pub fn received(&self) -> (r: &Vec<ReceivedReply>)
        ensures
            r@.map_values(|x: ReceivedReply| x@) == self@.received,
    {
        &self.received
    }

    /// A reply has matched.
    pub fn matched(&self) -> (r: bool)
        ensures
            r == self@.matched,
    {
        self.matched
    }

    /// Records a reply and tells whether it matches the pattern (every reply
    /// does without one). Once a reply has matched, the state stays matched.
    pub fn handle_message(&mut self, reply: ReceivedReply) -> (r: bool)
        ensures
            r == reply_matches(old(self)@.pattern, reply@.content),
            final(self)@.received == old(self)@.received.push(reply@),
            final(self)@.matched == (old(self)@.matched || r),
            final(self)@.filter_wxid == old(self)@.filter_wxid,
            final(self)@.group_wxid == old(self)@.group_wxid,
            final(self)@.pattern == old(self)@.pattern,
    {
        proof {
            use_type_invariant(&*self);
        }
        let is_match = match &self.match_pattern {
            Some(p) => pattern_matches(p.as_str(), reply.content.as_str()),
            None => true,
        };
        let ghost rv = reply@;
        let mut received: Vec<ReceivedReply> = Vec::new();
        std::mem::swap(&mut received, &mut self.received);
        received.push(reply);
        self.received = received;
        if is_match {
            self.matched = true;
        }
        assert(self@.received =~= old(self)@.received.push(rv));
        is_match
    }

    /// Whether a webhook event is an awaited reply, and which: see `accepted`.
    pub fn should_accept(&self, event: &IncomingEvent, now: i64) -> (r: Option<ReceivedReply>)
        ensures
            match accepted(self@, event@, now) {
                Some(x) => r matches Some(y) && y@ == x,
                None => r is None,
            },
    {
        proof {
            reveal_strlit("AddMsg");
            reveal_strlit("@chatroom");
            assert("AddMsg"@ =~= add_msg());
            assert("@chatroom"@ =~= chatroom_suffix());
        }
        match &event.event_type {
            Some(t) => {
                if !same_text(t.as_str(), "AddMsg") {
                    return None;
                }
            },
            None => return None,
        }
        match event.msg_type {
            Some(k) => {
                if k != 1 {
                    return None;
                }
            },
            None => return None,
        }
        let from_wxid = match &event.from_user_name {
            Some(f) => f.clone(),
            None => return None,
        };
        let raw_content = match &event.content {
            Some(c) => c.clone(),
            None => return None,
        };
        let is_group = text_ends_with(from_wxid.as_str(), "@chatroom");
        match &self.group_wxid {
            Some(expected_group) => {
                if !is_group || !same_text(from_wxid.as_str(), expected_group.as_str()) {
                    return None;
                }
                let (sender_wxid, content) = match extract_group_sender_and_content(
                    raw_content.as_str(),
                ) {
                    Some(x) => x,
                    None => return None,
                };
                if !same_text(sender_wxid.as_str(), self.filter_wxid.as_str()) {
                    return None;
                }
                Some(
                    ReceivedReply {
                        from_wxid: sender_wxid,
                        group_wxid: Some(from_wxid),
                        content,
                        timestamp: now,
                    },
                )
            },
            None => {
                if is_group {
                    return None;
                }
                if !same_text(from_wxid.as_str(), self.filter_wxid.as_str()) {
                    return None;
                }
                Some(
                    ReceivedReply {
                        from_wxid,
                        group_wxid: None,
                        content: raw_content,
                        timestamp: now,
                    },
                )
            },
        }
    }

    /// A reply relayed by the primary process is awaited here: same group (or
    /// both private) and from the awaited wxid.
    pub fn should_accept_reply(&self, reply: &ReceivedReply) -> (r: bool)
        ensures
            r == (self@.group_wxid == reply@.group_wxid && self@.filter_wxid == reply@.from_wxid),
    {
        let same_group = match (&self.group_wxid, &reply.group_wxid) {
            (Some(a), Some(b)) => same_text(a.as_str(), b.as_str()),
            (None, None) => true,
            _ => false,
        };
        if !same_group {
            return false;
        }
        same_text(reply.from_wxid.as_str(), self.filter_wxid.as_str())
    }
}

/// `"AddMsg"`.
pub open spec fn add_msg() -> Seq<char> {
    seq!['A', 'd', 'd', 'M', 's', 'g']
}

/// `"@chatroom"`, the suffix of group ids.
pub open spec fn chatroom_suffix() -> Seq<char> {
    seq!['@', 'c', 'h', 'a', 't', 'r', 'o', 'o', 'm']
}

/// The reply that a webhook event carries for this state, if it is awaited: a
/// text message (`AddMsg` with `MsgType` 1) from the awaited wxid. In a private
/// wait it comes straight from that wxid (not from a group); in a group wait it
/// comes from the group, its content starting with the sender, who must be the
/// awaited wxid.
pub open spec fn accepted(s: StateView, e: EventView, now: i64) -> Option<ReplyView> {
    if e.event_type != Some(add_msg()) || e.msg_type != Some(1i64) || e.from_user_name is None
        || e.content is None {
        None
    } else {
        let from = e.from_user_name->0;
        let raw = e.content->0;
        let is_group = ends_with(from, chatroom_suffix());
        match s.group_wxid {
            Some(g) => if !is_group || from != g {
                None
            } else {
                match group_message_parts(raw) {
                    None => None,
                    Some((sender, content)) => if sender != s.filter_wxid {
                        None
                    } else {
                        Some(
                            ReplyView {
                                from_wxid: sender,
                                group_wxid: Some(from),
                                content,
                                timestamp: now,
                            },
                        )
                    },
                }
            },
            None => if is_group || from != s.filter_wxid {
                None
            } else {
                Some(ReplyView { from_wxid: from, group_wxid: None, content: raw, timestamp: now })
            },
        }
    }
}

/// The sender and text of a group message, written `sender:\n text` (or with
/// `:\r\n`) after leading whitespace: the sender is what precedes the first
/// separator, trimmed, and must not be empty.
pub open spec fn group_message_parts(content: Seq<char>) -> Option<(Seq<char>, Seq<char>)> {
    let t = trim_start(content);
    let first = match find(t, seq![':', '\n']) {
        Some(p) => if trim(t.take(p)).len() > 0 {
            Some((trim(t.take(p)), t.skip(p + 2)))
        } else {
            None
        },
        None => None,
    };
    match first {
        Some(x) => Some(x),
        None => match find(t, seq![':', '\r', '\n']) {
            Some(p) => if trim(t.take(p)).len() > 0 {
                Some((trim(t.take(p)), t.skip(p + 3)))
            } else {
                None
            },
            None => None,
        },
    }
}

/// The sender and text of a group message.
pub fn extract_group_sender_and_content(content: &str) -> (r: Option<(String, String)>)
    ensures
        match group_message_parts(content@) {
            Some((a, b)) => r matches Some((x, y)) && x@ == a && y@ == b,
            None => r is None,
        },
{
    let v = chars_of(content);
    let n = v.len();
    let lo = skip_whitespace(&v, 0, n);
    assert(v@.subrange(0, n as int) =~= content@);
    let ghost t = v@.subrange(lo as int, n as int);
    assert(t == trim_start(content@));
    let pat = vec![':', '\n'];
    assert(pat@ =~= seq![':', '\n']);
    let first = find_in(&v, lo, &pat);
    let ghost first_spec = match find(t, seq![':', '\n']) {
        Some(p) => if trim(t.take(p)).len() > 0 {
            Some((trim(t.take(p)), t.skip(p + 2)))
        } else {
            None::<(Seq<char>, Seq<char>)>
        },
        None => None,
    };
    if let Some(p) = first {
        let (a, b) = trim_bounds(&v, lo, lo + p);
        assert(v@.subrange(lo as int, lo + p) =~= t.take(p as int));
        assert(v@.subrange(a as int, b as int).len() == b - a);
        if a < b {
            assert(v@.subrange(lo + p + 2, n as int) =~= t.skip(p + 2));
            let sender = string_from(&v, a, b);
            let actual = string_from(&v, lo + p + 2, n);
            return Some((sender, actual));
        }
        assert(first_spec is None);
    }
    assert(first_spec is None);
    let pat2 = vec![':', '\r', '\n'];
    assert(pat2@ =~= seq![':', '\r', '\n']);
    match find_in(&v, lo, &pat2) {
        Some(p) => {
            let (a, b) = trim_bounds(&v, lo, lo + p);
            assert(v@.subrange(lo as int, lo + p) =~= t.take(p as int));
            assert(v@.subrange(a as int, b as int).len() == b - a);
            if a < b {
                assert(v@.subrange(lo + p + 3, n as int) =~= t.skip(p + 3));
                let sender = string_from(&v, a, b);
                let actual = string_from(&v, lo + p + 3, n);
                return Some((sender, actual));
            }
            None
        },
        None => None,
    }
}

/// The path of the socket on which the primary process relays replies.
pub open spec fn socket_path_text(port: u16) -> Seq<char> {
    "/tmp/gewe-wait-reply-"@ + decimal_digits(port as nat) + ".sock"@
}

/// The path of the socket on which the primary process relays replies.
pub fn socket_path(port: u16) -> (r: String)
    ensures
        r@ == socket_path_text(port),
{
    let mut r = owned("/tmp/gewe-wait-reply-");
    push_decimal(&mut r, port as u64);
    push_str(&mut r, ".sock");
    r
}

/// The port of a listen address: the text after its last `:` (all of it when
/// there is none), read as a `u16`.
pub open spec fn listen_port(listen: Seq<char>) -> Result<u16, CliErrorView> {
    match parse_integer(split(listen, ':').last(), false, 0, 0xffff) {
        Ok(n) => Ok(n as u16),
        Err(_) => Err(CliErrorView::InvalidPort),
    }
}

/// The port of a listen address.
pub fn parse_port(listen: &str) -> (r: Result<u16, CliError>)
    ensures
        match listen_port(listen@) {
            Ok(n) => r == Ok::<u16, CliError>(n),
            Err(e) => r matches Err(x) && x@ == e,
        },
{
    let v = chars_of(listen);
    let k = last_piece_index(&v, ':');
    proof {
        lemma_split_last(listen@, ':');
    }
    let tail = string_from(&v, k, v.len());
    assert(tail@ =~= split(listen@, ':').last());
    match parse_u16(tail.as_str()) {
        Ok(n) => Ok(n),
        Err(_) => Err(CliError::InvalidPort),
    }
}

/// Whose replies are awaited: `--filter-wxid`, else `--to-wxid`.
pub fn awaited_wxid(args: &WaitReplyArgs) -> (r: String)
    ensures
        r@ == match opt_view(args.filter_wxid) {
            Some(f) => f,
            None => args.to_wxid@,
        },
{
    match &args.filter_wxid {
        Some(f) => f.clone(),
        None => args.to_wxid.clone(),
    }
}

/// Where the messages are sent: the group, if given, else `--to-wxid`.
pub fn send_target(args: &WaitReplyArgs) -> (r: &String)
    ensures
        r@ == match opt_view(args.group_wxid) {
            Some(g) => g,
            None => args.to_wxid@,
        },
{
    match &args.group_wxid {
        Some(g) => g,
        None => &args.to_wxid,
    }
}

/// The bot context registered for the webhook: the app id and token, with the
/// webhook secret and (as description) the alias of the first configured bot
/// with that app id.
pub fn bot_context_for(config: &CliConfig, app_id: &str, token: &str) -> (r: BotContext)
    ensures
        r.app_id.0@ == app_id@,
        r.token@ == token@,
        match index_with_app_id(config@.bots, app_id@, 0) {
            Some(i) => opt_view(r.webhook_secret) == config@.bots[i].webhook_secret && opt_view(
                r.description,
            ) == config@.bots[i].alias,
            None => r.webhook_secret is None && r.description is None,
        },
{
    let mut i: usize = 0;
    while i < config.bots.len()
        invariant
            i <= config.bots@.len(),
            index_with_app_id(config@.bots, app_id@, 0) == index_with_app_id(
                config@.bots,
                app_id@,
                i as int,
            ),
        decreases config.bots@.len() - i,
    {
        let b = &config.bots[i];
        assert(config@.bots[i as int] == b@);
        if same_text(b.app_id.as_str(), app_id) {
            return BotContext {
                app_id: AppId(owned(app_id)),
                token: owned(token),
                webhook_secret: clone_opt(&b.webhook_secret),
                description: clone_opt(&b.alias),
            };
        }
        i = i + 1;
    }
    BotContext {
        app_id: AppId(owned(app_id)),
        token: owned(token),
        webhook_secret: None,
        description: None,
    }
}

/// The lines of the text output: the content of each reply, in order.
pub fn text_output(received: &Vec<ReceivedReply>) -> (r: Vec<String>)
    ensures
        r@.len() == received@.len(),
        forall|i: int| 0 <= i < r@.len() ==> #[trigger] r@[i]@ == received@[i].content@,
{
    let mut out: Vec<String> = Vec::new();
    let mut i: usize = 0;
    while i < received.len()
        invariant
            i <= received@.len(),
            out@.len() == i,
            forall|j: int| 0 <= j < i ==> #[trigger] out@[j]@ == received@[j].content@,
        decreases received@.len() - i,
    {
        out.push(received[i].content.clone());
        i = i + 1;
    }
    out
}

/// What the primary process does with a webhook event: the reply to relay to
/// subscribers (when the event is awaited), and whether the wait is over (that
/// reply matched).
pub fn on_event(state: &mut WaitReplyState, event: &IncomingEvent, now: i64) -> (r: (
    Option<ReceivedReply>,
    bool,
))
    ensures
        match accepted(old(state)@, event@, now) {
            Some(x) => {
                &&& r.0 matches Some(y) && y@ == x
                &&& r.1 == reply_matches(old(state)@.pattern, x.content)
                &&& final(state)@ == StateView {
                    filter_wxid: old(state)@.filter_wxid,
                    group_wxid: old(state)@.group_wxid,
                    pattern: old(state)@.pattern,
                    received: old(state)@.received.push(x),
                    matched: old(state)@.matched || r.1,
                }
            },
            None => r.0 is None && !r.1 && final(state)@ == old(state)@,
        },
{
    match state.should_accept(event, now) {
        Some(reply) => {
            let relay = reply.duplicate();
            let done = state.handle_message(reply);
            (Some(relay), done)
        },
        None => (None, false),
    }
}

/// What a subscriber does next.
#[derive(Debug, Clone, Copy, PartialEq, Eq)]
pub enum SubscriberStep {
    /// An awaited reply matched: print and exit successfully.
    Done,
    /// The primary process shut down: reconnect.
    Reconnect,
    /// Keep reading.
    Continue,
}

/// How long a subscriber may still read.
#[derive(Debug, Clone, Copy, PartialEq, Eq)]
pub enum ReadBudget {
    /// The timeout has passed: print and exit with the timeout status.
    TimedOut,
    /// Read for at most this many milliseconds; without a bound, wait for as
    /// long as it takes.
    Wait(Option<u128>),
}

/// The reading budget of a subscriber `elapsed_ms` milliseconds after it
/// started, with `--timeout` in seconds: with no timeout it waits without
/// limit; else it has timed out once the timeout has passed, and otherwise
/// reads for the rest of it.
pub fn read_budget(elapsed_ms: u128, timeout_secs: Option<u64>) -> (r: ReadBudget)
    ensures
        match timeout_secs {
            None => r == ReadBudget::Wait(None),
            Some(t) => if elapsed_ms >= t * 1000 {
                r == ReadBudget::TimedOut
            } else {
                r == ReadBudget::Wait(Some((t * 1000 - elapsed_ms) as u128))
            },
        },
{
    match timeout_secs {
        None => ReadBudget::Wait(None),
        Some(t) => {
            let limit: u128 = (t as u128) * 1000;
            if elapsed_ms >= limit {
                ReadBudget::TimedOut
            } else {
                ReadBudget::Wait(Some(limit - elapsed_ms))
            }
        },
    }
}

/// What a subscriber does with a relayed message: an awaited reply is recorded
/// and ends the wait when it matches; a shutdown makes it reconnect.
pub fn on_broadcast(state: &mut WaitReplyState, msg: BroadcastMessage) -> (r: SubscriberStep)
    ensures
        match msg {
            BroadcastMessage::Shutdown { .. } => r == SubscriberStep::Reconnect && final(state)@
                == old(state)@,
            BroadcastMessage::Message { data } => if old(state)@.group_wxid == data@.group_wxid
                && old(state)@.filter_wxid == data@.from_wxid {
                &&& final(state)@ == StateView {
                    filter_wxid: old(state)@.filter_wxid,
                    group_wxid: old(state)@.group_wxid,
                    pattern: old(state)@.pattern,
                    received: old(state)@.received.push(data@),
                    matched: old(state)@.matched || reply_matches(old(state)@.pattern, data@.content),
                }
                &&& (r == SubscriberStep::Done) == reply_matches(old(state)@.pattern, data@.content)
                &&& r != SubscriberStep::Reconnect
            } else {
                r == SubscriberStep::Continue && final(state)@ == old(state)@
            },
        },
{
    match msg {
        BroadcastMessage::Message { data } => {
            if state.should_accept_reply(&data) && state.handle_message(data) {
                SubscriberStep::Done
            } else {
                SubscriberStep::Continue
            }
        },
        BroadcastMessage::Shutdown { .. } => SubscriberStep::Reconnect,
    }
}

// ----------------------------------------------------------------------------
// Laws of wait-reply
// ----------------------------------------------------------------------------

/// The port of `host:port` is the port, whatever the host (colons included).
pub proof fn law_listen_port_round_trip(host: Seq<char>, port: u16)
    ensures
        listen_port(host + seq![':'] + decimal_digits(port as nat)) == Ok::<u16, CliErrorView>(port),
{
    let d = decimal_digits(port as nat);
    let x = host + seq![':'];
    let s = x + d;
    assert(host + seq![':'] + d == s);
    lemma_decimal_digits(port as nat);
    lemma_last_piece_after(x, d, ':');
    lemma_split_last(s, ':');
    assert(s.skip(x.len() as int) =~= d);
    law_integer_text_round_trip(port as int, false, 0, 0xffff);
    assert(int_text(port as int) == d);
}

/// A group message `sender:\n text` is read back as that sender and that text,
/// for a sender that is not empty, neither starts nor ends with whitespace and
/// holds no `:`.
pub proof fn law_group_message_round_trip(sender: Seq<char>, text: Seq<char>)
    requires
        sender.len() > 0,
        !is_whitespace(sender[0]),
        !is_whitespace(sender.last()),
        forall|k: int| 0 <= k < sender.len() ==> sender[k] != ':',
    ensures
        group_message_parts(sender + seq![':', '\n'] + text) == Some((sender, text)),
{
    let pat = seq![':', '\n'];
    let s = sender + pat + text;
    let n = sender.len() as int;
    assert(s[0] == sender[0]);
    assert(trim_start(s) == s);
    assert(s.subrange(n, n + 2) =~= pat);
    assert forall|k: int| 0 <= k < n implies !occurs_at(s, pat, k) by {
        assert(s[k] == sender[k]);
        assert(s.subrange(k, k + 2)[0] == s[k]);
    }
    lemma_find_from_first(s, pat, 0, n);
    assert(s.take(n) =~= sender);
    lemma_trim_fixed(sender);
    assert(s.skip(n + 2) =~= text);
}

/// Everything after the first colon of `text:…` is the text to send, colons
/// included.
pub proof fn law_text_message_content(content: Seq<char>)
    ensures
        parsed_message(seq!['t', 'e', 'x', 't', ':'] + content) == Ok::<MessageView, CliErrorView>(
            MessageView::Text(content),
        ),
{
    let s = seq!['t', 'e', 'x', 't', ':'] + content;
    assert(s[4] == ':');
    assert forall|k: int| 0 <= k < 4 implies s[k] != ':' by {}
    lemma_index_of_from_first(s, ':', 0, 4);
    assert(s.take(4) =~= seq!['t', 'e', 'x', 't']);
    assert(s.skip(5) =~= content);
}

/// What the primary process relays, a subscriber that awaits the same wxid in
/// the same group accepts.
pub proof fn law_relayed_reply_is_accepted(s: StateView, t: StateView, e: EventView, now: i64)
    requires
        t.filter_wxid == s.filter_wxid,
        t.group_wxid == s.group_wxid,
        accepted(s, e, now) is Some,
    ensures
        t.group_wxid == accepted(s, e, now)->0.group_wxid,
        t.filter_wxid == accepted(s, e, now)->0.from_wxid,
{
}

/// Only text messages are replies: an event that wait-reply accepts, in a
/// private or a group wait alike, is an `AddMsg` event of message type 1; the
/// reply comes from the awaited wxid, in the awaited group (none for a private
/// wait), stamped with the time it arrived.
pub proof fn law_only_text_replies_are_accepted(s: StateView, e: EventView, now: i64)
    ensures
        accepted(s, e, now) matches Some(x) ==> {
            &&& e.msg_type == Some(1i64)
            &&& e.event_type == Some(add_msg())
            &&& x.from_wxid == s.filter_wxid
            &&& x.group_wxid == s.group_wxid
            &&& x.timestamp == now
        },
        e.msg_type != Some(1i64) ==> accepted(s, e, now) is None,
{
}

} // verus!
