//! The decisions of slash-command handling: who may run what, how the art
//! history is answered, which booru and tags a command uses, and what
//! happens after each fetch attempt. The caller does the Discord and
//! database work between the steps.
use vstd::prelude::*;
use crate::admin::BooruRow;
use crate::i18n::{template, I18n, Language, Msg};
use crate::num::{dec, dec_int, i64_to_string, usize_to_string};
use crate::outside::{opt_string_view, random_below};
use crate::panel::{utf8_len};
use crate::records::{ArtHistoryEntry, TagPatternEntry};
use crate::responses::{name_component, recent_art_links_spec};
use crate::text::{
    cat2, cat3, cat4, cat5, chars_of, copy_string, has_prefix, replace_seq, str_eq, string_of,
    string_views, trim, trim_seq,
};

verus! {

// ---------------------------------------------------------------------------
// Running jobs and reloads
// ---------------------------------------------------------------------------

/// The commands in progress and whether new ones are accepted (no reload
/// has begun).
pub struct JobTracker {
    active: usize,
    accepting: bool,
}

/// A tracker's state: the number of running jobs and whether new ones are accepted.
pub struct JobState {
    pub active: nat,
    pub accepting: bool,
}

impl View for JobTracker {
    type V = JobState;

    closed spec fn view(&self) -> JobState {
        JobState { active: self.active as nat, accepting: self.accepting }
    }
}

/// The count after one more job; like the atomic counter it stands for,
/// it wraps past `usize::MAX` to 0.
pub open spec fn count_up(n: nat) -> nat {
    if n >= usize::MAX {
        0
    } else {
        n + 1
    }
}

/// The count after one job fewer, wrapping below 0 to `usize::MAX`.
pub open spec fn count_down(n: nat) -> nat {
    if n == 0 {
        usize::MAX as nat
    } else {
        (n - 1) as nat
    }
}

/// Starting a job: it starts when jobs are accepted.
pub open spec fn start_step(s: JobState) -> (bool, JobState) {
    if s.accepting {
        (true, JobState { active: count_up(s.active), accepting: true })
    } else {
        (false, s)
    }
}

/// Ending a job.
pub open spec fn finish_step(s: JobState) -> JobState {
    JobState { active: count_down(s.active), accepting: s.accepting }
}

/// Beginning a reload: jobs are no longer accepted; whether they were.
pub open spec fn reload_step(s: JobState) -> (bool, JobState) {
    (s.accepting, JobState { active: s.active, accepting: false })
}

impl JobTracker {
    /// No job running; new ones accepted.
    pub fn new() -> (r: Self)
        ensures
            r@ == (JobState { active: 0, accepting: true }),
    {
        JobTracker { active: 0, accepting: true }
    }

    /// Starts a job when new ones are accepted.
    pub fn try_start(&mut self) -> (started: bool)
        ensures
            (started, final(self)@) == start_step(old(self)@),
    {
        if !self.accepting {
            return false;
        }
        self.active = if self.active == usize::MAX {
            0
        } else {
            self.active + 1
        };
        true
    }

    /// Ends a started job.
    pub fn finish(&mut self)
        ensures
            final(self)@ == finish_step(old(self)@),
    {
        self.active = if self.active == 0 {
            usize::MAX
        } else {
            self.active - 1
        };
    }

    /// Stops accepting jobs; whether they were accepted until now (`false`:
    /// a reload had already begun).
    pub fn begin_reload(&mut self) -> (was_accepting: bool)
        ensures
            (was_accepting, final(self)@) == reload_step(old(self)@),
    {
        let was = self.accepting;
        self.accepting = false;
        was
    }

    pub fn active_count(&self) -> (r: usize)
        ensures
            r == self@.active,
    {
        self.active
    }
}

/// What a click on the Reload button leads to.
#[derive(Clone, Copy, Debug, PartialEq, Eq, Structural)]
pub enum ReloadDecision {
    /// Only the admin and moderators may reload.
    AdminOnly,
    /// A reload has already begun.
    AlreadyInProgress,
    /// The reload begins; these jobs are still running.
    Begin { active_jobs: usize },
}

pub open spec fn reload_decision_spec(s: JobState, is_admin: bool, is_moderator: bool) -> (
    ReloadDecision,
    JobState,
) {
    if !is_admin && !is_moderator {
        (ReloadDecision::AdminOnly, s)
    } else if s.accepting {
        (ReloadDecision::Begin { active_jobs: s.active as usize }, reload_step(s).1)
    } else {
        (ReloadDecision::AlreadyInProgress, s)
    }
}

/// A click on Reload: refused to users who are neither admin nor moderator;
/// else the tracker stops taking jobs, and the reload begins unless one had
/// already begun.
pub fn reload_request(tracker: &mut JobTracker, is_admin: bool, is_moderator: bool) -> (r:
    ReloadDecision)
    ensures
        (r, final(tracker)@) == reload_decision_spec(old(tracker)@, is_admin, is_moderator),
{
    if !is_admin && !is_moderator {
        return ReloadDecision::AdminOnly;
    }
    if tracker.begin_reload() {
        ReloadDecision::Begin { active_jobs: tracker.active_count() }
    } else {
        ReloadDecision::AlreadyInProgress
    }
}

/// Once a reload has begun no job starts, and the running ones are untouched.
pub proof fn law_no_job_after_reload(s: JobState)
    ensures
        !start_step(reload_step(s).1).0,
        start_step(reload_step(s).1).1.active == s.active,
{
}

/// A reload begins once: a second one finds jobs already refused.
pub proof fn law_reload_begins_once(s: JobState)
    ensures
        !reload_step(reload_step(s).1).0,
{
}

/// A job that starts and ends leaves the tracker as it was (for any count
/// a tracker can hold).
pub proof fn law_start_then_finish(s: JobState)
    requires
        s.accepting,
        s.active <= usize::MAX,
    ensures
        start_step(s).0,
        finish_step(start_step(s).1) == s,
{
}

// ---------------------------------------------------------------------------
// Who may run a command
// ---------------------------------------------------------------------------

/// What a slash command may do, given where and by whom it was run.
#[derive(Clone, Copy, Debug, PartialEq, Eq, Structural)]
pub enum CommandGate {
    /// Open the administration panel.
    AdminPanel,
    /// Answer that the server is not validated.
    NotValidated,
    /// Answer that commands are not allowed in the channel.
    ChannelNotAllowed,
    /// Show the channel's art history.
    ArtHistory,
    /// Run the command as a job.
    Run,
}

pub open spec fn gate_spec(
    in_guild: bool,
    server_validated: bool,
    channel_allowed: bool,
    is_admin: bool,
    is_moderator: bool,
    command: Seq<char>,
) -> CommandGate {
    if in_guild && !server_validated {
        if command == "administrate"@ && (is_admin || is_moderator) {
            CommandGate::AdminPanel
        } else {
            CommandGate::NotValidated
        }
    } else if in_guild && !channel_allowed && !is_admin && !is_moderator {
        CommandGate::ChannelNotAllowed
    } else if command == "art-history"@ {
        CommandGate::ArtHistory
    } else if command == "administrate"@ {
        CommandGate::AdminPanel
    } else {
        CommandGate::Run
    }
}

/// The admin and moderators are never held back by the channel: for them
/// whether the channel is configured changes nothing, and a command is
/// refused for its channel only when it comes from a validated server, in a
/// channel that is not configured, from someone who is neither. An
/// unvalidated server is answered so only from a server, and on a validated
/// server (or in direct messages) every command but `art-history` and
/// `administrate` runs for the admin and moderators. `administrate` opens
/// the panel for the admin and moderators wherever it is run; anyone else
/// is told that an unvalidated server is not validated; `art-history` shows
/// the history wherever commands are allowed.
pub proof fn law_admin_and_moderators_bypass_channel_restriction(
    in_guild: bool,
    server_validated: bool,
    channel_allowed: bool,
    is_admin: bool,
    is_moderator: bool,
    command: Seq<char>,
)
    ensures
        (is_admin || is_moderator) ==> gate_spec(
            in_guild,
            server_validated,
            channel_allowed,
            is_admin,
            is_moderator,
            command,
        ) == gate_spec(in_guild, server_validated, !channel_allowed, is_admin, is_moderator, command),
        (gate_spec(in_guild, server_validated, channel_allowed, is_admin, is_moderator, command)
            == CommandGate::ChannelNotAllowed) <==> (in_guild && server_validated && !channel_allowed
            && !is_admin && !is_moderator),
        gate_spec(in_guild, server_validated, channel_allowed, is_admin, is_moderator, command)
            == CommandGate::NotValidated ==> in_guild && !server_validated,
        ((is_admin || is_moderator) && (in_guild ==> server_validated) && command != "art-history"@
            && command != "administrate"@) ==> gate_spec(
            in_guild,
            server_validated,
            channel_allowed,
            is_admin,
            is_moderator,
            command,
        ) == CommandGate::Run,
        (command == "administrate"@ && (is_admin || is_moderator)) ==> gate_spec(
            in_guild,
            server_validated,
            channel_allowed,
            is_admin,
            is_moderator,
            command,
        ) == CommandGate::AdminPanel,
        (in_guild && !server_validated && !is_admin && !is_moderator) ==> gate_spec(
            in_guild,
            server_validated,
            channel_allowed,
            is_admin,
            is_moderator,
            command,
        ) == CommandGate::NotValidated,
        (command == "art-history"@ && (!in_guild || (server_validated && (channel_allowed || is_admin
            || is_moderator)))) ==> gate_spec(
            in_guild,
            server_validated,
            channel_allowed,
            is_admin,
            is_moderator,
            command,
        ) == CommandGate::ArtHistory,
{
    reveal_strlit("administrate");
    reveal_strlit("art-history");
    assert("administrate"@.len() != "art-history"@.len());
}

/// Decides what a slash command may do: in a server, the server must be
/// validated (only the admin panel opens before) and the channel
/// configured (the admin and moderators may run commands anywhere).
pub fn command_gate(
    in_guild: bool,
    server_validated: bool,
    channel_allowed: bool,
    is_admin: bool,
    is_moderator: bool,
    command: &str,
) -> (r: CommandGate)
    ensures
        r == gate_spec(in_guild, server_validated, channel_allowed, is_admin, is_moderator, command@),
{
    if in_guild && !server_validated {
        if str_eq(command, "administrate") && (is_admin || is_moderator) {
            CommandGate::AdminPanel
        } else {
            CommandGate::NotValidated
        }
    } else if in_guild && !channel_allowed && !is_admin && !is_moderator {
        CommandGate::ChannelNotAllowed
    } else if str_eq(command, "art-history") {
        CommandGate::ArtHistory
    } else if str_eq(command, "administrate") {
        CommandGate::AdminPanel
    } else {
        CommandGate::Run
    }
}

/// The messages a channel is answered in: its configured language when that
/// is the exact name of a language with messages, else the default.
pub open spec fn channel_messages_spec(default: I18n, language: Option<Seq<char>>) -> I18n {
    match language {
        Some(l) => if l == "en"@ {
            I18n { language: Language::En }
        } else if l == "fr"@ {
            I18n { language: Language::Fr }
        } else {
            default
        },
        None => default,
    }
}

pub fn channel_messages(default: I18n, language: &Option<String>) -> (r: I18n)
    ensures
        r == channel_messages_spec(default, opt_string_view(*language)),
{
    match language {
        Some(l) => if str_eq(l.as_str(), "en") {
            I18n { language: Language::En }
        } else if str_eq(l.as_str(), "fr") {
            I18n { language: Language::Fr }
        } else {
            default
        },
        None => default,
    }
}

/// Only the bot's admin and moderators may use the panel and reload.
pub open spec fn may_administrate(is_admin: bool, is_moderator: bool) -> bool {
    is_admin || is_moderator
}

// ---------------------------------------------------------------------------
// Art history
// ---------------------------------------------------------------------------

/// How many links the art history shows: the number asked for when it fits
/// a `usize`, else ten.
pub open spec fn requested_links(option: Option<i64>) -> usize {
    match option {
        Some(n) => if 0 <= n && n <= usize::MAX {
            n as usize
        } else {
            10
        },
        None => 10,
    }
}

pub fn requested_count(option: Option<i64>) -> (r: usize)
    ensures
        r == requested_links(option),
{
    match option {
        Some(n) => if n >= 0 && (n as u64) <= (usize::MAX as u64) {
            n as usize
        } else {
            10
        },
        None => 10,
    }
}

/// `[ch:{channel}]`, ` [{booru}]`, ` (guild:{guild})`, ` <{link}>`.
pub open spec fn history_label(e: ArtHistoryEntry) -> Seq<char> {
    "[ch:"@ + dec_int(e.channel_id as int) + "]"@ + match opt_string_view(e.booru_name) {
        Some(b) => " ["@ + b + "]"@,
        None => Seq::<char>::empty(),
    } + match e.guild_id {
        Some(g) => " (guild:"@ + dec_int(g as int) + ")"@,
        None => Seq::<char>::empty(),
    } + " <"@ + e.source_link@ + ">"@
}

/// The labels of art history entries.
pub fn history_labels(entries: &Vec<ArtHistoryEntry>) -> (r: Vec<String>)
    ensures
        string_views(r@) == entries@.map_values(|e: ArtHistoryEntry| history_label(e)),
{
    let mut out: Vec<String> = Vec::new();
    let mut i: usize = 0;
    while i < entries.len()
        invariant
            i <= entries.len(),
            string_views(out@) == entries@.take(i as int).map_values(|e: ArtHistoryEntry| history_label(e)),
        decreases entries.len() - i,
    {
        let e = &entries[i];
        let mut v = chars_of("[ch:");
        crate::text::extend_str(&mut v, i64_to_string(e.channel_id).as_str());
        crate::text::extend_str(&mut v, "]");
        match &e.booru_name {
            Some(b) => {
                crate::text::extend_str(&mut v, " [");
                crate::text::extend_str(&mut v, b.as_str());
                crate::text::extend_str(&mut v, "]");
            },
            None => {},
        }
        match e.guild_id {
            Some(g) => {
                crate::text::extend_str(&mut v, " (guild:");
                crate::text::extend_str(&mut v, i64_to_string(g).as_str());
                crate::text::extend_str(&mut v, ")");
            },
            None => {},
        }
        crate::text::extend_str(&mut v, " <");
        crate::text::extend_str(&mut v, e.source_link.as_str());
        crate::text::extend_str(&mut v, ">");
        let x = string_of(&v);
        proof {
            assert(x@ =~= history_label(entries@[i as int]));
        }
        let ghost before = out@;
        out.push(x);
        assert(string_views(out@) =~= string_views(before).push(history_label(entries@[i as int])));
        assert(entries@.take(i + 1).map_values(|e: ArtHistoryEntry| history_label(e)) =~= entries@.take(
            i as int,
        ).map_values(|e: ArtHistoryEntry| history_label(e)).push(history_label(entries@[i as int])));
        i = i + 1;
    }
    assert(entries@.take(entries.len() as int) =~= entries@);
    out
}

/// The longest art history reply sent as a message, in bytes; a longer one
/// goes as an attachment.
pub const HISTORY_MESSAGE_MAX: usize = 1900usize;

/// The art history reply: a message, or a summary with the full text attached.
pub enum HistoryReply {
    Message(String),
    Attachment { summary: String, body: String, filename: String },
}

/// The summary line of the art history.
pub open spec fn history_summary(lang: crate::i18n::Language, requested: usize, shown: nat) -> Seq<char> {
    if shown == 0 {
        template(lang, Msg::ArtHistoryNoLinks)
    } else if shown < requested {
        replace_seq(
            replace_seq(template(lang, Msg::ArtHistoryShowingAll), "{requested}"@, dec(requested as nat)),
            "{shown}"@,
            dec(shown),
        )
    } else {
        replace_seq(template(lang, Msg::ArtHistoryShowingCount), "{shown}"@, dec(shown))
    }
}

/// The summary, then the numbered links.
pub open spec fn history_body(lang: crate::i18n::Language, requested: usize, links: Seq<String>) -> Seq<char> {
    let summary = history_summary(lang, requested, links.len());
    if links.len() == 0 {
        summary
    } else {
        summary + "\n"@ + recent_art_links_spec(links)
    }
}

/// Answers the art history: the summary and numbered links as a message
/// when it fits `HISTORY_MESSAGE_MAX` bytes, else the summary with the text
/// as an attachment.
pub fn art_history_reply(i18n: &I18n, requested: usize, links: &Vec<String>) -> (r: HistoryReply)
    ensures
        ({
            let body = history_body(i18n.language, requested, links@);
            match r {
                HistoryReply::Message(m) => utf8_len(body) <= HISTORY_MESSAGE_MAX && m@ == body,
                HistoryReply::Attachment { summary, body: b, filename } => utf8_len(body)
                    > HISTORY_MESSAGE_MAX && summary@ == history_summary(
                    i18n.language,
                    requested,
                    links@.len(),
                ) && b@ == body && filename@ == template(i18n.language, Msg::ArtHistoryAttachmentFilename),
            }
        }),
{
    let shown = links.len();
    let summary = if shown == 0 {
        copy_string(i18n.art_history_no_links())
    } else if shown < requested {
        i18n.art_history_showing_all(requested, shown)
    } else {
        i18n.art_history_showing_count(shown)
    };
    let body = if links.len() == 0 {
        copy_string(summary.as_str())
    } else {
        cat3(summary.as_str(), "\n", crate::responses::format_recent_art_links(links.as_slice()).as_str())
    };
    if crate::panel::fits_bytes(body.as_str(), HISTORY_MESSAGE_MAX) {
        HistoryReply::Message(body)
    } else {
        HistoryReply::Attachment {
            summary,
            body,
            filename: copy_string(i18n.art_history_attachment_filename()),
        }
    }
}

// ---------------------------------------------------------------------------
// Custom commands
// ---------------------------------------------------------------------------

/// The first enabled booru whose custom command is `command`, when
/// `command` ends in `-custom`.
pub open spec fn custom_booru_spec(command: Seq<char>, names: Seq<String>) -> Option<int> {
    if command.len() >= 7 && command.skip(command.len() - 7) == "-custom"@ {
        first_custom_match(command, names, 0)
    } else {
        None
    }
}

pub open spec fn first_custom_match(command: Seq<char>, names: Seq<String>, from: int) -> Option<int>
    decreases names.len() - from,
{
    if from < 0 || from >= names.len() {
        None
    } else if name_component(names[from]@) + "-custom"@ == command {
        Some(from)
    } else {
        first_custom_match(command, names, from + 1)
    }
}

/// The position, among the names of the enabled boorus, of the booru whose
/// custom command `command` is; none when there is none or `command` is not
/// a custom command.
pub fn custom_command_booru(command: &str, names: &Vec<String>) -> (r: Option<usize>)
    ensures
        match r {
            Some(i) => custom_booru_spec(command@, names@) == Some(i as int),
            None => custom_booru_spec(command@, names@) is None,
        },
{
    proof {
        reveal_strlit("-custom");
    }
    let v = chars_of(command);
    if v.len() < 7 {
        return None;
    }
    let tail = crate::text::subvec(&v, v.len() - 7, v.len());
    assert(tail@ =~= v@.skip(v@.len() - 7));
    if !str_eq(string_of(&tail).as_str(), "-custom") {
        return None;
    }
    let mut i: usize = 0;
    while i < names.len()
        invariant
            i <= names.len(),
            v@ == command@,
            v@.len() >= 7 && v@.skip(v@.len() - 7) == "-custom"@,
            first_custom_match(command@, names@, 0) == first_custom_match(command@, names@, i as int),
        decreases names.len() - i,
    {
        let candidate = crate::responses::custom_command_name(names[i].as_str());
        if str_eq(candidate.as_str(), command) {
            return Some(i);
        }
        i = i + 1;
    }
    None
}

/// The tags typed in a custom command's options (`tag_1` .. `tag_n`, none
/// for an option left out): blank ones dropped, the others trimmed with
/// spaces replaced.
pub open spec fn custom_tags_spec(options: Seq<Option<String>>, replacement: Seq<char>) -> Seq<Seq<char>>
    decreases options.len(),
{
    if options.len() == 0 {
        Seq::empty()
    } else {
        let before = custom_tags_spec(options.drop_last(), replacement);
        match options.last() {
            Some(t) => if trim_seq(t@).len() == 0 {
                before
            } else {
                before.push(replace_seq(trim_seq(t@), " "@, replacement))
            },
            None => before,
        }
    }
}

pub fn custom_command_tags(options: &Vec<Option<String>>, replacement: &str) -> (r: Vec<String>)
    ensures
        string_views(r@) == custom_tags_spec(options@, replacement@),
{
    let mut out: Vec<String> = Vec::new();
    let mut i: usize = 0;
    while i < options.len()
        invariant
            i <= options.len(),
            string_views(out@) == custom_tags_spec(options@.take(i as int), replacement@),
        decreases options.len() - i,
    {
        assert(options@.take(i + 1).drop_last() =~= options@.take(i as int));
        match &options[i] {
            Some(t) => {
                if !trim(t.as_str()).as_str().is_empty() {
                    let x = crate::responses::normalize_user_tag(t.as_str(), replacement);
                    let ghost before = out@;
                    out.push(x);
                    assert(string_views(out@) =~= string_views(before).push(x@));
                }
            },
            None => {},
        }
        i = i + 1;
    }
    assert(options@.take(options.len() as int) =~= options@);
    out
}

/// The tags a fetch must avoid: the global blacklist, then the pattern's
/// excluded tags, then the channel's banned tags.
pub fn compose_blacklist(global: &Vec<String>, excluded: &Vec<String>, banned: &Vec<String>) -> (r: Vec<String>)
    ensures
        string_views(r@) == string_views(global@) + string_views(excluded@) + string_views(banned@),
{
    let mut out: Vec<String> = Vec::new();
    let parts: [&Vec<String>; 3] = [global, excluded, banned];
    let mut k: usize = 0;
    while k < 3
        invariant
            k <= 3,
            parts@ == seq![global, excluded, banned],
            string_views(out@) == if k == 0 {
                Seq::<Seq<char>>::empty()
            } else if k == 1 {
                string_views(global@)
            } else if k == 2 {
                string_views(global@) + string_views(excluded@)
            } else {
                string_views(global@) + string_views(excluded@) + string_views(banned@)
            },
        decreases 3 - k,
    {
        let src = parts[k];
        let ghost start = string_views(out@);
        let mut i: usize = 0;
        while i < src.len()
            invariant
                i <= src.len(),
                string_views(out@) == start + string_views(src@).take(i as int),
            decreases src.len() - i,
        {
            let x = copy_string(src[i].as_str());
            let ghost before = out@;
            out.push(x);
            assert(string_views(out@) =~= string_views(before).push(x@));
            assert(string_views(src@).take(i + 1) =~= string_views(src@).take(i as int).push(src@[i as int]@));
            assert(string_views(out@) =~= start + string_views(src@).take(i + 1));
            i = i + 1;
        }
        assert(string_views(src@).take(src.len() as int) =~= string_views(src@));
        k = k + 1;
        assert(string_views(out@) =~= if k == 1 {
            string_views(global@)
        } else if k == 2 {
            string_views(global@) + string_views(excluded@)
        } else {
            string_views(global@) + string_views(excluded@) + string_views(banned@)
        });
    }
    out
}

/// Fetch attempts for a command: one more than the retry limit.
pub open spec fn max_attempts_spec(retry_limit: usize) -> usize {
    if retry_limit == usize::MAX {
        usize::MAX
    } else {
        (retry_limit + 1) as usize
    }
}

pub fn max_attempts(retry_limit: usize) -> (r: usize)
    ensures
        r == max_attempts_spec(retry_limit),
        r >= 1,
{
    retry_limit.saturating_add(1)
}

// ---------------------------------------------------------------------------
// Tag pattern commands
// ---------------------------------------------------------------------------

/// The first pattern name whose command name is `command`.
pub open spec fn pattern_match_spec(command: Seq<char>, names: Seq<String>, from: int) -> Option<int>
    decreases names.len() - from,
{
    if from < 0 || from >= names.len() {
        None
    } else if name_component(names[from]@) == command {
        Some(from)
    } else {
        pattern_match_spec(command, names, from + 1)
    }
}

/// The position of the pattern whose slash command `command` is.
pub fn pattern_for_command(command: &str, names: &Vec<String>) -> (r: Option<usize>)
    ensures
        match r {
            Some(i) => pattern_match_spec(command@, names@, 0) == Some(i as int),
            None => pattern_match_spec(command@, names@, 0) is None,
        },
{
    let mut i: usize = 0;
    while i < names.len()
        invariant
            i <= names.len(),
            pattern_match_spec(command@, names@, 0) == pattern_match_spec(command@, names@, i as int),
        decreases names.len() - i,
    {
        let candidate = crate::responses::discord_name_component(names[i].as_str());
        if str_eq(candidate.as_str(), command) {
            return Some(i);
        }
        i = i + 1;
    }
    None
}

/// Why a tag pattern command does not fetch.
pub enum PatternRefusal<T> {
    /// The tag is not enabled on the server (the reply text).
    NotRegistered(T),
    /// The tag is blocked in the channel.
    TagBlocked(T),
}

/// Whether a tag pattern command may run: the tag must be enabled on the
/// server (unless the admin or a moderator runs it) and not blocked in the
/// channel.
pub fn pattern_permission(
    i18n: &I18n,
    pattern: &str,
    server_tags: &Vec<String>,
    channel_blocked: &Vec<String>,
    is_admin: bool,
    is_moderator: bool,
) -> (r: Option<PatternRefusal<String>>)
    ensures
        ({
            let allowed = string_views(server_tags@).contains(pattern@);
            let blocked = string_views(channel_blocked@).contains(pattern@);
            match r {
                None => (allowed || is_admin || is_moderator) && !blocked,
                Some(PatternRefusal::NotRegistered(m)) => !allowed && !is_admin && !is_moderator
                    && m@ == replace_seq(template(i18n.language, Msg::TagNotRegistered), "{pattern}"@, pattern@),
                Some(PatternRefusal::TagBlocked(t)) => (allowed || is_admin || is_moderator) && blocked
                    && t@ == pattern@,
            }
        }),
{
    let allowed = contains_text(server_tags, pattern);
    let blocked = contains_text(channel_blocked, pattern);
    if !allowed && !is_admin && !is_moderator {
        return Some(PatternRefusal::NotRegistered(i18n.tag_not_registered(pattern)));
    }
    if blocked {
        return Some(PatternRefusal::TagBlocked(copy_string(pattern)));
    }
    None
}

/// Whether a list holds a text.
pub fn contains_text(list: &Vec<String>, x: &str) -> (r: bool)
    ensures
        r == string_views(list@).contains(x@),
{
    let mut i: usize = 0;
    while i < list.len()
        invariant
            i <= list.len(),
            forall|k: int| 0 <= k < i ==> list@[k]@ != x@,
        decreases list.len() - i,
    {
        if str_eq(list[i].as_str(), x) {
            assert(string_views(list@)[i as int] == x@);
            return true;
        }
        i = i + 1;
    }
    proof {
        if string_views(list@).contains(x@) {
            let k = choose|k: int| 0 <= k < string_views(list@).len() && string_views(list@)[k] == x@;
            assert(list@[k]@ == x@);
        }
    }
    false
}

/// The included tags and the excluded tags of a pattern's entries.
pub open spec fn entry_tags(es: Seq<TagPatternEntry>, excluded: bool) -> Seq<Seq<char>>
    decreases es.len(),
{
    if es.len() == 0 {
        Seq::empty()
    } else if es.last().is_excluded == excluded {
        entry_tags(es.drop_last(), excluded).push(es.last().tag@)
    } else {
        entry_tags(es.drop_last(), excluded)
    }
}

pub fn split_entries(es: &Vec<TagPatternEntry>) -> (r: (Vec<String>, Vec<String>))
    ensures
        string_views(r.0@) == entry_tags(es@, false),
        string_views(r.1@) == entry_tags(es@, true),
{
    let mut inc: Vec<String> = Vec::new();
    let mut exc: Vec<String> = Vec::new();
    let mut i: usize = 0;
    while i < es.len()
        invariant
            i <= es.len(),
            string_views(inc@) == entry_tags(es@.take(i as int), false),
            string_views(exc@) == entry_tags(es@.take(i as int), true),
        decreases es.len() - i,
    {
        assert(es@.take(i + 1).drop_last() =~= es@.take(i as int));
        let x = copy_string(es[i].tag.as_str());
        if es[i].is_excluded {
            let ghost before = exc@;
            exc.push(x);
            assert(string_views(exc@) =~= string_views(before).push(x@));
        } else {
            let ghost before = inc@;
            inc.push(x);
            assert(string_views(inc@) =~= string_views(before).push(x@));
        }
        i = i + 1;
    }
    assert(es@.take(es.len() as int) =~= es@);
    (inc, exc)
}

/// The ids whose booru is enabled (`enabled[i]` for `ids[i]`).
pub open spec fn enabled_ids_spec(ids: Seq<i64>, enabled: Seq<bool>) -> Seq<i64>
    decreases ids.len(),
{
    if ids.len() == 0 || enabled.len() == 0 {
        Seq::empty()
    } else if enabled.last() {
        enabled_ids_spec(ids.drop_last(), enabled.drop_last()).push(ids.last())
    } else {
        enabled_ids_spec(ids.drop_last(), enabled.drop_last())
    }
}

/// The boorus a tag pattern command draws from: those that are enabled.
pub fn enabled_booru_ids(ids: &Vec<i64>, enabled: &Vec<bool>) -> (r: Vec<i64>)
    requires
        ids@.len() == enabled@.len(),
    ensures
        r@ == enabled_ids_spec(ids@, enabled@),
{
    let mut out: Vec<i64> = Vec::new();
    let mut i: usize = 0;
    while i < ids.len()
        invariant
            i <= ids.len(),
            ids@.len() == enabled@.len(),
            out@ == enabled_ids_spec(ids@.take(i as int), enabled@.take(i as int)),
        decreases ids.len() - i,
    {
        assert(ids@.take(i + 1).drop_last() =~= ids@.take(i as int));
        assert(enabled@.take(i + 1).drop_last() =~= enabled@.take(i as int));
        if enabled[i] {
            out.push(ids[i]);
        }
        i = i + 1;
    }
    assert(ids@.take(ids.len() as int) =~= ids@);
    assert(enabled@.take(enabled.len() as int) =~= enabled@);
    out
}

/// A booru a tag pattern command may fetch from, with the pattern's
/// included and excluded tags on it.
pub struct PatternBooru {
    pub booru_id: i64,
    pub included: Vec<String>,
    pub excluded: Vec<String>,
}

pub open spec fn pattern_booru_view(p: PatternBooru) -> (i64, Seq<Seq<char>>, Seq<Seq<char>>) {
    (p.booru_id, string_views(p.included@), string_views(p.excluded@))
}

/// The boorus with the pattern's tags: for each booru (`ids[i]`) whose
/// pattern entries could be read (`entries[i]`), its included and excluded
/// tags, kept only when some tag is included.
pub open spec fn pattern_boorus_spec(
    ids: Seq<i64>,
    entries: Seq<Option<Vec<TagPatternEntry>>>,
) -> Seq<(i64, Seq<Seq<char>>, Seq<Seq<char>>)>
    decreases ids.len(),
{
    if ids.len() == 0 || entries.len() == 0 {
        Seq::empty()
    } else {
        let rest = pattern_boorus_spec(ids.drop_last(), entries.drop_last());
        match entries.last() {
            Some(es) => if entry_tags(es@, false).len() > 0 {
                rest.push((ids.last(), entry_tags(es@, false), entry_tags(es@, true)))
            } else {
                rest
            },
            None => rest,
        }
    }
}

pub fn pattern_boorus(ids: &Vec<i64>, entries: &Vec<Option<Vec<TagPatternEntry>>>) -> (r: Vec<
    PatternBooru,
>)
    requires
        ids@.len() == entries@.len(),
    ensures
        r@.map_values(|p: PatternBooru| pattern_booru_view(p)) == pattern_boorus_spec(ids@, entries@),
{
    let mut out: Vec<PatternBooru> = Vec::new();
    let mut i: usize = 0;
    while i < ids.len()
        invariant
            i <= ids.len(),
            ids@.len() == entries@.len(),
            out@.map_values(|p: PatternBooru| pattern_booru_view(p)) == pattern_boorus_spec(
                ids@.take(i as int),
                entries@.take(i as int),
            ),
        decreases ids.len() - i,
    {
        assert(ids@.take(i + 1).drop_last() =~= ids@.take(i as int));
        assert(entries@.take(i + 1).drop_last() =~= entries@.take(i as int));
        if let Some(es) = &entries[i] {
            let (included, excluded) = split_entries(es);
            if included.len() > 0 {
                let ghost before = out@;
                let p = PatternBooru { booru_id: ids[i], included, excluded };
                let ghost pv = pattern_booru_view(p);
                out.push(p);
                assert(out@.map_values(|p: PatternBooru| pattern_booru_view(p)) =~= before.map_values(
                    |p: PatternBooru| pattern_booru_view(p),
                ).push(pv));
            }
        }
        i = i + 1;
    }
    assert(ids@.take(ids.len() as int) =~= ids@);
    assert(entries@.take(entries.len() as int) =~= entries@);
    out
}

/// The first candidate for a booru id.
pub open spec fn candidate_of(cs: Seq<(i64, Seq<Seq<char>>, Seq<Seq<char>>)>, id: i64, from: int) -> Option<int>
    decreases cs.len() - from,
{
    if from < 0 || from >= cs.len() {
        None
    } else if cs[from].0 == id {
        Some(from)
    } else {
        candidate_of(cs, id, from + 1)
    }
}

/// Where the drawn booru is among the candidates (none: it has no included tags).
pub fn pattern_booru_for(candidates: &Vec<PatternBooru>, id: i64) -> (r: Option<usize>)
    ensures
        ({
            let cs = candidates@.map_values(|p: PatternBooru| pattern_booru_view(p));
            match r {
                Some(i) => candidate_of(cs, id, 0) == Some(i as int),
                None => candidate_of(cs, id, 0) is None,
            }
        }),
{
    let ghost cs = candidates@.map_values(|p: PatternBooru| pattern_booru_view(p));
    let mut i: usize = 0;
    while i < candidates.len()
        invariant
            i <= candidates.len(),
            cs == candidates@.map_values(|p: PatternBooru| pattern_booru_view(p)),
            candidate_of(cs, id, 0) == candidate_of(cs, id, i as int),
        decreases candidates.len() - i,
    {
        if candidates[i].booru_id == id {
            return Some(i);
        }
        i = i + 1;
    }
    None
}

/// Where the booru at `index` among the enabled ones stands among the
/// candidates (none when it has no included tags).
pub fn pattern_candidate_at(enabled_ids: &Vec<i64>, candidates: &Vec<PatternBooru>, index: usize) -> (r:
    Option<usize>)
    requires
        index < enabled_ids@.len(),
    ensures
        ({
            let cs = candidates@.map_values(|p: PatternBooru| pattern_booru_view(p));
            match r {
                Some(i) => candidate_of(cs, enabled_ids@[index as int], 0) == Some(i as int),
                None => candidate_of(cs, enabled_ids@[index as int], 0) is None,
            }
        }),
{
    pattern_booru_for(candidates, enabled_ids[index])
}

/// Draws the booru of one attempt of a tag pattern command: a random
/// position among the enabled boorus (each attempt draws again), and where
/// that booru stands among the candidates (see `pattern_candidate_at`).
pub fn draw_pattern_booru(enabled_ids: &Vec<i64>, candidates: &Vec<PatternBooru>) -> (r: (
    usize,
    Option<usize>,
))
    requires
        enabled_ids@.len() > 0,
    ensures
        r.0 < enabled_ids@.len(),
        ({
            let cs = candidates@.map_values(|p: PatternBooru| pattern_booru_view(p));
            match r.1 {
                Some(i) => candidate_of(cs, enabled_ids@[r.0 as int], 0) == Some(i as int),
                None => candidate_of(cs, enabled_ids@[r.0 as int], 0) is None,
            }
        }),
{
    let drawn = random_below(enabled_ids.len() as u64);
    let index = drawn as usize;
    (index, pattern_candidate_at(enabled_ids, candidates, index))
}

// ---------------------------------------------------------------------------
// After a fetch attempt
// ---------------------------------------------------------------------------

/// What a fetch attempt gave.
pub enum FetchOutcome<T> {
    /// An image; `already_sent`: its post link is in the channel's art history.
    Image { has_post_link: bool, already_sent: bool },
    /// An error (its text).
    Failed(T),
}

/// What to do after a fetch attempt.
pub enum RetryStep<T> {
    /// Record the post link in the art history, then send the image.
    RecordAndSend,
    /// Send the image (it has no post link).
    Send,
    /// Log the reason and try again after the pacing delay.
    Retry(T),
    /// Give up with this error.
    Exhausted(T),
}

pub open spec fn retry_spec(outcome: FetchOutcome<Seq<char>>, attempt: usize, max_attempts: usize) -> RetryStep<
    Seq<char>,
> {
    match outcome {
        FetchOutcome::Image { has_post_link, already_sent } => if !has_post_link {
            RetryStep::Send
        } else if already_sent {
            RetryStep::Retry("source_link_already_in_art_history"@)
        } else {
            RetryStep::RecordAndSend
        },
        FetchOutcome::Failed(e) => if attempt >= max_attempts {
            RetryStep::Exhausted(e)
        } else {
            RetryStep::Retry(e)
        },
    }
}

impl View for FetchOutcome<String> {
    type V = FetchOutcome<Seq<char>>;

    open spec fn view(&self) -> FetchOutcome<Seq<char>> {
        match self {
            FetchOutcome::Image { has_post_link, already_sent } => FetchOutcome::Image {
                has_post_link: *has_post_link,
                already_sent: *already_sent,
            },
            FetchOutcome::Failed(e) => FetchOutcome::Failed(e@),
        }
    }
}

impl View for RetryStep<String> {
    type V = RetryStep<Seq<char>>;

    open spec fn view(&self) -> RetryStep<Seq<char>> {
        match self {
            RetryStep::RecordAndSend => RetryStep::RecordAndSend,
            RetryStep::Send => RetryStep::Send,
            RetryStep::Retry(e) => RetryStep::Retry(e@),
            RetryStep::Exhausted(e) => RetryStep::Exhausted(e@),
        }
    }
}

/// Decides what follows attempt `attempt` of `max_attempts`: an image whose
/// post link was already posted in the channel is skipped; an error is
/// retried until the last attempt.
pub fn retry_step(outcome: FetchOutcome<String>, attempt: usize, max_attempts: usize) -> (r: RetryStep<String>)
    ensures
        r@ == retry_spec(outcome@, attempt, max_attempts),
{
    match outcome {
        FetchOutcome::Image { has_post_link, already_sent } => if !has_post_link {
            RetryStep::Send
        } else if already_sent {
            RetryStep::Retry(String::from_str("source_link_already_in_art_history"))
        } else {
            RetryStep::RecordAndSend
        },
        FetchOutcome::Failed(e) => if attempt >= max_attempts {
            RetryStep::Exhausted(e)
        } else {
            RetryStep::Retry(e)
        },
    }
}

/// An image whose link was already posted in the channel is never sent again.
pub proof fn law_history_hit_not_sent(attempt: usize, max_attempts: usize)
    ensures
        retry_spec(FetchOutcome::Image { has_post_link: true, already_sent: true }, attempt, max_attempts)
            is Retry,
{
}

/// An error ends the command only at the last attempt, and is retried before.
pub proof fn law_errors_retried_until_last(e: Seq<char>, attempt: usize, max_attempts: usize)
    ensures
        retry_spec(FetchOutcome::Failed(e), attempt, max_attempts) == if attempt >= max_attempts {
            RetryStep::Exhausted(e)
        } else {
            RetryStep::Retry(e)
        },
{
}

// ---------------------------------------------------------------------------
// Messages of command handling
// ---------------------------------------------------------------------------

/// `{:?}` of an optional id.
pub open spec fn debug_guild(g: Option<i64>) -> Seq<char> {
    crate::admin_reply::debug_opt_id(g)
}

fn debug_guild_text(g: Option<i64>) -> (r: String)
    ensures
        r@ == debug_guild(g),
{
    match g {
        Some(x) => cat3("Some(", i64_to_string(x).as_str(), ")"),
        None => String::from_str("None"),
    }
}

/// The owner's report of a slash command that is not registered.
pub fn unknown_command_report(command: &str, user: i64, guild: Option<i64>, channel: i64) -> (r: String)
    ensures
        r@ == "unknown slash command `"@ + command@ + "` invoked by user "@ + dec_int(user as int)
            + " in guild "@ + debug_guild(guild) + " channel "@ + dec_int(channel as int),
{
    let a = cat5("unknown slash command `", command, "` invoked by user ", i64_to_string(user).as_str(), " in guild ");
    cat4(a.as_str(), debug_guild_text(guild).as_str(), " channel ", i64_to_string(channel).as_str())
}

/// The summary of a command that failed: `command={name} user={id} guild={guild:?}`.
pub fn command_failure_summary(command: &str, user: i64, guild: Option<i64>) -> (r: String)
    ensures
        r@ == "command="@ + command@ + " user="@ + dec_int(user as int) + " guild="@ + debug_guild(guild),
{
    let a = cat4("command=", command, " user=", i64_to_string(user).as_str());
    cat3(a.as_str(), " guild=", debug_guild_text(guild).as_str())
}

/// How grave a reported problem is.
#[derive(Clone, Copy, Debug, PartialEq, Eq, Structural)]
pub enum ErrorSeverity {
    Error,
    Bug,
}

impl ErrorSeverity {
    pub open spec fn label_spec(self) -> Seq<char> {
        match self {
            ErrorSeverity::Error => "ERROR"@,
            ErrorSeverity::Bug => "BUG"@,
        }
    }

    /// `ERROR` or `BUG`.
    pub fn label(self) -> (r: &'static str)
        ensures
            r@ == self.label_spec(),
    {
        match self {
            ErrorSeverity::Error => "ERROR",
            ErrorSeverity::Bug => "BUG",
        }
    }
}

/// At most `max` characters: a longer text keeps `max - 3` (none when `max`
/// is below 3) and ends in `...`.
pub open spec fn truncate_for_dm_spec(value: Seq<char>, max: usize) -> Seq<char> {
    if value.len() <= max {
        value
    } else {
        value.take(if max >= 3 {
            max - 3
        } else {
            0
        }) + "..."@
    }
}

pub fn truncate_for_dm(value: &str, max: usize) -> (r: String)
    ensures
        r@ == truncate_for_dm_spec(value@, max),
{
    let v = chars_of(value);
    if v.len() <= max {
        return copy_string(value);
    }
    let keep = max.saturating_sub(3);
    let mut head = crate::text::subvec(&v, 0, keep);
    assert(v@.subrange(0, keep as int) =~= v@.take(keep as int));
    crate::text::extend_str(&mut head, "...");
    string_of(&head)
}

/// The direct message that reports a problem to the bot's owner.
pub open spec fn report_spec(severity: ErrorSeverity, context: Seq<char>, summary: Seq<char>, details: Option<Seq<char>>) -> Seq<char> {
    "**"@ + severity.label_spec() + "** in `"@ + truncate_for_dm_spec(context, 200) + "`\n"@
        + truncate_for_dm_spec(summary, 1500) + match details {
        Some(d) => "\n```\n"@ + truncate_for_dm_spec(d, 1500) + "\n```"@,
        None => Seq::<char>::empty(),
    }
}

pub fn report_body(severity: ErrorSeverity, context: &str, summary: &str, details: Option<&str>) -> (r: String)
    ensures
        r@ == report_spec(severity, context@, summary@, match details {
            Some(d) => Some(d@),
            None => None,
        }),
{
    let a = cat5("**", severity.label(), "** in `", truncate_for_dm(context, 200).as_str(), "`\n");
    let b = cat2(a.as_str(), truncate_for_dm(summary, 1500).as_str());
    match details {
        Some(d) => cat4(b.as_str(), "\n```\n", truncate_for_dm(d, 1500).as_str(), "\n```"),
        None => b,
    }
}

/// What the send-to-DM button answers.
pub open spec fn dm_reply_spec(found: bool, sent: bool) -> Seq<char> {
    if !found {
        "This post is no longer available. Please request a new one."@
    } else if sent {
        "Sent to your DMs."@
    } else {
        "Failed to send DM. Make sure your DMs are open."@
    }
}

pub fn dm_reply(found: bool, sent: bool) -> (r: &'static str)
    ensures
        r@ == dm_reply_spec(found, sent),
{
    if !found {
        "This post is no longer available. Please request a new one."
    } else if sent {
        "Sent to your DMs."
    } else {
        "Failed to send DM. Make sure your DMs are open."
    }
}

/// The notice when jobs did not end before a reload.
pub fn reload_timeout_notice(active_jobs: usize) -> (r: String)
    ensures
        r@ == dec(active_jobs as nat) + " active job(s) did not finish within 30 seconds. Reloading anyway."@,
{
    cat2(usize_to_string(active_jobs).as_str(), " active job(s) did not finish within 30 seconds. Reloading anyway.")
}

} // verus!
