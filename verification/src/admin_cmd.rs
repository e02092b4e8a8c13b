//! Parsing of the `administrate` text commands into requests. Each parser
//! takes the argument text and gives the request to carry out, or the reply
//! (usually a usage line) when the text does not make one.
use vstd::prelude::*;
use crate::admin::{
    command_word, head_word, id_view, single_arg, single_arg_spec, split_required,
    split_required_spec, take_word, try_parse_id, try_parse_id_spec,
};
use crate::num::{dec_int, i64_to_string, parse_i64, parse_i64_spec};
use crate::outside::opt_string_view;
use crate::text::{
    cat2, cat3, cat4, contains_char, csv_spec, rest_after, split_once_seq, split_once_str,
    split_trimmed, string_views, trim, trim_seq, Sep,
};

verus! {

/// Where an `administrate` action goes: the text after the command word is
/// handed to the sub-command's parser; `Reply` is answered as it stands.
pub enum AdminRoute<T> {
    Help,
    Booru(T),
    Tags(T),
    Moderator(T),
    Server(T),
    Setting(T),
    Reply(T),
}

impl View for AdminRoute<String> {
    type V = AdminRoute<Seq<char>>;

    open spec fn view(&self) -> AdminRoute<Seq<char>> {
        match self {
            AdminRoute::Help => AdminRoute::Help,
            AdminRoute::Booru(t) => AdminRoute::Booru(t@),
            AdminRoute::Tags(t) => AdminRoute::Tags(t@),
            AdminRoute::Moderator(t) => AdminRoute::Moderator(t@),
            AdminRoute::Server(t) => AdminRoute::Server(t@),
            AdminRoute::Setting(t) => AdminRoute::Setting(t@),
            AdminRoute::Reply(t) => AdminRoute::Reply(t@),
        }
    }
}

/// The trimmed text after the first word.
pub open spec fn args_after(s: Seq<char>) -> Seq<char> {
    trim_seq(rest_after(s, ' '))
}

pub open spec fn route_spec(action: Seq<char>, guild: Option<i64>, channel: i64) -> AdminRoute<Seq<char>> {
    let cmd = command_word(action);
    let rest = args_after(action);
    if cmd == "help"@ {
        AdminRoute::Help
    } else if cmd == "booru"@ {
        AdminRoute::Booru(rest)
    } else if cmd == "tags"@ {
        AdminRoute::Tags(rest)
    } else if cmd == "moderator"@ {
        AdminRoute::Moderator(rest)
    } else if cmd == "server"@ {
        AdminRoute::Server(rest)
    } else if cmd == "setting"@ {
        AdminRoute::Setting(rest)
    } else if cmd == "channel"@ {
        match guild {
            Some(g) => AdminRoute::Server(dec_int(g as int) + " channel "@ + rest),
            None => AdminRoute::Reply("no server context; use 'server <guild_id> channel ...'"@),
        }
    } else if cmd == "patterns"@ {
        if rest.len() == 0 {
            AdminRoute::Reply("usage: patterns add|remove|list [name]"@)
        } else {
            let g = match guild {
                Some(g) => g,
                None => 0i64,
            };
            AdminRoute::Server(
                dec_int(g as int) + " patterns "@ + dec_int(channel as int) + " "@ + rest,
            )
        }
    } else {
        AdminRoute::Reply("unknown administrate command: "@ + cmd + "\nuse 'help'"@)
    }
}

/// Routes an `administrate` action typed in a channel of `guild` (none in a DM).
pub fn route_admin_action(action: &str, guild: Option<i64>, channel: i64) -> (r: AdminRoute<String>)
    ensures
        r@ == route_spec(action@, guild, channel),
{
    let (cmd, _, rest_raw) = take_word(action);
    let rest = trim(rest_raw.as_str());
    let c = cmd.as_str();
    if crate::text::str_eq(c, "help") {
        AdminRoute::Help
    } else if crate::text::str_eq(c, "booru") {
        AdminRoute::Booru(rest)
    } else if crate::text::str_eq(c, "tags") {
        AdminRoute::Tags(rest)
    } else if crate::text::str_eq(c, "moderator") {
        AdminRoute::Moderator(rest)
    } else if crate::text::str_eq(c, "server") {
        AdminRoute::Server(rest)
    } else if crate::text::str_eq(c, "setting") {
        AdminRoute::Setting(rest)
    } else if crate::text::str_eq(c, "channel") {
        match guild {
            Some(g) => AdminRoute::Server(
                cat3(i64_to_string(g).as_str(), " channel ", rest.as_str()),
            ),
            None => AdminRoute::Reply(
                String::from_str("no server context; use 'server <guild_id> channel ...'"),
            ),
        }
    } else if crate::text::str_eq(c, "patterns") {
        if rest.as_str().is_empty() {
            AdminRoute::Reply(String::from_str("usage: patterns add|remove|list [name]"))
        } else {
            let g = match guild {
                Some(g) => g,
                None => 0i64,
            };
            let head = cat4(
                i64_to_string(g).as_str(),
                " patterns ",
                i64_to_string(channel).as_str(),
                " ",
            );
            AdminRoute::Server(cat2(head.as_str(), rest.as_str()))
        }
    } else {
        AdminRoute::Reply(cat3("unknown administrate command: ", c, "\nuse 'help'"))
    }
}

// ---------------------------------------------------------------------------
// Three-way split
// ---------------------------------------------------------------------------

/// `s.splitn(3, ' ')`: the first word and, when there is a space, the second
/// word and (when there is another space) the rest.
pub open spec fn three_parts(s: Seq<char>) -> (Seq<char>, Option<(Seq<char>, Option<Seq<char>>)>) {
    match split_once_seq(s, Sep::Char(' ')).1 {
        None => (head_word(s), None),
        Some(r) => (head_word(s), Some(split_once_seq(r, Sep::Char(' ')))),
    }
}

/// Tags of the optional third part of a `splitn(3, ' ')`.
pub open spec fn third_csv(t: Option<Seq<char>>) -> Seq<Seq<char>> {
    match t {
        Some(x) => csv_spec(x, ','),
        None => Seq::<Seq<char>>::empty(),
    }
}

fn csv_or_empty(t: Option<String>) -> (r: Vec<String>)
    ensures
        string_views(r@) == third_csv(opt_string_view(t)),
{
    match t {
        Some(x) => split_trimmed(x.as_str(), ','),
        None => {
            let v: Vec<String> = Vec::new();
            assert(string_views(v@) =~= Seq::<Seq<char>>::empty());
            v
        },
    }
}

// ---------------------------------------------------------------------------
// booru ...
// ---------------------------------------------------------------------------

/// `booru parameter ...`
pub enum ParameterCommand<T> {
    Reply(T),
    Put { booru: T, key: T, value: T },
    Delete { booru: T, key: T },
    List(T),
}

/// `booru tag-pattern ...`
pub enum TagPatternCommand<T, L> {
    Reply(T),
    Add { booru: T, name: T, included: L, excluded: L },
    Remove { booru: T, name: T },
    List(T),
}

/// `booru ...`
pub enum BooruCommand<T, L> {
    Reply(T),
    List,
    Show(T),
    Add { name: T, json: T },
    Edit { name: T, field: T, value: T },
    Delete(T),
    Enable(T),
    Disable(T),
    Parameter(ParameterCommand<T>),
    TagPattern(TagPatternCommand<T, L>),
}

impl View for ParameterCommand<String> {
    type V = ParameterCommand<Seq<char>>;

    open spec fn view(&self) -> ParameterCommand<Seq<char>> {
        match self {
            ParameterCommand::Reply(t) => ParameterCommand::Reply(t@),
            ParameterCommand::Put { booru, key, value } => ParameterCommand::Put {
                booru: booru@,
                key: key@,
                value: value@,
            },
            ParameterCommand::Delete { booru, key } => ParameterCommand::Delete {
                booru: booru@,
                key: key@,
            },
            ParameterCommand::List(t) => ParameterCommand::List(t@),
        }
    }
}

impl View for TagPatternCommand<String, Vec<String>> {
    type V = TagPatternCommand<Seq<char>, Seq<Seq<char>>>;

    open spec fn view(&self) -> TagPatternCommand<Seq<char>, Seq<Seq<char>>> {
        match self {
            TagPatternCommand::Reply(t) => TagPatternCommand::Reply(t@),
            TagPatternCommand::Add { booru, name, included, excluded } => TagPatternCommand::Add {
                booru: booru@,
                name: name@,
                included: string_views(included@),
                excluded: string_views(excluded@),
            },
            TagPatternCommand::Remove { booru, name } => TagPatternCommand::Remove {
                booru: booru@,
                name: name@,
            },
            TagPatternCommand::List(t) => TagPatternCommand::List(t@),
        }
    }
}

impl View for BooruCommand<String, Vec<String>> {
    type V = BooruCommand<Seq<char>, Seq<Seq<char>>>;

    open spec fn view(&self) -> BooruCommand<Seq<char>, Seq<Seq<char>>> {
        match self {
            BooruCommand::Reply(t) => BooruCommand::Reply(t@),
            BooruCommand::List => BooruCommand::List,
            BooruCommand::Show(t) => BooruCommand::Show(t@),
            BooruCommand::Add { name, json } => BooruCommand::Add { name: name@, json: json@ },
            BooruCommand::Edit { name, field, value } => BooruCommand::Edit {
                name: name@,
                field: field@,
                value: value@,
            },
            BooruCommand::Delete(t) => BooruCommand::Delete(t@),
            BooruCommand::Enable(t) => BooruCommand::Enable(t@),
            BooruCommand::Disable(t) => BooruCommand::Disable(t@),
            BooruCommand::Parameter(p) => BooruCommand::Parameter(p@),
            BooruCommand::TagPattern(p) => BooruCommand::TagPattern(p@),
        }
    }
}

pub open spec fn booru_usage() -> Seq<char> {
    "booru subcommands: list, show <name>, add <name> <json>, edit <name> <field> <value>, delete <name>, enable <name>, disable <name>, parameter set|delete|list, tag-pattern add|remove|list"@
}

/// The usage line of the `booru` command.
pub fn usage() -> (r: String)
    ensures
        r@ == booru_usage(),
{
    String::from_str(
        "booru subcommands: list, show <name>, add <name> <json>, edit <name> <field> <value>, delete <name>, enable <name>, disable <name>, parameter set|delete|list, tag-pattern add|remove|list",
    )
}

pub open spec fn parameter_spec(rest: Seq<char>) -> ParameterCommand<Seq<char>> {
    let u_set = "usage: booru parameter set <booru> <key> <value>"@;
    let u_del = "usage: booru parameter delete <booru> <key>"@;
    match split_required_spec(rest, "usage: booru parameter set|delete|list <booru> ..."@) {
        Err(e) => ParameterCommand::Reply(e),
        Ok((sub0, args)) => {
            let sub = crate::text::lower_seq(sub0);
            if sub == "set"@ {
                match split_required_spec(args, u_set) {
                    Err(e) => ParameterCommand::Reply(e),
                    Ok((booru, rest2)) => match split_required_spec(rest2, u_set) {
                        Err(e) => ParameterCommand::Reply(e),
                        Ok((key, value)) => ParameterCommand::Put { booru, key, value },
                    },
                }
            } else if sub == "delete"@ || sub == "remove"@ {
                match split_required_spec(args, u_del) {
                    Err(e) => ParameterCommand::Reply(e),
                    Ok((booru, key)) => if key.contains(' ') {
                        ParameterCommand::Reply(u_del)
                    } else {
                        ParameterCommand::Delete { booru, key }
                    },
                }
            } else if sub == "list"@ {
                match single_arg_spec(args, "usage: booru parameter list <booru>"@) {
                    Err(e) => ParameterCommand::Reply(e),
                    Ok(b) => ParameterCommand::List(b),
                }
            } else {
                ParameterCommand::Reply("booru parameter subcommands: set, delete, list"@)
            }
        },
    }
}

fn lowered(s: &str) -> (r: String)
    ensures
        r@ == crate::text::lower_seq(s@),
{
    let v = crate::text::chars_of(s);
    let l = crate::text::lower_vec(&v);
    crate::text::string_of(&l)
}

/// Parses `booru parameter <rest>`.
pub fn parse_parameter_command(rest: &str) -> (r: ParameterCommand<String>)
    ensures
        r@ == parameter_spec(rest@),
{
    let (sub0, args) = match split_required(rest, "usage: booru parameter set|delete|list <booru> ...") {
        Ok(p) => p,
        Err(e) => return ParameterCommand::Reply(e),
    };
    let sub = lowered(sub0.as_str());
    let s = sub.as_str();
    if crate::text::str_eq(s, "set") {
        let (booru, rest2) = match split_required(args.as_str(), "usage: booru parameter set <booru> <key> <value>") {
            Ok(p) => p,
            Err(e) => return ParameterCommand::Reply(e),
        };
        match split_required(rest2.as_str(), "usage: booru parameter set <booru> <key> <value>") {
            Ok((key, value)) => ParameterCommand::Put { booru, key, value },
            Err(e) => ParameterCommand::Reply(e),
        }
    } else if crate::text::str_eq(s, "delete") || crate::text::str_eq(s, "remove") {
        match split_required(args.as_str(), "usage: booru parameter delete <booru> <key>") {
            Ok((booru, key)) => if contains_char(key.as_str(), ' ') {
                ParameterCommand::Reply(String::from_str("usage: booru parameter delete <booru> <key>"))
            } else {
                ParameterCommand::Delete { booru, key }
            },
            Err(e) => ParameterCommand::Reply(e),
        }
    } else if crate::text::str_eq(s, "list") {
        match single_arg(args.as_str(), "usage: booru parameter list <booru>") {
            Ok(b) => ParameterCommand::List(b),
            Err(e) => ParameterCommand::Reply(e),
        }
    } else {
        ParameterCommand::Reply(String::from_str("booru parameter subcommands: set, delete, list"))
    }
}

pub open spec fn tag_pattern_spec(rest: Seq<char>) -> TagPatternCommand<Seq<char>, Seq<Seq<char>>> {
    let u_add = "usage: booru tag-pattern add <booru> <name> <included_comma_sep> [excluded_comma_sep]"@;
    let u_rm = "usage: booru tag-pattern remove <booru> <name>"@;
    match split_required_spec(rest, "usage: booru tag-pattern add|remove|list <booru> ..."@) {
        Err(e) => TagPatternCommand::Reply(e),
        Ok((sub0, args)) => {
            let sub = crate::text::lower_seq(sub0);
            if sub == "add"@ {
                match split_required_spec(args, u_add) {
                    Err(e) => TagPatternCommand::Reply(e),
                    Ok((booru, rest2)) => match three_parts(rest2) {
                        (_, None) => TagPatternCommand::Reply(u_add),
                        (name, Some((inc, exc))) => TagPatternCommand::Add {
                            booru,
                            name,
                            included: csv_spec(inc, ','),
                            excluded: third_csv(exc),
                        },
                    },
                }
            } else if sub == "remove"@ || sub == "delete"@ {
                match split_required_spec(args, u_rm) {
                    Err(e) => TagPatternCommand::Reply(e),
                    Ok((booru, name)) => if name.contains(' ') {
                        TagPatternCommand::Reply(u_rm)
                    } else {
                        TagPatternCommand::Remove { booru, name }
                    },
                }
            } else if sub == "list"@ {
                match single_arg_spec(args, "usage: booru tag-pattern list <booru>"@) {
                    Err(e) => TagPatternCommand::Reply(e),
                    Ok(b) => TagPatternCommand::List(b),
                }
            } else {
                TagPatternCommand::Reply("booru tag-pattern subcommands: add, remove, list"@)
            }
        },
    }
}

/// Parses `booru tag-pattern <rest>`.
pub fn parse_tag_pattern_command(rest: &str) -> (r: TagPatternCommand<String, Vec<String>>)
    ensures
        r@ == tag_pattern_spec(rest@),
{
    let (sub0, args) = match split_required(rest, "usage: booru tag-pattern add|remove|list <booru> ...") {
        Ok(p) => p,
        Err(e) => return TagPatternCommand::Reply(e),
    };
    let sub = lowered(sub0.as_str());
    let s = sub.as_str();
    if crate::text::str_eq(s, "add") {
        let (booru, rest2) = match split_required(
            args.as_str(),
            "usage: booru tag-pattern add <booru> <name> <included_comma_sep> [excluded_comma_sep]",
        ) {
            Ok(p) => p,
            Err(e) => return TagPatternCommand::Reply(e),
        };
        let (name, more) = split_once_str(rest2.as_str(), ' ');
        match more {
            None => TagPatternCommand::Reply(
                String::from_str(
                    "usage: booru tag-pattern add <booru> <name> <included_comma_sep> [excluded_comma_sep]",
                ),
            ),
            Some(m) => {
                let (inc, exc) = split_once_str(m.as_str(), ' ');
                let included = split_trimmed(inc.as_str(), ',');
                let excluded = csv_or_empty(exc);
                TagPatternCommand::Add { booru, name, included, excluded }
            },
        }
    } else if crate::text::str_eq(s, "remove") || crate::text::str_eq(s, "delete") {
        match split_required(args.as_str(), "usage: booru tag-pattern remove <booru> <name>") {
            Ok((booru, name)) => if contains_char(name.as_str(), ' ') {
                TagPatternCommand::Reply(String::from_str("usage: booru tag-pattern remove <booru> <name>"))
            } else {
                TagPatternCommand::Remove { booru, name }
            },
            Err(e) => TagPatternCommand::Reply(e),
        }
    } else if crate::text::str_eq(s, "list") {
        match single_arg(args.as_str(), "usage: booru tag-pattern list <booru>") {
            Ok(b) => TagPatternCommand::List(b),
            Err(e) => TagPatternCommand::Reply(e),
        }
    } else {
        TagPatternCommand::Reply(String::from_str("booru tag-pattern subcommands: add, remove, list"))
    }
}

pub open spec fn booru_spec(rest: Seq<char>) -> BooruCommand<Seq<char>, Seq<Seq<char>>> {
    let sub = command_word(rest);
    let args = args_after(rest);
    let u_edit = "usage: booru edit <name> <field> <value>"@;
    if sub.len() == 0 {
        BooruCommand::Reply(booru_usage())
    } else if sub == "list"@ {
        BooruCommand::List
    } else if sub == "show"@ {
        match single_arg_spec(args, "usage: booru show <name>"@) {
            Ok(n) => BooruCommand::Show(n),
            Err(e) => BooruCommand::Reply(e),
        }
    } else if sub == "add"@ {
        match split_required_spec(args, "usage: booru add <name> <json>"@) {
            Ok((name, json)) => BooruCommand::Add { name, json },
            Err(e) => BooruCommand::Reply(e),
        }
    } else if sub == "edit"@ {
        match split_required_spec(args, u_edit) {
            Err(e) => BooruCommand::Reply(e),
            Ok((name, rest2)) => match split_required_spec(rest2, u_edit) {
                Err(e) => BooruCommand::Reply(e),
                Ok((field, value)) => BooruCommand::Edit { name, field, value },
            },
        }
    } else if sub == "delete"@ {
        match single_arg_spec(args, "usage: booru delete <name>"@) {
            Ok(n) => BooruCommand::Delete(n),
            Err(e) => BooruCommand::Reply(e),
        }
    } else if sub == "enable"@ {
        match single_arg_spec(args, "usage: booru enable <name>"@) {
            Ok(n) => BooruCommand::Enable(n),
            Err(e) => BooruCommand::Reply(e),
        }
    } else if sub == "disable"@ {
        match single_arg_spec(args, "usage: booru disable <name>"@) {
            Ok(n) => BooruCommand::Disable(n),
            Err(e) => BooruCommand::Reply(e),
        }
    } else if sub == "parameter"@ || sub == "parameters"@ || sub == "param"@ || sub == "params"@ {
        BooruCommand::Parameter(parameter_spec(args))
    } else if sub == "tag-pattern"@ || sub == "tag-patterns"@ || sub == "tags"@ {
        BooruCommand::TagPattern(tag_pattern_spec(args))
    } else {
        BooruCommand::Reply(booru_usage())
    }
}

/// Parses `booru <rest>`.
pub fn parse_booru_command(rest: &str) -> (r: BooruCommand<String, Vec<String>>)
    ensures
        r@ == booru_spec(rest@),
{
    let (sub, _, after) = take_word(rest);
    let args = trim(after.as_str());
    let s = sub.as_str();
    let a = args.as_str();
    if s.is_empty() {
        BooruCommand::Reply(usage())
    } else if crate::text::str_eq(s, "list") {
        BooruCommand::List
    } else if crate::text::str_eq(s, "show") {
        match single_arg(a, "usage: booru show <name>") {
            Ok(n) => BooruCommand::Show(n),
            Err(e) => BooruCommand::Reply(e),
        }
    } else if crate::text::str_eq(s, "add") {
        match split_required(a, "usage: booru add <name> <json>") {
            Ok((name, json)) => BooruCommand::Add { name, json },
            Err(e) => BooruCommand::Reply(e),
        }
    } else if crate::text::str_eq(s, "edit") {
        let (name, rest2) = match split_required(a, "usage: booru edit <name> <field> <value>") {
            Ok(p) => p,
            Err(e) => return BooruCommand::Reply(e),
        };
        match split_required(rest2.as_str(), "usage: booru edit <name> <field> <value>") {
            Ok((field, value)) => BooruCommand::Edit { name, field, value },
            Err(e) => BooruCommand::Reply(e),
        }
    } else if crate::text::str_eq(s, "delete") {
        match single_arg(a, "usage: booru delete <name>") {
            Ok(n) => BooruCommand::Delete(n),
            Err(e) => BooruCommand::Reply(e),
        }
    } else if crate::text::str_eq(s, "enable") {
        match single_arg(a, "usage: booru enable <name>") {
            Ok(n) => BooruCommand::Enable(n),
            Err(e) => BooruCommand::Reply(e),
        }
    } else if crate::text::str_eq(s, "disable") {
        match single_arg(a, "usage: booru disable <name>") {
            Ok(n) => BooruCommand::Disable(n),
            Err(e) => BooruCommand::Reply(e),
        }
    } else if crate::text::str_eq(s, "parameter") || crate::text::str_eq(s, "parameters")
        || crate::text::str_eq(s, "param") || crate::text::str_eq(s, "params") {
        BooruCommand::Parameter(parse_parameter_command(a))
    } else if crate::text::str_eq(s, "tag-pattern") || crate::text::str_eq(s, "tag-patterns")
        || crate::text::str_eq(s, "tags") {
        BooruCommand::TagPattern(parse_tag_pattern_command(a))
    } else {
        BooruCommand::Reply(usage())
    }
}


// ---------------------------------------------------------------------------
// tags / moderator / setting
// ---------------------------------------------------------------------------

/// The leading name of `<name> <sub> <args>` (none for `list` or nothing),
/// the sub-command word and its arguments.
pub open spec fn named_parts(rest: Seq<char>) -> (Option<Seq<char>>, Seq<char>, Seq<char>) {
    let first = command_word(rest);
    if first == "list"@ || first.len() == 0 {
        (None, first, rest_after(rest, ' '))
    } else {
        let args_str = rest_after(rest, ' ');
        (Some(head_word(rest)), command_word(args_str), rest_after(args_str, ' '))
    }
}

fn split_named(rest: &str) -> (r: (Option<String>, String, String))
    ensures
        (opt_string_view(r.0), r.1@, r.2@) == named_parts(rest@),
{
    let (first, head, after) = take_word(rest);
    if crate::text::str_eq(first.as_str(), "list") || first.as_str().is_empty() {
        (None, first, after)
    } else {
        let (sub, _, args) = take_word(after.as_str());
        (Some(head), sub, args)
    }
}

/// `tags ...`
pub enum TagsCommand<T, L> {
    Reply(T),
    Add { name: T, booru: T, included: L, excluded: L },
    Delete { name: T, booru: Option<T> },
    List,
}

impl View for TagsCommand<String, Vec<String>> {
    type V = TagsCommand<Seq<char>, Seq<Seq<char>>>;

    open spec fn view(&self) -> TagsCommand<Seq<char>, Seq<Seq<char>>> {
        match self {
            TagsCommand::Reply(t) => TagsCommand::Reply(t@),
            TagsCommand::Add { name, booru, included, excluded } => TagsCommand::Add {
                name: name@,
                booru: booru@,
                included: string_views(included@),
                excluded: string_views(excluded@),
            },
            TagsCommand::Delete { name, booru } => TagsCommand::Delete {
                name: name@,
                booru: opt_string_view(*booru),
            },
            TagsCommand::List => TagsCommand::List,
        }
    }
}

pub open spec fn tags_spec(rest: Seq<char>) -> TagsCommand<Seq<char>, Seq<Seq<char>>> {
    let u_add = "usage: tags <name> add <booru> <included_comma_sep> [excluded_comma_sep]"@;
    let (name, sub, args) = named_parts(rest);
    if sub == "add"@ {
        match name {
            None => TagsCommand::Reply(u_add),
            Some(n) => match three_parts(args) {
                (_, None) => TagsCommand::Reply(u_add),
                (booru, Some((inc, exc))) => TagsCommand::Add {
                    name: n,
                    booru,
                    included: csv_spec(inc, ','),
                    excluded: third_csv(exc),
                },
            },
        }
    } else if sub == "delete"@ {
        match name {
            None => TagsCommand::Reply("usage: tags <name> delete [booru]"@),
            Some(n) => TagsCommand::Delete {
                name: n,
                booru: if args.len() == 0 {
                    None
                } else {
                    Some(args)
                },
            },
        }
    } else if sub == "list"@ {
        TagsCommand::List
    } else {
        TagsCommand::Reply("tags subcommands: add, delete, list"@)
    }
}

/// Parses `tags <rest>`.
pub fn parse_tags_command(rest: &str) -> (r: TagsCommand<String, Vec<String>>)
    ensures
        r@ == tags_spec(rest@),
{
    let (name, sub, args) = split_named(rest);
    let s = sub.as_str();
    if crate::text::str_eq(s, "add") {
        match name {
            None => TagsCommand::Reply(
                String::from_str("usage: tags <name> add <booru> <included_comma_sep> [excluded_comma_sep]"),
            ),
            Some(n) => {
                let (booru, more) = split_once_str(args.as_str(), ' ');
                match more {
                    None => TagsCommand::Reply(
                        String::from_str(
                            "usage: tags <name> add <booru> <included_comma_sep> [excluded_comma_sep]",
                        ),
                    ),
                    Some(m) => {
                        let (inc, exc) = split_once_str(m.as_str(), ' ');
                        let included = split_trimmed(inc.as_str(), ',');
                        let excluded = csv_or_empty(exc);
                        TagsCommand::Add { name: n, booru, included, excluded }
                    },
                }
            },
        }
    } else if crate::text::str_eq(s, "delete") {
        match name {
            None => TagsCommand::Reply(String::from_str("usage: tags <name> delete [booru]")),
            Some(n) => TagsCommand::Delete {
                name: n,
                booru: if args.as_str().is_empty() {
                    None
                } else {
                    Some(args)
                },
            },
        }
    } else if crate::text::str_eq(s, "list") {
        TagsCommand::List
    } else {
        TagsCommand::Reply(String::from_str("tags subcommands: add, delete, list"))
    }
}

/// `moderator ...`
pub enum ModeratorCommand<T> {
    Reply(T),
    Add { user: i64, guild: Option<i64> },
    Remove { user: i64, guild: Option<i64> },
    List,
}

impl View for ModeratorCommand<String> {
    type V = ModeratorCommand<Seq<char>>;

    open spec fn view(&self) -> ModeratorCommand<Seq<char>> {
        match self {
            ModeratorCommand::Reply(t) => ModeratorCommand::Reply(t@),
            ModeratorCommand::Add { user, guild } => ModeratorCommand::Add { user: *user, guild: *guild },
            ModeratorCommand::Remove { user, guild } => ModeratorCommand::Remove {
                user: *user,
                guild: *guild,
            },
            ModeratorCommand::List => ModeratorCommand::List,
        }
    }
}

/// An optional guild id: none for empty text, else the number it must be.
pub open spec fn opt_guild_spec(args: Seq<char>) -> Result<Option<i64>, ()> {
    if args.len() == 0 {
        Ok(None)
    } else {
        match parse_i64_spec(args) {
            Some(g) => Ok(Some(g)),
            None => Err(()),
        }
    }
}

/// A moderator sub-command for a user (when one was named) with its arguments.
pub open spec fn moderator_sub_spec(user: Option<i64>, sub: Seq<char>, args: Seq<char>) -> ModeratorCommand<Seq<char>> {
    if sub == "add"@ || sub == "remove"@ {
        match user {
            None => ModeratorCommand::Reply(
                if sub == "add"@ {
                    "usage: moderator <user_id> add [guild_id]"@
                } else {
                    "usage: moderator <user_id> remove [guild_id]"@
                },
            ),
            Some(u) => match opt_guild_spec(args) {
                Err(()) => ModeratorCommand::Reply("invalid guild_id"@),
                Ok(g) => if sub == "add"@ {
                    ModeratorCommand::Add { user: u, guild: g }
                } else {
                    ModeratorCommand::Remove { user: u, guild: g }
                },
            },
        }
    } else if sub == "list"@ {
        ModeratorCommand::List
    } else {
        ModeratorCommand::Reply("moderator subcommands: add, remove, list"@)
    }
}

/// `<user_id> <sub> [args]`, or `list`: a user id that does not parse is refused.
pub open spec fn moderator_spec(rest: Seq<char>) -> ModeratorCommand<Seq<char>> {
    let first = command_word(rest);
    let head = head_word(rest);
    if first == "list"@ || first.len() == 0 {
        moderator_sub_spec(None, first, rest_after(rest, ' '))
    } else {
        match parse_i64_spec(head) {
            None => ModeratorCommand::Reply("invalid user_id '"@ + head + "'"@),
            Some(id) => moderator_sub_spec(
                Some(id),
                command_word(rest_after(rest, ' ')),
                rest_after(rest_after(rest, ' '), ' '),
            ),
        }
    }
}

/// Parses `moderator <rest>`.
pub fn parse_moderator_command(rest: &str) -> (r: ModeratorCommand<String>)
    ensures
        r@ == moderator_spec(rest@),
{
    let (first, head, after) = take_word(rest);
    let (user, sub, args) = if crate::text::str_eq(first.as_str(), "list") || first.as_str().is_empty() {
        (None, first, after)
    } else {
        match parse_i64(head.as_str()) {
            Some(id) => {
                let (sub, _, args) = take_word(after.as_str());
                (Some(id), sub, args)
            },
            None => return ModeratorCommand::Reply(cat3("invalid user_id '", head.as_str(), "'")),
        }
    };
    let s = sub.as_str();
    let is_add = crate::text::str_eq(s, "add");
    if is_add || crate::text::str_eq(s, "remove") {
        let u = match user {
            Some(u) => u,
            None => {
                return ModeratorCommand::Reply(
                    if is_add {
                        String::from_str("usage: moderator <user_id> add [guild_id]")
                    } else {
                        String::from_str("usage: moderator <user_id> remove [guild_id]")
                    },
                );
            },
        };
        let guild = if args.as_str().is_empty() {
            None
        } else {
            match parse_i64(args.as_str()) {
                Some(g) => Some(g),
                None => return ModeratorCommand::Reply(String::from_str("invalid guild_id")),
            }
        };
        if is_add {
            ModeratorCommand::Add { user: u, guild }
        } else {
            ModeratorCommand::Remove { user: u, guild }
        }
    } else if crate::text::str_eq(s, "list") {
        ModeratorCommand::List
    } else {
        ModeratorCommand::Reply(String::from_str("moderator subcommands: add, remove, list"))
    }
}

/// `setting ...`
pub enum SettingCommand<T> {
    Reply(T),
    Get(T),
    Put { key: T, value: T },
    List,
    Delete(T),
}

impl View for SettingCommand<String> {
    type V = SettingCommand<Seq<char>>;

    open spec fn view(&self) -> SettingCommand<Seq<char>> {
        match self {
            SettingCommand::Reply(t) => SettingCommand::Reply(t@),
            SettingCommand::Get(t) => SettingCommand::Get(t@),
            SettingCommand::Put { key, value } => SettingCommand::Put { key: key@, value: value@ },
            SettingCommand::List => SettingCommand::List,
            SettingCommand::Delete(t) => SettingCommand::Delete(t@),
        }
    }
}

pub open spec fn setting_spec(rest: Seq<char>) -> SettingCommand<Seq<char>> {
    let (key, sub, args) = named_parts(rest);
    if sub == "get"@ {
        match key {
            None => SettingCommand::Reply("usage: setting <key> get"@),
            Some(k) => SettingCommand::Get(k),
        }
    } else if sub == "set"@ {
        match key {
            None => SettingCommand::Reply("usage: setting <key> set <value>"@),
            Some(k) => if args.len() == 0 {
                SettingCommand::Reply("usage: setting <key> set <value>"@)
            } else {
                SettingCommand::Put { key: k, value: args }
            },
        }
    } else if sub == "list"@ {
        SettingCommand::List
    } else if sub == "delete"@ {
        match key {
            None => SettingCommand::Reply("usage: setting <key> delete"@),
            Some(k) => SettingCommand::Delete(k),
        }
    } else {
        SettingCommand::Reply("setting subcommands: get, set, list, delete"@)
    }
}

/// Parses `setting <rest>`.
pub fn parse_setting_command(rest: &str) -> (r: SettingCommand<String>)
    ensures
        r@ == setting_spec(rest@),
{
    let (key, sub, args) = split_named(rest);
    let s = sub.as_str();
    if crate::text::str_eq(s, "get") {
        match key {
            None => SettingCommand::Reply(String::from_str("usage: setting <key> get")),
            Some(k) => SettingCommand::Get(k),
        }
    } else if crate::text::str_eq(s, "set") {
        match key {
            None => SettingCommand::Reply(String::from_str("usage: setting <key> set <value>")),
            Some(k) => if args.as_str().is_empty() {
                SettingCommand::Reply(String::from_str("usage: setting <key> set <value>"))
            } else {
                SettingCommand::Put { key: k, value: args }
            },
        }
    } else if crate::text::str_eq(s, "list") {
        SettingCommand::List
    } else if crate::text::str_eq(s, "delete") {
        match key {
            None => SettingCommand::Reply(String::from_str("usage: setting <key> delete")),
            Some(k) => SettingCommand::Delete(k),
        }
    } else {
        SettingCommand::Reply(String::from_str("setting subcommands: get, set, list, delete"))
    }
}


// ---------------------------------------------------------------------------
// server ...
// ---------------------------------------------------------------------------

/// `server ...`: ids are the guild and the channel the request is about.
pub enum ServerCommand<T, L> {
    Reply(T),
    Validate(i64),
    Unvalidate(i64),
    List,
    Validated,
    ChannelAdd { guild: i64, channel: i64 },
    ChannelRemove { guild: i64, channel: i64 },
    ChannelSet { guild: i64, channel: i64, language: Option<T>, banned: L },
    ChannelList(i64),
    PatternAdd { guild: i64, channel: i64, name: T },
    PatternRemove { guild: i64, channel: i64, name: T },
    PatternList { guild: i64, channel: i64 },
}

impl View for ServerCommand<String, Vec<String>> {
    type V = ServerCommand<Seq<char>, Seq<Seq<char>>>;

    open spec fn view(&self) -> ServerCommand<Seq<char>, Seq<Seq<char>>> {
        match self {
            ServerCommand::Reply(t) => ServerCommand::Reply(t@),
            ServerCommand::Validate(g) => ServerCommand::Validate(*g),
            ServerCommand::Unvalidate(g) => ServerCommand::Unvalidate(*g),
            ServerCommand::List => ServerCommand::List,
            ServerCommand::Validated => ServerCommand::Validated,
            ServerCommand::ChannelAdd { guild, channel } => ServerCommand::ChannelAdd {
                guild: *guild,
                channel: *channel,
            },
            ServerCommand::ChannelRemove { guild, channel } => ServerCommand::ChannelRemove {
                guild: *guild,
                channel: *channel,
            },
            ServerCommand::ChannelSet { guild, channel, language, banned } => ServerCommand::ChannelSet {
                guild: *guild,
                channel: *channel,
                language: opt_string_view(*language),
                banned: string_views(banned@),
            },
            ServerCommand::ChannelList(g) => ServerCommand::ChannelList(*g),
            ServerCommand::PatternAdd { guild, channel, name } => ServerCommand::PatternAdd {
                guild: *guild,
                channel: *channel,
                name: name@,
            },
            ServerCommand::PatternRemove { guild, channel, name } => ServerCommand::PatternRemove {
                guild: *guild,
                channel: *channel,
                name: name@,
            },
            ServerCommand::PatternList { guild, channel } => ServerCommand::PatternList {
                guild: *guild,
                channel: *channel,
            },
        }
    }
}

/// `... channel [<channel_id>] add|remove|set|list ...`, the channel
/// defaulting to the current one.
pub open spec fn channel_spec(guild: i64, args: Seq<char>, default_channel: i64) -> ServerCommand<
    Seq<char>,
    Seq<Seq<char>>,
> {
    match try_parse_id_spec(args, Some(default_channel)) {
        Err(e) => ServerCommand::Reply(e),
        Ok((channel, r)) => {
            let action = command_word(r);
            let sub_args = rest_after(r, ' ');
            if action == "add"@ {
                ServerCommand::ChannelAdd { guild, channel }
            } else if action == "remove"@ {
                ServerCommand::ChannelRemove { guild, channel }
            } else if action == "set"@ {
                let (lang, banned) = split_once_seq(sub_args, Sep::Char(' '));
                ServerCommand::ChannelSet {
                    guild,
                    channel,
                    language: if lang.len() > 0 {
                        Some(lang)
                    } else {
                        None
                    },
                    banned: third_csv(banned),
                }
            } else if action == "list"@ {
                ServerCommand::ChannelList(guild)
            } else {
                ServerCommand::Reply(
                    "usage: server <guild_id> channel <channel_id> add|remove|set|list ..."@,
                )
            }
        },
    }
}

/// `... patterns [<channel_id>] add|remove|list [name]`.
pub open spec fn patterns_spec(guild: i64, args: Seq<char>, default_channel: i64) -> ServerCommand<
    Seq<char>,
    Seq<Seq<char>>,
> {
    match try_parse_id_spec(args, Some(default_channel)) {
        Err(e) => ServerCommand::Reply(e),
        Ok((channel, r)) => {
            let action = command_word(r);
            let name = rest_after(r, ' ');
            if action == "add"@ {
                if name.len() == 0 {
                    ServerCommand::Reply("usage: server <guild_id> patterns <channel_id> add <name>"@)
                } else {
                    ServerCommand::PatternAdd { guild, channel, name }
                }
            } else if action == "remove"@ {
                if name.len() == 0 {
                    ServerCommand::Reply(
                        "usage: server <guild_id> patterns <channel_id> remove <name>"@,
                    )
                } else {
                    ServerCommand::PatternRemove { guild, channel, name }
                }
            } else if action == "list"@ {
                ServerCommand::PatternList { guild, channel }
            } else {
                ServerCommand::Reply(
                    "usage: server <guild_id> patterns <channel_id> add|remove|list [pattern_name]"@,
                )
            }
        },
    }
}

/// `[<guild_id>] <sub> ...`, the guild defaulting to the current one.
pub open spec fn server_spec(rest: Seq<char>, default_guild: Option<i64>, default_channel: i64) -> ServerCommand<
    Seq<char>,
    Seq<Seq<char>>,
> {
    match try_parse_id_spec(rest, default_guild) {
        Err(e) => ServerCommand::Reply(e),
        Ok((guild, r)) => {
            let sub = command_word(r);
            let args = args_after(r);
            if sub == "validate"@ {
                ServerCommand::Validate(guild)
            } else if sub == "unvalidate"@ {
                ServerCommand::Unvalidate(guild)
            } else if sub == "list"@ {
                ServerCommand::List
            } else if sub == "validated"@ {
                ServerCommand::Validated
            } else if sub == "channel"@ {
                channel_spec(guild, args, default_channel)
            } else if sub == "patterns"@ {
                patterns_spec(guild, args, default_channel)
            } else {
                ServerCommand::Reply(
                    "server subcommands: validate, unvalidate, list, validated, channel, patterns"@,
                )
            }
        },
    }
}

fn parse_channel_command(guild: i64, args: &str, default_channel: i64) -> (r: ServerCommand<String, Vec<String>>)
    ensures
        r@ == channel_spec(guild, args@, default_channel),
{
    let (channel, r) = match try_parse_id(args, Some(default_channel)) {
        Ok(p) => p,
        Err(e) => return ServerCommand::Reply(e),
    };
    let (action, _, sub_args) = take_word(r.as_str());
    let a = action.as_str();
    if crate::text::str_eq(a, "add") {
        ServerCommand::ChannelAdd { guild, channel }
    } else if crate::text::str_eq(a, "remove") {
        ServerCommand::ChannelRemove { guild, channel }
    } else if crate::text::str_eq(a, "set") {
        let (lang, banned) = split_once_str(sub_args.as_str(), ' ');
        let language = if lang.as_str().is_empty() {
            None
        } else {
            Some(lang)
        };
        ServerCommand::ChannelSet { guild, channel, language, banned: csv_or_empty(banned) }
    } else if crate::text::str_eq(a, "list") {
        ServerCommand::ChannelList(guild)
    } else {
        ServerCommand::Reply(
            String::from_str("usage: server <guild_id> channel <channel_id> add|remove|set|list ..."),
        )
    }
}

fn parse_patterns_command(guild: i64, args: &str, default_channel: i64) -> (r: ServerCommand<String, Vec<String>>)
    ensures
        r@ == patterns_spec(guild, args@, default_channel),
{
    let (channel, r) = match try_parse_id(args, Some(default_channel)) {
        Ok(p) => p,
        Err(e) => return ServerCommand::Reply(e),
    };
    let (action, _, name) = take_word(r.as_str());
    let a = action.as_str();
    if crate::text::str_eq(a, "add") {
        if name.as_str().is_empty() {
            ServerCommand::Reply(String::from_str("usage: server <guild_id> patterns <channel_id> add <name>"))
        } else {
            ServerCommand::PatternAdd { guild, channel, name }
        }
    } else if crate::text::str_eq(a, "remove") {
        if name.as_str().is_empty() {
            ServerCommand::Reply(
                String::from_str("usage: server <guild_id> patterns <channel_id> remove <name>"),
            )
        } else {
            ServerCommand::PatternRemove { guild, channel, name }
        }
    } else if crate::text::str_eq(a, "list") {
        ServerCommand::PatternList { guild, channel }
    } else {
        ServerCommand::Reply(
            String::from_str(
                "usage: server <guild_id> patterns <channel_id> add|remove|list [pattern_name]",
            ),
        )
    }
}

/// Parses `server <rest>` typed in `default_channel` of `default_guild`.
pub fn parse_server_command(rest: &str, default_guild: Option<i64>, default_channel: i64) -> (r:
    ServerCommand<String, Vec<String>>)
    ensures
        r@ == server_spec(rest@, default_guild, default_channel),
{
    let (guild, r) = match try_parse_id(rest, default_guild) {
        Ok(p) => p,
        Err(e) => return ServerCommand::Reply(e),
    };
    let (sub, _, after) = take_word(r.as_str());
    let args = trim(after.as_str());
    let s = sub.as_str();
    if crate::text::str_eq(s, "validate") {
        ServerCommand::Validate(guild)
    } else if crate::text::str_eq(s, "unvalidate") {
        ServerCommand::Unvalidate(guild)
    } else if crate::text::str_eq(s, "list") {
        ServerCommand::List
    } else if crate::text::str_eq(s, "validated") {
        ServerCommand::Validated
    } else if crate::text::str_eq(s, "channel") {
        parse_channel_command(guild, args.as_str(), default_channel)
    } else if crate::text::str_eq(s, "patterns") {
        parse_patterns_command(guild, args.as_str(), default_channel)
    } else {
        ServerCommand::Reply(
            String::from_str(
                "server subcommands: validate, unvalidate, list, validated, channel, patterns",
            ),
        )
    }
}

// ---------------------------------------------------------------------------
// A server's interaction channel list
// ---------------------------------------------------------------------------

/// The list with `id` appended unless it is already there.
pub fn with_channel(channels: &Vec<i64>, id: i64) -> (r: Vec<i64>)
    ensures
        r@ == if channels@.contains(id) {
            channels@
        } else {
            channels@.push(id)
        },
{
    let mut out: Vec<i64> = Vec::new();
    let mut found = false;
    let mut i: usize = 0;
    while i < channels.len()
        invariant
            i <= channels.len(),
            out@ == channels@.take(i as int),
            found == channels@.take(i as int).contains(id),
        decreases channels.len() - i,
    {
        let c = channels[i];
        let ghost pre = channels@.take(i as int);
        let ghost t = channels@.take(i + 1);
        assert(t =~= pre.push(c));
        assert(t.contains(id) == (pre.contains(id) || c == id)) by {
            if c == id {
                assert(t[i as int] == id);
            }
            if pre.contains(id) {
                let k = choose|k: int| 0 <= k < pre.len() && pre[k] == id;
                assert(t[k] == id);
            }
            if t.contains(id) {
                let k = choose|k: int| 0 <= k < t.len() && t[k] == id;
                if k < i {
                    assert(pre[k] == id);
                }
            }
        }
        if c == id {
            found = true;
        }
        out.push(c);
        i = i + 1;
    }
    assert(channels@.take(channels.len() as int) =~= channels@);
    if !found {
        out.push(id);
    }
    out
}

/// The list without `id`.
pub open spec fn without_id(s: Seq<i64>, id: i64) -> Seq<i64>
    decreases s.len(),
{
    if s.len() == 0 {
        s
    } else if s.last() == id {
        without_id(s.drop_last(), id)
    } else {
        without_id(s.drop_last(), id).push(s.last())
    }
}

/// The list with every `id` removed.
pub fn without_channel(channels: &Vec<i64>, id: i64) -> (r: Vec<i64>)
    ensures
        r@ == without_id(channels@, id),
{
    let mut out: Vec<i64> = Vec::new();
    let mut i: usize = 0;
    while i < channels.len()
        invariant
            i <= channels.len(),
            out@ == without_id(channels@.take(i as int), id),
        decreases channels.len() - i,
    {
        let c = channels[i];
        assert(channels@.take(i + 1).drop_last() =~= channels@.take(i as int));
        if c != id {
            out.push(c);
        }
        i = i + 1;
    }
    assert(channels@.take(channels.len() as int) =~= channels@);
    out
}

} // verus!
