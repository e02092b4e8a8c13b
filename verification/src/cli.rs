//! The console log lines. Each function returns the line that the caller
//! prints; the caller supplies the current timestamp.
use vstd::prelude::*;
use crate::num::{dec, dec_int, i64_to_string, usize_to_string};
use crate::text::{
    chars_of, extend_str, join_seq, join_vecs, non_empty_pieces, non_empty_vecs, split_seq,
    split_vec, string_of, views, Sep,
};

verus! {

/// Words joined by single spaces.
pub open spec fn words(ps: Seq<Seq<char>>) -> Seq<char> {
    join_seq(ps, seq![' '])
}

/// Runs of white space collapsed to one space, ends trimmed; `-` when nothing is left.
pub open spec fn normalize_spec(s: Seq<char>) -> Seq<char> {
    let j = words(non_empty_pieces(split_seq(s, Sep::Ws)));
    if j.len() == 0 {
        seq!['-']
    } else {
        j
    }
}

pub open spec fn normalize_option_spec(v: Option<i64>) -> Seq<char> {
    match v {
        Some(n) => dec_int(n as int),
        None => seq!['-'],
    }
}

pub open spec fn normalize_optional_str_spec(v: Option<Seq<char>>) -> Seq<char> {
    match v {
        Some(s) => normalize_spec(s),
        None => seq!['-'],
    }
}

/// `"{n} {word}"`, with an `s` after the word when `n` is above one.
pub open spec fn plural_spec(n: nat, word: Seq<char>) -> Seq<char> {
    if n <= 1 {
        dec(n) + seq![' '] + word
    } else {
        dec(n) + seq![' '] + word + seq!['s']
    }
}

fn line_of(parts: &Vec<Vec<char>>) -> (r: String)
    ensures
        r@ == words(views(parts@)),
{
    let mut sp: Vec<char> = Vec::new();
    sp.push(' ');
    assert(sp@ =~= seq![' ']);
    let j = join_vecs(parts, &sp);
    string_of(&j)
}

fn chars_vec_of_string(s: &String) -> (r: Vec<char>)
    ensures
        r@ == s@,
{
    chars_of(s.as_str())
}

fn normalize_vec(value: &str) -> (r: Vec<char>)
    ensures
        r@ == normalize_spec(value@),
{
    let v = chars_of(value);
    let pieces = split_vec(&v, Sep::Ws);
    let kept = non_empty_vecs(pieces);
    let mut sp: Vec<char> = Vec::new();
    sp.push(' ');
    assert(sp@ =~= seq![' ']);
    let j = join_vecs(&kept, &sp);
    if j.len() == 0 {
        let mut d: Vec<char> = Vec::new();
        d.push('-');
        assert(d@ =~= seq!['-']);
        d
    } else {
        j
    }
}

/// Collapses white space runs to one space and trims; `-` for blank text.
pub fn normalize(value: &str) -> (r: String)
    ensures
        r@ == normalize_spec(value@),
{
    let v = normalize_vec(value);
    string_of(&v)
}

pub fn normalize_i64(value: i64) -> (r: String)
    ensures
        r@ == dec_int(value as int),
{
    i64_to_string(value)
}

pub fn normalize_option(value: Option<i64>) -> (r: String)
    ensures
        r@ == normalize_option_spec(value),
{
    match value {
        Some(n) => i64_to_string(n),
        None => {
            let mut d: Vec<char> = Vec::new();
            d.push('-');
            assert(d@ =~= seq!['-']);
            string_of(&d)
        },
    }
}

pub fn normalize_optional_str(value: Option<&str>) -> (r: String)
    ensures
        r@ == normalize_optional_str_spec(opt_view(value)),
{
    match value {
        Some(s) => normalize(s),
        None => {
            let mut d: Vec<char> = Vec::new();
            d.push('-');
            assert(d@ =~= seq!['-']);
            string_of(&d)
        },
    }
}

/// `"{n} {word}"` or `"{n} {word}s"`.
pub fn plural(n: usize, word: &str) -> (r: String)
    ensures
        r@ == plural_spec(n as nat, word@),
{
    let ns = usize_to_string(n);
    let mut v = chars_vec_of_string(&ns);
    v.push(' ');
    extend_str(&mut v, word);
    if n > 1 {
        v.push('s');
    }
    string_of(&v)
}

fn text(s: &str) -> (r: Vec<char>)
    ensures
        r@ == s@,
{
    chars_of(s)
}

fn string_chars(s: String) -> (r: Vec<char>)
    ensures
        r@ == s@,
{
    chars_of(s.as_str())
}

pub open spec fn opt_view(v: Option<&str>) -> Option<Seq<char>> {
    match v {
        Some(s) => Some(s@),
        None => None,
    }
}

/// `"{ts} {server} {channel} {user} {command}"`.
pub fn app_input(timestamp: &str, server: Option<i64>, channel: i64, user: i64, command: &str) -> (r:
    String)
    ensures
        r@ == words(
            seq![
                timestamp@,
                normalize_option_spec(server),
                dec_int(channel as int),
                dec_int(user as int),
                normalize_spec(command@),
            ],
        ),
{
    let mut parts: Vec<Vec<char>> = Vec::new();
    parts.push(text(timestamp));
    parts.push(string_chars(normalize_option(server)));
    parts.push(string_chars(normalize_i64(channel)));
    parts.push(string_chars(normalize_i64(user)));
    parts.push(normalize_vec(command));
    let r = line_of(&parts);
    assert(views(parts@) =~= seq![
        timestamp@,
        normalize_option_spec(server),
        dec_int(channel as int),
        dec_int(user as int),
        normalize_spec(command@),
    ]);
    r
}

/// `"Booru random step: {ts} {step} {result}"`.
pub fn booru_random(timestamp: &str, step: &str, result: &str) -> (r: String)
    ensures
        r@ == words(
            seq![
                "Booru random step:"@,
                timestamp@,
                normalize_spec(step@),
                normalize_spec(result@),
            ],
        ),
{
    let mut parts: Vec<Vec<char>> = Vec::new();
    parts.push(text("Booru random step:"));
    parts.push(text(timestamp));
    parts.push(normalize_vec(step));
    parts.push(normalize_vec(result));
    let r = line_of(&parts);
    assert(views(parts@) =~= seq![
        "Booru random step:"@,
        timestamp@,
        normalize_spec(step@),
        normalize_spec(result@),
    ]);
    r
}

/// `"{ts} Request: {url}"`.
pub fn request(timestamp: &str, url: &str) -> (r: String)
    ensures
        r@ == words(seq![timestamp@, "Request:"@, url@]),
{
    let mut parts: Vec<Vec<char>> = Vec::new();
    parts.push(text(timestamp));
    parts.push(text("Request:"));
    parts.push(text(url));
    let r = line_of(&parts);
    assert(views(parts@) =~= seq![timestamp@, "Request:"@, url@]);
    r
}

/// `"Final selection (kept): {ts} {booru source} {external source} {picture}"`.
pub fn final_kept(
    timestamp: &str,
    booru_source: Option<&str>,
    external_source: Option<&str>,
    picture: &str,
) -> (r: String)
    ensures
        r@ == words(
            seq![
                "Final selection (kept):"@,
                timestamp@,
                normalize_optional_str_spec(opt_view(booru_source)),
                normalize_optional_str_spec(opt_view(external_source)),
                normalize_spec(picture@),
            ],
        ),
{
    let mut parts: Vec<Vec<char>> = Vec::new();
    parts.push(text("Final selection (kept):"));
    parts.push(text(timestamp));
    parts.push(string_chars(normalize_optional_str(booru_source)));
    parts.push(string_chars(normalize_optional_str(external_source)));
    parts.push(normalize_vec(picture));
    let r = line_of(&parts);
    assert(views(parts@) =~= seq![
        "Final selection (kept):"@,
        timestamp@,
        normalize_optional_str_spec(opt_view(booru_source)),
        normalize_optional_str_spec(opt_view(external_source)),
        normalize_spec(picture@),
    ]);
    r
}

/// `"Final selection (kept + compressed): {ts} {booru source} {external source} {picture} Compressed in {time}"`.
pub fn final_kept_compressed(
    timestamp: &str,
    booru_source: Option<&str>,
    external_source: Option<&str>,
    picture: &str,
    compression_time: &str,
) -> (r: String)
    ensures
        r@ == words(
            seq![
                "Final selection (kept + compressed):"@,
                timestamp@,
                normalize_optional_str_spec(opt_view(booru_source)),
                normalize_optional_str_spec(opt_view(external_source)),
                normalize_spec(picture@),
                "Compressed in"@,
                normalize_spec(compression_time@),
            ],
        ),
{
    let mut parts: Vec<Vec<char>> = Vec::new();
    parts.push(text("Final selection (kept + compressed):"));
    parts.push(text(timestamp));
    parts.push(string_chars(normalize_optional_str(booru_source)));
    parts.push(string_chars(normalize_optional_str(external_source)));
    parts.push(normalize_vec(picture));
    parts.push(text("Compressed in"));
    parts.push(normalize_vec(compression_time));
    let r = line_of(&parts);
    assert(views(parts@) =~= seq![
        "Final selection (kept + compressed):"@,
        timestamp@,
        normalize_optional_str_spec(opt_view(booru_source)),
        normalize_optional_str_spec(opt_view(external_source)),
        normalize_spec(picture@),
        "Compressed in"@,
        normalize_spec(compression_time@),
    ]);
    r
}

/// `"Final selection (not kept, retrying): {ts} {reason} {retry count}"`.
pub fn final_retry(timestamp: &str, reason: &str, retry_count: usize) -> (r: String)
    ensures
        r@ == words(
            seq![
                "Final selection (not kept, retrying):"@,
                timestamp@,
                normalize_spec(reason@),
                dec(retry_count as nat),
            ],
        ),
{
    let mut parts: Vec<Vec<char>> = Vec::new();
    parts.push(text("Final selection (not kept, retrying):"));
    parts.push(text(timestamp));
    parts.push(normalize_vec(reason));
    parts.push(string_chars(usize_to_string(retry_count)));
    let r = line_of(&parts);
    assert(views(parts@) =~= seq![
        "Final selection (not kept, retrying):"@,
        timestamp@,
        normalize_spec(reason@),
        dec(retry_count as nat),
    ]);
    r
}

/// `"{ts} {server} {channel} {output type}"`.
pub fn app_output(timestamp: &str, server: Option<i64>, channel: i64, output_type: &str) -> (r:
    String)
    ensures
        r@ == words(
            seq![
                timestamp@,
                normalize_option_spec(server),
                dec_int(channel as int),
                normalize_spec(output_type@),
            ],
        ),
{
    let mut parts: Vec<Vec<char>> = Vec::new();
    parts.push(text(timestamp));
    parts.push(string_chars(normalize_option(server)));
    parts.push(string_chars(normalize_i64(channel)));
    parts.push(normalize_vec(output_type));
    let r = line_of(&parts);
    assert(views(parts@) =~= seq![
        timestamp@,
        normalize_option_spec(server),
        dec_int(channel as int),
        normalize_spec(output_type@),
    ]);
    r
}

/// `"{ts} Found {n} servers and {n} validated servers and {n} configured channels and {n} commands."`.
pub fn init_status(
    timestamp: &str,
    total_servers: usize,
    validated_servers: usize,
    channels: usize,
    commands: usize,
) -> (r: String)
    ensures
        r@ == words(
            seq![
                timestamp@,
                "Found"@,
                plural_spec(total_servers as nat, "server"@),
                "and"@,
                plural_spec(validated_servers as nat, "validated server"@),
                "and"@,
                plural_spec(channels as nat, "configured channel"@),
                "and"@,
                plural_spec(commands as nat, "command"@) + "."@,
            ],
        ),
{
    let mut parts: Vec<Vec<char>> = Vec::new();
    parts.push(text(timestamp));
    parts.push(text("Found"));
    parts.push(string_chars(plural(total_servers, "server")));
    parts.push(text("and"));
    parts.push(string_chars(plural(validated_servers, "validated server")));
    parts.push(text("and"));
    parts.push(string_chars(plural(channels, "configured channel")));
    parts.push(text("and"));
    let mut last = string_chars(plural(commands, "command"));
    extend_str(&mut last, ".");
    parts.push(last);
    let r = line_of(&parts);
    assert(views(parts@) =~= seq![
        timestamp@,
        "Found"@,
        plural_spec(total_servers as nat, "server"@),
        "and"@,
        plural_spec(validated_servers as nat, "validated server"@),
        "and"@,
        plural_spec(channels as nat, "configured channel"@),
        "and"@,
        plural_spec(commands as nat, "command"@) + "."@,
    ]);
    r
}

/// A timestamped fixed message.
fn status_line(timestamp: &str, message: &str) -> (r: String)
    ensures
        r@ == words(seq![timestamp@, message@]),
{
    let mut parts: Vec<Vec<char>> = Vec::new();
    parts.push(text(timestamp));
    parts.push(text(message));
    let r = line_of(&parts);
    assert(views(parts@) =~= seq![timestamp@, message@]);
    r
}

/// `"{ts} Checking the DB."`.
pub fn checking_db(timestamp: &str) -> (r: String)
    ensures
        r@ == words(seq![timestamp@, "Checking the DB."@]),
{
    status_line(timestamp, "Checking the DB.")
}

/// `"{ts} DB cleaned {n} rows."`.
pub fn db_cleaned(timestamp: &str, changes: usize) -> (r: String)
    ensures
        r@ == words(seq![timestamp@, "DB cleaned"@, plural_spec(changes as nat, "row"@) + "."@]),
{
    let mut parts: Vec<Vec<char>> = Vec::new();
    parts.push(text(timestamp));
    parts.push(text("DB cleaned"));
    let mut last = string_chars(plural(changes, "row"));
    extend_str(&mut last, ".");
    parts.push(last);
    let r = line_of(&parts);
    assert(views(parts@) =~= seq![
        timestamp@,
        "DB cleaned"@,
        plural_spec(changes as nat, "row"@) + "."@,
    ]);
    r
}

/// `"{ts} Commands cleaned."`.
pub fn commands_cleaned(timestamp: &str) -> (r: String)
    ensures
        r@ == words(seq![timestamp@, "Commands cleaned."@]),
{
    status_line(timestamp, "Commands cleaned.")
}

/// `"{ts} Commands pushed."`.
pub fn commands_pushed(timestamp: &str) -> (r: String)
    ensures
        r@ == words(seq![timestamp@, "Commands pushed."@]),
{
    status_line(timestamp, "Commands pushed.")
}

/// `"{ts} Server ready."`.
pub fn server_ready(timestamp: &str) -> (r: String)
    ensures
        r@ == words(seq![timestamp@, "Server ready."@]),
{
    status_line(timestamp, "Server ready.")
}

/// `"{ts} Bot loading."`.
pub fn bot_loading(timestamp: &str) -> (r: String)
    ensures
        r@ == words(seq![timestamp@, "Bot loading."@]),
{
    status_line(timestamp, "Bot loading.")
}

/// `"{ts} Bot reloading."`.
pub fn bot_reloading(timestamp: &str) -> (r: String)
    ensures
        r@ == words(seq![timestamp@, "Bot reloading."@]),
{
    status_line(timestamp, "Bot reloading.")
}

/// `"{ts} Bot loaded."`.
pub fn bot_loaded(timestamp: &str) -> (r: String)
    ensures
        r@ == words(seq![timestamp@, "Bot loaded."@]),
{
    status_line(timestamp, "Bot loaded.")
}

/// `"{ts} Bot reloaded."`.
pub fn bot_reloaded(timestamp: &str) -> (r: String)
    ensures
        r@ == words(seq![timestamp@, "Bot reloaded."@]),
{
    status_line(timestamp, "Bot reloaded.")
}

/// `"{ts} Unloaded everything."`.
pub fn unloaded_everything(timestamp: &str) -> (r: String)
    ensures
        r@ == words(seq![timestamp@, "Unloaded everything."@]),
{
    status_line(timestamp, "Unloaded everything.")
}

/// `"{ts} {error} {error type}"`.
pub fn error(timestamp: &str, message: &str, error_type: &str) -> (r: String)
    ensures
        r@ == words(seq![timestamp@, normalize_spec(message@), normalize_spec(error_type@)]),
{
    let mut parts: Vec<Vec<char>> = Vec::new();
    parts.push(text(timestamp));
    parts.push(normalize_vec(message));
    parts.push(normalize_vec(error_type));
    let r = line_of(&parts);
    assert(views(parts@) =~= seq![timestamp@, normalize_spec(message@), normalize_spec(error_type@)]);
    r
}

/// `"{ts} WARNING: custom parameter {key} not found for booru {booru}"`.
pub fn warn_missing_custom(timestamp: &str, booru: &str, key: &str) -> (r: String)
    ensures
        r@ == words(
            seq![timestamp@, "WARNING: custom parameter"@, key@, "not found for booru"@, booru@],
        ),
{
    let mut parts: Vec<Vec<char>> = Vec::new();
    parts.push(text(timestamp));
    parts.push(text("WARNING: custom parameter"));
    parts.push(text(key));
    parts.push(text("not found for booru"));
    parts.push(text(booru));
    let r = line_of(&parts);
    assert(views(parts@) =~= seq![
        timestamp@,
        "WARNING: custom parameter"@,
        key@,
        "not found for booru"@,
        booru@,
    ]);
    r
}

} // verus!
