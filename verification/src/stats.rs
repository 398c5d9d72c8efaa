//! Stats of a game: the commands that manage them, the requests those
//! commands become, and the table that lists them.

use vstd::prelude::*;
use vstd::utf8::encode_utf8;
use crate::api_client::{body_view, ApiClient, ApiRequest, BodyValue, BodyView, Method};
use crate::text::{byte_count, concat2, concat3, copy_of, pad_right, padded, texts};

verus! {

/// Who may write a stat or unlock an achievement.
#[derive(Debug, Clone, Copy, PartialEq, Eq, Structural)]
pub enum AuthorityArg {
    Client,
    Server,
}

impl AuthorityArg {
    /// The number the service knows the authority by.
    pub fn as_number(&self) -> (n: u8)
        ensures
            n == match self {
                AuthorityArg::Client => 0u8,
                AuthorityArg::Server => 1u8,
            },
    {
        match self {
            AuthorityArg::Client => 0,
            AuthorityArg::Server => 1,
        }
    }
}

/// The name of the authority with the given number.
pub open spec fn authority_name(value: u64) -> Seq<char> {
    if value == 0 {
        "client"@
    } else if value == 1 {
        "server"@
    } else {
        "unknown"@
    }
}

/// The name of the authority with the given number.
pub fn authority_label(value: u64) -> (label: &'static str)
    ensures
        label@ == authority_name(value),
{
    if value == 0 {
        "client"
    } else if value == 1 {
        "server"
    } else {
        "unknown"
    }
}

/// The kind of value a stat holds.
#[derive(Debug, Clone, Copy, PartialEq, Eq, Structural)]
pub enum StatTypeArg {
    Integer,
    Float,
    AvgRate,
}

impl StatTypeArg {
    /// The number the service knows the kind by.
    pub fn as_number(&self) -> (n: u8)
        ensures
            n == match self {
                StatTypeArg::Integer => 0u8,
                StatTypeArg::Float => 1u8,
                StatTypeArg::AvgRate => 2u8,
            },
    {
        match self {
            StatTypeArg::Integer => 0,
            StatTypeArg::Float => 1,
            StatTypeArg::AvgRate => 2,
        }
    }
}

/// The name of the kind of stat with the given number.
pub open spec fn stat_type_name(value: u64) -> Seq<char> {
    if value == 0 {
        "integer"@
    } else if value == 1 {
        "float"@
    } else if value == 2 {
        "avg-rate"@
    } else {
        "unknown"@
    }
}

/// The name of the kind of stat with the given number.
pub fn stat_type_label(value: u64) -> (label: &'static str)
    ensures
        label@ == stat_type_name(value),
{
    if value == 0 {
        "integer"
    } else if value == 1 {
        "float"
    } else if value == 2 {
        "avg-rate"
    } else {
        "unknown"
    }
}

/// What can be done with the stats of a game.
#[derive(Debug, PartialEq, Eq)]
#[allow(inconsistent_fields)]
pub enum StatsCommands {
    /// List all stats of the game.
    List,
    /// Create a stat.
    Create { identifier: String, display_name: String, authority: AuthorityArg, stat_type: StatTypeArg },
    /// Change a stat; at least one of the three has to be given.
    Update {
        identifier: String,
        display_name: Option<String>,
        authority: Option<AuthorityArg>,
        stat_type: Option<StatTypeArg>,
    },
    /// Delete a stat.
    Delete { identifier: String },
}

/// A stat as the service lists it.
#[derive(Debug, PartialEq, Eq)]
pub struct Stat {
    pub identifier: String,
    pub display_name: String,
    pub authority: u64,
    pub stat_type: u64,
}

/// An update that changes nothing.
#[derive(Debug, Clone, Copy, PartialEq, Eq, Structural)]
pub struct NothingToUpdate;

impl NothingToUpdate {
    /// The message shown for this error.
    pub fn message(&self) -> (text: String)
        ensures
            text@ == "At least one of --display-name, --authority, or --type is required"@,
    {
        copy_of("At least one of --display-name, --authority, or --type is required")
    }
}

/// The number of an authority.
pub open spec fn authority_number(authority: AuthorityArg) -> u64 {
    match authority {
        AuthorityArg::Client => 0,
        AuthorityArg::Server => 1,
    }
}

/// The number of a kind of stat.
pub open spec fn stat_type_number(stat_type: StatTypeArg) -> u64 {
    match stat_type {
        StatTypeArg::Integer => 0,
        StatTypeArg::Float => 1,
        StatTypeArg::AvgRate => 2,
    }
}

/// The path of a game's stats.
pub open spec fn stats_path(game_id: Seq<char>) -> Seq<char> {
    "/games/"@ + game_id + "/stats"@
}

/// The path of one stat of a game.
pub open spec fn stat_path(game_id: Seq<char>, identifier: Seq<char>) -> Seq<char> {
    "/games/"@ + game_id + "/stats/"@ + identifier
}

/// The members of the body that changes a stat: of display name, authority
/// and type, those that were given, in this order.
pub open spec fn stat_update_body(
    display_name: Option<String>,
    authority: Option<AuthorityArg>,
    stat_type: Option<StatTypeArg>,
) -> Seq<(Seq<char>, BodyView)> {
    (match display_name {
        Some(name) => seq![("displayName"@, BodyView::Text(name@))],
        None => Seq::empty(),
    }) + (match authority {
        Some(a) => seq![("authority"@, BodyView::Number(authority_number(a)))],
        None => Seq::empty(),
    }) + (match stat_type {
        Some(t) => seq![("type"@, BodyView::Number(stat_type_number(t)))],
        None => Seq::empty(),
    })
}

/// Whether `request` is the request that a command becomes.
pub open spec fn stats_request_for(
    client: ApiClient,
    game_id: Seq<char>,
    command: StatsCommands,
    request: ApiRequest,
) -> bool {
    match command {
        StatsCommands::List => client.makes(request, Method::Get, stats_path(game_id))
            && request.body is None,
        StatsCommands::Create { identifier, display_name, authority, stat_type } => {
            &&& client.makes(request, Method::Post, stats_path(game_id))
            &&& request.body is Some
            &&& body_view(request.body->0@) == seq![
                ("identifier"@, BodyView::Text(identifier@)),
                ("displayName"@, BodyView::Text(display_name@)),
                ("authority"@, BodyView::Number(authority_number(authority))),
                ("type"@, BodyView::Number(stat_type_number(stat_type))),
            ]
        },
        StatsCommands::Update { identifier, display_name, authority, stat_type } => {
            &&& client.makes(request, Method::Put, stat_path(game_id, identifier@))
            &&& request.body is Some
            &&& body_view(request.body->0@) == stat_update_body(display_name, authority, stat_type)
        },
        StatsCommands::Delete { identifier } => client.makes(
            request,
            Method::Delete,
            stat_path(game_id, identifier@),
        ) && request.body is None,
    }
}

/// Whether a command asks for nothing: an update without any change.
pub open spec fn changes_nothing(command: StatsCommands) -> bool {
    command matches StatsCommands::Update { identifier, display_name, authority, stat_type }
        && display_name is None && authority is None && stat_type is None
}

/// The request that a command becomes. An update that changes nothing
/// becomes none.
pub fn stats_request(client: &ApiClient, game_id: &str, command: &StatsCommands) -> (r: Result<
    ApiRequest,
    NothingToUpdate,
>)
    ensures
        r is Err == changes_nothing(*command),
        r matches Ok(request) ==> stats_request_for(*client, game_id@, *command, request),
{
    let list = concat3("/games/", game_id, "/stats");
    let one = concat3("/games/", game_id, "/stats/");
    match command {
        StatsCommands::List => Ok(client.get(list.as_str())),
        StatsCommands::Create { identifier, display_name, authority, stat_type } => {
            let mut body: Vec<(String, BodyValue)> = Vec::new();
            body.push((copy_of("identifier"), BodyValue::Text(identifier.clone())));
            body.push((copy_of("displayName"), BodyValue::Text(display_name.clone())));
            body.push((copy_of("authority"), BodyValue::Number(authority.as_number() as u64)));
            body.push((copy_of("type"), BodyValue::Number(stat_type.as_number() as u64)));
            assert(body_view(body@) =~= seq![
                ("identifier"@, BodyView::Text(identifier@)),
                ("displayName"@, BodyView::Text(display_name@)),
                ("authority"@, BodyView::Number(authority_number(*authority))),
                ("type"@, BodyView::Number(stat_type_number(*stat_type))),
            ]);
            Ok(client.post(list.as_str(), Some(body)))
        },
        StatsCommands::Update { identifier, display_name, authority, stat_type } => {
            if display_name.is_none() && authority.is_none() && stat_type.is_none() {
                return Err(NothingToUpdate);
            }
            let mut body: Vec<(String, BodyValue)> = Vec::new();
            let ghost empty = body_view(body@);
            assert(empty =~= Seq::empty());
            match display_name {
                Some(name) => {
                    body.push((copy_of("displayName"), BodyValue::Text(name.clone())));
                },
                None => {},
            }
            let ghost first = body_view(body@);
            assert(first =~= empty + (match *display_name {
                Some(name) => seq![("displayName"@, BodyView::Text(name@))],
                None => Seq::empty(),
            }));
            match authority {
                Some(a) => {
                    body.push((copy_of("authority"), BodyValue::Number(a.as_number() as u64)));
                },
                None => {},
            }
            let ghost second = body_view(body@);
            assert(second =~= first + (match *authority {
                Some(a) => seq![("authority"@, BodyView::Number(authority_number(a)))],
                None => Seq::empty(),
            }));
            match stat_type {
                Some(t) => {
                    body.push((copy_of("type"), BodyValue::Number(t.as_number() as u64)));
                },
                None => {},
            }
            assert(body_view(body@) =~= second + (match *stat_type {
                Some(t) => seq![("type"@, BodyView::Number(stat_type_number(t)))],
                None => Seq::empty(),
            }));
            let path = concat2(one.as_str(), identifier.as_str());
            Ok(client.put(path.as_str(), body))
        },
        StatsCommands::Delete { identifier } => {
            let path = concat2(one.as_str(), identifier.as_str());
            Ok(client.delete(path.as_str()))
        },
    }
}

/// What is said when a command has succeeded; listing says nothing of its
/// own.
pub open spec fn stats_done_text(command: StatsCommands) -> Option<Seq<char>> {
    match command {
        StatsCommands::List => None,
        StatsCommands::Create { identifier, display_name, authority, stat_type } => Some(
            "Created stat '"@ + identifier@ + "'"@,
        ),
        StatsCommands::Update { identifier, display_name, authority, stat_type } => Some(
            "Updated stat '"@ + identifier@ + "'"@,
        ),
        StatsCommands::Delete { identifier } => Some("Deleted stat '"@ + identifier@ + "'"@),
    }
}

/// What is said when a command has succeeded.
pub fn stats_done_message(command: &StatsCommands) -> (text: Option<String>)
    ensures
        text is Some == stats_done_text(*command) is Some,
        text matches Some(t) ==> stats_done_text(*command) == Some(t@),
{
    match command {
        StatsCommands::List => None,
        StatsCommands::Create { identifier, display_name, authority, stat_type } => Some(
            concat3("Created stat '", identifier.as_str(), "'"),
        ),
        StatsCommands::Update { identifier, display_name, authority, stat_type } => Some(
            concat3("Updated stat '", identifier.as_str(), "'"),
        ),
        StatsCommands::Delete { identifier } => Some(
            concat3("Deleted stat '", identifier.as_str(), "'"),
        ),
    }
}

/// The larger of two numbers.
pub open spec fn larger(a: nat, b: nat) -> nat {
    if a >= b {
        a
    } else {
        b
    }
}

/// The length of a text in bytes, as UTF-8.
pub open spec fn byte_len(s: Seq<char>) -> nat {
    encode_utf8(s).len()
}

/// The width of the identifier column: that of the longest identifier in
/// bytes, and at least ten.
pub open spec fn identifier_width(stats: Seq<Stat>) -> nat
    decreases stats.len(),
{
    if stats.len() == 0 {
        10
    } else {
        larger(identifier_width(stats.drop_last()), byte_len(stats.last().identifier@))
    }
}

/// The width of the display name column: that of the longest display name
/// in bytes, and at least twelve.
pub open spec fn display_name_width(stats: Seq<Stat>) -> nat
    decreases stats.len(),
{
    if stats.len() == 0 {
        12
    } else {
        larger(display_name_width(stats.drop_last()), byte_len(stats.last().display_name@))
    }
}

/// One line of the table of stats: four columns, two spaces between them,
/// the first three filled up to their widths.
pub open spec fn stats_line(
    identifier: Seq<char>,
    display_name: Seq<char>,
    authority: Seq<char>,
    stat_type: Seq<char>,
    id_width: nat,
    name_width: nat,
) -> Seq<char> {
    padded(identifier, id_width) + "  "@ + padded(display_name, name_width) + "  "@ + padded(
        authority,
        9,
    ) + "  "@ + stat_type
}

/// The lines that list the stats of a game: a heading and one line for each
/// stat, or a single line that says there are none.
pub open spec fn stats_table_lines(stats: Seq<Stat>) -> Seq<Seq<char>> {
    if stats.len() == 0 {
        seq!["No stats found."@]
    } else {
        let id_width = identifier_width(stats);
        let name_width = display_name_width(stats);
        seq![
            stats_line("IDENTIFIER"@, "DISPLAY NAME"@, "AUTHORITY"@, "TYPE"@, id_width, name_width),
        ] + Seq::new(
            stats.len(),
            |i: int|
                stats_line(
                    stats[i].identifier@,
                    stats[i].display_name@,
                    authority_name(stats[i].authority),
                    stat_type_name(stats[i].stat_type),
                    id_width,
                    name_width,
                ),
        )
    }
}

fn line(
    identifier: &str,
    display_name: &str,
    authority: &str,
    stat_type: &str,
    id_width: usize,
    name_width: usize,
) -> (text: String)
    ensures
        text@ == stats_line(
            identifier@,
            display_name@,
            authority@,
            stat_type@,
            id_width as nat,
            name_width as nat,
        ),
{
    let mut text = concat2(pad_right(identifier, id_width).as_str(), "  ");
    text = concat3(text.as_str(), pad_right(display_name, name_width).as_str(), "  ");
    text = concat3(text.as_str(), pad_right(authority, 9).as_str(), "  ");
    concat2(text.as_str(), stat_type)
}

/// The lines that list the stats of a game.
pub fn stats_table(stats: &Vec<Stat>) -> (lines: Vec<String>)
    ensures
        texts(lines@) == stats_table_lines(stats@),
{
    let mut lines: Vec<String> = Vec::new();
    if stats.len() == 0 {
        lines.push(copy_of("No stats found."));
        assert(texts(lines@) =~= seq!["No stats found."@]);
        return lines;
    }
    let mut id_width: usize = 10;
    let mut name_width: usize = 12;
    let mut i: usize = 0;
    while i < stats.len()
        invariant
            i <= stats.len(),
            id_width == identifier_width(stats@.take(i as int)),
            name_width == display_name_width(stats@.take(i as int)),
        decreases stats.len() - i,
    {
        assert(stats@.take(i + 1).drop_last() == stats@.take(i as int));
        let id_len = byte_count(stats[i].identifier.as_str());
        let name_len = byte_count(stats[i].display_name.as_str());
        if id_len > id_width {
            id_width = id_len;
        }
        if name_len > name_width {
            name_width = name_len;
        }
        i += 1;
    }
    assert(stats@.take(stats.len() as int) == stats@);
    lines.push(line("IDENTIFIER", "DISPLAY NAME", "AUTHORITY", "TYPE", id_width, name_width));
    let ghost heading = texts(lines@);
    let ghost rows = Seq::new(
        stats.len() as nat,
        |i: int|
            stats_line(
                stats@[i].identifier@,
                stats@[i].display_name@,
                authority_name(stats@[i].authority),
                stat_type_name(stats@[i].stat_type),
                id_width as nat,
                name_width as nat,
            ),
    );
    let mut k: usize = 0;
    assert(texts(lines@) =~= heading + rows.take(0));
    while k < stats.len()
        invariant
            k <= stats.len(),
            rows.len() == stats.len(),
            forall|i: int|
                0 <= i < stats.len() ==> #[trigger] rows[i] == stats_line(
                    stats@[i].identifier@,
                    stats@[i].display_name@,
                    authority_name(stats@[i].authority),
                    stat_type_name(stats@[i].stat_type),
                    id_width as nat,
                    name_width as nat,
                ),
            texts(lines@) == heading + rows.take(k as int),
        decreases stats.len() - k,
    {
        let stat = &stats[k];
        let row = line(
            stat.identifier.as_str(),
            stat.display_name.as_str(),
            authority_label(stat.authority),
            stat_type_label(stat.stat_type),
            id_width,
            name_width,
        );
        assert(row@ == rows[k as int]);
        let ghost before = texts(lines@);
        lines.push(row);
        assert(texts(lines@) =~= before.push(row@));
        assert(rows.take(k + 1) =~= rows.take(k as int).push(rows[k as int]));
        k += 1;
    }
    assert(rows.take(stats.len() as int) =~= rows);
    lines
}

} // verus!
