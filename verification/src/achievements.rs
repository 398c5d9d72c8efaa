//! Achievements of a game: the commands that manage them, the requests those
//! commands become, their images, and the table that lists them.

use vstd::prelude::*;
use crate::api_client::{body_view, ApiClient, ApiRequest, BodyValue, BodyView, Method};
use crate::stats::{authority_label, authority_name, authority_number, byte_len, larger, AuthorityArg};
use crate::text::{
    byte_count,
    char_count,
    concat2,
    concat3,
    copy_of,
    decimal,
    decimal_text,
    first_chars,
    pad_right,
    padded,
    same,
    texts,
};

verus! {

/// A text in lower case, as Unicode defines it.
pub uninterp spec fn lowercased(s: Seq<char>) -> Seq<char>;

/// `str::to_lowercase` returns the lowercase equivalent of a string.
pub assume_specification[ str::to_lowercase ](s: &str) -> (lower: String)
    ensures
        lower@ == lowercased(s@),
;

/// Whether an image with the given extension can be uploaded: JPEG, PNG,
/// GIF and WebP can.
pub open spec fn allowed_extension(ext: Seq<char>) -> bool {
    ext == "jpg"@ || ext == "jpeg"@ || ext == "png"@ || ext == "gif"@ || ext == "webp"@
}

/// The content type of a file with the given extension.
pub open spec fn content_type_of(ext: Seq<char>) -> Seq<char> {
    if ext == "jpg"@ || ext == "jpeg"@ {
        "image/jpeg"@
    } else if ext == "png"@ {
        "image/png"@
    } else if ext == "gif"@ {
        "image/gif"@
    } else if ext == "webp"@ {
        "image/webp"@
    } else {
        "application/octet-stream"@
    }
}

/// The content type of a file with the given extension.
pub fn content_type_for_ext(ext: &str) -> (content_type: &'static str)
    ensures
        content_type@ == content_type_of(ext@),
{
    if same(ext, "jpg") || same(ext, "jpeg") {
        "image/jpeg"
    } else if same(ext, "png") {
        "image/png"
    } else if same(ext, "gif") {
        "image/gif"
    } else if same(ext, "webp") {
        "image/webp"
    } else {
        "application/octet-stream"
    }
}

/// Why a file cannot be an achievement's image.
#[derive(Debug, PartialEq, Eq)]
pub enum ImageError {
    /// The file is not there.
    NotFound,
    /// The file's name has no extension.
    NoExtension,
    /// The extension, in lower case, is not one of the formats accepted.
    Unsupported(String),
}

/// The extension under which an image is uploaded: the extension of the
/// file's name in lower case, if that is a format accepted.
pub fn image_extension(exists: bool, extension: Option<&str>) -> (r: Result<String, ImageError>)
    ensures
        match r {
            Ok(ext) => exists && extension is Some && ext@ == lowercased(extension->0@)
                && allowed_extension(ext@),
            Err(ImageError::NotFound) => !exists,
            Err(ImageError::NoExtension) => exists && extension is None,
            Err(ImageError::Unsupported(ext)) => exists && extension is Some && ext@ == lowercased(
                extension->0@,
            ) && !allowed_extension(ext@),
        },
{
    if !exists {
        return Err(ImageError::NotFound);
    }
    let ext = match extension {
        Some(e) => e.to_lowercase(),
        None => {
            return Err(ImageError::NoExtension);
        },
    };
    let e = ext.as_str();
    if same(e, "jpg") || same(e, "jpeg") || same(e, "png") || same(e, "gif") || same(e, "webp") {
        Ok(ext)
    } else {
        Err(ImageError::Unsupported(ext))
    }
}

/// The message of an image error, for the file at `path`.
pub open spec fn image_error_text(e: ImageError, path: Seq<char>) -> Seq<char> {
    match e {
        ImageError::NotFound => "Image file not found: "@ + path,
        ImageError::NoExtension => "Image file has no extension: "@ + path,
        ImageError::Unsupported(ext) => "Unsupported image format '"@ + ext@
            + "'. Allowed: jpg, jpeg, png, gif, webp"@,
    }
}

impl ImageError {
    /// The message shown for this error, for the file at `path`.
    pub fn message(&self, path: &str) -> (text: String)
        ensures
            text@ == image_error_text(*self, path@),
    {
        match self {
            ImageError::NotFound => concat2("Image file not found: ", path),
            ImageError::NoExtension => concat2("Image file has no extension: ", path),
            ImageError::Unsupported(ext) => concat3(
                "Unsupported image format '",
                ext.as_str(),
                "'. Allowed: jpg, jpeg, png, gif, webp",
            ),
        }
    }
}

/// The request for an address to upload an achievement's image to.
pub fn upload_url_request(client: &ApiClient, game_id: &str, extension: &str) -> (request:
    ApiRequest)
    ensures
        client.makes(request, Method::Post, "/games/"@ + game_id@ + "/assets/upload-url"@),
        request.body is Some,
        body_view(request.body->0@) == seq![
            ("assetType"@, BodyView::Text("ACHIEVEMENT"@)),
            ("fileExtension"@, BodyView::Text(extension@)),
        ],
{
    let mut body: Vec<(String, BodyValue)> = Vec::new();
    body.push((copy_of("assetType"), BodyValue::Text(copy_of("ACHIEVEMENT"))));
    body.push((copy_of("fileExtension"), BodyValue::Text(copy_of(extension))));
    assert(body_view(body@) =~= seq![
        ("assetType"@, BodyView::Text("ACHIEVEMENT"@)),
        ("fileExtension"@, BodyView::Text(extension@)),
    ]);
    let path = concat3("/games/", game_id, "/assets/upload-url");
    client.post(path.as_str(), Some(body))
}

/// What a new achievement is made of. A threshold is a number as JSON
/// writes it.
#[derive(Debug, PartialEq, Eq)]
pub struct NewAchievement {
    pub identifier: String,
    pub display_name: String,
    pub description: String,
    /// The image file on disk.
    pub image: String,
    pub authority: AuthorityArg,
    pub points: Option<u32>,
    pub stat_identifier: Option<String>,
    pub stat_threshold: Option<String>,
}

/// What is to change of an achievement.
#[derive(Debug, PartialEq, Eq)]
pub struct AchievementChanges {
    pub identifier: String,
    pub display_name: Option<String>,
    pub description: Option<String>,
    /// The new image file on disk.
    pub image: Option<String>,
    pub authority: Option<AuthorityArg>,
    pub points: Option<u32>,
    /// The stat to link; `none` takes the link away.
    pub stat_identifier: Option<String>,
    pub stat_threshold: Option<String>,
}

/// What can be done with the achievements of a game.
#[derive(Debug, PartialEq, Eq)]
pub enum AchievementsCommands {
    /// List all achievements of the game.
    List,
    /// Create an achievement.
    Create(NewAchievement),
    /// Change an achievement; at least one change has to be given.
    Update(AchievementChanges),
    /// Delete an achievement.
    Delete { identifier: String },
}

/// An update that changes nothing.
#[derive(Debug, Clone, Copy, PartialEq, Eq, Structural)]
pub struct NoChanges;

impl NoChanges {
    /// The message shown for this error.
    pub fn message(&self) -> (text: String)
        ensures
            text@ == "At least one of --display-name, --description, --image, --authority, --points, --stat-identifier, or --stat-threshold is required"@,
    {
        copy_of(
            "At least one of --display-name, --description, --image, --authority, --points, --stat-identifier, or --stat-threshold is required",
        )
    }
}

/// The image file that has to be uploaded before a command can be sent.
pub open spec fn image_of(command: AchievementsCommands) -> Option<Seq<char>> {
    match command {
        AchievementsCommands::Create(new) => Some(new.image@),
        AchievementsCommands::Update(changes) => match changes.image {
            Some(image) => Some(image@),
            None => None,
        },
        _ => None,
    }
}

/// Whether an update names no change at all.
pub open spec fn no_changes(changes: AchievementChanges) -> bool {
    changes.display_name is None && changes.description is None && changes.image is None
        && changes.authority is None && changes.points is None && changes.stat_identifier is None
        && changes.stat_threshold is None
}

/// One optional member of a body.
pub open spec fn optional_member(name: Seq<char>, value: Option<BodyView>) -> Seq<
    (Seq<char>, BodyView),
> {
    match value {
        Some(v) => seq![(name, v)],
        None => Seq::empty(),
    }
}

/// A text, if there is one, as a value of a body.
pub open spec fn text_value(value: Option<String>) -> Option<BodyView> {
    match value {
        Some(s) => Some(BodyView::Text(s@)),
        None => None,
    }
}

/// A number as JSON writes it, if there is one, as a value of a body.
pub open spec fn literal_value(value: Option<String>) -> Option<BodyView> {
    match value {
        Some(s) => Some(BodyView::Literal(s@)),
        None => None,
    }
}

/// Points, if there are any, as a value of a body.
pub open spec fn points_value(value: Option<u32>) -> Option<BodyView> {
    match value {
        Some(p) => Some(BodyView::Number(p as u64)),
        None => None,
    }
}

/// An authority, if there is one, as a value of a body.
pub open spec fn authority_value(value: Option<AuthorityArg>) -> Option<BodyView> {
    match value {
        Some(a) => Some(BodyView::Number(authority_number(a))),
        None => None,
    }
}

/// The stat to link, as a value of a body: `none` is sent as null.
pub open spec fn link_value(value: Option<String>) -> Option<BodyView> {
    match value {
        Some(s) => if s@ == "none"@ {
            Some(BodyView::Null)
        } else {
            Some(BodyView::Text(s@))
        },
        None => None,
    }
}

/// The body that creates an achievement, with the address its image was
/// uploaded to.
pub open spec fn create_body(new: NewAchievement, image_url: Seq<char>) -> Seq<
    (Seq<char>, BodyView),
> {
    seq![
        ("identifier"@, BodyView::Text(new.identifier@)),
        ("displayName"@, BodyView::Text(new.display_name@)),
        ("description"@, BodyView::Text(new.description@)),
        ("image"@, BodyView::Text(image_url)),
        ("authority"@, BodyView::Number(authority_number(new.authority))),
    ] + optional_member("points"@, points_value(new.points)) + optional_member(
        "statIdentifier"@,
        text_value(new.stat_identifier),
    ) + optional_member("statThreshold"@, literal_value(new.stat_threshold))
}

/// The body that changes an achievement: the changes that were given, and
/// the address of the new image if one was uploaded.
pub open spec fn update_body(changes: AchievementChanges, image_url: Option<Seq<char>>) -> Seq<
    (Seq<char>, BodyView),
> {
    optional_member("displayName"@, text_value(changes.display_name)) + optional_member(
        "description"@,
        text_value(changes.description),
    ) + optional_member(
        "image"@,
        match image_url {
            Some(url) => Some(BodyView::Text(url)),
            None => None,
        },
    ) + optional_member("authority"@, authority_value(changes.authority)) + optional_member(
        "points"@,
        points_value(changes.points),
    ) + optional_member("statIdentifier"@, link_value(changes.stat_identifier)) + optional_member(
        "statThreshold"@,
        literal_value(changes.stat_threshold),
    )
}

fn add_member(body: &mut Vec<(String, BodyValue)>, name: &str, value: Option<BodyValue>)
    ensures
        body_view(final(body)@) == body_view(old(body)@) + optional_member(
            name@,
            match value {
                Some(v) => Some(v@),
                None => None,
            },
        ),
{
    let ghost before = body_view(body@);
    match value {
        Some(v) => {
            body.push((copy_of(name), v));
            assert(body_view(body@) =~= before + seq![(name@, v@)]);
        },
        None => {
            assert(body_view(body@) =~= before + Seq::empty());
        },
    }
}

fn text_member(value: &Option<String>) -> (r: Option<BodyValue>)
    ensures
        (match r {
            Some(v) => Some(v@),
            None => None,
        }) == text_value(*value),
{
    match value {
        Some(s) => Some(BodyValue::Text(s.clone())),
        None => None,
    }
}

fn literal_member(value: &Option<String>) -> (r: Option<BodyValue>)
    ensures
        (match r {
            Some(v) => Some(v@),
            None => None,
        }) == literal_value(*value),
{
    match value {
        Some(s) => Some(BodyValue::Literal(s.clone())),
        None => None,
    }
}

fn points_member(value: &Option<u32>) -> (r: Option<BodyValue>)
    ensures
        (match r {
            Some(v) => Some(v@),
            None => None,
        }) == points_value(*value),
{
    match value {
        Some(p) => Some(BodyValue::Number(*p as u64)),
        None => None,
    }
}

/// Whether `request` is the request that a command becomes, once its image,
/// if it has one, is at `image_url`.
pub open spec fn achievements_request_for(
    client: ApiClient,
    game_id: Seq<char>,
    command: AchievementsCommands,
    image_url: Option<Seq<char>>,
    request: ApiRequest,
) -> bool {
    let all = "/games/"@ + game_id + "/achievements"@;
    match command {
        AchievementsCommands::List => client.makes(request, Method::Get, all) && request.body
            is None,
        AchievementsCommands::Create(new) => {
            &&& client.makes(request, Method::Post, all)
            &&& request.body is Some
            &&& body_view(request.body->0@) == create_body(
                new,
                match image_url {
                    Some(url) => url,
                    None => Seq::empty(),
                },
            )
        },
        AchievementsCommands::Update(changes) => {
            &&& client.makes(
                request,
                Method::Put,
                "/games/"@ + game_id + "/achievements/"@ + changes.identifier@,
            )
            &&& request.body is Some
            &&& body_view(request.body->0@) == update_body(
                changes,
                if changes.image is Some {
                    image_url
                } else {
                    None
                },
            )
        },
        AchievementsCommands::Delete { identifier } => client.makes(
            request,
            Method::Delete,
            "/games/"@ + game_id + "/achievements/"@ + identifier@,
        ) && request.body is None,
    }
}

/// The image file that has to be uploaded before a command can be sent.
pub fn image_to_upload(command: &AchievementsCommands) -> (image: Option<&str>)
    ensures
        image is Some == image_of(*command) is Some,
        image matches Some(path) ==> image_of(*command) == Some(path@),
{
    match command {
        AchievementsCommands::Create(new) => Some(new.image.as_str()),
        AchievementsCommands::Update(changes) => match &changes.image {
            Some(image) => Some(image.as_str()),
            None => None,
        },
        _ => None,
    }
}

/// The request that a command becomes, once its image, if it has one, has
/// been uploaded to `image_url`. An update that changes nothing becomes
/// none.
pub fn achievements_request(
    client: &ApiClient,
    game_id: &str,
    command: &AchievementsCommands,
    image_url: Option<&str>,
) -> (r: Result<ApiRequest, NoChanges>)
    ensures
        r is Err == (*command matches AchievementsCommands::Update(changes) && no_changes(changes)),
        r matches Ok(request) ==> achievements_request_for(
            *client,
            game_id@,
            *command,
            match image_url {
                Some(url) => Some(url@),
                None => None,
            },
            request,
        ),
{
    let all = concat3("/games/", game_id, "/achievements");
    let one = concat3("/games/", game_id, "/achievements/");
    match command {
        AchievementsCommands::List => Ok(client.get(all.as_str())),
        AchievementsCommands::Create(new) => {
            let url = match image_url {
                Some(url) => copy_of(url),
                None => String::new(),
            };
            let mut body: Vec<(String, BodyValue)> = Vec::new();
            body.push((copy_of("identifier"), BodyValue::Text(new.identifier.clone())));
            body.push((copy_of("displayName"), BodyValue::Text(new.display_name.clone())));
            body.push((copy_of("description"), BodyValue::Text(new.description.clone())));
            body.push((copy_of("image"), BodyValue::Text(url)));
            body.push(
                (copy_of("authority"), BodyValue::Number(new.authority.as_number() as u64)),
            );
            assert(body_view(body@) =~= seq![
                ("identifier"@, BodyView::Text(new.identifier@)),
                ("displayName"@, BodyView::Text(new.display_name@)),
                ("description"@, BodyView::Text(new.description@)),
                ("image"@, BodyView::Text(url@)),
                ("authority"@, BodyView::Number(authority_number(new.authority))),
            ]);
            add_member(&mut body, "points", points_member(&new.points));
            add_member(&mut body, "statIdentifier", text_member(&new.stat_identifier));
            add_member(&mut body, "statThreshold", literal_member(&new.stat_threshold));
            Ok(client.post(all.as_str(), Some(body)))
        },
        AchievementsCommands::Update(changes) => {
            if changes.display_name.is_none() && changes.description.is_none()
                && changes.image.is_none() && changes.authority.is_none()
                && changes.points.is_none() && changes.stat_identifier.is_none()
                && changes.stat_threshold.is_none() {
                return Err(NoChanges);
            }
            let mut body: Vec<(String, BodyValue)> = Vec::new();
            assert(body_view(body@) =~= Seq::empty());
            add_member(&mut body, "displayName", text_member(&changes.display_name));
            add_member(&mut body, "description", text_member(&changes.description));
            let image = if changes.image.is_some() {
                match image_url {
                    Some(url) => Some(BodyValue::Text(copy_of(url))),
                    None => None,
                }
            } else {
                None
            };
            add_member(&mut body, "image", image);
            let authority = match &changes.authority {
                Some(a) => Some(BodyValue::Number(a.as_number() as u64)),
                None => None,
            };
            add_member(&mut body, "authority", authority);
            add_member(&mut body, "points", points_member(&changes.points));
            let link = match &changes.stat_identifier {
                Some(s) => if same(s.as_str(), "none") {
                    Some(BodyValue::Null)
                } else {
                    Some(BodyValue::Text(s.clone()))
                },
                None => None,
            };
            add_member(&mut body, "statIdentifier", link);
            add_member(&mut body, "statThreshold", literal_member(&changes.stat_threshold));
            assert(Seq::<(Seq<char>, BodyView)>::empty() + optional_member(
                "displayName"@,
                text_value(changes.display_name),
            ) =~= optional_member("displayName"@, text_value(changes.display_name)));
            let path = concat2(one.as_str(), changes.identifier.as_str());
            Ok(client.put(path.as_str(), body))
        },
        AchievementsCommands::Delete { identifier } => {
            let path = concat2(one.as_str(), identifier.as_str());
            Ok(client.delete(path.as_str()))
        },
    }
}

/// What is said when a command has succeeded; listing says nothing of its
/// own.
pub open spec fn achievements_done_text(command: AchievementsCommands) -> Option<Seq<char>> {
    match command {
        AchievementsCommands::List => None,
        AchievementsCommands::Create(new) => Some(
            "Created achievement '"@ + new.identifier@ + "'"@,
        ),
        AchievementsCommands::Update(changes) => Some(
            "Updated achievement '"@ + changes.identifier@ + "'"@,
        ),
        AchievementsCommands::Delete { identifier } => Some(
            "Deleted achievement '"@ + identifier@ + "'"@,
        ),
    }
}

/// What is said when a command has succeeded.
pub fn achievements_done_message(command: &AchievementsCommands) -> (text: Option<String>)
    ensures
        text is Some == achievements_done_text(*command) is Some,
        text matches Some(t) ==> achievements_done_text(*command) == Some(t@),
{
    match command {
        AchievementsCommands::List => None,
        AchievementsCommands::Create(new) => Some(
            concat3("Created achievement '", new.identifier.as_str(), "'"),
        ),
        AchievementsCommands::Update(changes) => Some(
            concat3("Updated achievement '", changes.identifier.as_str(), "'"),
        ),
        AchievementsCommands::Delete { identifier } => Some(
            concat3("Deleted achievement '", identifier.as_str(), "'"),
        ),
    }
}

/// An achievement as the service lists it. A threshold is given as it is to
/// be shown.
#[derive(Debug, PartialEq, Eq)]
pub struct Achievement {
    pub identifier: String,
    pub display_name: String,
    pub description: String,
    pub authority: u64,
    pub points: Option<u64>,
    pub stat_identifier: Option<String>,
    pub stat_threshold: Option<String>,
}

/// A description as the table shows it: one of more than forty characters
/// is cut to thirty-seven and three dots.
pub open spec fn shown_description(description: Seq<char>) -> Seq<char> {
    if description.len() > 40 {
        description.take(37) + "..."@
    } else {
        description
    }
}

/// Points as the table shows them: the number, or a dash.
pub open spec fn shown_points(points: Option<u64>) -> Seq<char> {
    match points {
        Some(p) => decimal_text(p as nat),
        None => "-"@,
    }
}

/// The linked stat as the table shows it: the stat and its threshold, the
/// stat alone, or a dash.
pub open spec fn shown_link(stat_identifier: Option<String>, stat_threshold: Option<String>) -> Seq<
    char,
> {
    match stat_identifier {
        Some(id) => match stat_threshold {
            Some(threshold) => id@ + " >= "@ + threshold@,
            None => id@,
        },
        None => "-"@,
    }
}

/// A description as the table shows it.
pub fn description_display(description: &str) -> (shown: String)
    ensures
        shown@ == shown_description(description@),
{
    if char_count(description) > 40 {
        concat2(first_chars(description, 37).as_str(), "...")
    } else {
        copy_of(description)
    }
}

/// Points as the table shows them.
pub fn points_display(points: Option<u64>) -> (shown: String)
    ensures
        shown@ == shown_points(points),
{
    match points {
        Some(p) => decimal(p as u128),
        None => copy_of("-"),
    }
}

/// The linked stat as the table shows it.
pub fn stat_display(stat_identifier: &Option<String>, stat_threshold: &Option<String>) -> (shown:
    String)
    ensures
        shown@ == shown_link(*stat_identifier, *stat_threshold),
{
    match stat_identifier {
        Some(id) => match stat_threshold {
            Some(threshold) => concat3(id.as_str(), " >= ", threshold.as_str()),
            None => id.clone(),
        },
        None => copy_of("-"),
    }
}

/// The widths of the identifier, display name and description columns: those
/// of the longest entries in bytes, at least 10, 12 and 11, and for the
/// description at most 40.
pub open spec fn column_widths(list: Seq<Achievement>) -> (nat, nat, nat)
    decreases list.len(),
{
    if list.len() == 0 {
        (10, 12, 11)
    } else {
        let (a, b, c) = column_widths(list.drop_last());
        let d = larger(c, byte_len(list.last().description@));
        (
            larger(a, byte_len(list.last().identifier@)),
            larger(b, byte_len(list.last().display_name@)),
            if d > 40 {
                40
            } else {
                d
            },
        )
    }
}

/// One line of the table of achievements: six columns, two spaces between
/// them, all but the last filled up to their widths.
pub open spec fn achievement_line(
    cells: (Seq<char>, Seq<char>, Seq<char>, Seq<char>, Seq<char>, Seq<char>),
    widths: (nat, nat, nat),
) -> Seq<char> {
    padded(cells.0, widths.0) + "  "@ + padded(cells.1, widths.1) + "  "@ + padded(
        cells.2,
        widths.2,
    ) + "  "@ + padded(cells.3, 9) + "  "@ + padded(cells.4, 6) + "  "@ + cells.5
}

/// The cells of an achievement's line.
pub open spec fn achievement_cells(a: Achievement) -> (
    Seq<char>,
    Seq<char>,
    Seq<char>,
    Seq<char>,
    Seq<char>,
    Seq<char>,
) {
    (
        a.identifier@,
        a.display_name@,
        shown_description(a.description@),
        authority_name(a.authority),
        shown_points(a.points),
        shown_link(a.stat_identifier, a.stat_threshold),
    )
}

/// The lines that list the achievements of a game: a heading and one line
/// for each achievement, or a single line that says there are none.
pub open spec fn achievements_table_lines(list: Seq<Achievement>) -> Seq<Seq<char>> {
    if list.len() == 0 {
        seq!["No achievements found."@]
    } else {
        let widths = column_widths(list);
        seq![
            achievement_line(
                (
                    "IDENTIFIER"@,
                    "DISPLAY NAME"@,
                    "DESCRIPTION"@,
                    "AUTHORITY"@,
                    "POINTS"@,
                    "LINKED STAT"@,
                ),
                widths,
            ),
        ] + Seq::new(list.len(), |i: int| achievement_line(achievement_cells(list[i]), widths))
    }
}

fn table_line(
    identifier: &str,
    display_name: &str,
    description: &str,
    authority: &str,
    points: &str,
    link: &str,
    widths: (usize, usize, usize),
) -> (text: String)
    ensures
        text@ == achievement_line(
            (identifier@, display_name@, description@, authority@, points@, link@),
            (widths.0 as nat, widths.1 as nat, widths.2 as nat),
        ),
{
    let mut text = concat2(pad_right(identifier, widths.0).as_str(), "  ");
    text = concat3(text.as_str(), pad_right(display_name, widths.1).as_str(), "  ");
    text = concat3(text.as_str(), pad_right(description, widths.2).as_str(), "  ");
    text = concat3(text.as_str(), pad_right(authority, 9).as_str(), "  ");
    text = concat3(text.as_str(), pad_right(points, 6).as_str(), "  ");
    concat2(text.as_str(), link)
}

/// The lines that list the achievements of a game.
pub fn achievements_table(list: &Vec<Achievement>) -> (lines: Vec<String>)
    ensures
        texts(lines@) == achievements_table_lines(list@),
{
    let mut lines: Vec<String> = Vec::new();
    if list.len() == 0 {
        lines.push(copy_of("No achievements found."));
        assert(texts(lines@) =~= seq!["No achievements found."@]);
        return lines;
    }
    let mut id_width: usize = 10;
    let mut name_width: usize = 12;
    let mut description_width: usize = 11;
    let mut i: usize = 0;
    while i < list.len()
        invariant
            i <= list.len(),
            (id_width as nat, name_width as nat, description_width as nat) == column_widths(
                list@.take(i as int),
            ),
        decreases list.len() - i,
    {
        assert(list@.take(i + 1).drop_last() == list@.take(i as int));
        let id_len = byte_count(list[i].identifier.as_str());
        let name_len = byte_count(list[i].display_name.as_str());
        let description_len = byte_count(list[i].description.as_str());
        if id_len > id_width {
            id_width = id_len;
        }
        if name_len > name_width {
            name_width = name_len;
        }
        if description_len > description_width {
            description_width = description_len;
        }
        if description_width > 40 {
            description_width = 40;
        }
        i += 1;
    }
    assert(list@.take(list.len() as int) == list@);
    let widths = (id_width, name_width, description_width);
    let ghost spec_widths = column_widths(list@);
    lines.push(
        table_line(
            "IDENTIFIER",
            "DISPLAY NAME",
            "DESCRIPTION",
            "AUTHORITY",
            "POINTS",
            "LINKED STAT",
            widths,
        ),
    );
    let ghost heading = texts(lines@);
    let ghost rows = Seq::new(
        list.len() as nat,
        |i: int| achievement_line(achievement_cells(list@[i]), spec_widths),
    );
    let mut k: usize = 0;
    assert(texts(lines@) =~= heading + rows.take(0));
    while k < list.len()
        invariant
            k <= list.len(),
            rows.len() == list.len(),
            spec_widths == (widths.0 as nat, widths.1 as nat, widths.2 as nat),
            forall|i: int|
                0 <= i < list.len() ==> #[trigger] rows[i] == achievement_line(
                    achievement_cells(list@[i]),
                    spec_widths,
                ),
            texts(lines@) == heading + rows.take(k as int),
        decreases list.len() - k,
    {
        let a = &list[k];
        let row = table_line(
            a.identifier.as_str(),
            a.display_name.as_str(),
            description_display(a.description.as_str()).as_str(),
            authority_label(a.authority),
            points_display(a.points).as_str(),
            stat_display(&a.stat_identifier, &a.stat_threshold).as_str(),
            widths,
        );
        assert(row@ == rows[k as int]);
        let ghost before = texts(lines@);
        lines.push(row);
        assert(texts(lines@) =~= before.push(row@));
        assert(rows.take(k + 1) =~= rows.take(k as int).push(rows[k as int]));
        k += 1;
    }
    assert(rows.take(list.len() as int) =~= rows);
    lines
}

} // verus!
