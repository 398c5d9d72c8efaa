//! The page a build starts from, and the parameters the service derives
//! from it.

use vstd::prelude::*;
use crate::api_client::success_status;
use crate::json::{json_value_at, read_json_value};
use crate::text::{chars_of, concat2, concat3, copy_of, decimal, decimal_text, trim_end, trim_end_matches};

verus! {

/// A file found below the upload directory.
#[derive(Debug, PartialEq, Eq)]
pub struct FoundFile {
    pub path: String,
    /// The extension of the file's name, if it has one.
    pub extension: Option<String>,
}

/// An ASCII letter in lower case; any other character as it is.
pub open spec fn ascii_lower(c: char) -> char {
    if 'A' <= c <= 'Z' {
        ((c as u8) + 32) as char
    } else {
        c
    }
}

/// Whether an extension is `html`, in whatever case.
pub open spec fn html_extension(ext: Seq<char>) -> bool {
    ext.len() == 4 && ascii_lower(ext[0]) == 'h' && ascii_lower(ext[1]) == 't' && ascii_lower(
        ext[2],
    ) == 'm' && ascii_lower(ext[3]) == 'l'
}

/// Whether a file is an HTML page by its extension.
pub open spec fn is_page(file: FoundFile) -> bool {
    file.extension is Some && html_extension(file.extension->0@)
}

/// The first HTML page among the files.
pub open spec fn first_page(files: Seq<FoundFile>) -> Option<int>
    decreases files.len(),
{
    if files.len() == 0 {
        None
    } else if is_page(files.first()) {
        Some(0)
    } else {
        match first_page(files.drop_first()) {
            Some(i) => Some(i + 1),
            None => None,
        }
    }
}

/// Whether an extension is `html`, in whatever case.
pub fn is_html_extension(ext: &str) -> (yes: bool)
    ensures
        yes == html_extension(ext@),
{
    let v = chars_of(ext);
    if v.len() != 4 {
        return false;
    }
    (v[0] == 'h' || v[0] == 'H') && (v[1] == 't' || v[1] == 'T') && (v[2] == 'm' || v[2] == 'M')
        && (v[3] == 'l' || v[3] == 'L')
}

/// The page a build starts from: `index.html` at the top of the upload
/// directory if it is a file, else the first HTML page that the walk of the
/// directory met.
pub fn locate_html_entrypoint(default_index: Option<String>, files: &Vec<FoundFile>) -> (page:
    Option<String>)
    ensures
        match default_index {
            Some(index) => page == Some(index),
            None => match first_page(files@) {
                Some(i) => 0 <= i < files.len() && page is Some && page->0@ == files@[i].path@,
                None => page is None,
            },
        },
{
    match default_index {
        Some(index) => {
            return Some(index);
        },
        None => {},
    }
    let mut i: usize = files.len();
    let mut found: Option<usize> = None;
    assert(files@.skip(files.len() as int).len() == 0);
    while i > 0
        invariant
            i <= files.len(),
            match first_page(files@.skip(i as int)) {
                Some(k) => found == Some((k + i) as usize) && 0 <= k + i < files.len(),
                None => found is None,
            },
        decreases i,
    {
        i -= 1;
        assert(files@.skip(i as int).drop_first() == files@.skip(i + 1));
        let is_html = match &files[i].extension {
            Some(ext) => is_html_extension(ext.as_str()),
            None => false,
        };
        if is_html {
            found = Some(i);
        }
    }
    assert(files@.skip(0) == files@);
    match found {
        Some(at) => Some(files[at].path.clone()),
        None => None,
    }
}

/// Where the parameters of an entry point are asked for.
pub fn entrypoint_params_endpoint(api_host: &str) -> (endpoint: String)
    ensures
        endpoint@ == trim_end(api_host@, '/') + "/cli/entrypoint-params"@,
{
    concat2(trim_end_matches(api_host, '/').as_str(), "/cli/entrypoint-params")
}

/// The query of the request for an entry point's parameters.
pub fn entrypoint_params_query(engine: &str, html_content: &str) -> (query: Vec<(String, String)>)
    ensures
        crate::config::pairs_view(query@) == seq![
            ("engine"@, engine@),
            ("htmlContent"@, html_content@),
        ],
{
    let mut query: Vec<(String, String)> = Vec::new();
    query.push((copy_of("engine"), copy_of(engine)));
    query.push((copy_of("htmlContent"), copy_of(html_content)));
    assert(crate::config::pairs_view(query@) =~= seq![
        ("engine"@, engine@),
        ("htmlContent"@, html_content@),
    ]);
    query
}

/// Why the parameters of an entry point could not be had.
#[derive(Debug, PartialEq, Eq)]
pub enum EntrypointError {
    /// The service answered with an error status.
    Status { status: u16, body: String },
    /// The answer does not hold the parameters.
    Malformed,
}

/// The parameters that an answer of the service holds, as JSON text.
pub fn entrypoint_params_from_response(status: u16, body: &str) -> (r: Result<
    String,
    EntrypointError,
>)
    ensures
        match r {
            Ok(params) => success_status(status) && json_value_at(body@, "/entrypointParams"@)
                == Some(params@),
            Err(EntrypointError::Status { status: s, body: b }) => !success_status(status) && s
                == status && b@ == body@,
            Err(EntrypointError::Malformed) => success_status(status) && json_value_at(
                body@,
                "/entrypointParams"@,
            ) is None,
        },
{
    if !crate::api_client::is_success(status) {
        return Err(EntrypointError::Status { status, body: copy_of(body) });
    }
    match read_json_value(body, "/entrypointParams") {
        Some(params) => Ok(params),
        None => Err(EntrypointError::Malformed),
    }
}

/// The message of an entry point error.
pub open spec fn entrypoint_error_text(e: EntrypointError) -> Seq<char> {
    match e {
        EntrypointError::Status { status, body } => "CLI endpoint responded with "@ + decimal_text(
            status as nat,
        ) + ": "@ + body@,
        EntrypointError::Malformed => "Failed to parse CLI response"@,
    }
}

impl EntrypointError {
    /// The message shown for this error.
    pub fn message(&self) -> (text: String)
        ensures
            text@ == entrypoint_error_text(*self),
    {
        match self {
            EntrypointError::Status { status, body } => {
                let head = concat2("CLI endpoint responded with ", decimal(*status as u128).as_str());
                concat3(head.as_str(), ": ", body.as_str())
            },
            EntrypointError::Malformed => copy_of("Failed to parse CLI response"),
        }
    }
}

} // verus!
