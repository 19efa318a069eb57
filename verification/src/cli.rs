//! The checks that a command-line front end for the REST API makes on its
//! input: which JSON body input a subcommand uses, when the base URL counts
//! as empty, and when a name filter is passed on; with the messages of the
//! refusals.
use crate::error::join_text;
use vstd::prelude::*;

verus! {

/// Where a request body comes from.
#[derive(Clone, Debug, PartialEq, Eq)]
pub enum JsonBodySource<J, P> {
    /// The body was given inline (`--json-body`).
    Inline(J),
    /// The body is in a file (`--json-body-file`).
    File(P),
}

/// Why no request body could be chosen; `context` names the subcommand.
#[derive(Clone, Debug, PartialEq, Eq)]
pub enum JsonBodyInputError {
    /// Neither input was given.
    MissingJsonBody { context: &'static str },
    /// Both inputs were given.
    ConflictingJsonBodyInputs { context: &'static str },
}

impl JsonBodyInputError {
    /// The message that describes the error.
    pub open spec fn message_text(self) -> Seq<char> {
        match self {
            JsonBodyInputError::MissingJsonBody { context } => "Missing "@ + context@
                + " body. Provide --json-body or --json-body-file"@,
            JsonBodyInputError::ConflictingJsonBodyInputs { context } => "Conflicting "@
                + context@ + " body inputs. Provide either --json-body or --json-body-file"@,
        }
    }

    /// Returns the message that describes the error.
    pub fn message(&self) -> (text: String)
        ensures
            text@ == self.message_text(),
    {
        match self {
            JsonBodyInputError::MissingJsonBody { context } => {
                let mut text = join_text("Missing ", context);
                text.append(" body. Provide --json-body or --json-body-file");
                text
            },
            JsonBodyInputError::ConflictingJsonBodyInputs { context } => {
                let mut text = join_text("Conflicting ", context);
                text.append(" body inputs. Provide either --json-body or --json-body-file");
                text
            },
        }
    }
}

/// Chooses the body input of a subcommand that needs one: exactly one of
/// the inline body and the body file must be given.
pub fn select_json_body<J, P>(
    json_body: Option<J>,
    json_body_file: Option<P>,
    context: &'static str,
) -> (selected: Result<JsonBodySource<J, P>, JsonBodyInputError>)
    ensures
        match (json_body, json_body_file) {
            (Some(body), None) => selected == Ok::<_, JsonBodyInputError>(
                JsonBodySource::<J, P>::Inline(body),
            ),
            (None, Some(path)) => selected == Ok::<_, JsonBodyInputError>(
                JsonBodySource::<J, P>::File(path),
            ),
            (None, None) => selected == Err::<JsonBodySource<J, P>, _>(
                JsonBodyInputError::MissingJsonBody { context },
            ),
            (Some(_), Some(_)) => selected == Err::<JsonBodySource<J, P>, _>(
                JsonBodyInputError::ConflictingJsonBodyInputs { context },
            ),
        },
{
    match (json_body, json_body_file) {
        (Some(body), None) => Ok(JsonBodySource::Inline(body)),
        (None, Some(path)) => Ok(JsonBodySource::File(path)),
        (None, None) => Err(JsonBodyInputError::MissingJsonBody { context }),
        (Some(_), Some(_)) => Err(JsonBodyInputError::ConflictingJsonBodyInputs { context }),
    }
}

/// Where the body of `activate-command` comes from.
#[derive(Clone, Debug, PartialEq, Eq)]
pub enum ActivateCommandBody<D, J, P> {
    /// Built from `--duration`.
    Duration(D),
    /// Read from a JSON body input.
    Json(JsonBodySource<J, P>),
}

/// Chooses the body of `activate-command`: a given duration wins, otherwise
/// exactly one JSON body input must be given.
pub fn select_activate_command_body<D, J, P>(
    duration: Option<D>,
    json_body: Option<J>,
    json_body_file: Option<P>,
    context: &'static str,
) -> (selected: Result<ActivateCommandBody<D, J, P>, JsonBodyInputError>)
    ensures
        match duration {
            Some(d) => selected == Ok::<_, JsonBodyInputError>(
                ActivateCommandBody::<D, J, P>::Duration(d),
            ),
            None => match (json_body, json_body_file) {
                (Some(body), None) => selected == Ok::<_, JsonBodyInputError>(
                    ActivateCommandBody::<D, J, P>::Json(JsonBodySource::Inline(body)),
                ),
                (None, Some(path)) => selected == Ok::<_, JsonBodyInputError>(
                    ActivateCommandBody::<D, J, P>::Json(JsonBodySource::File(path)),
                ),
                (None, None) => selected == Err::<ActivateCommandBody<D, J, P>, _>(
                    JsonBodyInputError::MissingJsonBody { context },
                ),
                (Some(_), Some(_)) => selected == Err::<ActivateCommandBody<D, J, P>, _>(
                    JsonBodyInputError::ConflictingJsonBodyInputs { context },
                ),
            },
        },
{
    match duration {
        Some(d) => Ok(ActivateCommandBody::Duration(d)),
        None => match select_json_body(json_body, json_body_file, context) {
            Ok(source) => Ok(ActivateCommandBody::Json(source)),
            Err(e) => Err(e),
        },
    }
}

/// Unicode `White_Space`, the property that `char::is_whitespace` and
/// `str::trim` go by.
pub open spec fn is_white_space(c: char) -> bool {
    let u = c as u32;
    ||| 0x09 <= u <= 0x0D
    ||| u == 0x20
    ||| u == 0x85
    ||| u == 0xA0
    ||| u == 0x1680
    ||| 0x2000 <= u <= 0x200A
    ||| u == 0x2028
    ||| u == 0x2029
    ||| u == 0x202F
    ||| u == 0x205F
    ||| u == 0x3000
}

/// A text is blank when trimming leaves nothing of it: every character is
/// white space.
pub open spec fn is_blank(text: Seq<char>) -> bool {
    forall|i: int| 0 <= i < text.len() ==> is_white_space(#[trigger] text[i])
}

/// Whether a character is Unicode white space.
pub fn is_white_space_char(c: char) -> (white: bool)
    ensures
        white == is_white_space(c),
{
    let u = c as u32;
    (0x09 <= u && u <= 0x0D) || u == 0x20 || u == 0x85 || u == 0xA0 || u == 0x1680 || (0x2000 <= u
        && u <= 0x200A) || u == 0x2028 || u == 0x2029 || u == 0x202F || u == 0x205F || u == 0x3000
}

/// Whether the base URL is empty once trimmed, which the command line
/// refuses.
pub fn base_url_is_blank(base_url: &str) -> (blank: bool)
    ensures
        blank == is_blank(base_url@),
{
    let n = base_url.unicode_len();
    let mut i: usize = 0;
    while i < n
        invariant
            n == base_url@.len(),
            i <= n,
            forall|k: int| 0 <= k < i ==> is_white_space(#[trigger] base_url@[k]),
        decreases n - i,
    {
        if !is_white_space_char(base_url.get_char(i)) {
            return false;
        }
        i = i + 1;
    }
    true
}

/// Why the command line refuses a base URL.
#[derive(Clone, Debug, PartialEq, Eq, Structural)]
pub enum BaseUrlError {
    /// The base URL is empty once trimmed.
    EmptyBaseUrl,
}

impl BaseUrlError {
    /// The message that describes the error.
    pub open spec fn message_text(self) -> Seq<char> {
        "--base-url must not be empty"@
    }

    /// Returns the message that describes the error.
    pub fn message(&self) -> (text: String)
        ensures
            text@ == self.message_text(),
    {
        String::from_str("--base-url must not be empty")
    }
}

/// Refuses a base URL that is empty once trimmed.
pub fn check_base_url(base_url: &str) -> (checked: Result<(), BaseUrlError>)
    ensures
        checked == if is_blank(base_url@) {
            Err::<(), BaseUrlError>(BaseUrlError::EmptyBaseUrl)
        } else {
            Ok::<(), BaseUrlError>(())
        },
{
    if base_url_is_blank(base_url) {
        Err(BaseUrlError::EmptyBaseUrl)
    } else {
        Ok(())
    }
}

/// The name filter of a listing request: none when no name was given.
pub fn filter_name_param(filter_name: &Vec<String>) -> (param: Option<&Vec<String>>)
    ensures
        param is None <==> filter_name@.len() == 0,
        param matches Some(names) ==> names == filter_name,
{
    if filter_name.len() == 0 {
        None
    } else {
        Some(filter_name)
    }
}

} // verus!
