use vstd::prelude::*;

use crate::config::{Channel, ConfigToml};
use crate::error::{AppErr, ErrorCode};

verus! {

/// A declared file size at or above this many bytes is rejected before any
/// backend work is attempted.
pub const MAX_FILE_SIZE: u64 = 50_000_000;

/// Markup dialect a caller may ask the backend to apply to the text.
#[derive(Debug, Clone, Copy, PartialEq, Eq, Structural)]
pub enum ParseMode {
    Markdown,
    MarkdownV2,
    Html,
}

impl ParseMode {
    /// The exact string the backend expects for each markup mode.
    pub open spec fn spec_str(self) -> Seq<char> {
        match self {
            ParseMode::MarkdownV2 => "MarkdownV2"@,
            ParseMode::Markdown => "Markdown"@,
            ParseMode::Html => "HTML"@,
        }
    }

    pub fn as_str(&self) -> (r: &'static str)
        ensures
            r@ == self.spec_str(),
    {
        match self {
            ParseMode::MarkdownV2 => "MarkdownV2",
            ParseMode::Markdown => "Markdown",
            ParseMode::Html => "HTML",
        }
    }
}

/// Link-preview policy sent with every text message.
#[derive(Debug, Clone, Copy, PartialEq, Eq, Structural)]
pub struct LinkPreviewOptions {
    pub is_disabled: bool,
    pub prefer_small_media: bool,
}

impl Default for LinkPreviewOptions {
    fn default() -> (r: Self)
        ensures
            r.is_disabled == false,
            r.prefer_small_media == true,
    {
        LinkPreviewOptions { is_disabled: false, prefer_small_media: true }
    }
}

/// The wire body of a text send: `parse_mode` and `message_thread_id` are
/// `None` exactly when they must be absent from the serialized payload.
#[derive(Debug)]
pub struct SendMessageBody {
    pub chat_id: String,
    pub message_thread_id: Option<String>,
    pub text: String,
    pub parse_mode: Option<String>,
    pub link_preview_options: LinkPreviewOptions,
}

/// The parts of a document send: the binary part's metadata (name and
/// content type, when the caller supplied them) and the text parts.
#[derive(Debug)]
pub struct SendDocumentForm {
    pub file_name: Option<String>,
    pub mime_type: Option<String>,
    pub chat_id: String,
    pub caption: String,
    pub parse_mode: Option<String>,
    pub message_thread_id: Option<String>,
}

/// What a completed backend call came back with.
pub enum DispatchOutcome {
    Success,
    Failure { backend_status: u16, backend_body_excerpt: String },
}

/// How the caller waits on the backend: blocking dispatch surfaces backend
/// failures, detached (fire-and-forget) dispatch never does.
#[derive(Debug, Clone, Copy, PartialEq, Eq, Structural)]
pub enum DispatchMode {
    Blocking,
    Detached,
}

/// The error every authorization failure surfaces as: unknown channel and
/// wrong secret are not told apart.
pub open spec fn is_not_found_err(e: AppErr) -> bool {
    &&& e.status == 404
    &&& e.code == ErrorCode::NotFound
    &&& e.debug matches Some(d) && d@ == "no channel"@
}

/// The error an oversized upload surfaces as.
pub open spec fn is_file_too_big_err(e: AppErr) -> bool {
    &&& e.status == 400
    &&& e.code == ErrorCode::FileTooBig
    &&& e.debug matches Some(d) && d@ == "max file size is 50MB"@
}

/// The error a failed blocking dispatch surfaces as: a fixed value, so no
/// part of the backend's response body can reach the caller through it.
pub open spec fn is_send_failed_err(e: AppErr) -> bool {
    &&& e.status == 500
    &&& e.code == ErrorCode::SendFailed
    &&& e.debug matches Some(d) && d@ == "sending message to telegram failed"@
}

pub open spec fn opt_string_view_eq(a: Option<String>, b: Option<String>) -> bool {
    match (a, b) {
        (Some(x), Some(y)) => x@ == y@,
        (None, None) => true,
        _ => false,
    }
}

/// `a` carries exactly the wire string of `m`, and is absent exactly when
/// no markup mode was asked for.
pub open spec fn opt_mode_str(a: Option<String>, m: Option<ParseMode>) -> bool {
    match (a, m) {
        (Some(s), Some(pm)) => s@ == pm.spec_str(),
        (None, None) => true,
        _ => false,
    }
}

/// The text body that a grant of channel `ch` must produce.
pub open spec fn text_payload_matches(
    body: SendMessageBody,
    ch: Channel,
    text: Seq<char>,
    mode: Option<ParseMode>,
) -> bool {
    &&& body.chat_id@ == ch.chat@
    &&& opt_string_view_eq(body.message_thread_id, ch.thread)
    &&& body.text@ == text
    &&& opt_mode_str(body.parse_mode, mode)
    &&& body.link_preview_options.is_disabled == false
    &&& body.link_preview_options.prefer_small_media == true
}

/// The document form that a grant of channel `ch` must produce.
pub open spec fn file_payload_matches(
    form: SendDocumentForm,
    ch: Channel,
    caption: Seq<char>,
    mode: Option<ParseMode>,
    file_name: Option<String>,
    mime_type: Option<String>,
) -> bool {
    &&& opt_string_view_eq(form.file_name, file_name)
    &&& opt_string_view_eq(form.mime_type, mime_type)
    &&& form.chat_id@ == ch.chat@
    &&& form.caption@ == caption
    &&& opt_mode_str(form.parse_mode, mode)
    &&& opt_string_view_eq(form.message_thread_id, ch.thread)
}

/// Builds the backend text-message body for an authenticated request.
///
/// Checks run in the fixed order: channel lookup, then credential check,
/// then payload construction. Unknown channel and wrong secret yield the
/// same `404 / NotFound` error.
pub fn build_text_payload(
    conf: &ConfigToml,
    channel: &String,
    pass: &String,
    text: &String,
    parse_mode: Option<ParseMode>,
) -> (r: Result<SendMessageBody, AppErr>)
    requires
        conf.wf(),
    ensures
        conf.spec_authorize(channel@, pass@) matches Some(ch) ==> (r matches Ok(body)
            && text_payload_matches(body, ch, text@, parse_mode)),
        conf.spec_authorize(channel@, pass@) is None ==> (r matches Err(e)
            && is_not_found_err(e)),
{
    let ch = match conf.lookup(channel) {
        Some(ch) => ch,
        None => {
            return Err(AppErr::from(ErrorCode::NotFound).debug("no channel"));
        },
    };

    if !ch.authorize(pass) {
        return Err(AppErr::from(ErrorCode::NotFound).debug("no channel"));
    }

    let thread = match &ch.thread {
        Some(t) => Some(t.clone()),
        None => None,
    };
    let pm = match parse_mode {
        Some(m) => Some(m.as_str().to_owned()),
        None => None,
    };

    Ok(
        SendMessageBody {
            chat_id: ch.chat.clone(),
            message_thread_id: thread,
            text: text.clone(),
            parse_mode: pm,
            link_preview_options: LinkPreviewOptions::default(),
        },
    )
}

/// Builds the backend document form for an authenticated file request.
///
/// Checks run in the fixed order: size limit first (an oversized upload is
/// rejected before anything else, including before the channel is even
/// looked up), then channel lookup, then credential check, then payload
/// construction.
pub fn build_file_payload(
    conf: &ConfigToml,
    channel: &String,
    pass: &String,
    caption: &String,
    parse_mode: Option<ParseMode>,
    size: u64,
    file_name: Option<String>,
    mime_type: Option<String>,
) -> (r: Result<SendDocumentForm, AppErr>)
    requires
        conf.wf(),
    ensures
        size >= MAX_FILE_SIZE ==> (r matches Err(e) && is_file_too_big_err(e)),
        size < MAX_FILE_SIZE ==> (conf.spec_authorize(channel@, pass@) matches Some(ch)
            ==> (r matches Ok(form)
            && file_payload_matches(form, ch, caption@, parse_mode, file_name, mime_type))),
        size < MAX_FILE_SIZE ==> (conf.spec_authorize(channel@, pass@) is None ==> (
        r matches Err(e) && is_not_found_err(e))),
{
    if size >= MAX_FILE_SIZE {
        return Err(AppErr::from(ErrorCode::FileTooBig).debug("max file size is 50MB"));
    }

    let ch = match conf.lookup(channel) {
        Some(ch) => ch,
        None => {
            return Err(AppErr::from(ErrorCode::NotFound).debug("no channel"));
        },
    };

    if !ch.authorize(pass) {
        return Err(AppErr::from(ErrorCode::NotFound).debug("no channel"));
    }

    let thread = match &ch.thread {
        Some(t) => Some(t.clone()),
        None => None,
    };
    let pm = match parse_mode {
        Some(m) => Some(m.as_str().to_owned()),
        None => None,
    };

    Ok(
        SendDocumentForm {
            file_name,
            mime_type,
            chat_id: ch.chat.clone(),
            caption: caption.clone(),
            parse_mode: pm,
            message_thread_id: thread,
        },
    )
}

/// Classifies the backend's HTTP response: exactly status 200 is success;
/// anything else is a failure carrying the status and the raw body for the
/// operator log.
pub fn classify_response(status: u16, body: String) -> (r: DispatchOutcome)
    ensures
        status == 200 ==> r is Success,
        status != 200 ==> (r matches DispatchOutcome::Failure {
            backend_status: s,
            backend_body_excerpt: b,
        } && s == status && b@ == body@),
{
    if status == 200 {
        DispatchOutcome::Success
    } else {
        DispatchOutcome::Failure { backend_status: status, backend_body_excerpt: body }
    }
}

/// Maps a backend outcome to the caller-visible result, preserving the
/// asymmetry between the two dispatch modes: under blocking dispatch a
/// backend failure becomes the fixed `SendFailed` error (never the backend
/// body); under detached dispatch the caller has already been answered, so
/// every outcome maps to success and failures are only logged by the
/// runner.
pub fn caller_result(mode: DispatchMode, outcome: &DispatchOutcome) -> (r: Result<(), AppErr>)
    ensures
        mode is Blocking ==> ((outcome is Success <==> r is Ok) && (outcome is Failure ==> (
        r matches Err(e) && is_send_failed_err(e)))),
        mode is Detached ==> r is Ok,
{
    match mode {
        DispatchMode::Blocking => {
            match outcome {
                DispatchOutcome::Success => Ok(()),
                DispatchOutcome::Failure { .. } => {
                    Err(
                        AppErr::from(ErrorCode::SendFailed).debug(
                            "sending message to telegram failed",
                        ),
                    )
                },
            }
        },
        DispatchMode::Detached => Ok(()),
    }
}

/// Unknown channel and wrong secret are indistinguishable: neither yields a
/// grant, so by the builders' contracts both surface as the same
/// `404 / NotFound` error value.
pub proof fn lemma_auth_failure_indistinguishable(
    conf: ConfigToml,
    unknown: Seq<char>,
    any_pass: Seq<char>,
    known: Seq<char>,
    wrong: Seq<char>,
)
    requires
        !conf.contains_name(unknown),
        conf.spec_lookup(known) matches Some(ch) && ch.pass@ != wrong,
    ensures
        conf.spec_authorize(unknown, any_pass) is None,
        conf.spec_authorize(known, wrong) is None,
{
}

} // verus!
