//! What the notifications by email and by Telegram need before anything is
//! sent: their settings, checked, and a message that fits.

use crate::text::{chars_of, scan_trailing_whitespace, scan_whitespace, trim};
use vstd::prelude::*;
use vstd::string::StringSliceAdditionalSpecFns;
use vstd::utf8::{
    decode_utf8, decode_utf8_encode_utf8, encode_utf8, encode_utf8_decode_utf8,
    encode_utf8_valid_utf8, is_ascii_chars_encode_utf8, is_char_boundary,
    is_char_boundary_start_end_of_seq, valid_utf8_split,
};

verus! {

/// What it takes to send a notification by email.
#[derive(Debug)]
pub struct EmailConfig {
    pub smtp_server: String,
    pub username: Option<String>,
    pub password: Option<String>,
    pub from: String,
    pub to: Vec<String>,
}

/// What it takes to send a notification by Telegram.
#[derive(Debug)]
pub struct TelegramConfig {
    pub token: String,
    pub chat_id: String,
}

/// The notification settings as given on the command line, unchecked.
#[derive(Debug)]
pub struct NotifyOptions {
    pub email_smtp: Option<String>,
    pub email_username: Option<String>,
    pub email_password: Option<String>,
    pub email_from: Option<String>,
    pub email_to: Vec<String>,
    pub telegram_token: Option<String>,
    pub telegram_chat_id: Option<String>,
}

/// A notification was asked for, but a setting that it needs is missing.
#[derive(Clone, Copy, Debug, PartialEq, Eq, Structural)]
pub enum NotifyConfigError {
    MissingSmtpServer,
    MissingSender,
    NoRecipients,
    MissingTelegramToken,
    MissingTelegramChatId,
}

/// What a missing setting is reported as.
pub open spec fn config_error_text(error: NotifyConfigError) -> Seq<char> {
    match error {
        NotifyConfigError::MissingSmtpServer =>
            "Email SMTP server required when enabling email notifications"@,
        NotifyConfigError::MissingSender =>
            "Sender address required when enabling email notifications"@,
        NotifyConfigError::NoRecipients =>
            "At least one --email-to recipient required when enabling email notifications"@,
        NotifyConfigError::MissingTelegramToken =>
            "Telegram bot token required when enabling Telegram notifications"@,
        NotifyConfigError::MissingTelegramChatId =>
            "Telegram chat ID required when enabling Telegram notifications"@,
    }
}

impl NotifyConfigError {
    /// Says which setting is missing.
    pub fn message(self) -> (text: &'static str)
        ensures
            text@ == config_error_text(self),
    {
        match self {
            NotifyConfigError::MissingSmtpServer =>
                "Email SMTP server required when enabling email notifications",
            NotifyConfigError::MissingSender =>
                "Sender address required when enabling email notifications",
            NotifyConfigError::NoRecipients =>
                "At least one --email-to recipient required when enabling email notifications",
            NotifyConfigError::MissingTelegramToken =>
                "Telegram bot token required when enabling Telegram notifications",
            NotifyConfigError::MissingTelegramChatId =>
                "Telegram chat ID required when enabling Telegram notifications",
        }
    }
}

/// Any of the email settings is given.
pub open spec fn email_requested(options: NotifyOptions) -> bool {
    ||| options.email_smtp is Some
    ||| options.email_username is Some
    ||| options.email_password is Some
    ||| options.email_from is Some
    ||| options.email_to@.len() > 0
}

/// Any of the Telegram settings is given.
pub open spec fn telegram_requested(options: NotifyOptions) -> bool {
    options.telegram_token is Some || options.telegram_chat_id is Some
}

/// The first email setting that is needed and missing, if any.
pub open spec fn email_config_error(options: NotifyOptions) -> Option<NotifyConfigError> {
    if !email_requested(options) {
        None
    } else if options.email_smtp is None {
        Some(NotifyConfigError::MissingSmtpServer)
    } else if options.email_from is None {
        Some(NotifyConfigError::MissingSender)
    } else if options.email_to@.len() == 0 {
        Some(NotifyConfigError::NoRecipients)
    } else {
        None
    }
}

/// The first Telegram setting that is needed and missing, if any.
pub open spec fn telegram_config_error(options: NotifyOptions) -> Option<NotifyConfigError> {
    if !telegram_requested(options) {
        None
    } else if options.telegram_token is None {
        Some(NotifyConfigError::MissingTelegramToken)
    } else if options.telegram_chat_id is None {
        Some(NotifyConfigError::MissingTelegramChatId)
    } else {
        None
    }
}

/// `config` holds the email settings of `options`.
pub open spec fn is_email_config(config: EmailConfig, options: NotifyOptions) -> bool {
    &&& Some(config.smtp_server) == options.email_smtp
    &&& config.username == options.email_username
    &&& config.password == options.email_password
    &&& Some(config.from) == options.email_from
    &&& config.to@ == options.email_to@
}

fn clone_optional(value: &Option<String>) -> (copy: Option<String>)
    ensures
        copy == *value,
{
    match value {
        Some(text) => Some(text.clone()),
        None => None,
    }
}

fn clone_strings(values: &Vec<String>) -> (copy: Vec<String>)
    ensures
        copy@ == values@,
{
    let mut copy: Vec<String> = Vec::new();
    let mut i: usize = 0;
    while i < values.len()
        invariant
            i <= values.len(),
            copy@ == values@.take(i as int),
        decreases values.len() - i,
    {
        copy.push(values[i].clone());
        assert(values@.take(i as int).push(values@[i as int]) == values@.take(i + 1));
        i += 1;
    }
    assert(values@.take(values@.len() as int) == values@);
    copy
}

/// The email settings, where email is asked for.
///
/// Email is asked for as soon as any of its settings is given. It then needs
/// a server, a sender and at least one recipient; the first of these that is
/// missing is the error.
pub fn build_email_config(options: &NotifyOptions) -> (built: Result<
    Option<EmailConfig>,
    NotifyConfigError,
>)
    ensures
        match built {
            Ok(Some(config)) => {
                &&& email_requested(*options)
                &&& email_config_error(*options) is None
                &&& is_email_config(config, *options)
            },
            Ok(None) => !email_requested(*options),
            Err(error) => email_config_error(*options) == Some(error),
        },
{
    let requested = options.email_smtp.is_some() || options.email_username.is_some()
        || options.email_password.is_some() || options.email_from.is_some()
        || options.email_to.len() > 0;
    if !requested {
        return Ok(None);
    }
    let smtp_server = match &options.email_smtp {
        Some(server) => server.clone(),
        None => {
            return Err(NotifyConfigError::MissingSmtpServer);
        },
    };
    let from = match &options.email_from {
        Some(sender) => sender.clone(),
        None => {
            return Err(NotifyConfigError::MissingSender);
        },
    };
    if options.email_to.len() == 0 {
        return Err(NotifyConfigError::NoRecipients);
    }
    Ok(
        Some(
            EmailConfig {
                smtp_server,
                username: clone_optional(&options.email_username),
                password: clone_optional(&options.email_password),
                from,
                to: clone_strings(&options.email_to),
            },
        ),
    )
}

/// The Telegram settings, where Telegram is asked for.
///
/// Telegram is asked for as soon as a token or a chat is given, and then
/// needs both; the token is looked for first.
pub fn build_telegram_config(options: &NotifyOptions) -> (built: Result<
    Option<TelegramConfig>,
    NotifyConfigError,
>)
    ensures
        match built {
            Ok(Some(config)) => {
                &&& Some(config.token) == options.telegram_token
                &&& Some(config.chat_id) == options.telegram_chat_id
            },
            Ok(None) => !telegram_requested(*options),
            Err(error) => telegram_config_error(*options) == Some(error),
        },
{
    if options.telegram_token.is_none() && options.telegram_chat_id.is_none() {
        return Ok(None);
    }
    let token = match &options.telegram_token {
        Some(token) => token.clone(),
        None => {
            return Err(NotifyConfigError::MissingTelegramToken);
        },
    };
    let chat_id = match &options.telegram_chat_id {
        Some(chat) => chat.clone(),
        None => {
            return Err(NotifyConfigError::MissingTelegramChatId);
        },
    };
    Ok(Some(TelegramConfig { token, chat_id }))
}

/// Whether `lettre` reads `value` as a mailbox: an address such as
/// `user@example.com`, with or without a display name in front of it.
pub uninterp spec fn is_mailbox(value: Seq<char>) -> bool;

/// Parses `value` with the `FromStr` of `lettre::message::Mailbox` and tells
/// whether that succeeded.
///
/// Trusted: that the answer is the one named by [`is_mailbox`], which is to
/// say that it depends on the text and on nothing else.
#[verifier::external_body]
pub(crate) fn mailbox_parses(value: &str) -> (ok: bool)
    ensures
        ok == is_mailbox(value@),
{
    value.parse::<lettre::message::Mailbox>().is_ok()
}

/// An address of an email notification is no mailbox.
#[derive(Clone, Copy, Debug, PartialEq, Eq, Structural)]
pub enum EmailAddressError {
    InvalidSender,
    /// The recipient at `index` is the first that is no mailbox.
    InvalidRecipient { index: usize },
}

/// What an address error is reported as.
pub open spec fn address_error_text(error: EmailAddressError) -> Seq<char> {
    match error {
        EmailAddressError::InvalidSender => "Invalid sender email address"@,
        EmailAddressError::InvalidRecipient { .. } => "Invalid recipient email address"@,
    }
}

impl EmailAddressError {
    /// Says which kind of address is wrong.
    pub fn message(self) -> (text: &'static str)
        ensures
            text@ == address_error_text(self),
    {
        match self {
            EmailAddressError::InvalidSender => "Invalid sender email address",
            EmailAddressError::InvalidRecipient { .. } => "Invalid recipient email address",
        }
    }
}

/// `verdict` is the verdict on the addresses of a message, given which of
/// them are mailboxes: the sender is looked at first, then the recipients in
/// their order, and the first that is none is the error.
pub open spec fn is_address_verdict(
    verdict: Result<(), EmailAddressError>,
    sender_ok: bool,
    recipients_ok: Seq<bool>,
) -> bool {
    match verdict {
        Ok(()) => sender_ok && forall|i: int| 0 <= i < recipients_ok.len() ==> recipients_ok[i],
        Err(EmailAddressError::InvalidSender) => !sender_ok,
        Err(EmailAddressError::InvalidRecipient { index }) => {
            &&& sender_ok
            &&& index < recipients_ok.len()
            &&& !recipients_ok[index as int]
            &&& forall|j: int| 0 <= j < index ==> recipients_ok[j]
        },
    }
}

/// Judges the addresses of a message from what the mailbox parser said of
/// each.
pub fn judge_addresses(sender_ok: bool, recipients_ok: &Vec<bool>) -> (verdict: Result<
    (),
    EmailAddressError,
>)
    ensures
        is_address_verdict(verdict, sender_ok, recipients_ok@),
{
    if !sender_ok {
        return Err(EmailAddressError::InvalidSender);
    }
    let mut i: usize = 0;
    while i < recipients_ok.len()
        invariant
            sender_ok,
            i <= recipients_ok.len(),
            forall|j: int| 0 <= j < i ==> recipients_ok@[j],
        decreases recipients_ok.len() - i,
    {
        if !recipients_ok[i] {
            return Err(EmailAddressError::InvalidRecipient { index: i });
        }
        i += 1;
    }
    Ok(())
}

/// Which of `values` are mailboxes, one answer for each, in order.
pub open spec fn mailbox_flags(values: Seq<String>) -> Seq<bool> {
    Seq::new(values.len(), |i: int| is_mailbox(values[i]@))
}

/// Checks the sender and the recipients of `config` before a message is
/// built: each has to be a mailbox. The sender is looked at first, then the
/// recipients in their order.
pub fn check_email_addresses(config: &EmailConfig) -> (verdict: Result<(), EmailAddressError>)
    ensures
        is_address_verdict(verdict, is_mailbox(config.from@), mailbox_flags(config.to@)),
{
    let sender_ok = mailbox_parses(config.from.as_str());
    let mut recipients_ok: Vec<bool> = Vec::new();
    let mut i: usize = 0;
    while i < config.to.len()
        invariant
            i <= config.to.len(),
            recipients_ok@ == mailbox_flags(config.to@).take(i as int),
        decreases config.to.len() - i,
    {
        let ok = mailbox_parses(config.to[i].as_str());
        recipients_ok.push(ok);
        assert(recipients_ok@ == mailbox_flags(config.to@).take(i + 1));
        i += 1;
    }
    assert(mailbox_flags(config.to@).take(config.to@.len() as int) == mailbox_flags(config.to@));
    judge_addresses(sender_ok, &recipients_ok)
}

/// The most bytes of UTF-8 that a Telegram message may hold.
pub const TELEGRAM_MAX_LEN: usize = 4096;

/// The last character boundary of `bytes` at or before `limit`.
pub open spec fn cut_point(bytes: Seq<u8>, limit: int) -> int
    decreases limit,
{
    if limit <= 0 || is_char_boundary(bytes, limit) {
        limit
    } else {
        cut_point(bytes, limit - 1)
    }
}

/// A message made to fit: a text of at most 4096 bytes as it is; of a longer
/// one as many whole characters as fit in 4093 bytes, then three dots.
pub open spec fn fitted_text(text: Seq<char>) -> Seq<char> {
    let bytes = encode_utf8(text);
    if bytes.len() <= 4096 {
        text
    } else {
        decode_utf8(bytes.subrange(0, cut_point(bytes, 4093))) + "..."@
    }
}

/// The encoding of two texts put together is their encodings put together.
pub proof fn lemma_encode_utf8_concat(a: Seq<char>, b: Seq<char>)
    ensures
        encode_utf8(a + b) == encode_utf8(a) + encode_utf8(b),
    decreases a.len(),
{
    if a.len() == 0 {
        assert(a + b == b);
        assert(encode_utf8(a) + encode_utf8(b) == encode_utf8(b));
    } else {
        lemma_encode_utf8_concat(a.drop_first(), b);
        assert((a + b).drop_first() == a.drop_first() + b);
        assert((a + b)[0] == a[0]);
        let head = vstd::utf8::encode_scalar(a[0] as u32);
        assert(head + (encode_utf8(a.drop_first()) + encode_utf8(b)) == (head + encode_utf8(
            a.drop_first(),
        )) + encode_utf8(b));
    }
}

/// Cuts `body` down to what a Telegram message may hold.
///
/// A body of at most 4096 bytes stays as it is. A longer one is cut behind
/// the last character that ends within its first 4093 bytes, and three dots
/// are put in its place. The result never takes more than 4096 bytes.
pub fn ensure_telegram_size(body: &mut String)
    ensures
        final(body)@ == fitted_text(old(body)@),
        encode_utf8(final(body)@).len() <= TELEGRAM_MAX_LEN,
{
    let text = body.as_str();
    let ghost bytes = encode_utf8(text@);
    if text.as_bytes().len() <= TELEGRAM_MAX_LEN {
        return ;
    }
    proof {
        encode_utf8_valid_utf8(text@);
        is_char_boundary_start_end_of_seq(bytes);
    }
    let mut cut: usize = TELEGRAM_MAX_LEN - 3;
    while !text.is_char_boundary(cut)
        invariant
            cut <= 4093,
            bytes == encode_utf8(text@),
            bytes == text.spec_bytes(),
            is_char_boundary(bytes, 0),
            cut_point(bytes, 4093) == cut_point(bytes, cut as int),
        decreases cut,
    {
        cut -= 1;
    }
    let (head, _) = text.split_at(cut);
    let mut fitted = String::from_str(head);
    fitted.append("...");
    proof {
        let kept = bytes.subrange(0, cut as int);
        valid_utf8_split(bytes, cut as int);
        encode_utf8_decode_utf8(head@);
        assert(head@ == decode_utf8(kept));
        decode_utf8_encode_utf8(kept);
        reveal_strlit("...");
        is_ascii_chars_encode_utf8("..."@);
        lemma_encode_utf8_concat(head@, "..."@);
    }
    *body = fitted;
}

/// The address of the Telegram call that sends a message as the bot with
/// `token`; whitespace around the token is dropped.
pub open spec fn telegram_url_text(token: Seq<char>) -> Seq<char> {
    "https://api.telegram.org/bot"@ + trim(token) + "/sendMessage"@
}

/// The address to which a message for `config` is posted.
pub fn telegram_url(config: &TelegramConfig) -> (url: String)
    ensures
        url@ == telegram_url_text(config.token@),
{
    let chars = chars_of(config.token.as_str());
    let from = scan_whitespace(&chars, 0);
    let to = scan_trailing_whitespace(&chars, chars.len());
    let mut url = String::from_str("https://api.telegram.org/bot");
    if from <= to {
        url.append(config.token.as_str().substring_char(from, to));
    } else {
        assert(url@ + Seq::<char>::empty() == url@);
    }
    url.append("/sendMessage");
    url
}

/// What came back from the Telegram call.
#[derive(Debug)]
pub enum TelegramReply {
    /// The service answered with an HTTP status, and a body where one could
    /// be read.
    Answered { status: u16, body: Option<String> },
    /// The call did not get through.
    Unreachable,
}

/// Why a message did not reach Telegram.
#[derive(Debug)]
pub enum TelegramError {
    /// The service answered, but not with a status of success.
    Rejected { status: u16, body: String },
    /// The call did not get through.
    Unreachable,
}

/// What stands for the body of an answer that could not be read.
pub open spec fn reply_body_text(body: Option<String>) -> Seq<char> {
    match body {
        Some(text) => text@,
        None => "<no body>"@,
    }
}

/// Judges the reply to a message: a status from 200 up to 299 is success,
/// any other is a rejection with that status and the body of the answer.
pub fn telegram_outcome(reply: TelegramReply) -> (outcome: Result<(), TelegramError>)
    ensures
        match reply {
            TelegramReply::Answered { status, body } => if 200 <= status < 300 {
                outcome is Ok
            } else {
                &&& outcome matches Err(TelegramError::Rejected { status: told, body: text })
                &&& told == status
                &&& text@ == reply_body_text(body)
            },
            TelegramReply::Unreachable => outcome matches Err(TelegramError::Unreachable),
        },
{
    match reply {
        TelegramReply::Answered { status, body } => {
            if 200 <= status && status < 300 {
                Ok(())
            } else {
                let text = match body {
                    Some(text) => text,
                    None => String::from_str("<no body>"),
                };
                Err(TelegramError::Rejected { status, body: text })
            }
        },
        TelegramReply::Unreachable => Err(TelegramError::Unreachable),
    }
}

} // verus!
