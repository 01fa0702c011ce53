use vstd::prelude::*;
use vstd::string::*;
use crate::encoding::push_char;
use crate::error::ClientError;
use crate::response::Response;

verus! {

/// Where the loading of an API key stands.
#[derive(Clone, Debug, PartialEq, Eq)]
pub enum KeyLoad {
    /// Nothing is known of the file yet.
    Probing,
    /// The file exists and has not been read yet.
    Reading,
    /// The key: the content of the file, as it is.
    Loaded(String),
    /// There is no key.
    Failed(ClientError),
}

/// What the file system answered.
#[derive(Clone, Debug, PartialEq, Eq)]
pub enum KeyEvent {
    /// Whether the path exists.
    Probed(bool),
    /// The content of the file, or `None` where it could not be read as text.
    Read(Option<String>),
}

/// What to ask of the file system next.
#[derive(Clone, Copy, Debug, PartialEq, Eq, Structural)]
pub enum KeyAction {
    /// Find out whether the path exists.
    Probe,
    /// Read the file.
    Read,
    /// Nothing more: the load has ended.
    Stop,
}

/// A load as contracts see it.
pub enum KeyLoadView {
    Probing,
    Reading,
    Loaded(Seq<char>),
    Failed(ClientError),
}

/// An event as contracts see it.
pub enum KeyEventView {
    Probed(bool),
    Read(Option<Seq<char>>),
}

impl View for KeyLoad {
    type V = KeyLoadView;

    open spec fn view(&self) -> KeyLoadView {
        match self {
            KeyLoad::Probing => KeyLoadView::Probing,
            KeyLoad::Reading => KeyLoadView::Reading,
            KeyLoad::Loaded(key) => KeyLoadView::Loaded(key@),
            KeyLoad::Failed(error) => KeyLoadView::Failed(*error),
        }
    }
}

impl View for KeyEvent {
    type V = KeyEventView;

    open spec fn view(&self) -> KeyEventView {
        match self {
            KeyEvent::Probed(exists) => KeyEventView::Probed(*exists),
            KeyEvent::Read(Some(content)) => KeyEventView::Read(Some(content@)),
            KeyEvent::Read(None) => KeyEventView::Read(None),
        }
    }
}

/// The load after an event. A missing file ends it with `NotFound`, a file that
/// cannot be read with `ReadError`, and a file that was read with its content as
/// the key. An event that answers no question of the load changes nothing.
pub open spec fn after(load: KeyLoadView, event: KeyEventView) -> KeyLoadView {
    match (load, event) {
        (KeyLoadView::Probing, KeyEventView::Probed(true)) => KeyLoadView::Reading,
        (KeyLoadView::Probing, KeyEventView::Probed(false)) => KeyLoadView::Failed(
            ClientError::NotFound,
        ),
        (KeyLoadView::Reading, KeyEventView::Read(Some(content))) => KeyLoadView::Loaded(content),
        (KeyLoadView::Reading, KeyEventView::Read(None)) => KeyLoadView::Failed(
            ClientError::ReadError,
        ),
        _ => load,
    }
}

/// What a load asks for.
pub open spec fn action_of(load: KeyLoadView) -> KeyAction {
    match load {
        KeyLoadView::Probing => KeyAction::Probe,
        KeyLoadView::Reading => KeyAction::Read,
        KeyLoadView::Loaded(_) | KeyLoadView::Failed(_) => KeyAction::Stop,
    }
}

/// The load after a run of events.
pub open spec fn after_all(load: KeyLoadView, events: Seq<KeyEventView>) -> KeyLoadView
    decreases events.len(),
{
    if events.len() == 0 {
        load
    } else {
        after_all(after(load, events.first()), events.drop_first())
    }
}

/// Once the path is found missing the load has failed with `NotFound`, it asks for
/// nothing more, and nothing that happens later changes it.
pub proof fn law_missing_file(later: Seq<KeyEventView>)
    ensures
        after(KeyLoadView::Probing, KeyEventView::Probed(false)) == KeyLoadView::Failed(
            ClientError::NotFound,
        ),
        after_all(KeyLoadView::Failed(ClientError::NotFound), later) == KeyLoadView::Failed(
            ClientError::NotFound,
        ),
        action_of(after_all(KeyLoadView::Failed(ClientError::NotFound), later))
            == KeyAction::Stop,
    decreases later.len(),
{
    if later.len() > 0 {
        law_missing_file(later.drop_first());
    }
}

impl KeyLoad {
    /// A load that has asked nothing yet.
    pub fn start() -> (load: KeyLoad)
        ensures
            load@ == KeyLoadView::Probing,
    {
        KeyLoad::Probing
    }

    /// What to ask of the file system next.
    pub fn action(&self) -> (action: KeyAction)
        ensures
            action == action_of(self@),
    {
        match self {
            KeyLoad::Probing => KeyAction::Probe,
            KeyLoad::Reading => KeyAction::Read,
            KeyLoad::Loaded(_) | KeyLoad::Failed(_) => KeyAction::Stop,
        }
    }

    /// The load after `event`.
    pub fn advance(self, event: KeyEvent) -> (next: KeyLoad)
        ensures
            next@ == after(self@, event@),
    {
        match self {
            KeyLoad::Probing => match event {
                KeyEvent::Probed(true) => KeyLoad::Reading,
                KeyEvent::Probed(false) => KeyLoad::Failed(ClientError::NotFound),
                KeyEvent::Read(_) => KeyLoad::Probing,
            },
            KeyLoad::Reading => match event {
                KeyEvent::Read(Some(content)) => KeyLoad::Loaded(content),
                KeyEvent::Read(None) => KeyLoad::Failed(ClientError::ReadError),
                KeyEvent::Probed(_) => KeyLoad::Reading,
            },
            KeyLoad::Loaded(key) => KeyLoad::Loaded(key),
            KeyLoad::Failed(error) => KeyLoad::Failed(error),
        }
    }

    /// The key or the error of a load that has ended, `None` of one that has not.
    pub fn outcome(self) -> (result: Option<Result<String, ClientError>>)
        ensures
            match self@ {
                KeyLoadView::Loaded(key) => result matches Some(Ok(text)) && text@ == key,
                KeyLoadView::Failed(error) => result == Some(
                    Err::<String, ClientError>(error),
                ),
                _ => result is None,
            },
    {
        match self {
            KeyLoad::Loaded(key) => Some(Ok(key)),
            KeyLoad::Failed(error) => Some(Err(error)),
            _ => None,
        }
    }
}

/// Where a report is printed.
#[derive(Clone, Copy, Debug, PartialEq, Eq, Structural)]
pub enum Channel {
    Output,
    Error,
}

/// What to print of a result, and where.
#[derive(Clone, Debug, PartialEq, Eq)]
pub struct Report {
    pub channel: Channel,
    pub text: String,
}

/// The decimal digit of a value below ten.
pub open spec fn digit(n: nat) -> char
    recommends
        n < 10,
{
    ((0x30 + n) as u8) as char
}

/// A number in decimal digits, without leading zeros.
pub open spec fn decimal(n: nat) -> Seq<char>
    decreases n,
{
    if n < 10 {
        seq![digit(n)]
    } else {
        decimal(n / 10).push(digit(n % 10))
    }
}

/// What is printed of an answer: its status line, then its body.
pub open spec fn answer_text(status: u16, reason: Seq<char>, body: Seq<char>) -> Seq<char> {
    "Status: "@ + decimal(status as nat) + seq![' '] + reason + "\nBody:\n"@ + body
}

/// What is printed of an error.
pub open spec fn error_text(error: ClientError) -> Seq<char> {
    "Error: "@ + error.description()
}

fn append_decimal(out: &mut String, n: u16)
    ensures
        final(out)@ == old(out)@ + decimal(n as nat),
    decreases n,
{
    if n >= 10 {
        append_decimal(out, n / 10);
    }
    push_char(out, (0x30 + n % 10) as u8 as char);
}

/// What to print of the result of an operation: status and body of an answer on the
/// output, the description of an error on the error output.
pub fn handle_error_shodan(result: &Result<Response, ClientError>) -> (report: Report)
    ensures
        match result {
            Ok(response) => report.channel == Channel::Output && report.text@ == answer_text(
                response.status,
                response.reason@,
                response.body@,
            ),
            Err(error) => report.channel == Channel::Error && report.text@ == error_text(*error),
        },
{
    match result {
        Ok(response) => {
            let mut text = String::from_str("Status: ");
            append_decimal(&mut text, response.status);
            push_char(&mut text, ' ');
            text.append(response.reason.as_str());
            text.append("\nBody:\n");
            text.append(response.body.as_str());
            Report { channel: Channel::Output, text }
        },
        Err(error) => {
            let mut text = String::from_str("Error: ");
            let description = error.describe();
            text.append(description.as_str());
            Report { channel: Channel::Error, text }
        },
    }
}

} // verus!
