//! The agent commands of the command line.
//!
//! A command is carried out in three moves: the passphrases it needs are asked
//! for, one query goes to the agent service, and the reply is reported. The
//! asking, the query and the printing are the caller's; which prompt comes
//! next, which query is made of the answers and what is reported of a reply is
//! decided here. `run` opens a session for a command and says what to do
//! first; `AgentSession::step` is told what came of it and says what to do
//! next.

use vstd::prelude::*;

verus! {

/// The prompt for a passphrase.
pub open spec fn passphrase_prompt() -> Seq<char> {
    "Passphrase: "@
}

/// The prompt for the repetition of a passphrase.
pub open spec fn repeat_prompt() -> Seq<char> {
    "Repeat passphrase: "@
}

/// What is shown in place of a value that is missing.
pub open spec fn undefined_text() -> Seq<char> {
    "<undefined>"@
}

/// The message of `PassphraseMismatch`.
pub open spec fn mismatch_text() -> Seq<char> {
    "Passphrases do not match"@
}

/// The message of `UnexpectedReply`.
pub open spec fn unexpected_text() -> Seq<char> {
    "The agent service sent a reply of another kind"@
}

/// The message of `OutOfTurn`.
pub open spec fn out_of_turn_text() -> Seq<char> {
    "Nothing was asked for"@
}

/// `true` or `false`, as text.
pub open spec fn bool_text(value: bool) -> Seq<char> {
    if value {
        "true"@
    } else {
        "false"@
    }
}

/// The text of `value`, or `<undefined>` where there is none.
pub open spec fn or_undefined(value: Option<Seq<char>>) -> Seq<char> {
    match value {
        Some(text) => text,
        None => undefined_text(),
    }
}

/// The agent commands.
#[derive(Debug, PartialEq, Eq)]
pub enum AgentFunctions {
    /// Print the local agent's information.
    Me,
    /// Show the status of the agent keys.
    Status,
    /// Lock the agent keys.
    Lock,
    /// Unlock the agent keys.
    Unlock { passphrase: Option<String> },
    /// Look an agent up by its DID.
    ByDID { did: String },
    /// Initialize a new agent.
    Generate { passphrase: Option<String> },
}

/// The model of a command.
pub enum CommandView {
    Me,
    Status,
    Lock,
    Unlock { passphrase: Option<Seq<char>> },
    ByDID { did: Seq<char> },
    Generate { passphrase: Option<Seq<char>> },
}

/// One query to the agent service.
#[derive(Debug, PartialEq, Eq)]
pub enum AgentQuery {
    Me,
    Status,
    Lock { passphrase: String },
    Unlock { passphrase: String },
    ByDID { did: String },
    Generate { passphrase: String },
}

/// The model of a query.
pub enum QueryView {
    Me,
    Status,
    Lock { passphrase: Seq<char> },
    Unlock { passphrase: Seq<char> },
    ByDID { did: Seq<char> },
    Generate { passphrase: Seq<char> },
}

/// What is to be done next for a command.
#[derive(Debug, PartialEq, Eq)]
pub enum AgentStep {
    /// Show the prompt and read one line without echo.
    Ask(String),
    /// Put the query to the agent service.
    Call(AgentQuery),
}

/// The model of a step.
pub enum StepView {
    Ask(Seq<char>),
    Call(QueryView),
}

/// What the agent service replied.
#[derive(Debug, PartialEq, Eq)]
pub enum AgentReply {
    /// The record of the local agent.
    Agent,
    /// The record of the agent that was looked up, if there is one.
    Lookup { found: bool },
    /// The status of the agent keys.
    Status {
        did: Option<String>,
        is_initialized: bool,
        is_unlocked: bool,
        did_document: Option<String>,
    },
    /// The result of a change to the agent keys, with the error it met.
    Outcome { error: Option<String> },
}

/// The model of a reply.
pub enum ReplyView {
    Agent,
    Lookup { found: bool },
    Status {
        did: Option<Seq<char>>,
        is_initialized: bool,
        is_unlocked: bool,
        did_document: Option<Seq<char>>,
    },
    Outcome { error: Option<Seq<char>> },
}

/// What is to be shown for a reply.
#[derive(Debug, PartialEq, Eq)]
pub enum Report {
    /// The agent record that came with the reply.
    ShowAgent,
    /// These lines, each followed by a line break.
    Lines(Vec<String>),
}

/// The model of a report.
pub enum ReportView {
    ShowAgent,
    Lines(Seq<Seq<char>>),
}

/// Why a command failed.
#[derive(Debug, PartialEq, Eq)]
pub enum AgentError {
    /// The passphrase and its repetition differ.
    PassphraseMismatch,
    /// The agent service reported an error.
    Refused(String),
    /// The reply does not belong to the command.
    UnexpectedReply,
    /// A line or a reply was handed in that the session had not asked for.
    OutOfTurn,
}

/// The model of an error.
pub enum ErrorView {
    PassphraseMismatch,
    Refused(Seq<char>),
    UnexpectedReply,
    OutOfTurn,
}

/// The view of a text that may be missing.
pub open spec fn text_view(value: Option<String>) -> Option<Seq<char>> {
    match value {
        Some(text) => Some(text@),
        None => None,
    }
}

impl View for AgentFunctions {
    type V = CommandView;

    open spec fn view(&self) -> CommandView {
        match *self {
            AgentFunctions::Me => CommandView::Me,
            AgentFunctions::Status => CommandView::Status,
            AgentFunctions::Lock => CommandView::Lock,
            AgentFunctions::Unlock { passphrase } => CommandView::Unlock {
                passphrase: text_view(passphrase),
            },
            AgentFunctions::ByDID { did } => CommandView::ByDID { did: did@ },
            AgentFunctions::Generate { passphrase } => CommandView::Generate {
                passphrase: text_view(passphrase),
            },
        }
    }
}

impl View for AgentQuery {
    type V = QueryView;

    open spec fn view(&self) -> QueryView {
        match *self {
            AgentQuery::Me => QueryView::Me,
            AgentQuery::Status => QueryView::Status,
            AgentQuery::Lock { passphrase } => QueryView::Lock { passphrase: passphrase@ },
            AgentQuery::Unlock { passphrase } => QueryView::Unlock { passphrase: passphrase@ },
            AgentQuery::ByDID { did } => QueryView::ByDID { did: did@ },
            AgentQuery::Generate { passphrase } => QueryView::Generate { passphrase: passphrase@ },
        }
    }
}

impl View for AgentStep {
    type V = StepView;

    open spec fn view(&self) -> StepView {
        match *self {
            AgentStep::Ask(prompt) => StepView::Ask(prompt@),
            AgentStep::Call(query) => StepView::Call(query@),
        }
    }
}

impl View for AgentReply {
    type V = ReplyView;

    open spec fn view(&self) -> ReplyView {
        match *self {
            AgentReply::Agent => ReplyView::Agent,
            AgentReply::Lookup { found } => ReplyView::Lookup { found },
            AgentReply::Status { did, is_initialized, is_unlocked, did_document } => {
                ReplyView::Status {
                    did: text_view(did),
                    is_initialized,
                    is_unlocked,
                    did_document: text_view(did_document),
                }
            },
            AgentReply::Outcome { error } => ReplyView::Outcome { error: text_view(error) },
        }
    }
}

impl View for Report {
    type V = ReportView;

    open spec fn view(&self) -> ReportView {
        match *self {
            Report::ShowAgent => ReportView::ShowAgent,
            Report::Lines(lines) => ReportView::Lines(lines@.map_values(|line: String| line@)),
        }
    }
}

impl View for AgentError {
    type V = ErrorView;

    open spec fn view(&self) -> ErrorView {
        match *self {
            AgentError::PassphraseMismatch => ErrorView::PassphraseMismatch,
            AgentError::Refused(text) => ErrorView::Refused(text@),
            AgentError::UnexpectedReply => ErrorView::UnexpectedReply,
            AgentError::OutOfTurn => ErrorView::OutOfTurn,
        }
    }
}

/// The prompts that a command asks, in their order: one passphrase to lock,
/// one to unlock where none came with the command, and the passphrase with its
/// repetition to generate where none came with the command.
pub open spec fn prompts(command: CommandView) -> Seq<Seq<char>> {
    match command {
        CommandView::Lock => seq![passphrase_prompt()],
        CommandView::Unlock { passphrase: None } => seq![passphrase_prompt()],
        CommandView::Generate { passphrase: None } => seq![passphrase_prompt(), repeat_prompt()],
        _ => Seq::empty(),
    }
}

/// The query that a command makes of the answers to its prompts. A passphrase
/// that came with the command is used as it is; one that was asked for twice
/// must have been given the same both times.
pub open spec fn query(command: CommandView, answers: Seq<Seq<char>>) -> Result<
    QueryView,
    ErrorView,
> {
    match command {
        CommandView::Me => Ok(QueryView::Me),
        CommandView::Status => Ok(QueryView::Status),
        CommandView::Lock => Ok(QueryView::Lock { passphrase: answers[0] }),
        CommandView::Unlock { passphrase: Some(given) } => Ok(
            QueryView::Unlock { passphrase: given },
        ),
        CommandView::Unlock { passphrase: None } => Ok(
            QueryView::Unlock { passphrase: answers[0] },
        ),
        CommandView::ByDID { did } => Ok(QueryView::ByDID { did }),
        CommandView::Generate { passphrase: Some(given) } => Ok(
            QueryView::Generate { passphrase: given },
        ),
        CommandView::Generate { passphrase: None } => if answers[0] == answers[1] {
            Ok(QueryView::Generate { passphrase: answers[0] })
        } else {
            Err(ErrorView::PassphraseMismatch)
        },
    }
}

/// What is next for a command when `answers` have been read so far: the next
/// prompt while one is left, then the query.
pub open spec fn next_step(command: CommandView, answers: Seq<Seq<char>>) -> Result<
    StepView,
    ErrorView,
> {
    if answers.len() < prompts(command).len() {
        Ok(StepView::Ask(prompts(command)[answers.len() as int]))
    } else {
        match query(command, answers) {
            Ok(call) => Ok(StepView::Call(call)),
            Err(why) => Err(why),
        }
    }
}

/// The four lines in which the status of the agent keys is shown.
pub open spec fn status_lines(
    did: Option<Seq<char>>,
    is_initialized: bool,
    is_unlocked: bool,
    did_document: Option<Seq<char>>,
) -> Seq<Seq<char>> {
    seq![
        "\x1b[36mDID: \x1b[97m"@ + or_undefined(did),
        "\x1b[36mis_initiliazed: \x1b[97m"@ + bool_text(is_initialized),
        "\x1b[36mis_unlocked: \x1b[97m"@ + bool_text(is_unlocked),
        "\x1b[36mDID Document:\n\x1b[97m"@ + or_undefined(did_document),
    ]
}

/// What is reported when a change to the agent keys went through.
pub open spec fn done_text(command: CommandView) -> Seq<char> {
    match command {
        CommandView::Lock => "Agent locked"@,
        CommandView::Unlock { .. } => "Agent unlocked"@,
        _ => "Agent generated"@,
    }
}

/// What a command reports of the reply to its query.
pub open spec fn report(command: CommandView, reply: ReplyView) -> Result<ReportView, ErrorView> {
    match (command, reply) {
        (CommandView::Me, ReplyView::Agent) => Ok(ReportView::ShowAgent),
        (
            CommandView::Status,
            ReplyView::Status { did, is_initialized, is_unlocked, did_document },
        ) => Ok(ReportView::Lines(status_lines(did, is_initialized, is_unlocked, did_document))),
        (CommandView::ByDID { .. }, ReplyView::Lookup { found }) => if found {
            Ok(ReportView::ShowAgent)
        } else {
            Ok(ReportView::Lines(seq!["Agent not found"@]))
        },
        (CommandView::Lock, ReplyView::Outcome { error })
        | (CommandView::Unlock { .. }, ReplyView::Outcome { error })
        | (CommandView::Generate { .. }, ReplyView::Outcome { error }) => match error {
            Some(text) => Err(ErrorView::Refused(text)),
            None => Ok(ReportView::Lines(seq![done_text(command)])),
        },
        _ => Err(ErrorView::UnexpectedReply),
    }
}

fn or_undefined_text(value: Option<String>) -> (text: String)
    ensures
        text@ == or_undefined(text_view(value)),
{
    match value {
        Some(text) => text,
        None => String::from_str("<undefined>"),
    }
}

fn bool_word(value: bool) -> (word: &'static str)
    ensures
        word@ == bool_text(value),
{
    if value {
        "true"
    } else {
        "false"
    }
}

fn one_line(line: String) -> (lines: Vec<String>)
    ensures
        lines@.map_values(|line: String| line@) == seq![line@],
{
    let mut lines: Vec<String> = Vec::new();
    lines.push(line);
    assert(lines@.map_values(|line: String| line@) =~= seq![line@]);
    lines
}

impl AgentFunctions {
    /// Says what is next for the command when `answers` have been read so
    /// far, one for each prompt that was asked, in the order of asking.
    pub fn next_step(&self, answers: &Vec<String>) -> (step: Result<AgentStep, AgentError>)
        ensures
            match step {
                Ok(next) => next_step(self@, answers@.map_values(|line: String| line@)) == Ok::<
                    StepView,
                    ErrorView,
                >(next@),
                Err(why) => next_step(self@, answers@.map_values(|line: String| line@)) == Err::<
                    StepView,
                    ErrorView,
                >(why@),
            },
    {
        let ghost read = answers@.map_values(|line: String| line@);
        match self {
            AgentFunctions::Me => Ok(AgentStep::Call(AgentQuery::Me)),
            AgentFunctions::Status => Ok(AgentStep::Call(AgentQuery::Status)),
            AgentFunctions::Lock => {
                if answers.len() < 1 {
                    Ok(AgentStep::Ask(String::from_str("Passphrase: ")))
                } else {
                    assert(read[0] == answers@[0]@);
                    Ok(AgentStep::Call(AgentQuery::Lock { passphrase: answers[0].clone() }))
                }
            },
            AgentFunctions::Unlock { passphrase: Some(given) } => Ok(
                AgentStep::Call(AgentQuery::Unlock { passphrase: given.clone() }),
            ),
            AgentFunctions::Unlock { passphrase: None } => {
                if answers.len() < 1 {
                    Ok(AgentStep::Ask(String::from_str("Passphrase: ")))
                } else {
                    assert(read[0] == answers@[0]@);
                    Ok(AgentStep::Call(AgentQuery::Unlock { passphrase: answers[0].clone() }))
                }
            },
            AgentFunctions::ByDID { did } => Ok(
                AgentStep::Call(AgentQuery::ByDID { did: did.clone() }),
            ),
            AgentFunctions::Generate { passphrase: Some(given) } => Ok(
                AgentStep::Call(AgentQuery::Generate { passphrase: given.clone() }),
            ),
            AgentFunctions::Generate { passphrase: None } => {
                if answers.len() < 1 {
                    Ok(AgentStep::Ask(String::from_str("Passphrase: ")))
                } else if answers.len() < 2 {
                    Ok(AgentStep::Ask(String::from_str("Repeat passphrase: ")))
                } else {
                    assert(read[0] == answers@[0]@);
                    assert(read[1] == answers@[1]@);
                    if answers[0] == answers[1] {
                        Ok(
                            AgentStep::Call(
                                AgentQuery::Generate { passphrase: answers[0].clone() },
                            ),
                        )
                    } else {
                        Err(AgentError::PassphraseMismatch)
                    }
                }
            },
        }
    }

    /// Says what is to be shown for the reply to the command's query, or why
    /// the command failed.
    pub fn report(&self, reply: AgentReply) -> (shown: Result<Report, AgentError>)
        ensures
            match shown {
                Ok(lines) => report(self@, reply@) == Ok::<ReportView, ErrorView>(lines@),
                Err(why) => report(self@, reply@) == Err::<ReportView, ErrorView>(why@),
            },
    {
        match (self, reply) {
            (AgentFunctions::Me, AgentReply::Agent) => Ok(Report::ShowAgent),
            (
                AgentFunctions::Status,
                AgentReply::Status { did, is_initialized, is_unlocked, did_document },
            ) => {
                let ghost wanted = status_lines(
                    text_view(did),
                    is_initialized,
                    is_unlocked,
                    text_view(did_document),
                );
                let mut lines: Vec<String> = Vec::new();
                lines.push(
                    String::from_str("\x1b[36mDID: \x1b[97m").concat(
                        or_undefined_text(did).as_str(),
                    ),
                );
                lines.push(
                    String::from_str("\x1b[36mis_initiliazed: \x1b[97m").concat(
                        bool_word(is_initialized),
                    ),
                );
                lines.push(
                    String::from_str("\x1b[36mis_unlocked: \x1b[97m").concat(
                        bool_word(is_unlocked),
                    ),
                );
                lines.push(
                    String::from_str("\x1b[36mDID Document:\n\x1b[97m").concat(
                        or_undefined_text(did_document).as_str(),
                    ),
                );
                assert(lines@.map_values(|line: String| line@) =~= wanted);
                Ok(Report::Lines(lines))
            },
            (AgentFunctions::ByDID { .. }, AgentReply::Lookup { found }) => {
                if found {
                    Ok(Report::ShowAgent)
                } else {
                    Ok(Report::Lines(one_line(String::from_str("Agent not found"))))
                }
            },
            (AgentFunctions::Lock, AgentReply::Outcome { error }) => match error {
                Some(text) => Err(AgentError::Refused(text)),
                None => Ok(Report::Lines(one_line(String::from_str("Agent locked")))),
            },
            (AgentFunctions::Unlock { .. }, AgentReply::Outcome { error }) => match error {
                Some(text) => Err(AgentError::Refused(text)),
                None => Ok(Report::Lines(one_line(String::from_str("Agent unlocked")))),
            },
            (AgentFunctions::Generate { .. }, AgentReply::Outcome { error }) => match error {
                Some(text) => Err(AgentError::Refused(text)),
                None => Ok(Report::Lines(one_line(String::from_str("Agent generated")))),
            },
            _ => Err(AgentError::UnexpectedReply),
        }
    }
}

/// What a failed command says of itself.
pub open spec fn error_text(why: ErrorView) -> Seq<char> {
    match why {
        ErrorView::PassphraseMismatch => mismatch_text(),
        ErrorView::Refused(text) => text,
        ErrorView::UnexpectedReply => unexpected_text(),
        ErrorView::OutOfTurn => out_of_turn_text(),
    }
}

impl AgentError {
    /// The message with which the command fails.
    pub fn message(&self) -> (text: String)
        ensures
            text@ == error_text(self@),
    {
        match self {
            AgentError::PassphraseMismatch => String::from_str("Passphrases do not match"),
            AgentError::Refused(text) => text.clone(),
            AgentError::UnexpectedReply => String::from_str(
                "The agent service sent a reply of another kind",
            ),
            AgentError::OutOfTurn => String::from_str("Nothing was asked for"),
        }
    }
}

/// How far a session has come.
#[derive(Debug, Clone, Copy, PartialEq, Eq, Structural)]
pub enum AgentStage {
    /// A prompt is out; a line is awaited.
    Asking,
    /// The query is out; the reply is awaited.
    Calling,
    /// The command has been carried out, or has failed.
    Finished,
}

/// What came of the last action of a session.
#[derive(Debug, PartialEq, Eq)]
pub enum AgentEvent {
    /// The line that was read at the prompt.
    Line(String),
    /// The reply of the agent service.
    Reply(AgentReply),
}

/// The model of an event.
pub enum AgentEventView {
    Line(Seq<char>),
    Reply(ReplyView),
}

/// What the caller of a session is to do now.
#[derive(Debug, PartialEq, Eq)]
pub enum AgentAction {
    /// Show the prompt and read one line without echo; hand in `Line`.
    Ask(String),
    /// Put the query to the agent service under the capability token; hand in
    /// `Reply`.
    Call { cap_token: String, query: AgentQuery },
    /// Show the report; the command is done.
    Show(Report),
    /// Fail with the error; the command is over.
    Fail(AgentError),
}

/// The model of an action.
pub enum AgentActionView {
    Ask(Seq<char>),
    Call { cap_token: Seq<char>, query: QueryView },
    Show(ReportView),
    Fail(ErrorView),
}

impl View for AgentEvent {
    type V = AgentEventView;

    open spec fn view(&self) -> AgentEventView {
        match *self {
            AgentEvent::Line(text) => AgentEventView::Line(text@),
            AgentEvent::Reply(reply) => AgentEventView::Reply(reply@),
        }
    }
}

impl View for AgentAction {
    type V = AgentActionView;

    open spec fn view(&self) -> AgentActionView {
        match *self {
            AgentAction::Ask(prompt) => AgentActionView::Ask(prompt@),
            AgentAction::Call { cap_token, query } => AgentActionView::Call {
                cap_token: cap_token@,
                query: query@,
            },
            AgentAction::Show(shown) => AgentActionView::Show(shown@),
            AgentAction::Fail(why) => AgentActionView::Fail(why@),
        }
    }
}

/// The model of a session: the command under its capability token, the lines
/// read so far, and the stage.
pub struct SessionView {
    pub cap_token: Seq<char>,
    pub command: CommandView,
    pub answers: Seq<Seq<char>>,
    pub stage: AgentStage,
}

/// Where a session goes once the lines read so far are `s.answers`: to the
/// next prompt, to the query, or to its end where the answers do not agree.
pub open spec fn advance(s: SessionView) -> (SessionView, AgentActionView) {
    match next_step(s.command, s.answers) {
        Ok(StepView::Ask(prompt)) => (
            SessionView { stage: AgentStage::Asking, ..s },
            AgentActionView::Ask(prompt),
        ),
        Ok(StepView::Call(query)) => (
            SessionView { stage: AgentStage::Calling, ..s },
            AgentActionView::Call { cap_token: s.cap_token, query },
        ),
        Err(why) => (SessionView { stage: AgentStage::Finished, ..s }, AgentActionView::Fail(why)),
    }
}

/// The session that carries `command` out, and its first action.
pub open spec fn begin(cap_token: Seq<char>, command: CommandView) -> (
    SessionView,
    AgentActionView,
) {
    advance(SessionView { cap_token, command, answers: Seq::empty(), stage: AgentStage::Asking })
}

/// Where a session goes on `event`, and what is to be done then. A line is
/// taken while a prompt is out and a reply while the query is out; anything
/// else ends the session.
pub open spec fn session_step(s: SessionView, event: AgentEventView) -> (
    SessionView,
    AgentActionView,
) {
    match (s.stage, event) {
        (AgentStage::Asking, AgentEventView::Line(text)) => advance(
            SessionView { answers: s.answers.push(text), ..s },
        ),
        (AgentStage::Calling, AgentEventView::Reply(reply)) => (
            SessionView { stage: AgentStage::Finished, ..s },
            match report(s.command, reply) {
                Ok(shown) => AgentActionView::Show(shown),
                Err(why) => AgentActionView::Fail(why),
            },
        ),
        _ => (
            SessionView { stage: AgentStage::Finished, ..s },
            AgentActionView::Fail(ErrorView::OutOfTurn),
        ),
    }
}

/// One command on its way: what was asked, what was answered so far.
#[derive(Debug)]
pub struct AgentSession {
    cap_token: String,
    command: AgentFunctions,
    answers: Vec<String>,
    stage: AgentStage,
}

impl View for AgentSession {
    type V = SessionView;

    closed spec fn view(&self) -> SessionView {
        SessionView {
            cap_token: self.cap_token@,
            command: self.command@,
            answers: self.answers@.map_values(|line: String| line@),
            stage: self.stage,
        }
    }
}

impl AgentSession {
    /// How far the session has come.
    pub fn stage(&self) -> (stage: AgentStage)
        ensures
            stage == self@.stage,
    {
        self.stage
    }

    fn advance(&mut self) -> (action: AgentAction)
        ensures
            (final(self)@, action@) == advance(old(self)@),
    {
        match self.command.next_step(&self.answers) {
            Ok(AgentStep::Ask(prompt)) => {
                self.stage = AgentStage::Asking;
                AgentAction::Ask(prompt)
            },
            Ok(AgentStep::Call(query)) => {
                self.stage = AgentStage::Calling;
                AgentAction::Call { cap_token: self.cap_token.clone(), query }
            },
            Err(why) => {
                self.stage = AgentStage::Finished;
                AgentAction::Fail(why)
            },
        }
    }

    /// Takes in what came of the last action and says what to do now.
    pub fn step(&mut self, event: AgentEvent) -> (action: AgentAction)
        ensures
            (final(self)@, action@) == session_step(old(self)@, event@),
    {
        match (self.stage, event) {
            (AgentStage::Asking, AgentEvent::Line(text)) => {
                let ghost before = self.answers@.map_values(|line: String| line@);
                self.answers.push(text);
                assert(self.answers@.map_values(|line: String| line@) =~= before.push(text@));
                self.advance()
            },
            (AgentStage::Calling, AgentEvent::Reply(reply)) => {
                self.stage = AgentStage::Finished;
                match self.command.report(reply) {
                    Ok(shown) => AgentAction::Show(shown),
                    Err(why) => AgentAction::Fail(why),
                }
            },
            _ => {
                self.stage = AgentStage::Finished;
                AgentAction::Fail(AgentError::OutOfTurn)
            },
        }
    }
}

/// Opens the session that carries `command` out under the capability token,
/// and says what to do first: ask for a passphrase where the command needs one
/// that it did not come with, else put the query.
pub fn run(cap_token: String, command: AgentFunctions) -> (opened: (AgentSession, AgentAction))
    ensures
        (opened.0@, opened.1@) == begin(cap_token@, command@),
{
    let mut session = AgentSession {
        cap_token,
        command,
        answers: Vec::new(),
        stage: AgentStage::Asking,
    };
    assert(session.answers@.map_values(|line: String| line@) =~= Seq::empty());
    let action = session.advance();
    (session, action)
}

} // verus!
