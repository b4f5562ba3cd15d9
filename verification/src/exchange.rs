//! The course of a request: what is known of it, what happens, what is to do.
//!
//! A handler is called with an [`Exchange`], which holds what is known so far,
//! and an [`Event`]. It answers with a [`Step`]: either a [`Question`] and the
//! exchange to go on with, or the reply. The caller does what the question asks
//! and calls the handler again with the event that came of it. The first call is
//! made with [`Event::Start`].

use crate::errors::{HandlerError, LspError};
use crate::messages::{status_message, text_of};
use crate::outside::{share, vfs_path, vfs_path_text};
use crate::protocol::Position;
use crate::snapshot::{
    db_of, path_status, try_get_db, verify_request_path, verify_request_version, version_current,
    AnalysisDatabase, DatabaseTable, PathStatus, VersionTable,
};
use lsp_server::RequestId;
use ra_ap_vfs::Vfs;
use std::collections::HashMap;
use std::sync::Arc;
use vstd::prelude::*;

verus! {

/// What is known of a request. `A` is what an analysis database holds, `T` what
/// the handler's analysis gives, `E` the error of the caller's calls.
pub struct Exchange<A, T, E> {
    /// The name of the document's file, from the request's URI.
    pub file: Result<String, E>,
    /// The document's absolute path, from the request's URI, as the file system shows
    /// it.
    pub path: Result<String, E>,
    /// What the tables know of the path.
    pub verified: Option<PathStatus>,
    /// The analysis of the document.
    pub opened: Option<Result<Option<Arc<AnalysisDatabase<A>>>, LspError>>,
    /// Whether the request was tried before.
    pub retried: Option<bool>,
    /// Whether the analysis is of the version that is open in the editor.
    pub current: Option<Result<bool, LspError>>,
    /// What the handler's analysis gave.
    pub answer: Option<T>,
    /// How the sending of the handler's log message went.
    pub logged: Option<Result<(), E>>,
}

/// What happened since the handler was called last. `N` is an entry of the cache of
/// entry points.
pub enum Event<'a, A, N, T, E> {
    /// Nothing: this is the first call.
    Start,
    /// The tables were read.
    Checked { vfs: &'a Vfs, db: &'a DatabaseTable<A> },
    /// The tables were tried without waiting; `None` stands for one that is busy.
    Tried { free_vfs: Option<&'a Vfs>, free_db: Option<&'a DatabaseTable<A>> },
    /// The table of the requests that were tried before was read.
    Retries { table: &'a HashMap<RequestId, i32> },
    /// The tables that tell the document's version were read.
    Versions { vfs: &'a Vfs, opened_files: &'a VersionTable },
    /// The cache of entry points was read.
    Cached { cache: &'a HashMap<String, N> },
    /// The analysis was run.
    Answer(T),
    /// The log message was sent, or could not be.
    Logged(Result<(), E>),
}

/// An analysis, with what it takes besides the file and the database. `M` is the
/// metadata of an entry point.
#[derive(Debug, PartialEq, Eq)]
pub enum Call<M> {
    SemanticTokens,
    DocumentSymbols,
    InlayHints,
    Definition { position: Position },
    Hover { position: Position },
    SignatureHelp { position: Position, typed: Option<String> },
    References { position: Position, include_declaration: bool },
    Completion { position: Position, trigger: Option<char>, metadata: Option<Arc<M>> },
}

/// What a handler needs.
#[derive(Debug, PartialEq, Eq)]
pub enum Question<A, M> {
    /// Read the file system and the analyses: [`Event::Checked`].
    Check,
    /// Try both without waiting: [`Event::Tried`].
    Try,
    /// Read the table of the requests that were tried before: [`Event::Retries`].
    Retries,
    /// Read the file system and the versions of the open files:
    /// [`Event::Versions`].
    Versions,
    /// Read the cache of entry points: [`Event::Cached`].
    Cached,
    /// Run an analysis: [`Event::Answer`].
    Analyse { call: Call<M>, file: String, db: Arc<AnalysisDatabase<A>> },
    /// Send a log message: [`Event::Logged`].
    Log(String),
}

/// What a request is answered.
#[derive(Debug, PartialEq, Eq)]
pub struct Reply<R, E> {
    /// A log message to send before answering; it does not matter if that fails.
    pub note: Option<String>,
    pub response: Result<Option<R>, HandlerError<E>>,
}

/// What to do next.
pub enum Step<A, M, T, R, E> {
    /// Do what the question asks, and call the handler again.
    Ask { question: Question<A, M>, exchange: Exchange<A, T, E> },
    /// Answer the request.
    Done(Reply<R, E>),
}

/// How far a request has come before the analysis.
pub enum Stage<A> {
    /// The URI names no document.
    Unlocated,
    /// It is not known yet whether the tables have the path.
    Check,
    /// The tables do not have the path.
    Refused(PathStatus),
    /// It is not known yet whether there is an analysis.
    Try,
    /// There is no analysis.
    Missing,
    /// There is no analysis yet.
    Retry,
    /// The analysis is there.
    Open(Arc<AnalysisDatabase<A>>),
}

/// The result of going on to the analysis: the step at which the request stops, or
/// what the handler goes on with.
pub(crate) enum Way<A, M, T, R, E> {
    Stop(Step<A, M, T, R, E>),
    Through(Exchange<A, T, E>, String, Arc<AnalysisDatabase<A>>),
}

/// The event is what comes of doing what the question asks.
pub open spec fn settles<A, M, N, T, E>(
    question: Question<A, M>,
    event: Event<A, N, T, E>,
) -> bool {
    match question {
        Question::Check => event is Checked,
        Question::Try => event is Tried,
        Question::Retries => event is Retries,
        Question::Versions => event is Versions,
        Question::Cached => event is Cached,
        Question::Analyse { .. } => event is Answer,
        Question::Log(_) => event is Logged,
    }
}

/// The step that answers without a log message.
pub open spec fn answers<A, M, T, R, E>(response: Result<Option<R>, HandlerError<E>>) -> Step<
    A,
    M,
    T,
    R,
    E,
> {
    Step::Done(Reply { note: None, response })
}

/// The step that fails with a text.
pub open spec fn fails<A, M, T, R, E>(text: Seq<char>, step: Step<A, M, T, R, E>) -> bool {
    &&& step is Done
    &&& step->Done_0.note is None
    &&& step->Done_0.response is Err
    &&& step->Done_0.response->Err_0 is Message
    &&& step->Done_0.response->Err_0->Message_0@ == text
}

/// The request has to be tried again.
pub open spec fn retry<R, E>() -> Result<Option<R>, HandlerError<E>> {
    Err(HandlerError::Lsp(LspError::Retry))
}

impl<A, T, E> Exchange<A, T, E> {
    /// The exchange of a request of which no more is known than its document.
    pub open spec fn fresh(file: Result<String, E>, path: Result<String, E>) -> Self {
        Exchange {
            file,
            path,
            verified: None,
            opened: None,
            retried: None,
            current: None,
            answer: None,
            logged: None,
        }
    }

    /// What is known after the event. The table of retries is left out: only a
    /// handler that knows the request's identifier can look it up. So is the cache of
    /// entry points: the handler that asked for it uses it at once.
    pub open spec fn recorded<N>(self, event: Event<A, N, T, E>) -> Self {
        match event {
            Event::Start => self,
            Event::Retries { table } => self,
            Event::Cached { cache } => self,
            Event::Checked { vfs, db } => match self.path {
                Ok(path) => Exchange {
                    verified: Some(path_status(*vfs, db@, path@)),
                    ..self
                },
                Err(_) => self,
            },
            Event::Tried { free_vfs, free_db } => match self.path {
                Ok(path) => Exchange { opened: Some(db_of(free_vfs, free_db, path)), ..self },
                Err(_) => self,
            },
            Event::Versions { vfs, opened_files } => match (self.path, self.opened) {
                (Ok(path), Some(Ok(Some(db)))) => Exchange {
                    current: Some(version_current(*vfs, opened_files@, db.version, path)),
                    ..self
                },
                _ => self,
            },
            Event::Answer(answer) => Exchange { answer: Some(answer), ..self },
            Event::Logged(sent) => Exchange { logged: Some(sent), ..self },
        }
    }

    /// How far the request has come; `verifies` tells whether the handler checks
    /// the path against the tables before it opens the analysis.
    pub open spec fn stage(self, verifies: bool) -> Stage<A> {
        if self.file is Err || self.path is Err {
            Stage::Unlocated
        } else if verifies && self.verified is None {
            Stage::Check
        } else if verifies && self.verified->0 != PathStatus::Known {
            Stage::Refused(self.verified->0)
        } else {
            match self.opened {
                None => Stage::Try,
                Some(Err(_)) => Stage::Missing,
                Some(Ok(None)) => Stage::Retry,
                Some(Ok(Some(db))) => Stage::Open(db),
            }
        }
    }

    /// The error that the URI brings: that of the file name comes first.
    pub open spec fn locate_error(self) -> E
        recommends
            self.file is Err || self.path is Err,
    {
        match self.file {
            Err(error) => error,
            Ok(_) => self.path->Err_0,
        }
    }

    /// The step at which a request stops that has not come to the analysis.
    pub open spec fn stops<M, R>(self, verifies: bool, step: Step<A, M, T, R, E>) -> bool {
        match self.stage(verifies) {
            Stage::Unlocated => step == answers::<A, M, T, R, E>(
                Err(HandlerError::Outside(self.locate_error())),
            ),
            Stage::Check => step == (Step::<A, M, T, R, E>::Ask {
                question: Question::Check,
                exchange: self,
            }),
            Stage::Refused(status) => {
                &&& step is Done
                &&& text_of(step->Done_0.note) == status_message(status, self.path->Ok_0@)
                &&& step->Done_0.response == Ok::<Option<R>, HandlerError<E>>(None)
            },
            Stage::Try => step == (Step::<A, M, T, R, E>::Ask {
                question: Question::Try,
                exchange: self,
            }),
            Stage::Missing => step == answers::<A, M, T, R, E>(Ok(None)),
            Stage::Retry => step == answers::<A, M, T, R, E>(retry()),
            Stage::Open(db) => false,
        }
    }

    /// The step that runs an analysis of the request's document.
    pub open spec fn analyses<M, R>(
        self,
        call: Call<M>,
        db: Arc<AnalysisDatabase<A>>,
    ) -> Step<A, M, T, R, E> {
        Step::Ask {
            question: Question::Analyse { call, file: self.file->Ok_0, db },
            exchange: self,
        }
    }

    /// The step that sends a log message, as long as it was not sent; then `rest`
    /// is answered, or the error of the sending.
    pub open spec fn logs<M, R>(
        self,
        message: Seq<char>,
        rest: Result<Option<R>, HandlerError<E>>,
        step: Step<A, M, T, R, E>,
    ) -> bool {
        match self.logged {
            None => {
                &&& step is Ask
                &&& step->question is Log
                &&& step->question->Log_0@ == message
                &&& step->exchange == self
            },
            Some(Ok(_)) => step == answers::<A, M, T, R, E>(rest),
            Some(Err(error)) => step == answers::<A, M, T, R, E>(Err(HandlerError::Outside(error))),
        }
    }

    /// What the question asks for is not known, and can be found out.
    pub open spec fn lacks<M>(self, question: Question<A, M>) -> bool {
        match question {
            Question::Check => self.path is Ok && self.verified is None,
            Question::Try => self.path is Ok && self.opened is None,
            Question::Retries => self.retried is None,
            Question::Versions => {
                &&& self.path is Ok
                &&& self.opened matches Some(Ok(Some(_)))
                &&& self.current is None
            },
            Question::Cached => self.answer is None,
            Question::Analyse { .. } => self.answer is None,
            Question::Log(_) => self.logged is None,
        }
    }

    /// If the step asks something, it is not known.
    pub open spec fn asks_unknown<M, R>(self, step: Step<A, M, T, R, E>) -> bool {
        step is Ask ==> step->exchange == self && self.lacks(step->question)
    }

    /// How many things are not known.
    pub open spec fn unknowns(self) -> nat {
        (if self.verified is None { 1nat } else { 0 }) + (if self.opened is None { 1nat } else {
            0
        }) + (if self.retried is None { 1nat } else { 0 }) + (if self.current is None {
            1nat
        } else {
            0
        }) + (if self.answer is None { 1nat } else { 0 }) + (if self.logged is None {
            1nat
        } else {
            0
        })
    }

    /// The exchange with which a request begins, from the name of the document's file
    /// and its absolute path.
    pub fn new(file: Result<String, E>, path: Result<String, E>) -> (exchange: Self)
        ensures
            exchange == Self::fresh(file, exchange.path),
            match path {
                Ok(path) => exchange.path is Ok && exchange.path->Ok_0@ == vfs_path_text(path@),
                Err(error) => exchange.path == Err::<String, E>(error),
            },
    {
        let path = match path {
            Ok(path) => Ok(vfs_path(path.as_str())),
            Err(error) => Err(error),
        };
        Exchange {
            file,
            path,
            verified: None,
            opened: None,
            retried: None,
            current: None,
            answer: None,
            logged: None,
        }
    }

    /// Takes note of the event.
    pub fn record<N>(self, event: Event<A, N, T, E>) -> (now: Self)
        ensures
            now == self.recorded(event),
    {
        match event {
            Event::Start => self,
            Event::Retries { table: _ } => self,
            Event::Cached { cache: _ } => self,
            Event::Checked { vfs, db } => match &self.path {
                Ok(path) => {
                    let verified = Some(verify_request_path(vfs, db, path));
                    Exchange { verified, ..self }
                },
                Err(_) => self,
            },
            Event::Tried { free_vfs, free_db } => match &self.path {
                Ok(path) => {
                    let opened = Some(try_get_db(free_vfs, free_db, path));
                    Exchange { opened, ..self }
                },
                Err(_) => self,
            },
            Event::Versions { vfs, opened_files } => match (&self.path, &self.opened) {
                (Ok(path), Some(Ok(Some(db)))) => {
                    let current = Some(
                        verify_request_version(vfs, opened_files, db.version, path),
                    );
                    Exchange { current, ..self }
                },
                _ => self,
            },
            Event::Answer(answer) => Exchange { answer: Some(answer), ..self },
            Event::Logged(sent) => Exchange { logged: Some(sent), ..self },
        }
    }

    /// Goes on to the analysis, or stops before it.
    pub(crate) fn enter<M, R>(self, verifies: bool) -> (way: Way<A, M, T, R, E>)
        ensures
            match way {
                Way::Stop(step) => self.stops(verifies, step),
                Way::Through(now, file, db) => {
                    &&& self.stage(verifies) == Stage::Open(db)
                    &&& now == self
                    &&& self.file == Ok::<String, E>(file)
                },
            },
    {
        let file = match self.file {
            Ok(ref file) => file.clone(),
            Err(error) => return Way::Stop(
                Step::Done(Reply { note: None, response: Err(HandlerError::Outside(error)) }),
            ),
        };
        let path = match self.path {
            Ok(ref path) => path.clone(),
            Err(error) => return Way::Stop(
                Step::Done(Reply { note: None, response: Err(HandlerError::Outside(error)) }),
            ),
        };
        if verifies {
            match self.verified {
                None => return Way::Stop(
                    Step::Ask { question: Question::Check, exchange: self },
                ),
                Some(PathStatus::Known) => {},
                Some(status) => return Way::Stop(
                    Step::Done(Reply { note: status.message(&path), response: Ok(None) }),
                ),
            }
        }
        let db = match &self.opened {
            None => return Way::Stop(Step::Ask { question: Question::Try, exchange: self }),
            Some(Err(_)) => return Way::Stop(
                Step::Done(Reply { note: None, response: Ok(None) }),
            ),
            Some(Ok(None)) => return Way::Stop(
                Step::Done(
                    Reply { note: None, response: Err(HandlerError::Lsp(LspError::Retry)) },
                ),
            ),
            Some(Ok(Some(db))) => share(db),
        };
        Way::Through(self, file, db)
    }

    /// Sends a log message and then answers `rest`.
    pub(crate) fn log<M, R>(
        self,
        message: String,
        rest: Result<Option<R>, HandlerError<E>>,
    ) -> (step: Step<A, M, T, R, E>)
        ensures
            self.logs(message@, rest, step),
    {
        match self.logged {
            None => Step::Ask { question: Question::Log(message), exchange: self },
            Some(Ok(_)) => Step::Done(Reply { note: None, response: rest }),
            Some(Err(error)) => Step::Done(
                Reply { note: None, response: Err(HandlerError::Outside(error)) },
            ),
        }
    }
}

} // verus!
