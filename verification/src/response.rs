//! What the service answers: a status, a body, and at times a line for the
//! operator's log.

use vstd::prelude::*;
use crate::task::{Task, TaskView, task_views};

verus! {

/// The status of a response.
#[derive(Clone, Copy, Debug, PartialEq, Eq, Structural)]
pub enum Status {
    /// 200: the request was served.
    Success,
    /// 201: a task was created.
    Created,
    /// 400: the request was not served; the body says why.
    BadRequest,
}

impl Status {
    /// The HTTP status code.
    pub open spec fn spec_code(&self) -> u16 {
        match *self {
            Status::Success => 200,
            Status::Created => 201,
            Status::BadRequest => 400,
        }
    }

    /// The HTTP status code.
    #[verifier::when_used_as_spec(spec_code)]
    pub fn code(&self) -> (code: u16)
        ensures
            code == self.spec_code(),
    {
        match self {
            Status::Success => 200,
            Status::Created => 201,
            Status::BadRequest => 400,
        }
    }
}

/// The body of a response.
#[derive(Debug, PartialEq, Eq)]
pub enum Body {
    /// No content.
    Empty,
    /// One task, sent as a JSON object.
    Task(Task),
    /// Tasks in the order given, sent as a JSON array.
    Tasks(Vec<Task>),
    /// A message in plain text.
    Message(String),
}

/// The mathematical value of a [`Body`].
pub enum BodyView {
    Empty,
    Task(TaskView),
    Tasks(Seq<TaskView>),
    Message(Seq<char>),
}

impl View for Body {
    type V = BodyView;

    open spec fn view(&self) -> BodyView {
        match *self {
            Body::Empty => BodyView::Empty,
            Body::Task(task) => BodyView::Task(task@),
            Body::Tasks(tasks) => BodyView::Tasks(task_views(tasks@)),
            Body::Message(message) => BodyView::Message(message@),
        }
    }
}

/// A response to the client.
#[derive(Debug, PartialEq, Eq)]
pub struct Response {
    pub status: Status,
    pub body: Body,
}

/// The mathematical value of a [`Response`].
pub struct ResponseView {
    pub status: Status,
    pub body: BodyView,
}

impl View for Response {
    type V = ResponseView;

    open spec fn view(&self) -> ResponseView {
        ResponseView { status: self.status, body: self.body@ }
    }
}

/// The end of a request: the response for the client and, where the service
/// has something to report that the client is not told, a line for the log.
#[derive(Debug, PartialEq, Eq)]
pub struct Reply {
    pub response: Response,
    pub log: Option<String>,
}

/// The mathematical value of a [`Reply`].
pub struct ReplyView {
    pub response: ResponseView,
    pub log: Option<Seq<char>>,
}

impl View for Reply {
    type V = ReplyView;

    open spec fn view(&self) -> ReplyView {
        ReplyView {
            response: self.response@,
            log: match self.log {
                Some(line) => Some(line@),
                None => None,
            },
        }
    }
}

} // verus!
