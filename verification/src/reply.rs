//! Replies, and the commands that they are made from, in plain values.

use vstd::prelude::*;
use vstd::string::*;
use crate::text;

verus! {

/// The status of a reply that this program makes itself.
#[derive(Debug, Clone, Copy, PartialEq, Eq, Structural)]
pub enum Status {
    Success,
    NotFound,
    InternalServerError,
}

impl Status {
    /// The number that stands for the status in an HTTP reply.
    pub open spec fn number(self) -> u16 {
        match self {
            Status::Success => 200,
            Status::NotFound => 404,
            Status::InternalServerError => 500,
        }
    }

    /// The number that stands for the status in an HTTP reply.
    pub fn code(self) -> (code: u16)
        ensures
            code == self.number(),
    {
        match self {
            Status::Success => 200,
            Status::NotFound => 404,
            Status::InternalServerError => 500,
        }
    }
}

/// A reply whose body is at hand.
#[derive(Debug)]
pub struct Reply {
    pub status: Status,
    pub content_type: String,
    pub content_length: u64,
    pub body: String,
}

/// The contents of a [`Reply`].
#[verifier::ext_equal]
pub struct ReplyView {
    pub status: Status,
    pub content_type: Seq<char>,
    pub content_length: nat,
    pub body: Seq<char>,
}

impl View for Reply {
    type V = ReplyView;

    open spec fn view(&self) -> ReplyView {
        ReplyView {
            status: self.status,
            content_type: self.content_type@,
            content_length: self.content_length as nat,
            body: self.body@,
        }
    }
}

/// The reply of status `Success` with this body. Its length is counted in bytes.
pub open spec fn reply_with(content_type: Seq<char>, body: Seq<char>) -> ReplyView {
    ReplyView {
        status: Status::Success,
        content_type,
        content_length: vstd::utf8::encode_utf8(body).len(),
        body,
    }
}

impl Reply {
    /// The reply of status `Success` with this body.
    pub fn with_body(content_type: &str, body: String) -> (reply: Reply)
        ensures
            reply@ == reply_with(content_type@, body@),
    {
        let content_length: u64 = body.as_str().as_bytes().len() as u64;
        Reply { status: Status::Success, content_type: content_type.to_owned(), content_length, body }
    }
}

/// What goes ahead of a body that is streamed.
#[derive(Debug)]
pub struct StreamHead {
    pub status: Status,
    pub content_type: String,
    pub content_length: Option<u64>,
}

/// The contents of a [`StreamHead`].
#[verifier::ext_equal]
pub struct StreamHeadView {
    pub status: Status,
    pub content_type: Seq<char>,
    pub content_length: Option<u64>,
}

impl View for StreamHead {
    type V = StreamHeadView;

    open spec fn view(&self) -> StreamHeadView {
        StreamHeadView {
            status: self.status,
            content_type: self.content_type@,
            content_length: self.content_length,
        }
    }
}

/// A program and its arguments.
#[derive(Debug)]
pub struct CommandLine {
    pub program: String,
    pub args: Vec<String>,
}

/// The contents of a [`CommandLine`].
#[verifier::ext_equal]
pub struct CommandLineView {
    pub program: Seq<char>,
    pub args: Seq<Seq<char>>,
}

impl View for CommandLine {
    type V = CommandLineView;

    open spec fn view(&self) -> CommandLineView {
        CommandLineView { program: self.program@, args: text::texts(self.args@) }
    }
}

/// A call of `nix` with these arguments.
pub open spec fn nix_with(args: Seq<Seq<char>>) -> CommandLineView {
    CommandLineView { program: "nix"@, args }
}

impl CommandLine {
    /// A call of `nix` with these arguments.
    pub fn nix(args: &[&str]) -> (command: CommandLine)
        ensures
            command@ == nix_with(args@.map_values(|arg: &str| arg@)),
    {
        let mut owned: Vec<String> = Vec::new();
        let mut i: usize = 0;
        while i < args.len()
            invariant
                i <= args@.len(),
                text::texts(owned@) == args@.map_values(|arg: &str| arg@).take(i as int),
            decreases args@.len() - i,
        {
            let ghost before = owned@;
            owned.push(args[i].to_owned());
            assert(text::texts(owned@) =~= text::texts(before).push(args@[i as int]@));
            i += 1;
        }
        CommandLine { program: "nix".to_owned(), args: owned }
    }
}

/// What came of running a command to its end.
#[derive(Debug)]
pub enum Outcome {
    NotStarted,
    Finished { success: bool, stdout: Vec<u8> },
}

/// The contents of an [`Outcome`].
#[verifier::ext_equal]
pub enum OutcomeView {
    NotStarted,
    Finished { success: bool, stdout: Seq<u8> },
}

impl View for Outcome {
    type V = OutcomeView;

    open spec fn view(&self) -> OutcomeView {
        match self {
            Outcome::NotStarted => OutcomeView::NotStarted,
            Outcome::Finished { success, stdout } => OutcomeView::Finished {
                success: *success,
                stdout: stdout@,
            },
        }
    }
}

/// A command whose output is to be streamed, and its length where it is known.
#[derive(Debug)]
pub struct StreamPlan {
    pub command: CommandLine,
    pub content_length: Option<u64>,
}

/// The contents of a [`StreamPlan`].
#[verifier::ext_equal]
pub struct StreamPlanView {
    pub command: CommandLineView,
    pub content_length: Option<u64>,
}

impl View for StreamPlan {
    type V = StreamPlanView;

    open spec fn view(&self) -> StreamPlanView {
        StreamPlanView { command: self.command@, content_length: self.content_length }
    }
}

} // verus!
