//! The outcome values of the engine, and how each is presented.

use crate::utils::color::Color;
use vstd::prelude::*;
use vstd::string::*;

verus! {

/// What a unit of work has come to.
#[derive(Clone, Copy, PartialEq, Eq, Structural, Debug)]
pub enum Status {
    /// In progress: a marker while a unit is at work, never what it rests with.
    Running,
    /// Ran, and ended well.
    Success,
    Warning,
    /// Ran, and did not end well.
    Failure,
    /// Nothing to say: the status of a unit that has not been touched.
    Normal,
    /// Does not apply to this host, and was not run.
    Skipped,
    /// Already satisfied, and was not run.
    Passed,
}

/// Where a status line is written.
#[derive(Clone, Copy, PartialEq, Eq, Structural, Debug)]
pub enum Stream {
    Stdout,
    Stderr,
}

impl Default for Status {
    fn default() -> (status: Status)
        ensures
            status == Status::Normal,
    {
        Status::Normal
    }
}

impl Status {
    /// Whether a unit may rest with this status.
    pub open spec fn is_resting(self) -> bool {
        self == Status::Success || self == Status::Failure || self == Status::Skipped || self
            == Status::Passed
    }

    /// The status that several units come to together: a failure of any of
    /// them is a failure of all, whatever the others did.
    pub open spec fn aggregate(statuses: Seq<Status>) -> Status {
        if statuses.contains(Status::Failure) {
            Status::Failure
        } else {
            Status::Success
        }
    }

    /// The status of a group of units of which one failed, or none.
    pub open spec fn spec_of_failed(failed: bool) -> Status {
        if failed {
            Status::Failure
        } else {
            Status::Success
        }
    }

    /// The status of a group of units of which one failed, or none.
    pub fn of_failed(failed: bool) -> (status: Status)
        ensures
            status == Status::spec_of_failed(failed),
    {
        if failed {
            Status::Failure
        } else {
            Status::Success
        }
    }

    pub open spec fn spec_to_color(self) -> Color {
        match self {
            Status::Running => Color::Blue,
            Status::Success => Color::Green,
            Status::Warning => Color::Yellow,
            Status::Failure => Color::Red,
            Status::Normal => Color::Reset,
            Status::Skipped => Color::Yellow,
            Status::Passed => Color::Yellow,
        }
    }

    /// The colour of this status's line.
    pub fn to_color(&self) -> (color: Color)
        ensures
            color == self.spec_to_color(),
    {
        match self {
            Status::Running => Color::Blue,
            Status::Success => Color::Green,
            Status::Warning => Color::Yellow,
            Status::Failure => Color::Red,
            Status::Normal => Color::Reset,
            Status::Skipped => Color::Yellow,
            Status::Passed => Color::Yellow,
        }
    }

    /// The icon and the word that open this status's line; `Normal` has none.
    pub open spec fn spec_badge(self) -> Option<(Seq<char>, Seq<char>)> {
        match self {
            Status::Running => Some(("⏳"@, "Running"@)),
            Status::Success => Some(("✅"@, "Success"@)),
            Status::Warning => Some(("⚠️"@, "Warning"@)),
            Status::Failure => Some(("❌"@, "Failed"@)),
            Status::Skipped => Some(("⏭️"@, "Skipped"@)),
            Status::Passed => Some(("✔️"@, "Passed"@)),
            Status::Normal => None,
        }
    }

    /// The icon and the word that open this status's line; `Normal` has none.
    pub fn badge(&self) -> (badge: Option<(&'static str, &'static str)>)
        ensures
            badge is Some == self.spec_badge() is Some,
            badge matches Some(b) ==> (b.0@, b.1@) == self.spec_badge()->0,
    {
        match self {
            Status::Running => Some(("⏳", "Running")),
            Status::Success => Some(("✅", "Success")),
            Status::Warning => Some(("⚠️", "Warning")),
            Status::Failure => Some(("❌", "Failed")),
            Status::Skipped => Some(("⏭️", "Skipped")),
            Status::Passed => Some(("✔️", "Passed")),
            Status::Normal => None,
        }
    }

    pub open spec fn spec_stream(self) -> Stream {
        if self == Status::Failure {
            Stream::Stderr
        } else {
            Stream::Stdout
        }
    }

    /// The stream that this status's line goes to: failures to the error
    /// stream, everything else to the output stream.
    pub fn stream(&self) -> (stream: Stream)
        ensures
            stream == self.spec_stream(),
    {
        match self {
            Status::Failure => Stream::Stderr,
            _ => Stream::Stdout,
        }
    }

    /// The line that reports `message` under this status: the message alone
    /// for `Normal`, else the coloured badge, a colon and the message.
    pub open spec fn spec_format_message(self, message: Seq<char>) -> Seq<char> {
        match self.spec_badge() {
            None => message,
            Some((icon, word)) => self.spec_to_color().spec_code() + "==> "@ + icon + " "@ + word
                + Color::Reset.spec_code() + ": "@ + message,
        }
    }

    /// The line that reports `message` under this status.
    pub fn format_message(&self, message: &str) -> (line: String)
        ensures
            line@ == self.spec_format_message(message@),
    {
        match self.badge() {
            None => message.to_owned(),
            Some((icon, word)) => {
                let mut line = self.to_color().to_string();
                line.append("==> ");
                line.append(icon);
                line.append(" ");
                line.append(word);
                line.append(Color::Reset.code());
                line.append(": ");
                line.append(message);
                line
            },
        }
    }

    /// The status as it is written to a terminal: the escape sequence of its colour.
    pub fn to_string(&self) -> (text: String)
        ensures
            text@ == self.spec_to_color().spec_code(),
    {
        self.to_color().to_string()
    }
}

} // verus!
