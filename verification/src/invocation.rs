//! Descriptions of the external programs that the embedding application is
//! asked to launch.

use vstd::prelude::*;
use vstd::string::*;

verus! {

/// One word of a command line. A word that is `local` names a file inside
/// the directory the command belongs to (the session directory, or the
/// installation directory of the inference server) and stands for the path
/// of that file; any other word is passed on as it is.
pub struct Piece {
    pub local: bool,
    pub text: String,
}

impl View for Piece {
    type V = (bool, Seq<char>);

    open spec fn view(&self) -> (bool, Seq<char>) {
        (self.local, self.text@)
    }
}

/// A word passed on as it is.
pub open spec fn literal(text: Seq<char>) -> (bool, Seq<char>) {
    (false, text)
}

/// The path of the file `name` inside the command's directory.
pub open spec fn local(name: Seq<char>) -> (bool, Seq<char>) {
    (true, name)
}

impl Piece {
    pub fn literal(text: &str) -> (r: Piece)
        ensures
            r@ == literal(text@),
    {
        Piece { local: false, text: String::from_str(text) }
    }

    pub fn local(name: &str) -> (r: Piece)
        ensures
            r@ == local(name@),
    {
        Piece { local: true, text: String::from_str(name) }
    }
}

/// A program and its arguments.
pub struct Invocation {
    pub program: Piece,
    pub args: Vec<Piece>,
}

/// The mathematical content of an [`Invocation`].
pub struct InvocationView {
    pub program: (bool, Seq<char>),
    pub args: Seq<(bool, Seq<char>)>,
}

impl View for Invocation {
    type V = InvocationView;

    open spec fn view(&self) -> InvocationView {
        InvocationView {
            program: self.program@,
            args: Seq::new(self.args@.len(), |i: int| self.args@[i]@),
        }
    }
}

/// What a launched program reported, or why it could not be launched.
pub enum Launch {
    /// The program could not be started; the text is the system's message.
    Failed(String),
    /// The program ran to its end.
    Finished { success: bool, stdout: String, stderr: String },
}

} // verus!
