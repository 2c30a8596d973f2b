//! The dispatcher: what is delivered to which sink when a fault is reported.

use crate::fault::FaultInfo;
use vstd::prelude::*;

verus! {

/// Where the text of a fault is delivered. The choice is made once, when the
/// program is built, and not while it runs.
#[derive(Clone, Copy, Debug, PartialEq, Eq, Structural)]
pub enum Sink {
    /// The error log of the embedding host, reached through an imported
    /// function that takes one string.
    ExternalLog,
    /// The standard error stream of the process.
    StandardError,
}

/// One delivery: a text and the sink that receives it.
#[derive(Debug, PartialEq, Eq)]
pub struct Emission {
    pub sink: Sink,
    pub text: String,
}

/// The character that ends a line on the standard error stream.
pub open spec fn line_terminator() -> char {
    '\n'
}

/// The text that a sink receives for a fault rendered as `rendered`: the
/// external log gets the rendered text as it is; the standard error stream gets
/// it followed by one line terminator.
pub open spec fn emitted_text(rendered: Seq<char>, sink: Sink) -> Seq<char> {
    match sink {
        Sink::ExternalLog => rendered,
        Sink::StandardError => rendered.push(line_terminator()),
    }
}

/// Dispatches a fault: says which text goes to the chosen sink. Exactly one
/// delivery is made for one fault, to the chosen sink and to no other.
pub fn hook(info: &FaultInfo, sink: Sink) -> (out: Emission)
    ensures
        out.sink == sink,
        out.text@ == emitted_text(info@, sink),
{
    let mut text = String::from_str(info.rendered());
    match sink {
        Sink::ExternalLog => {},
        Sink::StandardError => {
            proof {
                reveal_strlit("\n");
            }
            text.append("\n");
            assert(text@ =~= info@.push(line_terminator()));
        },
    }
    Emission { sink, text }
}

/// The line written to the standard error stream holds the rendered text of the
/// fault unchanged, from its first character on, and directly after it one line
/// terminator, which is the last character of the line. The external log
/// receives the same line without that terminator.
pub proof fn lemma_standard_error_line(rendered: Seq<char>)
    ensures
        emitted_text(rendered, Sink::StandardError).len() == rendered.len() + 1,
        emitted_text(rendered, Sink::StandardError).subrange(0, rendered.len() as int)
            == rendered,
        emitted_text(rendered, Sink::StandardError).last() == line_terminator(),
        emitted_text(rendered, Sink::StandardError).drop_last() == emitted_text(
            rendered,
            Sink::ExternalLog,
        ),
{
    let line = emitted_text(rendered, Sink::StandardError);
    assert(line.subrange(0, rendered.len() as int) =~= rendered);
    assert(line.drop_last() =~= rendered);
}

} // verus!
