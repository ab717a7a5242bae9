//! The command interpreter: classifies one raw input line from a joined
//! session as an interrupt, a no-op, a control command, or chat content.

use vstd::prelude::*;
use crate::line::{trimmed, trim_bytes, bytes_eq};

verus! {

/// One input line, classified.
pub enum Command {
    /// The transport's interrupt byte: close the session.
    Interrupt,
    /// Nothing but whitespace: no effect.
    Empty,
    /// The help request: help text goes to the issuing sink only.
    Help,
    /// The quit command: close the session.
    Quit,
    /// Anything else: chat content, already trimmed.
    Chat(Vec<u8>),
}

/// The single control byte that the transport delivers on interrupt.
pub open spec fn interrupt_seq() -> Seq<u8> {
    seq![3u8]
}

/// `"/help"`
pub open spec fn help_token() -> Seq<u8> {
    seq![47u8, 104u8, 101u8, 108u8, 112u8]
}

/// `"/quit"`
pub open spec fn quit_token() -> Seq<u8> {
    seq![47u8, 113u8, 117u8, 105u8, 116u8]
}

/// The static help text sent back on a help request.
pub open spec fn help_text() -> Seq<u8> {
    seq![
        67u8, 111u8, 109u8, 109u8, 97u8, 110u8, 100u8, 115u8, 58u8, 10u8, 47u8, 104u8, 101u8,
        108u8, 112u8, 32u8, 45u8, 32u8, 116u8, 104u8, 105u8, 115u8, 32u8, 104u8, 101u8, 108u8,
        112u8, 10u8, 47u8, 113u8, 117u8, 105u8, 116u8, 32u8, 45u8, 32u8, 101u8, 120u8, 105u8,
        116u8, 32u8, 99u8, 104u8, 97u8, 116u8, 10u8,
    ]
}

fn help_token_vec() -> (r: Vec<u8>)
    ensures
        r@ == help_token(),
{
    let mut r: Vec<u8> = Vec::new();
    r.push(47);
    r.push(104);
    r.push(101);
    r.push(108);
    r.push(112);
    proof {
        assert(r@ =~= help_token());
    }
    r
}

fn quit_token_vec() -> (r: Vec<u8>)
    ensures
        r@ == quit_token(),
{
    let mut r: Vec<u8> = Vec::new();
    r.push(47);
    r.push(113);
    r.push(117);
    r.push(105);
    r.push(116);
    proof {
        assert(r@ =~= quit_token());
    }
    r
}

/// The help text as a sendable line.
pub fn help_text_vec() -> (r: Vec<u8>)
    ensures
        r@ == help_text(),
{
    let mut r: Vec<u8> = Vec::new();
    r.push(67);
    r.push(111);
    r.push(109);
    r.push(109);
    r.push(97);
    r.push(110);
    r.push(100);
    r.push(115);
    r.push(58);
    r.push(10);
    r.push(47);
    r.push(104);
    r.push(101);
    r.push(108);
    r.push(112);
    r.push(32);
    r.push(45);
    r.push(32);
    r.push(116);
    r.push(104);
    r.push(105);
    r.push(115);
    r.push(32);
    r.push(104);
    r.push(101);
    r.push(108);
    r.push(112);
    r.push(10);
    r.push(47);
    r.push(113);
    r.push(117);
    r.push(105);
    r.push(116);
    r.push(32);
    r.push(45);
    r.push(32);
    r.push(101);
    r.push(120);
    r.push(105);
    r.push(116);
    r.push(32);
    r.push(99);
    r.push(104);
    r.push(97);
    r.push(116);
    r.push(10);
    proof {
        assert(r@ =~= help_text());
    }
    r
}

/// Classifies one raw input line. Exactly one of the five classes applies:
/// the lone interrupt byte wins; otherwise the line is trimmed and matched
/// against emptiness and the two control tokens; everything else is chat
/// content, handed back trimmed.
pub fn classify(data: &Vec<u8>) -> (r: Command)
    ensures
        (r is Interrupt) == (data@ == interrupt_seq()),
        (r is Empty) == (data@ != interrupt_seq() && trimmed(data@).len() == 0),
        (r is Help) == (data@ != interrupt_seq() && trimmed(data@) == help_token()),
        (r is Quit) == (data@ != interrupt_seq() && trimmed(data@) == quit_token()),
        r matches Command::Chat(c) ==> c@ == trimmed(data@),
        (data@ != interrupt_seq() && trimmed(data@).len() > 0 && trimmed(data@) != help_token()
            && trimmed(data@) != quit_token()) ==> r is Chat,
{
    if data.len() == 1 && data[0] == 3 {
        proof {
            assert(data@ =~= interrupt_seq());
        }
        return Command::Interrupt;
    }
    proof {
        if data@ == interrupt_seq() {
            assert(data@.len() == 1 && data@[0] == 3u8);
            assert(false);
        }
    }
    let t = trim_bytes(data);
    if t.len() == 0 {
        return Command::Empty;
    }
    let h = help_token_vec();
    if bytes_eq(&t, &h) {
        return Command::Help;
    }
    let q = quit_token_vec();
    if bytes_eq(&t, &q) {
        return Command::Quit;
    }
    Command::Chat(t)
}

} // verus!
