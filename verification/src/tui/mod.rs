//! The decisions of the terminal interface: what each view does with an
//! event. Drawing and reading keys are left to the caller.

use crate::error::Error;
use crate::tui::keymap::KeyCommand;
use vstd::prelude::*;
use vstd::string::*;

pub mod inbox;
pub mod inbox_item;
pub mod keymap;
pub mod login;
pub mod qr;

verus! {

/// What a view asks for after it has handled an event.
#[derive(Debug)]
pub enum Command<Ret> {
    /// Wait for the next key.
    AwaitKey,
    /// Wait for the next key, but no longer than this many seconds.
    AwaitTimeout(u64),
    /// Leave the view with this result.
    Return(Ret),
}

/// What happened since a view was last asked.
#[derive(Clone, Copy, Debug, PartialEq, Eq, Structural)]
pub enum Event {
    /// The view is shown for the first time.
    Init,
    /// A key was pressed.
    Key(KeyCommand),
    /// The time that the view asked for has passed without a key.
    Timeout,
}

/// A line of `n` spaces.
pub open spec fn spec_spaces(n: nat) -> Seq<char> {
    Seq::new(n, |i: int| ' ')
}

/// `s` on a line of its own, behind `n` spaces.
pub fn indent(n: usize, s: &str) -> (text: String)
    ensures
        text@ == seq!['\n'] + spec_spaces(n as nat) + s@,
{
    let mut text: String = String::new();
    text.push('\n');
    let mut i: usize = 0;
    while i < n
        invariant
            i <= n,
            text@ == seq!['\n'] + spec_spaces(i as nat),
        decreases n - i,
    {
        text.push(' ');
        assert(text@ =~= seq!['\n'] + spec_spaces((i + 1) as nat));
        i = i + 1;
    }
    text.append(s);
    text
}

/// A view that is driven by events. Nothing is promised of an
/// implementation beyond its type.
pub trait TuiView {
    /// What the view leaves with.
    type ReturnType;

    /// Handles one event and says what the view asks for next.
    fn update(&mut self, event: Event) -> Result<Command<Self::ReturnType>, Error>;
}

} // verus!
