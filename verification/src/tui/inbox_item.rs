//! The view of one message: a list of attachments with a selection.

use crate::error::Error;
use crate::tui::keymap::{Key, KeyCommand};
use crate::tui::{Command, Event, TuiView};
use vstd::prelude::*;
use vstd::string::*;

verus! {

/// How the view of a message ended.
#[derive(Clone, Copy, Debug, PartialEq, Eq, Structural)]
pub enum ItemViewResult {
    /// Open the attachment with this number.
    Open(u32),
    /// Mark the message as read.
    MarkRead,
    /// Nothing more to do.
    Close,
}

/// The state of the view of one message.
#[derive(Clone, Copy, Debug, PartialEq, Eq, Structural)]
pub struct ItemView {
    /// How many attachments the message has.
    pub attachments: usize,
    /// The attachment that is selected.
    pub selected: Option<usize>,
    /// Whether the message counts as read.
    pub read: bool,
}

/// The selection one step up: it stops at the first line.
pub open spec fn spec_step_up(selected: Option<usize>) -> usize {
    match selected {
        Some(n) => if n == 0 {
            0
        } else {
            (n - 1) as usize
        },
        None => 0,
    }
}

/// The selection one step down in a list of `lines` lines: it stops at the
/// last line.
pub open spec fn spec_step_down(selected: Option<usize>, lines: usize) -> usize {
    let n = match selected {
        Some(n) => n,
        None => 0,
    };
    if n + 1 >= lines {
        n
    } else {
        (n + 1) as usize
    }
}

/// The selection one step up.
pub fn step_up(selected: Option<usize>) -> (next: usize)
    ensures
        next == spec_step_up(selected),
{
    match selected {
        Some(n) => if n == 0 {
            0
        } else {
            n - 1
        },
        None => 0,
    }
}

/// The selection one step down in a list of `lines` lines.
pub fn step_down(selected: Option<usize>, lines: usize) -> (next: usize)
    ensures
        next == spec_step_down(selected, lines),
{
    let n: usize = match selected {
        Some(n) => n,
        None => 0,
    };
    if n >= lines || n + 1 >= lines {
        n
    } else {
        n + 1
    }
}

impl ItemView {
    /// The view of a message with `attachments` attachments: the first
    /// attachment is selected where there is one.
    pub fn make(attachments: usize, read: bool) -> (view: ItemView)
        ensures
            view == (ItemView {
                attachments,
                selected: if attachments == 0 {
                    None
                } else {
                    Some(0usize)
                },
                read,
            }),
    {
        ItemView {
            attachments,
            selected: if attachments == 0 {
                None
            } else {
                Some(0)
            },
            read,
        }
    }

    /// The state after `event`.
    pub open spec fn spec_next(self, event: Event) -> ItemView {
        match event {
            Event::Key(KeyCommand::Up) => ItemView {
                selected: Some(spec_step_up(self.selected)),
                ..self
            },
            Event::Key(KeyCommand::Down) => ItemView {
                selected: Some(spec_step_down(self.selected, self.attachments)),
                ..self
            },
            Event::Key(KeyCommand::Key(Key::Char(c))) => if c == 'r' {
                ItemView { read: true, ..self }
            } else {
                self
            },
            _ => self,
        }
    }

    /// What the view asks for after `event`; `None` where the event cannot
    /// be served because nothing is selected.
    pub open spec fn spec_command(self, event: Event) -> Option<Command<ItemViewResult>> {
        match event {
            Event::Key(KeyCommand::Select) => match self.selected {
                Some(n) => Some(Command::Return(ItemViewResult::Open(n as u32))),
                None => None,
            },
            Event::Key(KeyCommand::Quit) => Some(Command::Return(ItemViewResult::Close)),
            Event::Key(KeyCommand::Back) => Some(Command::Return(ItemViewResult::Close)),
            Event::Key(KeyCommand::Key(Key::Char(c))) => if c == 'r' {
                Some(Command::Return(ItemViewResult::MarkRead))
            } else {
                Some(Command::AwaitKey)
            },
            _ => Some(Command::AwaitKey),
        }
    }

}

impl TuiView for ItemView {
    type ReturnType = ItemViewResult;

    /// Handles one event. Up and Down move the selection, Select opens the
    /// selected attachment, Quit and Back close the view, `r` marks the message
    /// as read; everything else waits for the next key. Select with nothing
    /// selected is an error of the program.
    fn update(&mut self, event: Event) -> (asked: Result<Command<ItemViewResult>, Error>)
        ensures
            *final(self) == old(self).spec_next(event),
            match old(self).spec_command(event) {
                Some(command) => asked == Ok::<Command<ItemViewResult>, Error>(command),
                None => asked matches Err(Error::AppError(m)) && m@
                    == "No attachment selected (this should not be possible and is a bug)"@,
            },
    {
        match event {
            Event::Key(KeyCommand::Up) => {
                self.selected = Some(step_up(self.selected));
                Ok(Command::AwaitKey)
            },
            Event::Key(KeyCommand::Down) => {
                self.selected = Some(step_down(self.selected, self.attachments));
                Ok(Command::AwaitKey)
            },
            Event::Key(KeyCommand::Select) => match self.selected {
                Some(n) => Ok(Command::Return(ItemViewResult::Open(#[verifier::truncate] (n as u32)))),
                None => Err(
                    Error::AppError(
                        String::from_str(
                            "No attachment selected (this should not be possible and is a bug)",
                        ),
                    ),
                ),
            },
            Event::Key(KeyCommand::Quit) => Ok(Command::Return(ItemViewResult::Close)),
            Event::Key(KeyCommand::Back) => Ok(Command::Return(ItemViewResult::Close)),
            Event::Key(KeyCommand::Key(Key::Char(c))) => {
                if c == 'r' {
                    self.read = true;
                    Ok(Command::Return(ItemViewResult::MarkRead))
                } else {
                    Ok(Command::AwaitKey)
                }
            },
            _ => Ok(Command::AwaitKey),
        }
    }
}

} // verus!
