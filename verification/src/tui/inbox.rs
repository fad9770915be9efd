//! The view of the listing: a table of messages with a selection.

use crate::error::Error;
use crate::tui::inbox_item::{spec_step_up, step_up};
use crate::tui::keymap::{Key, KeyCommand};
use crate::tui::{Command, Event, TuiView};
use vstd::prelude::*;
use vstd::string::*;

verus! {

/// The state of the view of the listing.
#[derive(Clone, Copy, Debug, PartialEq, Eq, Structural)]
pub struct InboxView {
    /// How many messages the listing has.
    pub entries: usize,
    /// The line that is selected.
    pub selected: Option<usize>,
    /// Whether the selected line is shown in full.
    pub expanded: bool,
}

/// The selection one step down the listing. It may come to stand one past
/// the last message, where nothing can be opened.
pub open spec fn spec_row_down(selected: Option<usize>, entries: usize) -> usize {
    let n = match selected {
        Some(n) => n,
        None => 0,
    };
    if n >= entries {
        n
    } else {
        (n + 1) as usize
    }
}

impl InboxView {
    /// The view of a listing of `entries` messages, with the first line
    /// selected.
    pub fn make(entries: usize) -> (view: InboxView)
        ensures
            view == (InboxView { entries, selected: Some(0usize), expanded: false }),
    {
        InboxView { entries, selected: Some(0), expanded: false }
    }

    /// The state after `event`.
    pub open spec fn spec_next(self, event: Event) -> InboxView {
        match event {
            Event::Key(KeyCommand::Up) => InboxView {
                selected: Some(spec_step_up(self.selected)),
                ..self
            },
            Event::Key(KeyCommand::Down) => InboxView {
                selected: Some(spec_row_down(self.selected, self.entries)),
                ..self
            },
            Event::Key(KeyCommand::Key(Key::Tab)) => InboxView { expanded: !self.expanded, ..self },
            _ => self,
        }
    }

    /// What the view asks for after `event`; `None` where the selected line
    /// is no message.
    pub open spec fn spec_command(self, event: Event) -> Option<Command<Option<usize>>> {
        match event {
            Event::Key(KeyCommand::Quit) => Some(Command::Return(None)),
            Event::Key(KeyCommand::Select) => match self.selected {
                None => Some(Command::AwaitKey),
                Some(n) => if n < self.entries {
                    Some(Command::Return(Some(n)))
                } else {
                    None
                },
            },
            _ => Some(Command::AwaitKey),
        }
    }

}

impl TuiView for InboxView {
    type ReturnType = Option<usize>;

    /// Handles one event. Up and Down move the selection, Tab shows the
    /// selected line in full or in short, Select leaves the view with the
    /// position of the selected message, Quit leaves it with nothing. Select on
    /// a line that is no message is an error of the program.
    fn update(&mut self, event: Event) -> (asked: Result<Command<Option<usize>>, Error>)
        ensures
            *final(self) == old(self).spec_next(event),
            match old(self).spec_command(event) {
                Some(command) => asked == Ok::<Command<Option<usize>>, Error>(command),
                None => asked matches Err(Error::AppError(m)) && m@
                    == "Selected item out of bounds"@,
            },
    {
        match event {
            Event::Key(KeyCommand::Quit) => Ok(Command::Return(None)),
            Event::Key(KeyCommand::Up) => {
                self.selected = Some(step_up(self.selected));
                Ok(Command::AwaitKey)
            },
            Event::Key(KeyCommand::Down) => {
                let n: usize = match self.selected {
                    Some(n) => n,
                    None => 0,
                };
                let next: usize = if n >= self.entries {
                    n
                } else {
                    n + 1
                };
                self.selected = Some(next);
                Ok(Command::AwaitKey)
            },
            Event::Key(KeyCommand::Select) => match self.selected {
                None => Ok(Command::AwaitKey),
                Some(n) => {
                    if n < self.entries {
                        Ok(Command::Return(Some(n)))
                    } else {
                        Err(Error::AppError(String::from_str("Selected item out of bounds")))
                    }
                },
            },
            Event::Key(KeyCommand::Key(Key::Tab)) => {
                self.expanded = !self.expanded;
                Ok(Command::AwaitKey)
            },
            _ => Ok(Command::AwaitKey),
        }
    }
}

} // verus!
