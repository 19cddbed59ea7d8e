//! The commands of the command line, as far as they are decided without the service:
//! which operation the flags stand for, which entry or project a typed number names,
//! and what is wrong with a command that cannot be carried out.

use crate::order::{is_latest, latest};
use crate::project::Project;
use crate::share::share;
use crate::text::{opt_nat, opt_text, parse_index, parsed_index};
use crate::types::TimeEntry;
use std::rc::Rc;
use vstd::prelude::*;

verus! {

/// What the command line asked for about time entries.
#[derive(Debug)]
pub struct Flags {
    /// The values given with the request to start an entry: a description and
    /// the place of a project in the list of projects, both optional.
    pub start: Option<Vec<String>>,
    pub stop: bool,
    pub swap: bool,
    /// The number of the entry to delete, as it was typed.
    pub delete: Option<String>,
    /// The values given with the request to edit an entry: the number of the
    /// entry, its new description, and the place of its new project.
    pub edit: Option<Vec<String>>,
}

/// The one operation that a command line stands for.
#[derive(Debug)]
pub enum Command {
    Start(Vec<String>),
    Stop,
    Swap,
    Delete(String),
    Edit(Vec<String>),
    /// Nothing was asked for, which is fine.
    Nothing,
}

/// Why a command was not carried out.
#[derive(Clone, Copy, Debug, PartialEq, Eq, Structural)]
pub enum CommandError {
    NotRunning,
    NothingToSwap,
    NoSuchEntry,
    BadEntryNumber,
    NothingToEdit,
    BadEditArguments,
    BadEditNumber,
}

/// The text of an error.
pub open spec fn error_text(e: CommandError) -> Seq<char> {
    match e {
        CommandError::NotRunning => "No time entry currently running"@,
        CommandError::NothingToSwap => "Not enough entries stored to swap"@,
        CommandError::NoSuchEntry => "You tried to delete and entry that does not exist"@,
        CommandError::BadEntryNumber => "Could not parse id"@,
        CommandError::NothingToEdit => "Not enough entries stored to edit"@,
        CommandError::BadEditArguments => "Argument requirement not fulfilled"@,
        CommandError::BadEditNumber => "Could not parse values"@,
    }
}

impl CommandError {
    /// The text that tells the user of the error.
    pub fn message(&self) -> (m: String)
        ensures
            m@ == error_text(*self),
    {
        match self {
            CommandError::NotRunning => String::from_str("No time entry currently running"),
            CommandError::NothingToSwap => String::from_str("Not enough entries stored to swap"),
            CommandError::NoSuchEntry => String::from_str(
                "You tried to delete and entry that does not exist",
            ),
            CommandError::BadEntryNumber => String::from_str("Could not parse id"),
            CommandError::NothingToEdit => String::from_str("Not enough entries stored to edit"),
            CommandError::BadEditArguments => String::from_str(
                "Argument requirement not fulfilled",
            ),
            CommandError::BadEditNumber => String::from_str("Could not parse values"),
        }
    }
}

/// The operation that flags stand for: of several that are given, the first of
/// start, stop, swap, delete and edit.
pub open spec fn chosen(flags: Flags) -> Command {
    if flags.start is Some {
        Command::Start(flags.start.unwrap())
    } else if flags.stop {
        Command::Stop
    } else if flags.swap {
        Command::Swap
    } else if flags.delete is Some {
        Command::Delete(flags.delete.unwrap())
    } else if flags.edit is Some {
        Command::Edit(flags.edit.unwrap())
    } else {
        Command::Nothing
    }
}

impl Flags {
    /// The operation that the flags stand for.
    pub fn command(self) -> (c: Command)
        ensures
            c == chosen(self),
    {
        if let Some(values) = self.start {
            Command::Start(values)
        } else if self.stop {
            Command::Stop
        } else if self.swap {
            Command::Swap
        } else if let Some(id) = self.delete {
            Command::Delete(id)
        } else if let Some(values) = self.edit {
            Command::Edit(values)
        } else {
            Command::Nothing
        }
    }
}

/// What to start: a description, and the place of a project in the list of
/// projects.
#[derive(Debug)]
pub struct StartPlan {
    pub title: Option<String>,
    pub project: Option<usize>,
}

/// The text at a place among the values, where there is one.
pub open spec fn value_at(values: Seq<String>, i: int) -> Option<Seq<char>> {
    if 0 <= i < values.len() {
        Some(values[i]@)
    } else {
        None
    }
}

/// The place of a project that a text names, among so many projects: the text
/// must stand for an index, and the index for one of the projects.
pub open spec fn named_project(text: Option<Seq<char>>, projects: nat) -> Option<nat> {
    match text {
        Some(t) => match parsed_index(t) {
            Some(i) => if i < projects {
                Some(i)
            } else {
                None
            },
            None => None,
        },
        None => None,
    }
}

/// Reads what to start from the values of the command line: the first is the
/// description, the second names the project. A second value that names no
/// project starts the entry without one.
pub fn plan_start(values: &Vec<String>, projects: usize) -> (plan: StartPlan)
    ensures
        opt_text(plan.title) == value_at(values@, 0),
        opt_nat(plan.project) == named_project(value_at(values@, 1), projects as nat),
{
    let title = if values.len() > 0 {
        Some(values[0].clone())
    } else {
        None
    };
    let project = if values.len() > 1 {
        match parse_index(values[1].as_str()) {
            Some(i) => if i < projects {
                Some(i)
            } else {
                None
            },
            None => None,
        }
    } else {
        None
    };
    StartPlan { title, project }
}

/// The text that reports a started time entry.
pub open spec fn started_text(title: Option<Seq<char>>, project: Option<Seq<char>>) -> Seq<char> {
    "Started Time Entry: "@ + (match title {
        Some(t) => t,
        None => Seq::empty(),
    }) + " for Project "@ + (match project {
        Some(p) => p,
        None => Seq::empty(),
    })
}

/// Writes the report of a started time entry.
pub fn started_message(title: &Option<String>, project: Option<&str>) -> (m: String)
    ensures
        m@ == started_text(
            opt_text(*title),
            match project {
                Some(p) => Some(p@),
                None => None,
            },
        ),
{
    let mut m = String::from_str("Started Time Entry: ");
    match title {
        Some(t) => {
            m.append(t.as_str());
        },
        None => {},
    }
    m.append(" for Project ");
    match project {
        Some(p) => {
            m.append(p);
        },
        None => {},
    }
    m
}

/// The entry to stop is the running one; without one there is nothing to stop.
pub fn plan_stop(running: Option<TimeEntry>) -> (r: Result<TimeEntry, CommandError>)
    ensures
        match running {
            Some(entry) => r == Ok::<TimeEntry, CommandError>(entry),
            None => r == Err::<TimeEntry, CommandError>(CommandError::NotRunning),
        },
{
    match running {
        Some(entry) => Ok(entry),
        None => Err(CommandError::NotRunning),
    }
}

/// The entry to start again is the one of the day's stored entries that started
/// last; without stored entries there is nothing to swap to.
pub fn plan_swap(entries: &[TimeEntry]) -> (r: Result<usize, CommandError>)
    ensures
        match r {
            Ok(i) => is_latest(entries@, i as int),
            Err(e) => e == CommandError::NothingToSwap && entries@.len() == 0,
        },
{
    match latest(entries) {
        Some(i) => Ok(i),
        None => Err(CommandError::NothingToSwap),
    }
}

/// The place of the entry that a typed number names, among so many entries that
/// are counted from one.
pub open spec fn numbered_entry(text: Seq<char>, entries: nat) -> Result<nat, CommandError> {
    match parsed_index(text) {
        Some(number) => if 1 <= number <= entries {
            Ok((number - 1) as nat)
        } else {
            Err(CommandError::NoSuchEntry)
        },
        None => Err(CommandError::BadEntryNumber),
    }
}

/// A place or an error, as mathematical values.
pub open spec fn place_of(r: Result<usize, CommandError>) -> Result<nat, CommandError> {
    match r {
        Ok(i) => Ok(i as nat),
        Err(e) => Err(e),
    }
}

/// Finds the entry to delete: the typed number counts the day's stored entries
/// from one.
pub fn plan_delete(id: &str, entries: usize) -> (r: Result<usize, CommandError>)
    ensures
        place_of(r) == numbered_entry(id@, entries as nat),
{
    match parse_index(id) {
        Some(number) => if 1 <= number && number <= entries {
            Ok(number - 1)
        } else {
            Err(CommandError::NoSuchEntry)
        },
        None => Err(CommandError::BadEntryNumber),
    }
}

/// What an edit changes: the entry at a place among the stored entries gets a
/// description and the project at a place among the projects.
pub struct EditPlan {
    pub entry: nat,
    pub description: Seq<char>,
    pub project: nat,
}

/// What the values of an edit ask for, among so many stored entries and so many
/// projects. The first value is the number of the entry, counted from one, the
/// second the new description, the third the place of the new project.
pub open spec fn edit_plan(values: Seq<String>, entries: nat, projects: nat) -> Result<
    EditPlan,
    CommandError,
> {
    if entries == 0 {
        Err(CommandError::NothingToEdit)
    } else {
        match value_at(values, 0) {
            Some(first) => match parsed_index(first) {
                Some(number) => {
                    let project = named_project(value_at(values, 2), projects);
                    if 1 <= number <= entries && values.len() > 1 && project is Some {
                        Ok(
                            EditPlan {
                                entry: (number - 1) as nat,
                                description: values[1]@,
                                project: project.unwrap(),
                            },
                        )
                    } else {
                        Err(CommandError::BadEditArguments)
                    }
                },
                None => Err(CommandError::BadEditNumber),
            },
            None => Err(CommandError::BadEditNumber),
        }
    }
}

/// The entry that an edit makes of an entry: the same but for the description
/// and the project.
pub open spec fn edited(entry: TimeEntry, description: String, project: Rc<Project>) -> TimeEntry {
    TimeEntry {
        id: entry.id,
        guid: entry.guid,
        workspace: entry.workspace,
        client: entry.client,
        project: Some(project),
        start: entry.start,
        stop: entry.stop,
        duration: entry.duration,
        description: Some(description),
        duronly: entry.duronly,
        at: entry.at,
    }
}

/// Makes the entry that an edit asks for, to send as an update.
pub fn plan_edit(values: &Vec<String>, entries: &[TimeEntry], projects: &[Rc<Project>]) -> (r:
    Result<TimeEntry, CommandError>)
    ensures
        match edit_plan(values@, entries@.len(), projects@.len()) {
            Ok(plan) => r matches Ok(t) && t.description matches Some(d) && d@
                == plan.description && t == edited(
                entries@[plan.entry as int],
                d,
                projects@[plan.project as int],
            ),
            Err(e) => r matches Err(f) && f == e,
        },
{
    if entries.len() == 0 {
        return Err(CommandError::NothingToEdit);
    }
    if values.len() == 0 {
        return Err(CommandError::BadEditNumber);
    }
    let number = match parse_index(values[0].as_str()) {
        Some(number) => number,
        None => {
            return Err(CommandError::BadEditNumber);
        },
    };
    let place = if values.len() > 2 {
        match parse_index(values[2].as_str()) {
            Some(i) => if i < projects.len() {
                Some(i)
            } else {
                None
            },
            None => None,
        }
    } else {
        None
    };
    match place {
        Some(p) => {
            if 1 <= number && number <= entries.len() && values.len() > 1 {
                let mut entry = entries[number - 1].clone();
                entry.description = Some(values[1].clone());
                entry.project = Some(share(&projects[p]));
                Ok(entry)
            } else {
                Err(CommandError::BadEditArguments)
            }
        },
        None => Err(CommandError::BadEditArguments),
    }
}

} // verus!
