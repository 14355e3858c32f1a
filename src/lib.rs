//! A kanban board of tracked series: entries move between the columns
//! Planning, Watching and Completed, and carry a season and an episode.
use vstd::prelude::*;

pub mod app;
pub mod columns;
pub mod config;
pub mod consts;
mod ids;
pub mod input;
pub mod text;
pub mod ui;

verus! {

/// The column an entry stands in.
#[derive(Clone, Copy, Debug, PartialEq, Eq, Structural)]
pub enum Status {
    Planning,
    Watching,
    Completed,
}

impl Status {
    /// The following column, in the cyclic order Planning, Watching, Completed.
    pub open spec fn succ(self) -> Status {
        match self {
            Status::Planning => Status::Watching,
            Status::Watching => Status::Completed,
            Status::Completed => Status::Planning,
        }
    }

    /// The preceding column, in the same cyclic order.
    pub open spec fn pred(self) -> Status {
        match self {
            Status::Planning => Status::Completed,
            Status::Watching => Status::Planning,
            Status::Completed => Status::Watching,
        }
    }

    /// The column's name, as shown and as stored.
    pub open spec fn name(self) -> Seq<char> {
        match self {
            Status::Planning => "Planning"@,
            Status::Watching => "Watching"@,
            Status::Completed => "Completed"@,
        }
    }

    pub fn to_string(&self) -> (r: String)
        ensures
            r@ == self.name(),
    {
        match self {
            Status::Planning => String::from_str("Planning"),
            Status::Watching => String::from_str("Watching"),
            Status::Completed => String::from_str("Completed"),
        }
    }

    /// The status stored under `name`; an unknown name reads as Planning.
    pub fn from_name(name: &String) -> (r: Status)
        ensures
            name@ == Status::Watching.name() ==> r == Status::Watching,
            name@ == Status::Completed.name() ==> r == Status::Completed,
            name@ != Status::Watching.name() && name@ != Status::Completed.name() ==> r
                == Status::Planning,
    {
        proof {
            reveal_strlit("Watching");
            reveal_strlit("Completed");
            assert("Watching"@[0] != "Completed"@[0]);
        }
        if *name == String::from_str("Watching") {
            Status::Watching
        } else if *name == String::from_str("Completed") {
            Status::Completed
        } else {
            Status::Planning
        }
    }

    pub fn next(&self) -> (r: Status)
        ensures
            r == self.succ(),
    {
        match self {
            Status::Planning => Status::Watching,
            Status::Watching => Status::Completed,
            Status::Completed => Status::Planning,
        }
    }

    pub fn prev(&self) -> (r: Status)
        ensures
            r == self.pred(),
    {
        match self {
            Status::Planning => Status::Completed,
            Status::Watching => Status::Planning,
            Status::Completed => Status::Watching,
        }
    }
}

/// One tracked series, as the board and the store hold it.
#[derive(Debug)]
pub struct Entry {
    /// Persistence key, assigned once when the entry is created.
    pub id: u128,
    pub title: String,
    pub season: u32,
    pub episode: u32,
    pub status: Status,
}

/// An entry as plain values.
pub struct EntryView {
    pub id: u128,
    pub title: Seq<char>,
    pub season: u32,
    pub episode: u32,
    pub status: Status,
}

impl View for Entry {
    type V = EntryView;

    open spec fn view(&self) -> EntryView {
        EntryView {
            id: self.id,
            title: self.title@,
            season: self.season,
            episode: self.episode,
            status: self.status,
        }
    }
}

impl Clone for Entry {
    fn clone(&self) -> (r: Entry)
        ensures
            r == *self,
    {
        Entry {
            id: self.id,
            title: self.title.clone(),
            season: self.season,
            episode: self.episode,
            status: self.status,
        }
    }
}

/// A series without its persistence key.
#[derive(Clone, Debug)]
pub struct Series {
    pub title: String,
    pub season: u32,
    pub episode: u32,
    pub status: Status,
}

} // verus!
