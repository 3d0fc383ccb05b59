//! Rows of the local cache: the key-value settings that hold the cached
//! credentials, and the lineups that were seen.

use vstd::prelude::*;

verus! {

/// The mathematical content of a settings row.
pub struct SettingModel {
    pub key: Seq<char>,
    pub value: Seq<char>,
}

/// A row of the settings table, as read.
#[derive(Debug)]
pub struct Settings {
    pub key: String,
    pub value: String,
}

impl View for Settings {
    type V = SettingModel;

    open spec fn view(&self) -> SettingModel {
        SettingModel { key: self.key@, value: self.value@ }
    }
}

/// A row of the settings table, to be written.
#[derive(Clone, Copy, Debug)]
pub struct NewSetting<'a> {
    pub key: &'a str,
    pub value: &'a str,
}

impl<'a> View for NewSetting<'a> {
    type V = SettingModel;

    open spec fn view(&self) -> SettingModel {
        SettingModel { key: self.key@, value: self.value@ }
    }
}

/// The mathematical content of a lineups row.
pub struct LineupModel {
    pub id: Seq<char>,
    pub modified: Seq<char>,
    pub uri: Seq<char>,
    pub is_deleted: bool,
}

/// A row of the lineups table, as read.
#[derive(Debug)]
pub struct Lineup {
    pub id: String,
    pub modified: String,
    pub uri: String,
    pub is_deleted: bool,
}

impl View for Lineup {
    type V = LineupModel;

    open spec fn view(&self) -> LineupModel {
        LineupModel {
            id: self.id@,
            modified: self.modified@,
            uri: self.uri@,
            is_deleted: self.is_deleted,
        }
    }
}

/// A row of the lineups table, to be written.
#[derive(Clone, Copy, Debug)]
pub struct NewLineup<'a> {
    pub id: &'a str,
    pub modified: &'a str,
    pub uri: &'a str,
    pub is_deleted: bool,
}

impl<'a> View for NewLineup<'a> {
    type V = LineupModel;

    open spec fn view(&self) -> LineupModel {
        LineupModel {
            id: self.id@,
            modified: self.modified@,
            uri: self.uri@,
            is_deleted: self.is_deleted,
        }
    }
}

impl Settings {
    /// The row to write that holds what this row holds.
    pub fn as_new(&self) -> (row: NewSetting<'_>)
        ensures
            row@ == self@,
    {
        NewSetting { key: self.key.as_str(), value: self.value.as_str() }
    }
}

impl Lineup {
    /// The row to write that holds what this row holds.
    pub fn as_new(&self) -> (row: NewLineup<'_>)
        ensures
            row@ == self@,
    {
        NewLineup {
            id: self.id.as_str(),
            modified: self.modified.as_str(),
            uri: self.uri.as_str(),
            is_deleted: self.is_deleted,
        }
    }
}

} // verus!
