//! Loading, as a protocol between the coordinator and whoever runs the file
//! system and the backend for it.
//!
//! The caller starts with [`LoadEvent::Start`], performs the action that
//! [`Persist::load`] answers with, and reports the outcome as the next event,
//! until the action is [`LoadAction::Done`]. No action of a load writes.

use directories::ProjectDirs;
use std::path::PathBuf;
use vstd::prelude::*;

use crate::backend::FormatError;
use crate::envelope::Abseil;
use crate::error::Error;
use crate::location::{state_dir, state_file, state_file_of};
use crate::persist::{Persist, PersistView};

verus! {

/// What has happened so far in a load.
#[derive(Debug)]
pub enum LoadEvent<T> {
    /// Nothing yet.
    Start,
    /// The location resolver has answered. The coordinator asks it by itself
    /// on `Start`.
    Located(Option<ProjectDirs>),
    /// `path` was looked for.
    Probed { path: PathBuf, exists: bool },
    /// The file was read as text, or could not be.
    Read(Result<String, std::io::Error>),
    /// The backend has turned the text into an envelope, or could not.
    Parsed(Result<Abseil<T>, FormatError>),
}

/// What the caller is to do next in a load.
#[derive(Debug)]
pub enum LoadAction<T> {
    /// Find out whether this file exists.
    Probe(PathBuf),
    /// Read this file as text.
    Read(PathBuf),
    /// Have the backend turn this text into an envelope.
    Parse(String),
    /// The load is over, with this result.
    Done(Result<Abseil<T>, Error>),
}

/// The step of a load once the resolver has answered: without a location the
/// load fails with the `AppData` error for the coordinator, with one the state
/// file in it is looked for.
pub open spec fn load_located<T>(
    persist: PersistView,
    answer: Option<ProjectDirs>,
    action: LoadAction<T>,
) -> bool {
    match answer {
        Some(location) => action == LoadAction::<T>::Probe(state_file_of(location)),
        None => action matches LoadAction::Done(Err(error)) && error.reports(persist),
    }
}

/// Whether `action` is the coordinator's answer to `event` in a load.
///
/// A missing file is no failure: the load ends with a fresh envelope around
/// the default state. A file that is there is read and parsed, and a failure
/// of either ends the load with that failure.
pub open spec fn load_step<T: Default>(
    persist: PersistView,
    event: LoadEvent<T>,
    action: LoadAction<T>,
) -> bool {
    match event {
        LoadEvent::Start => exists|answer: Option<ProjectDirs>|
            load_located(persist, answer, action),
        LoadEvent::Located(answer) => load_located(persist, answer, action),
        LoadEvent::Probed { path, exists } => if exists {
            action == LoadAction::<T>::Read(path)
        } else {
            action matches LoadAction::Done(Ok(envelope)) && call_ensures(
                T::default,
                (),
                envelope.state,
            )
        },
        LoadEvent::Read(Ok(text)) => action == LoadAction::<T>::Parse(text),
        LoadEvent::Read(Err(error)) => action == LoadAction::<T>::Done(Err(Error::IO(error))),
        LoadEvent::Parsed(Ok(envelope)) => action == LoadAction::Done(Ok(envelope)),
        LoadEvent::Parsed(Err(error)) => action == LoadAction::<T>::Done(
            Err(Error::Serialization(error)),
        ),
    }
}

/// What a load comes to, told by the outcome of each piece of outside work:
/// the resolver's `answer`, whether the state file `exists`, what reading it
/// gave and what the backend made of the text.
///
/// Without a location the load fails with `AppData`. Without a file it
/// succeeds with the default state. Otherwise a failure to read is an `IO`
/// error, a failure to parse a `Serialization` error, and the parsed
/// envelope is the result.
pub open spec fn load_outcome<T: Default>(
    persist: PersistView,
    answer: Option<ProjectDirs>,
    exists: bool,
    read: Result<String, std::io::Error>,
    parsed: Result<Abseil<T>, FormatError>,
    result: Result<Abseil<T>, Error>,
) -> bool {
    if answer is None {
        result matches Err(error) && error.reports(persist)
    } else if !exists {
        result matches Ok(envelope) && call_ensures(T::default, (), envelope.state)
    } else {
        match (read, parsed) {
            (Err(error), _) => result == Err::<Abseil<T>, Error>(Error::IO(error)),
            (Ok(_), Err(error)) => result == Err::<Abseil<T>, Error>(Error::Serialization(error)),
            (Ok(_), Ok(envelope)) => result == Ok::<Abseil<T>, Error>(envelope),
        }
    }
}

/// Whether the actions `first` to `fourth`, as far as the load got, are the
/// ones of an orderly load: look for the state file of the location, read
/// that same file, parse the very text that was read, and end with `result`.
pub open spec fn load_run<T>(
    answer: Option<ProjectDirs>,
    read: Result<String, std::io::Error>,
    first: LoadAction<T>,
    second: LoadAction<T>,
    third: LoadAction<T>,
    fourth: LoadAction<T>,
    result: Result<Abseil<T>, Error>,
) -> bool {
    match first {
        LoadAction::Done(ended) => ended == result,
        LoadAction::Probe(path) => answer matches Some(location) && path == state_file_of(location)
            && match second {
            LoadAction::Done(ended) => ended == result,
            LoadAction::Read(file) => file == path && match third {
                LoadAction::Done(ended) => ended == result,
                LoadAction::Parse(text) => read == Ok::<String, std::io::Error>(text)
                    && fourth == LoadAction::Done(result),
                _ => false,
            },
            _ => false,
        },
        _ => false,
    }
}

/// A load that is driven as the protocol asks is an orderly one, is over
/// after four actions at most, and comes to what [`load_outcome`] describes.
/// It holds for a load begun with `Start` as well, `answer` then being what
/// the resolver said.
pub proof fn load_comes_to_its_outcome<T: Default>(
    persist: PersistView,
    answer: Option<ProjectDirs>,
    exists: bool,
    read: Result<String, std::io::Error>,
    parsed: Result<Abseil<T>, FormatError>,
    first: LoadAction<T>,
    second: LoadAction<T>,
    third: LoadAction<T>,
    fourth: LoadAction<T>,
)
    requires
        load_located(persist, answer, first),
        first matches LoadAction::Probe(path) ==> load_step(
            persist,
            LoadEvent::Probed { path, exists },
            second,
        ),
        second is Read ==> load_step(persist, LoadEvent::Read(read), third),
        third is Parse ==> load_step(persist, LoadEvent::Parsed(parsed), fourth),
    ensures
        exists|result: Result<Abseil<T>, Error>|
            load_run(answer, read, first, second, third, fourth, result) && load_outcome(
                persist,
                answer,
                exists,
                read,
                parsed,
                result,
            ),
{
    match first {
        LoadAction::Done(result) => {
            assert(load_run(answer, read, first, second, third, fourth, result));
            assert(load_outcome(persist, answer, exists, read, parsed, result));
        },
        LoadAction::Probe(path) => {
            match second {
                LoadAction::Done(result) => {
                    assert(load_run(answer, read, first, second, third, fourth, result));
                    assert(load_outcome(persist, answer, exists, read, parsed, result));
                },
                LoadAction::Read(file) => {
                    match third {
                        LoadAction::Done(result) => {
                            assert(load_run(answer, read, first, second, third, fourth, result));
                            assert(load_outcome(persist, answer, exists, read, parsed, result));
                        },
                        LoadAction::Parse(text) => {
                            let result = fourth->Done_0;
                            assert(load_run(answer, read, first, second, third, fourth, result));
                            assert(load_outcome(persist, answer, exists, read, parsed, result));
                        },
                        _ => {},
                    }
                },
                _ => {},
            }
        },
        _ => {},
    }
}

impl Persist {
    /// The next action of a load, given what has happened.
    pub fn load<T: Default>(&self, event: LoadEvent<T>) -> (action: LoadAction<T>)
        ensures
            load_step(self@, event, action),
    {
        match event {
            LoadEvent::Start => {
                let answer = self.resolve();
                let action = self.load_at(answer);
                assert(load_located(self@, answer, action));
                action
            },
            LoadEvent::Located(answer) => self.load_at(answer),
            LoadEvent::Probed { path, exists } => {
                if exists {
                    LoadAction::Read(path)
                } else {
                    LoadAction::Done(Ok(Abseil::new(T::default())))
                }
            },
            LoadEvent::Read(Ok(text)) => LoadAction::Parse(text),
            LoadEvent::Read(Err(error)) => LoadAction::Done(Err(Error::from(error))),
            LoadEvent::Parsed(Ok(envelope)) => LoadAction::Done(Ok(envelope)),
            LoadEvent::Parsed(Err(error)) => LoadAction::Done(Err(Error::from(error))),
        }
    }

    fn load_at<T>(&self, answer: Option<ProjectDirs>) -> (action: LoadAction<T>)
        ensures
            load_located(self@, answer, action),
    {
        match self.located(answer) {
            Ok(location) => LoadAction::Probe(state_file(&state_dir(&location))),
            Err(error) => LoadAction::Done(Err(error)),
        }
    }
}

} // verus!
