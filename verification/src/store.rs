//! Storing, as a protocol between the coordinator and whoever runs the file
//! system and the backend for it.
//!
//! The caller starts with [`StoreEvent::Start`], performs the action that
//! [`Persist::store`] answers with, and reports the outcome as the next event,
//! until the action is [`StoreAction::Done`]. The state itself stays with the
//! caller: the coordinator only says when it is to be serialized, and how.

use directories::ProjectDirs;
use std::path::PathBuf;
use vstd::prelude::*;

use crate::backend::FormatError;
use crate::error::Error;
use crate::load::{load_step, LoadAction, LoadEvent};
use crate::location::{config_dir_of, joined, state_dir, state_file, state_file_of, FILE_NAME};
use crate::persist::{Persist, PersistView};

verus! {

/// What has happened so far in a store.
#[derive(Debug)]
pub enum StoreEvent {
    /// Nothing yet.
    Start,
    /// The location resolver has answered. The coordinator asks it by itself
    /// on `Start`.
    Located(Option<ProjectDirs>),
    /// The directory `dir` was looked for.
    Probed { dir: PathBuf, exists: bool },
    /// The directory `dir` was created, or could not be.
    Created { dir: PathBuf, outcome: Result<(), std::io::Error> },
    /// The backend has serialized a fresh envelope of the state for the file
    /// `path`, or could not.
    Serialized { path: PathBuf, text: Result<String, FormatError> },
    /// The text was written, or could not be.
    Written(Result<(), std::io::Error>),
}

/// What the caller is to do next in a store.
#[derive(Debug)]
pub enum StoreAction {
    /// Find out whether this directory exists.
    Probe(PathBuf),
    /// Create this directory and the missing ones above it.
    Create(PathBuf),
    /// Wrap the state in an envelope stamped now and have the backend
    /// serialize it, in the pretty form or the compact one. The text is
    /// meant for the file `path`.
    Serialize { path: PathBuf, pretty: bool },
    /// Write `text` as the whole content of the file `path`, replacing what
    /// is there.
    Write { path: PathBuf, text: String },
    /// The store is over, with this result.
    Done(Result<(), Error>),
}

/// The step of a store once the resolver has answered: without a location the
/// store fails with the `AppData` error for the coordinator, with one its
/// configuration directory is looked for.
pub open spec fn store_located(
    persist: PersistView,
    answer: Option<ProjectDirs>,
    action: StoreAction,
) -> bool {
    match answer {
        Some(location) => action == StoreAction::Probe(config_dir_of(location)),
        None => action matches StoreAction::Done(Err(error)) && error.reports(persist),
    }
}

/// The step of a store once the directory `dir` is known to be there: the
/// state is to be serialized for the state file in it, as the coordinator's
/// formatting preference says.
pub open spec fn serialize_into(persist: PersistView, dir: PathBuf) -> StoreAction {
    StoreAction::Serialize { path: joined(dir, FILE_NAME@), pretty: persist.pretty }
}

/// Whether `action` is the coordinator's answer to `event` in a store.
///
/// The directory is created only when it is missing; the state is serialized
/// only once the directory is there; the file is written only with what the
/// backend gave. The first failure ends the store.
pub open spec fn store_step(persist: PersistView, event: StoreEvent, action: StoreAction) -> bool {
    match event {
        StoreEvent::Start => exists|answer: Option<ProjectDirs>|
            store_located(persist, answer, action),
        StoreEvent::Located(answer) => store_located(persist, answer, action),
        StoreEvent::Probed { dir, exists } => if exists {
            action == serialize_into(persist, dir)
        } else {
            action == StoreAction::Create(dir)
        },
        StoreEvent::Created { dir, outcome: Ok(_) } => action == serialize_into(persist, dir),
        StoreEvent::Created { dir, outcome: Err(error) } => action == StoreAction::Done(
            Err(Error::IO(error)),
        ),
        StoreEvent::Serialized { path, text: Ok(text) } => action == (StoreAction::Write {
            path,
            text,
        }),
        StoreEvent::Serialized { path, text: Err(error) } => action == StoreAction::Done(
            Err(Error::Serialization(error)),
        ),
        StoreEvent::Written(Ok(_)) => action == StoreAction::Done(Ok(())),
        StoreEvent::Written(Err(error)) => action == StoreAction::Done(Err(Error::IO(error))),
    }
}

/// What a store comes to, told by the outcome of each piece of outside work:
/// the resolver's `answer`, whether the directory `exists`, what creating it
/// gave where it was missing, what the backend made of the state and what
/// writing the text gave.
///
/// Without a location the store fails with `AppData`. A directory that is
/// missing and cannot be created is an `IO` error, a state that cannot be
/// serialized a `Serialization` error, a failed write an `IO` error; with
/// none of these the store succeeds.
pub open spec fn store_outcome(
    persist: PersistView,
    answer: Option<ProjectDirs>,
    exists: bool,
    created: Result<(), std::io::Error>,
    serialized: Result<String, FormatError>,
    written: Result<(), std::io::Error>,
    result: Result<(), Error>,
) -> bool {
    if answer is None {
        result matches Err(error) && error.reports(persist)
    } else if !exists && created is Err {
        result == Err::<(), Error>(Error::IO(created->Err_0))
    } else {
        match (serialized, written) {
            (Err(error), _) => result == Err::<(), Error>(Error::Serialization(error)),
            (Ok(_), Err(error)) => result == Err::<(), Error>(Error::IO(error)),
            (Ok(_), Ok(_)) => result == Ok::<(), Error>(()),
        }
    }
}

/// Whether the actions from `serialize` on, as far as the store got, are the
/// ones of an orderly store into the directory `dir`: serialize for the state
/// file in `dir` in the coordinator's form, write the very text that the
/// backend gave to that same file, and end with `result`.
pub open spec fn store_tail(
    persist: PersistView,
    dir: PathBuf,
    serialized: Result<String, FormatError>,
    serialize: StoreAction,
    write: StoreAction,
    last: StoreAction,
    result: Result<(), Error>,
) -> bool {
    serialize == serialize_into(persist, dir) && match write {
        StoreAction::Done(ended) => ended == result,
        StoreAction::Write { path, text } => path == joined(dir, FILE_NAME@) && serialized == Ok::<
            String,
            FormatError,
        >(text) && last == StoreAction::Done(result),
        _ => false,
    }
}

/// Whether the actions `probe` to `last`, as far as the store got, are the
/// ones of an orderly store: look for the configuration directory of the
/// location, create it only if it is missing, then go on as [`store_tail`]
/// says.
pub open spec fn store_run(
    persist: PersistView,
    answer: Option<ProjectDirs>,
    exists: bool,
    serialized: Result<String, FormatError>,
    probe: StoreAction,
    create: StoreAction,
    serialize: StoreAction,
    write: StoreAction,
    last: StoreAction,
    result: Result<(), Error>,
) -> bool {
    match probe {
        StoreAction::Done(ended) => ended == result,
        StoreAction::Probe(dir) => answer matches Some(location) && dir == config_dir_of(location)
            && if exists {
            store_tail(persist, dir, serialized, serialize, write, last, result)
        } else {
            create == StoreAction::Create(dir) && match serialize {
                StoreAction::Done(ended) => ended == result,
                _ => store_tail(persist, dir, serialized, serialize, write, last, result),
            }
        },
        _ => false,
    }
}

/// Whether each action after `probe` is the coordinator's answer to the
/// outcome of the action before it: `create` or `serialize` to the look for
/// the directory, `serialize` to the creation where one was asked for,
/// `write` to the serialization, `last` to the write.
pub open spec fn store_driven(
    persist: PersistView,
    exists: bool,
    created: Result<(), std::io::Error>,
    serialized: Result<String, FormatError>,
    written: Result<(), std::io::Error>,
    probe: StoreAction,
    create: StoreAction,
    serialize: StoreAction,
    write: StoreAction,
    last: StoreAction,
) -> bool {
    &&& probe matches StoreAction::Probe(dir) ==> store_step(
        persist,
        StoreEvent::Probed { dir, exists },
        if exists {
            serialize
        } else {
            create
        },
    )
    &&& !exists ==> (create matches StoreAction::Create(dir) ==> store_step(
        persist,
        StoreEvent::Created { dir, outcome: created },
        serialize,
    ))
    &&& serialize matches StoreAction::Serialize { path, pretty } ==> store_step(
        persist,
        StoreEvent::Serialized { path, text: serialized },
        write,
    )
    &&& write is Write ==> store_step(persist, StoreEvent::Written(written), last)
}

/// A store that is driven as the protocol asks is an orderly one, is over
/// after five actions at most, and comes to what [`store_outcome`]
/// describes. Where the directory exists no `Create` is asked for, and
/// `create` is not looked at. It holds for a store begun with `Start` as
/// well, `answer` then being what the resolver said.
pub proof fn store_comes_to_its_outcome(
    persist: PersistView,
    answer: Option<ProjectDirs>,
    exists: bool,
    created: Result<(), std::io::Error>,
    serialized: Result<String, FormatError>,
    written: Result<(), std::io::Error>,
    probe: StoreAction,
    create: StoreAction,
    serialize: StoreAction,
    write: StoreAction,
    last: StoreAction,
)
    requires
        store_located(persist, answer, probe),
        store_driven(
            persist,
            exists,
            created,
            serialized,
            written,
            probe,
            create,
            serialize,
            write,
            last,
        ),
    ensures
        exists|result: Result<(), Error>|
            store_run(
                persist,
                answer,
                exists,
                serialized,
                probe,
                create,
                serialize,
                write,
                last,
                result,
            ) && store_outcome(persist, answer, exists, created, serialized, written, result),
{
    match probe {
        StoreAction::Done(result) => {
            assert(store_run(
                persist,
                answer,
                exists,
                serialized,
                probe,
                create,
                serialize,
                write,
                last,
                result,
            ));
            assert(store_outcome(persist, answer, exists, created, serialized, written, result));
        },
        StoreAction::Probe(dir) => {
            let result = match serialize {
                StoreAction::Done(ended) => ended,
                _ => match write {
                    StoreAction::Done(ended) => ended,
                    _ => last->Done_0,
                },
            };
            assert(store_run(
                persist,
                answer,
                exists,
                serialized,
                probe,
                create,
                serialize,
                write,
                last,
                result,
            ));
            assert(store_outcome(persist, answer, exists, created, serialized, written, result));
        },
        _ => {},
    }
}

/// Whether `serialize` answers a directory that is there, found or created,
/// and `write` answers the backend's `text`.
pub open spec fn store_reaches_write(
    writer: PersistView,
    text: String,
    probe: StoreAction,
    serialize: StoreAction,
    write: StoreAction,
) -> bool {
    &&& probe matches StoreAction::Probe(dir) ==> (store_step(
        writer,
        StoreEvent::Probed { dir, exists: true },
        serialize,
    ) || store_step(writer, StoreEvent::Created { dir, outcome: Ok(()) }, serialize))
    &&& serialize matches StoreAction::Serialize { path, pretty } ==> store_step(
        writer,
        StoreEvent::Serialized { path, text: Ok(text) },
        write,
    )
}

/// Whether `read` answers a state file that is there.
pub open spec fn load_reaches_read<T: Default>(
    reader: PersistView,
    look: LoadAction<T>,
    read: LoadAction<T>,
) -> bool {
    look matches LoadAction::Probe(path) ==> load_step(
        reader,
        LoadEvent::<T>::Probed { path, exists: true },
        read,
    )
}

/// A store writes the file that a load looks for: for one location, the
/// file that a store serializes for and writes is the one that a load
/// probes and reads, whichever coordinators resolved to that location.
pub proof fn store_writes_the_file_that_load_reads<T: Default>(
    writer: PersistView,
    reader: PersistView,
    location: ProjectDirs,
    text: String,
    probe: StoreAction,
    serialize: StoreAction,
    write: StoreAction,
    look: LoadAction<T>,
    read: LoadAction<T>,
)
    requires
        store_step(writer, StoreEvent::Located(Some(location)), probe),
        store_reaches_write(writer, text, probe, serialize, write),
        load_step(reader, LoadEvent::<T>::Located(Some(location)), look),
        load_reaches_read(reader, look, read),
    ensures
        write == (StoreAction::Write { path: state_file_of(location), text }),
        look == LoadAction::<T>::Probe(state_file_of(location)),
        read == LoadAction::<T>::Read(state_file_of(location)),
{
}

impl Persist {
    /// The next action of a store, given what has happened.
    pub fn store(&self, event: StoreEvent) -> (action: StoreAction)
        ensures
            store_step(self@, event, action),
    {
        match event {
            StoreEvent::Start => {
                let answer = self.resolve();
                let action = self.store_at(answer);
                assert(store_located(self@, answer, action));
                action
            },
            StoreEvent::Located(answer) => self.store_at(answer),
            StoreEvent::Probed { dir, exists } => {
                if exists {
                    self.stringify(dir)
                } else {
                    StoreAction::Create(dir)
                }
            },
            StoreEvent::Created { dir, outcome: Ok(_) } => self.stringify(dir),
            StoreEvent::Created { dir, outcome: Err(error) } => StoreAction::Done(
                Err(Error::from(error)),
            ),
            StoreEvent::Serialized { path, text: Ok(text) } => StoreAction::Write { path, text },
            StoreEvent::Serialized { path, text: Err(error) } => StoreAction::Done(
                Err(Error::from(error)),
            ),
            StoreEvent::Written(Ok(_)) => StoreAction::Done(Ok(())),
            StoreEvent::Written(Err(error)) => StoreAction::Done(Err(Error::from(error))),
        }
    }

    fn store_at(&self, answer: Option<ProjectDirs>) -> (action: StoreAction)
        ensures
            store_located(self@, answer, action),
    {
        match self.located(answer) {
            Ok(location) => StoreAction::Probe(state_dir(&location)),
            Err(error) => StoreAction::Done(Err(error)),
        }
    }

    /// Asks for the state to be serialized for the state file in `dir`, pretty
    /// or compact as this coordinator was built.
    fn stringify(&self, dir: PathBuf) -> (action: StoreAction)
        ensures
            action == serialize_into(self@, dir),
    {
        StoreAction::Serialize { path: state_file(&dir), pretty: self.pretty() }
    }
}

} // verus!
