//! The two settings of the registry, as the configuration holds them.

use crate::location::joined;
use rocket::figment::value::magic::RelativePathBuf;
use rocket::figment::Figment;
use vstd::prelude::*;

verus! {

/// The configuration key of the assets directory.
pub const DIRECTORY_KEY: &'static str = "assets_dir";

/// The configuration key of the cache lifetime, in seconds.
pub const MAX_AGE_KEY: &'static str = "assets_max_age";

/// The directory that is used when none is configured, relative to the
/// working directory.
pub const DEFAULT_DIRECTORY: &'static str = "assets/";

/// The cache lifetime that is used when none is configured: one day.
pub const DEFAULT_MAX_AGE: u32 = 86400;

/// Figment's collected configuration, opaque here.
#[verifier::external_type_specification]
#[verifier::external_body]
pub struct ExFigment(Figment);

/// Figment's path that remembers which file configured it, opaque here.
#[verifier::external_type_specification]
#[verifier::external_body]
pub struct ExRelativePathBuf(RelativePathBuf);

/// Figment's report of a value that could not be extracted, opaque here.
#[verifier::external_type_specification]
#[verifier::external_body]
pub struct ExFigmentError(rocket::figment::Error);

/// The operating system's report of a failed file system call, opaque here.
#[verifier::external_type_specification]
#[verifier::external_body]
pub struct ExIoError(std::io::Error);

/// The `i32` that the configuration holds under `key`: what Figment's
/// `extract_inner::<i32>(key)` gives where it succeeds, and `None` where it
/// fails.
pub uninterp spec fn configured_seconds(figment: Figment, key: Seq<char>) -> Option<i32>;

/// Whether the configuration holds nothing under `key` where an `i32` is
/// asked for: whether the report with which `extract_inner::<i32>(key)`
/// fails is one of a missing key.
pub uninterp spec fn seconds_unset(figment: Figment, key: Seq<char>) -> bool;

/// The path that the configuration holds under `key`, as it is written
/// there: the [`written`] path of what Figment's
/// `extract_inner::<RelativePathBuf>(key)` gives where it succeeds, and
/// `None` where it fails.
pub uninterp spec fn configured_path(figment: Figment, key: Seq<char>) -> Option<Seq<char>>;

/// Whether the configuration holds nothing under `key` where a path is
/// asked for: whether the report with which
/// `extract_inner::<RelativePathBuf>(key)` fails is one of a missing key.
pub uninterp spec fn path_unset(figment: Figment, key: Seq<char>) -> bool;

/// The path as the configuration wrote it: what `RelativePathBuf::original`
/// returns, as text, with the replacement character for bytes that are not
/// UTF-8.
pub uninterp spec fn written(path: RelativePathBuf) -> Seq<char>;

/// Whether the report is of a key that is not set: what Figment's
/// `Error::missing` returns.
pub uninterp spec fn reports_missing(report: rocket::figment::Error) -> bool;

/// What looking a key up in the configuration gave.
#[derive(Debug)]
pub enum Lookup<T> {
    /// The key is not set.
    Absent,
    /// The key is set, but its value is not of the type asked for.
    Malformed(rocket::figment::Error),
    /// The key is set to this value.
    Present(T),
}

/// Why the registry could not be made. Each of these ends startup.
#[derive(Debug)]
pub enum StartupError {
    /// The configured directory is not a path.
    MalformedDirectory(rocket::figment::Error),
    /// The directory, `path` as it was asked for, does not exist or could not
    /// be reached.
    UnresolvableDirectory { path: String, cause: std::io::Error },
    /// What lies at `path`, as it was asked for, exists but is no directory.
    NotADirectory { path: String },
    /// The configured cache lifetime is not an integer of 32 bits.
    MalformedMaxAge(rocket::figment::Error),
    /// The configured cache lifetime is below zero.
    NegativeMaxAge(i32),
}

/// The directory that a lookup asks for, where it asks for one.
pub open spec fn chosen_directory(found: Lookup<String>) -> Option<Seq<char>> {
    match found {
        Lookup::Absent => Some("assets/"@),
        Lookup::Malformed(_) => None,
        Lookup::Present(path) => Some(path@),
    }
}

/// The cache lifetime that a lookup asks for, where it asks for one.
pub open spec fn chosen_max_age(found: Lookup<i32>) -> Option<nat> {
    match found {
        Lookup::Absent => Some(86400),
        Lookup::Malformed(_) => None,
        Lookup::Present(seconds) => if seconds >= 0 {
            Some(seconds as nat)
        } else {
            None
        },
    }
}

/// The directory to normalize: the configured one, or `assets/` where none
/// is configured. A malformed setting is an error.
pub fn directory_setting(found: Lookup<String>) -> (chosen: Result<String, StartupError>)
    ensures
        (match chosen {
            Ok(path) => chosen_directory(found) == Some(path@),
            Err(error) => found matches Lookup::Malformed(report)
                && error == StartupError::MalformedDirectory(report),
        }),
{
    match found {
        Lookup::Absent => Ok(DEFAULT_DIRECTORY.to_owned()),
        Lookup::Malformed(report) => Err(StartupError::MalformedDirectory(report)),
        Lookup::Present(path) => Ok(path),
    }
}

/// The cache lifetime in seconds: the configured one, or 86400 where none is
/// configured. A malformed setting is an error, and so is a negative one.
pub fn max_age_setting(found: Lookup<i32>) -> (chosen: Result<u32, StartupError>)
    ensures
        (match chosen {
            Ok(seconds) => chosen_max_age(found) == Some(seconds as nat),
            Err(error) => match found {
                Lookup::Absent => false,
                Lookup::Malformed(report) => error == StartupError::MalformedMaxAge(report),
                Lookup::Present(seconds) => seconds < 0 && error == StartupError::NegativeMaxAge(
                    seconds,
                ),
            },
        }),
{
    match found {
        Lookup::Absent => Ok(DEFAULT_MAX_AGE),
        Lookup::Malformed(report) => Err(StartupError::MalformedMaxAge(report)),
        Lookup::Present(seconds) => if seconds >= 0 {
            Ok(seconds as u32)
        } else {
            Err(StartupError::NegativeMaxAge(seconds))
        },
    }
}

/// Sorts what an extraction gave: a value is `Present`; a failure is
/// `Absent` where Figment's report is of a missing key, and `Malformed` with
/// the report where it is not.
fn classify<T>(found: Result<T, rocket::figment::Error>) -> (lookup: Lookup<T>)
    ensures
        (match found {
            Ok(value) => lookup == Lookup::Present(value),
            Err(report) => lookup == if reports_missing(report) {
                Lookup::<T>::Absent
            } else {
                Lookup::<T>::Malformed(report)
            },
        }),
{
    match found {
        Ok(value) => Lookup::Present(value),
        Err(report) => if is_missing(&report) {
            Lookup::Absent
        } else {
            Lookup::Malformed(report)
        },
    }
}

/// Whether `path` is the path `written`, read from some directory: a rooted
/// path is then itself, and any other lies below that directory.
pub open spec fn read_from_a_directory(written: Seq<char>, path: Seq<char>) -> bool {
    exists|directory: Seq<char>| path == #[trigger] joined(directory, written)
}

/// Whether `found` is what looking the assets directory up in `figment`
/// gives.
///
/// Where the configuration holds a path under [`DIRECTORY_KEY`], the lookup
/// is that path, read from some directory: the one of the file that
/// configured it, where a file did. Where it holds none, the lookup is
/// `Absent` for a key that is not set and `Malformed`, with a report of
/// something else than a missing key, for any other failure.
pub open spec fn directory_found(figment: Figment, found: Lookup<String>) -> bool {
    match configured_path(figment, DIRECTORY_KEY@) {
        Some(written) => found matches Lookup::Present(path) && read_from_a_directory(
            written,
            path@,
        ),
        None => if path_unset(figment, DIRECTORY_KEY@) {
            found is Absent
        } else {
            found matches Lookup::Malformed(report) && !reports_missing(report)
        },
    }
}

/// Whether `found` is what looking the cache lifetime up in `figment` gives.
///
/// Where the configuration holds an `i32` under [`MAX_AGE_KEY`], the lookup
/// is those seconds. Where it holds none, the lookup is `Absent` for a key
/// that is not set and `Malformed`, with a report of something else than a
/// missing key, for any other failure.
pub open spec fn max_age_found(figment: Figment, found: Lookup<i32>) -> bool {
    match configured_seconds(figment, MAX_AGE_KEY@) {
        Some(seconds) => found == Lookup::Present(seconds),
        None => if seconds_unset(figment, MAX_AGE_KEY@) {
            found is Absent
        } else {
            found matches Lookup::Malformed(report) && !reports_missing(report)
        },
    }
}

/// Looks the assets directory up under [`DIRECTORY_KEY`]. A path that is
/// set in a configuration file is read from the directory of that file.
pub(crate) fn lookup_directory(figment: &Figment) -> (found: Lookup<String>)
    ensures
        directory_found(*figment, found),
{
    match classify(extract_path(figment, DIRECTORY_KEY)) {
        Lookup::Absent => Lookup::Absent,
        Lookup::Malformed(report) => Lookup::Malformed(report),
        Lookup::Present(path) => Lookup::Present(relative_text(&path)),
    }
}

/// Looks the cache lifetime up under [`MAX_AGE_KEY`].
pub(crate) fn lookup_max_age(figment: &Figment) -> (found: Lookup<i32>)
    ensures
        max_age_found(*figment, found),
{
    classify(extract_seconds(figment, MAX_AGE_KEY))
}

/// Calls Figment's `extract_inner` for the path under `key`. The call reads
/// the collected configuration and nothing else, so what it gives is named:
/// the path as it is written by [`configured_path`], and whether a failure
/// is reported as a missing key by [`path_unset`]. The report itself is
/// opaque here.
#[verifier::external_body]
fn extract_path(figment: &Figment, key: &str) -> (found: Result<
    RelativePathBuf,
    rocket::figment::Error,
>)
    ensures
        (match found {
            Ok(path) => configured_path(*figment, key@) == Some(written(path)),
            Err(report) => configured_path(*figment, key@) is None && reports_missing(report)
                == path_unset(*figment, key@),
        }),
{
    figment.extract_inner::<RelativePathBuf>(key)
}

/// Calls Figment's `extract_inner` for the `i32` under `key`. The call reads
/// the collected configuration and nothing else, so what it gives is named:
/// the seconds by [`configured_seconds`], and whether a failure is reported
/// as a missing key by [`seconds_unset`]. The report itself is opaque here.
#[verifier::external_body]
fn extract_seconds(figment: &Figment, key: &str) -> (found: Result<i32, rocket::figment::Error>)
    ensures
        (match found {
            Ok(seconds) => configured_seconds(*figment, key@) == Some(seconds),
            Err(report) => configured_seconds(*figment, key@) is None && reports_missing(report)
                == seconds_unset(*figment, key@),
        }),
{
    figment.extract_inner::<i32>(key)
}

/// Calls `RelativePathBuf::relative`. Figment's source shows that a rooted
/// path comes back as it was written, and that any other comes back joined,
/// as a path buffer joins, to the directory of the file that configured it,
/// or as it was written where no file did. Which directory that is depends
/// on the configuring file and on the file system, so the contract says
/// only that there is one. The path is carried as text, with the
/// replacement character for bytes that are not UTF-8.
#[verifier::external_body]
fn relative_text(path: &RelativePathBuf) -> (text: String)
    ensures
        read_from_a_directory(written(*path), text@),
{
    path.relative().to_string_lossy().into_owned()
}

/// Calls Figment's `Error::missing`, which tells whether the report is of a
/// key that is not set. The answer depends on the report alone, which is
/// opaque here, so it is named, by [`reports_missing`].
#[verifier::external_body]
fn is_missing(report: &rocket::figment::Error) -> (missing: bool)
    ensures
        missing == reports_missing(*report),
{
    report.missing()
}

} // verus!
