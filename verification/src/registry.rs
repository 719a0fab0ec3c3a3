//! The registry: the assets directory and the cache lifetime, fixed at
//! startup.

use crate::asset::{Asset, AssetView};
use crate::decimal::append_decimal;
use crate::decimal::decimal;
use crate::location::{is_directory, is_rooted, join, joined, normalize};
use crate::settings::{
    chosen_directory, chosen_max_age, directory_found, directory_setting, lookup_directory,
    lookup_max_age, max_age_found, max_age_setting, Lookup, StartupError,
};
use rocket::figment::Figment;
use vstd::prelude::*;

verus! {

/// The asset collection located in the configured folder.
///
/// It is made once, at startup, and never changes: every asset that is
/// opened from it lies below the same directory and carries the same cache
/// lifetime.
pub struct Assets {
    path: String,
    cache_max_age: u32,
}

/// What an [`Assets`] registry holds.
pub struct AssetsView {
    /// The normalized directory below which the assets lie.
    pub directory: Seq<char>,
    /// The seconds for which a client may keep an asset.
    pub max_age: nat,
}

impl View for Assets {
    type V = AssetsView;

    closed spec fn view(&self) -> AssetsView {
        AssetsView { directory: self.path@, max_age: self.cache_max_age as nat }
    }
}

/// How startup ends once the directory `requested` has been normalized with
/// the outcome `normalized`, and the file system has said whether a
/// directory lies at the normalized path.
///
/// A failed normalization is reported with the path that was asked for, and
/// so is a path at which something other than a directory lies. After that
/// the cache lifetime decides: a malformed or negative setting is reported,
/// and otherwise the registry holds the normalized directory and the chosen
/// lifetime.
pub open spec fn assembled(
    requested: Seq<char>,
    normalized: Result<String, std::io::Error>,
    is_directory: bool,
    max_age: Lookup<i32>,
    outcome: Result<Assets, StartupError>,
) -> bool {
    match normalized {
        Err(cause) => outcome matches Err(StartupError::UnresolvableDirectory { path, cause: given })
            && path@ == requested && given == cause,
        Ok(directory) => if !is_directory {
            outcome matches Err(StartupError::NotADirectory { path }) && path@ == requested
        } else {
            match max_age {
                Lookup::Malformed(report) => outcome == Err::<Assets, StartupError>(
                    StartupError::MalformedMaxAge(report),
                ),
                Lookup::Present(seconds) if seconds < 0 => outcome == Err::<Assets, StartupError>(
                    StartupError::NegativeMaxAge(seconds),
                ),
                _ => outcome matches Ok(assets) && assets@.directory == directory@ && Some(
                    assets@.max_age,
                ) == chosen_max_age(max_age),
            }
        },
    }
}

/// How startup ends for the two settings, where normalizing the chosen
/// directory has the outcome `normalized` and the file system says
/// `is_directory` of the normalized path. A malformed directory setting is
/// reported before anything is normalized.
pub open spec fn started(
    directory: Lookup<String>,
    normalized: Result<String, std::io::Error>,
    is_directory: bool,
    max_age: Lookup<i32>,
    outcome: Result<Assets, StartupError>,
) -> bool {
    match chosen_directory(directory) {
        None => directory matches Lookup::Malformed(report) && outcome == Err::<
            Assets,
            StartupError,
        >(StartupError::MalformedDirectory(report)),
        Some(requested) => assembled(requested, normalized, is_directory, max_age, outcome),
    }
}

/// How startup ends for the two settings, whatever the file system says: the
/// outcome is the one that [`started`] gives for some answers of the file
/// system, where a normalized path is rooted.
pub open spec fn resolved(
    directory: Lookup<String>,
    max_age: Lookup<i32>,
    outcome: Result<Assets, StartupError>,
) -> bool {
    exists|normalized: Result<String, std::io::Error>, is_directory: bool|
        #[trigger] started(directory, normalized, is_directory, max_age, outcome) && (
        normalized matches Ok(text) ==> is_rooted(text@))
}

/// How startup ends for the configuration `figment`, whatever the file
/// system says: the outcome is the one that [`resolved`] gives for what the
/// configuration holds under the two keys.
pub open spec fn ignited(figment: Figment, outcome: Result<Assets, StartupError>) -> bool {
    exists|directory: Lookup<String>, max_age: Lookup<i32>|
        directory_found(figment, directory) && max_age_found(figment, max_age)
            && #[trigger] resolved(directory, max_age, outcome)
}

impl Assets {
    /// Makes the registry from the directory `requested`, the outcome of
    /// normalizing it, whether a directory lies at the normalized path, and
    /// the cache lifetime setting.
    pub fn assemble(
        requested: String,
        normalized: Result<String, std::io::Error>,
        is_directory: bool,
        max_age: Lookup<i32>,
    ) -> (outcome: Result<Assets, StartupError>)
        ensures
            assembled(requested@, normalized, is_directory, max_age, outcome),
    {
        match normalized {
            Err(cause) => Err(StartupError::UnresolvableDirectory { path: requested, cause }),
            Ok(directory) => if !is_directory {
                Err(StartupError::NotADirectory { path: requested })
            } else {
                match max_age_setting(max_age) {
                    Ok(seconds) => Ok(Assets { path: directory, cache_max_age: seconds }),
                    Err(error) => Err(error),
                }
            },
        }
    }

    /// Makes the registry from the two settings: chooses the directory,
    /// normalizes it on the file system, asks whether a directory lies
    /// there, and chooses the cache lifetime.
    ///
    /// A malformed directory setting is always an error. For any other, the
    /// file system decides whether the directory can be normalized and
    /// whether it is one, and the result is what [`Assets::assemble`] makes
    /// of its answers.
    pub fn resolve(directory: Lookup<String>, max_age: Lookup<i32>) -> (outcome: Result<
        Assets,
        StartupError,
    >)
        ensures
            resolved(directory, max_age, outcome),
    {
        match directory_setting(directory) {
            Err(error) => {
                let outcome = Err(error);
                let ghost unused: Result<String, std::io::Error> = Err(arbitrary());
                assert(started(directory, unused, false, max_age, outcome));
                outcome
            },
            Ok(requested) => {
                let normalized = normalize(requested.as_str());
                let is_directory = match &normalized {
                    Ok(text) => is_directory(text.as_str()),
                    Err(_) => false,
                };
                let ghost given = normalized;
                let outcome = Assets::assemble(requested, normalized, is_directory, max_age);
                assert(started(directory, given, is_directory, max_age, outcome));
                outcome
            },
        }
    }

    /// Makes the registry from the application's configuration: looks up
    /// the keys `assets_dir` and `assets_max_age` and resolves what was
    /// found.
    ///
    /// A key that is not set takes its default, and a value of the wrong
    /// type ends startup. A configured path is read from the directory of
    /// the file that configured it, where a file did.
    pub fn ignite(figment: &Figment) -> (outcome: Result<Assets, StartupError>)
        ensures
            ignited(*figment, outcome),
    {
        let directory = lookup_directory(figment);
        let max_age = lookup_max_age(figment);
        let ghost found_directory = directory;
        let ghost found_max_age = max_age;
        let outcome = Assets::resolve(directory, max_age);
        assert(resolved(found_directory, found_max_age, outcome));
        outcome
    }

    /// The normalized directory below which the assets lie.
    pub fn directory(&self) -> (directory: &str)
        ensures
            directory@ == self@.directory,
    {
        self.path.as_str()
    }

    /// The seconds for which a client may keep an asset.
    pub fn max_age(&self) -> (seconds: u32)
        ensures
            seconds == self@.max_age,
    {
        self.cache_max_age
    }

    /// The path of the file to open for the asset `relative`.
    ///
    /// The path is joined to the registry's directory as it stands. A rooted
    /// path replaces the directory and `..` climbs out of it: callers that
    /// take the path from a request must refuse such paths themselves.
    pub fn asset_path(&self, relative: &str) -> (full: String)
        ensures
            full@ == joined(self@.directory, relative@),
    {
        join(self.path.as_str(), relative)
    }

    /// The asset that the registry makes of an opened `file`: the file, with
    /// the registry's cache lifetime.
    pub open spec fn opened<F>(&self, file: F) -> AssetView<F> {
        AssetView { file, max_age: self@.max_age }
    }

    /// Completes a lookup with the outcome of opening the file at
    /// [`Assets::asset_path`]: an opened file becomes an asset with the
    /// registry's cache lifetime, and a failure is handed on unchanged.
    pub fn open<F, E>(&self, opened: Result<F, E>) -> (outcome: Result<Asset<F>, E>)
        ensures
            (match opened {
                Ok(file) => outcome matches Ok(asset) && asset@ == self.opened(file),
                Err(failure) => outcome == Err::<Asset<F>, E>(failure),
            }),
    {
        match opened {
            Ok(file) => Ok(Asset::new(file, self.cache_max_age)),
            Err(failure) => Err(failure),
        }
    }

    /// The two lines that describe the registry once the application is up:
    /// `directory: ` with the directory, and `cache max age: ` with the
    /// seconds in decimal.
    pub fn summary(&self) -> (lines: (String, String))
        ensures
            lines.0@ == "directory: "@ + self@.directory,
            lines.1@ == "cache max age: "@ + decimal(self@.max_age),
    {
        let mut directory = "directory: ".to_owned();
        directory.append(self.path.as_str());
        let mut max_age = "cache max age: ".to_owned();
        append_decimal(&mut max_age, self.cache_max_age);
        (directory, max_age)
    }
}

} // verus!
