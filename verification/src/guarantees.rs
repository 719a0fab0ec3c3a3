//! What holds across startup, lookup and response.

use crate::asset::{cache_control, carries_policy, Asset, CACHE_CONTROL};
use crate::decimal::{all_digits, decimal, decimal_is_canonical};
use crate::header::{header_values, same_name};
use crate::location::{is_rooted, joined};
use crate::registry::{assembled, ignited, resolved, started, Assets};
use crate::settings::{
    chosen_directory, chosen_max_age, configured_path, configured_seconds, path_unset,
    read_from_a_directory, seconds_unset, Lookup, StartupError, DIRECTORY_KEY, MAX_AGE_KEY,
};
use rocket::figment::Figment;
use rocket::response::Response;
use vstd::prelude::*;

verus! {

/// The name `Cache-Control` as it is usually written is the name under which
/// the policy is set.
pub proof fn cache_control_is_the_policy_name()
    ensures
        same_name("Cache-Control"@, CACHE_CONTROL@),
{
    reveal_strlit("Cache-Control");
    reveal_strlit("Cache-control");
}

/// The header value is the one directive `max-age`: the text `max-age=`
/// followed by digits and nothing else.
pub proof fn cache_control_is_one_directive(max_age: nat)
    ensures
        cache_control(max_age).len() > 8,
        cache_control(max_age).subrange(0, 8) == "max-age="@,
        all_digits(cache_control(max_age).subrange(8, cache_control(max_age).len() as int)),
{
    reveal_strlit("max-age=");
    decimal_is_canonical(max_age);
}

/// Startup succeeds exactly when the directory setting is well formed, the
/// chosen path can be normalized, a directory lies at the normalized path,
/// and the cache lifetime setting is well formed and not negative. The
/// registry then holds the normalized directory and the chosen lifetime.
pub proof fn startup_succeeds_when_settings_hold(
    directory: Lookup<String>,
    normalized: Result<String, std::io::Error>,
    is_directory: bool,
    max_age: Lookup<i32>,
    outcome: Result<Assets, StartupError>,
)
    requires
        started(directory, normalized, is_directory, max_age, outcome),
    ensures
        outcome is Ok <==> chosen_directory(directory) is Some && normalized is Ok && is_directory
            && chosen_max_age(max_age) is Some,
        outcome matches Ok(assets) ==> assets@.directory == normalized->Ok_0@ && Some(
            assets@.max_age,
        ) == chosen_max_age(max_age),
{
}

/// A directory that cannot be normalized, because it does not exist or
/// cannot be reached, ends startup, whatever else is configured.
pub proof fn unreachable_directory_ends_startup(
    directory: Lookup<String>,
    cause: std::io::Error,
    is_directory: bool,
    max_age: Lookup<i32>,
    outcome: Result<Assets, StartupError>,
)
    requires
        started(directory, Err(cause), is_directory, max_age, outcome),
    ensures
        outcome is Err,
{
}

/// A path at which something other than a directory lies, such as a regular
/// file, ends startup, whatever else is configured. Where the directory
/// setting is well formed, the error names the path that was chosen.
pub proof fn a_file_is_no_asset_root(
    directory: Lookup<String>,
    normalized: String,
    max_age: Lookup<i32>,
    outcome: Result<Assets, StartupError>,
)
    requires
        started(directory, Ok(normalized), false, max_age, outcome),
    ensures
        outcome is Err,
        chosen_directory(directory) matches Some(requested) ==> outcome matches Err(
            StartupError::NotADirectory { path },
        ) && path@ == requested,
{
}

/// The directory of a registry that startup resolved is rooted, and so is
/// the path of every asset below it.
pub proof fn resolved_directory_is_rooted(
    directory: Lookup<String>,
    max_age: Lookup<i32>,
    assets: Assets,
    relative: Seq<char>,
)
    requires
        resolved(directory, max_age, Ok(assets)),
    ensures
        is_rooted(assets@.directory),
        is_rooted(joined(assets@.directory, relative)),
{
}

/// Where neither key is set, startup looks for the directory `assets/` and,
/// where it finds it, takes a cache lifetime of 86400 seconds.
pub proof fn unset_keys_take_the_defaults(figment: Figment, outcome: Result<Assets, StartupError>)
    requires
        configured_path(figment, DIRECTORY_KEY@) is None,
        path_unset(figment, DIRECTORY_KEY@),
        configured_seconds(figment, MAX_AGE_KEY@) is None,
        seconds_unset(figment, MAX_AGE_KEY@),
        ignited(figment, outcome),
    ensures
        (match outcome {
            Ok(assets) => assets@.max_age == 86400,
            Err(StartupError::UnresolvableDirectory { path, .. }) => path@ == "assets/"@,
            Err(StartupError::NotADirectory { path }) => path@ == "assets/"@,
            Err(_) => false,
        }),
{
}

/// A directory setting that is set but is no path ends startup before the
/// file system is asked.
pub proof fn a_malformed_directory_ends_startup(
    figment: Figment,
    outcome: Result<Assets, StartupError>,
)
    requires
        configured_path(figment, DIRECTORY_KEY@) is None,
        !path_unset(figment, DIRECTORY_KEY@),
        ignited(figment, outcome),
    ensures
        outcome matches Err(StartupError::MalformedDirectory(_)),
{
}

/// A cache lifetime that is set but is no `i32`, or is negative, ends
/// startup: no registry is made with a default in its place.
pub proof fn a_malformed_lifetime_ends_startup(
    figment: Figment,
    outcome: Result<Assets, StartupError>,
)
    requires
        match configured_seconds(figment, MAX_AGE_KEY@) {
            Some(seconds) => seconds < 0,
            None => !seconds_unset(figment, MAX_AGE_KEY@),
        },
        ignited(figment, outcome),
    ensures
        outcome is Err,
{
}

/// A registry that startup makes of a configuration holds the configured
/// lifetime, and its directory is the normalized form of a path that is the
/// configured one read from some directory.
pub proof fn configured_settings_reach_the_registry(
    figment: Figment,
    written: Seq<char>,
    seconds: i32,
    assets: Assets,
)
    requires
        configured_path(figment, DIRECTORY_KEY@) == Some(written),
        configured_seconds(figment, MAX_AGE_KEY@) == Some(seconds),
        ignited(figment, Ok(assets)),
    ensures
        seconds >= 0,
        assets@.max_age == seconds,
        is_rooted(assets@.directory),
{
}

/// Where the configured path cannot be normalized or is no directory, the
/// error names the configured path, read from some directory.
pub proof fn a_failed_directory_is_named(
    figment: Figment,
    written: Seq<char>,
    outcome: Result<Assets, StartupError>,
)
    requires
        configured_path(figment, DIRECTORY_KEY@) == Some(written),
        ignited(figment, outcome),
    ensures
        outcome matches Err(StartupError::UnresolvableDirectory { path, .. })
            ==> read_from_a_directory(written, path@),
        outcome matches Err(StartupError::NotADirectory { path }) ==> read_from_a_directory(
            written,
            path@,
        ),
        !(outcome matches Err(StartupError::MalformedDirectory(_))),
{
}

/// Where a cache lifetime of `seconds` is configured, every asset that is
/// served from the registry goes out with `Cache-Control` set exactly once,
/// to `max-age=` and the seconds in decimal.
pub proof fn configured_lifetime_is_served<F>(
    requested: Seq<char>,
    directory: String,
    is_directory: bool,
    seconds: i32,
    assets: Assets,
    file: F,
    asset: Asset<F>,
    base: Response<'static>,
    response: Response<'static>,
)
    requires
        assembled(requested, Ok(directory), is_directory, Lookup::Present(seconds), Ok(assets)),
        asset@ == assets.opened(file),
        carries_policy(base, asset@.max_age, response),
    ensures
        seconds >= 0,
        header_values(response, "Cache-Control"@) == seq!["max-age="@ + decimal(seconds as nat)],
{
    cache_control_is_the_policy_name();
}

/// Where no cache lifetime is configured, every asset that is served from
/// the registry goes out with `Cache-Control: max-age=86400`.
pub proof fn default_lifetime_is_one_day<F>(
    requested: Seq<char>,
    directory: String,
    is_directory: bool,
    assets: Assets,
    file: F,
    asset: Asset<F>,
    base: Response<'static>,
    response: Response<'static>,
)
    requires
        assembled(requested, Ok(directory), is_directory, Lookup::Absent, Ok(assets)),
        asset@ == assets.opened(file),
        carries_policy(base, asset@.max_age, response),
    ensures
        header_values(response, "Cache-Control"@) == seq!["max-age=86400"@],
{
    cache_control_is_the_policy_name();
    reveal_strlit("max-age=");
    reveal_strlit("max-age=86400");
    reveal_with_fuel(decimal, 6);
    assert(cache_control(86400) =~= "max-age=86400"@);
}

} // verus!
