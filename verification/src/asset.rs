//! One opened asset and the header that goes out with it.

use crate::decimal::{append_decimal, decimal};
use crate::header::{header_values, same_name, set_raw_header, status_code};
use rocket::response::Response;
use vstd::prelude::*;

verus! {

/// The name under which the cache policy is sent.
pub const CACHE_CONTROL: &'static str = "Cache-control";

/// The value of the `Cache-Control` header for a lifetime of `max_age`
/// seconds: the one directive `max-age`, with the seconds in decimal.
pub open spec fn cache_control(max_age: nat) -> Seq<char> {
    "max-age="@ + decimal(max_age)
}

/// Whether `response` is `base` with its cache policy set to `max_age`
/// seconds: it has the status of `base`; under `Cache-Control`, in whatever
/// case the name is written, it holds the one value [`cache_control`]; and
/// under every other name it holds what `base` holds.
pub open spec fn carries_policy(
    base: Response<'static>,
    max_age: nat,
    response: Response<'static>,
) -> bool {
    &&& status_code(response) == status_code(base)
    &&& forall|name: Seq<char>| #[trigger]
        header_values(response, name) == if same_name(name, CACHE_CONTROL@) {
            seq![cache_control(max_age)]
        } else {
            header_values(base, name)
        }
}

/// An asset that can be returned from a route: the opened file, and for how
/// many seconds a client may keep what it is sent.
pub struct Asset<F> {
    file: F,
    cache_max_age: u32,
}

/// What an [`Asset`] holds.
pub struct AssetView<F> {
    /// The opened file.
    pub file: F,
    /// The seconds for which a client may keep the asset.
    pub max_age: nat,
}

impl<F> View for Asset<F> {
    type V = AssetView<F>;

    closed spec fn view(&self) -> AssetView<F> {
        AssetView { file: self.file, max_age: self.cache_max_age as nat }
    }
}

impl<F> Asset<F> {
    /// An asset of the opened `file` to be cached for `max_age` seconds.
    pub(crate) fn new(file: F, max_age: u32) -> (asset: Asset<F>)
        ensures
            asset@ == (AssetView { file, max_age: max_age as nat }),
    {
        Asset { file, cache_max_age: max_age }
    }

    /// The opened file.
    pub fn file(&self) -> (file: &F)
        ensures
            *file == self@.file,
    {
        &self.file
    }

    /// The seconds for which a client may keep the asset.
    pub fn max_age(&self) -> (seconds: u32)
        ensures
            seconds == self@.max_age,
    {
        self.cache_max_age
    }

    /// The value of the asset's `Cache-Control` header.
    pub fn cache_control(&self) -> (value: String)
        ensures
            value@ == cache_control(self@.max_age),
    {
        let mut value = "max-age=".to_owned();
        append_decimal(&mut value, self.cache_max_age);
        value
    }

    /// Turns the asset into its response.
    ///
    /// `build` makes the response of the opened file. Where it fails, its
    /// failure is handed on. Where it succeeds, the response leaves with one
    /// `Cache-Control` header, which holds the asset's lifetime and replaces
    /// whatever `build` had put under that name; the values under every
    /// other name are those that `build` gave.
    pub fn respond_to<B, E>(self, build: B) -> (outcome: Result<Response<'static>, E>) where
        B: FnOnce(F) -> Result<Response<'static>, E>,

        requires
            build.requires((self@.file,)),
        ensures
            (match outcome {
                Ok(response) => exists|base: Response<'static>|
                    #[trigger] build.ensures((self@.file,), Ok(base)) && carries_policy(
                        base,
                        self@.max_age,
                        response,
                    ),
                Err(failure) => build.ensures((self@.file,), Err(failure)),
            }),
    {
        let value = self.cache_control();
        match build(self.file) {
            Ok(base) => {
                let mut response = base;
                set_raw_header(&mut response, CACHE_CONTROL, value);
                Ok(response)
            },
            Err(failure) => Err(failure),
        }
    }
}

} // verus!
