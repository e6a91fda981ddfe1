//! OCF cache devices: a fast cache device in front of a slower core device.
//!
//! A device is described by a URI of the form
//! `ocf:///<name>?cache_bdev=<A>&core_bdev=<B>&cache_mode=<mode>&cache_line_size=<n>&uuid=<u>`.

use crate::decimal::{parse_u64, spec_parse_u64};
use crate::error::{BdevError, BdevErrorView};
use crate::uri::{
    first_unknown, has_segment, lemma_first_unknown, parse_uri, query_value, spec_first_unknown,
    spec_has_segment, spec_path_name, spec_query_value, url_parts, ParsedUri, UriView,
};
use uuid::Uuid;
use vstd::prelude::*;
use vstd::string::StrSliceExecFns;

verus! {

/// A validated description of an OCF device.
#[derive(Debug, PartialEq, Eq)]
pub struct Ocf {
    name: String,
    cache_mode: String,
    cache_line_size: u64,
    cache_bdev_name: String,
    core_bdev_name: String,
    uuid: Option<String>,
}

/// `Ocf` with its strings as sequences of characters.
pub struct OcfView {
    /// The device name: the path of the URI without its leading slash.
    pub name: Seq<char>,
    /// The cache mode as written; `wb` where the URI gives none.
    pub cache_mode: Seq<char>,
    /// The cache line size; zero leaves the choice to the runtime.
    pub cache_line_size: u64,
    pub cache_bdev_name: Seq<char>,
    pub core_bdev_name: Seq<char>,
    /// The identity asked for, in canonical hyphenated form.
    pub uuid: Option<Seq<char>>,
}

/// A string of an optional string, as characters.
pub open spec fn option_view(text: Option<String>) -> Option<Seq<char>> {
    match text {
        Some(t) => Some(t@),
        None => None,
    }
}

impl View for Ocf {
    type V = OcfView;

    closed spec fn view(&self) -> OcfView {
        OcfView {
            name: self.name@,
            cache_mode: self.cache_mode@,
            cache_line_size: self.cache_line_size,
            cache_bdev_name: self.cache_bdev_name@,
            core_bdev_name: self.core_bdev_name@,
            uuid: option_view(self.uuid),
        }
    }
}

/// The canonical hyphenated form of the UUID that the `uuid` crate reads out
/// of `text`; `None` where it reads none.
pub uninterp spec fn uuid_canonical(text: Seq<char>) -> Option<Seq<char>>;

/// `Uuid::parse_str` of the `uuid` crate, its result written back with
/// `to_hyphenated`. The contract only names the outcome: the same text
/// always gives the same canonical form.
#[verifier::external_body]
pub(crate) fn canonical_uuid(text: &str) -> (canonical: Option<String>)
    ensures
        option_view(canonical) == uuid_canonical(text@),
{
    match Uuid::parse_str(text) {
        Ok(uuid) => Some(uuid.to_hyphenated().to_string()),
        Err(_) => None,
    }
}

/// The query parameters that an OCF descriptor may carry.
pub open spec fn ocf_parameters() -> Seq<Seq<char>> {
    seq!["cache_mode"@, "cache_line_size"@, "cache_bdev"@, "core_bdev"@, "uuid"@]
}

/// The outcome of validating a descriptor, the checks taken in this order:
/// the path, `cache_line_size`, `cache_bdev`, `core_bdev`, `uuid`, and last
/// the keys that no OCF device knows. `uuid` is the canonical form of the
/// value of the `uuid` parameter, `None` where that value is no UUID; it is
/// looked at only where the parameter is present.
pub open spec fn spec_validate(uri: UriView, uuid: Option<Seq<char>>) -> Result<
    OcfView,
    BdevErrorView,
> {
    let line_size = spec_query_value(uri.query, "cache_line_size"@);
    let cache_bdev = spec_query_value(uri.query, "cache_bdev"@);
    let core_bdev = spec_query_value(uri.query, "core_bdev"@);
    let wanted = spec_query_value(uri.query, "uuid"@);
    let unknown = spec_first_unknown(uri.query, ocf_parameters());
    if !spec_has_segment(uri.path) {
        Err(BdevErrorView::UriInvalid { uri: uri.uri, message: "no path segments"@ })
    } else if line_size is Some && spec_parse_u64(line_size->0) is None {
        Err(BdevErrorView::InvalidParameter { name: "cache_line_size"@, value: line_size->0 })
    } else if cache_bdev is None {
        Err(BdevErrorView::MissingParameter { name: "cache_bdev"@ })
    } else if core_bdev is None {
        Err(BdevErrorView::MissingParameter { name: "core_bdev"@ })
    } else if wanted is Some && uuid is None {
        Err(BdevErrorView::InvalidParameter { name: "uuid"@, value: wanted->0 })
    } else if unknown is Some {
        Err(BdevErrorView::UnknownParameter { name: unknown->0 })
    } else {
        Ok(
            OcfView {
                name: spec_path_name(uri.path),
                cache_mode: match spec_query_value(uri.query, "cache_mode"@) {
                    Some(mode) => mode,
                    None => "wb"@,
                },
                cache_line_size: match line_size {
                    Some(size) => spec_parse_u64(size)->0,
                    None => 0,
                },
                cache_bdev_name: cache_bdev->0,
                core_bdev_name: core_bdev->0,
                uuid: if wanted is Some {
                    uuid
                } else {
                    None
                },
            },
        )
    }
}

/// The canonical form of the `uuid` parameter of a query, as the `uuid`
/// crate reads it.
pub open spec fn spec_wanted_uuid(query: Seq<(Seq<char>, Seq<char>)>) -> Option<Seq<char>> {
    match spec_query_value(query, "uuid"@) {
        Some(value) => uuid_canonical(value),
        None => None,
    }
}

/// The outcome of reading a descriptor from its text.
pub open spec fn spec_try_from(text: Seq<char>) -> Result<OcfView, BdevErrorView> {
    match url_parts(text) {
        Some(uri) => spec_validate(uri, spec_wanted_uuid(uri.query)),
        None => Err(BdevErrorView::UriInvalid { uri: text, message: "not an absolute URI"@ }),
    }
}

/// Whether an outcome is the one that a specification gives.
pub open spec fn outcome_is(
    got: Result<Ocf, BdevError>,
    expected: Result<OcfView, BdevErrorView>,
) -> bool {
    match got {
        Ok(ocf) => expected == Ok::<OcfView, BdevErrorView>(ocf@),
        Err(error) => expected == Err::<OcfView, BdevErrorView>(error@),
    }
}

impl Ocf {
    #[verifier::type_invariant]
    closed spec fn named(self) -> bool {
        self.name@.len() > 0
    }

    /// The name under which the runtime registers the device.
    pub fn get_name(&self) -> (name: String)
        ensures
            name@ == self@.name,
            name@.len() > 0,
    {
        proof {
            use_type_invariant(self);
        }
        self.name.clone()
    }

    pub fn cache_mode(&self) -> (mode: &str)
        ensures
            mode@ == self@.cache_mode,
    {
        self.cache_mode.as_str()
    }

    pub fn cache_line_size(&self) -> (size: u64)
        ensures
            size == self@.cache_line_size,
    {
        self.cache_line_size
    }

    pub fn cache_bdev_name(&self) -> (name: &str)
        ensures
            name@ == self@.cache_bdev_name,
    {
        self.cache_bdev_name.as_str()
    }

    pub fn core_bdev_name(&self) -> (name: &str)
        ensures
            name@ == self@.core_bdev_name,
    {
        self.core_bdev_name.as_str()
    }

    /// The identity that the device is expected to report once constructed.
    pub fn uuid(&self) -> (uuid: Option<&String>)
        ensures
            match uuid {
                Some(u) => self@.uuid == Some(u@),
                None => self@.uuid is None,
            },
    {
        self.uuid.as_ref()
    }

    /// Validates a descriptor that has been read as a URI. `uuid` is what
    /// became of the value of its `uuid` parameter: the canonical form, or
    /// `None` where the value is no UUID or the parameter is absent.
    pub fn build(parts: &ParsedUri, uuid: Option<String>) -> (outcome: Result<Ocf, BdevError>)
        ensures
            outcome_is(outcome, spec_validate(parts@, option_view(uuid))),
    {
        if !has_segment(parts.path.as_str()) {
            return Err(
                BdevError::UriInvalid {
                    uri: parts.uri.clone(),
                    message: "no path segments".to_owned(),
                },
            );
        }
        let cache_line_size: u64 = match query_value(&parts.query, "cache_line_size") {
            Some(value) => match parse_u64(value.as_str()) {
                Some(size) => size,
                None => {
                    return Err(
                        BdevError::InvalidParameter {
                            name: "cache_line_size".to_owned(),
                            value: value.clone(),
                        },
                    );
                },
            },
            None => 0,
        };
        let cache_bdev_name = match query_value(&parts.query, "cache_bdev") {
            Some(value) => value.clone(),
            None => {
                return Err(BdevError::MissingParameter { name: "cache_bdev".to_owned() });
            },
        };
        let core_bdev_name = match query_value(&parts.query, "core_bdev") {
            Some(value) => value.clone(),
            None => {
                return Err(BdevError::MissingParameter { name: "core_bdev".to_owned() });
            },
        };
        let uuid = match query_value(&parts.query, "uuid") {
            Some(value) => match uuid {
                Some(canonical) => Some(canonical),
                None => {
                    return Err(
                        BdevError::InvalidParameter {
                            name: "uuid".to_owned(),
                            value: value.clone(),
                        },
                    );
                },
            },
            None => None,
        };
        let known = vec!["cache_mode", "cache_line_size", "cache_bdev", "core_bdev", "uuid"];
        assert(crate::uri::names_view(known@) =~= ocf_parameters());
        if let Some(key) = first_unknown(&parts.query, &known) {
            return Err(BdevError::UnknownParameter { name: key.clone() });
        }
        let cache_mode = match query_value(&parts.query, "cache_mode") {
            Some(value) => value.clone(),
            None => "wb".to_owned(),
        };
        let path = parts.path.as_str();
        let name = path.substring_char(1, path.unicode_len()).to_owned();
        assert(name@.len() > 0);
        Ok(Ocf { name, cache_mode, cache_line_size, cache_bdev_name, core_bdev_name, uuid })
    }

    /// Validates a descriptor that has been read as a URI.
    pub fn from_parts(parts: &ParsedUri) -> (outcome: Result<Ocf, BdevError>)
        ensures
            outcome_is(outcome, spec_validate(parts@, spec_wanted_uuid(parts@.query))),
    {
        let uuid = match query_value(&parts.query, "uuid") {
            Some(value) => canonical_uuid(value.as_str()),
            None => None,
        };
        Ocf::build(parts, uuid)
    }

    /// Reads and validates a descriptor.
    pub fn try_from(uri: &str) -> (outcome: Result<Ocf, BdevError>)
        ensures
            outcome_is(outcome, spec_try_from(uri@)),
    {
        match parse_uri(uri) {
            Some(parts) => Ocf::from_parts(&parts),
            None => Err(
                BdevError::UriInvalid {
                    uri: uri.to_owned(),
                    message: "not an absolute URI".to_owned(),
                },
            ),
        }
    }
}

/// Whether the line size of a descriptor, if it gives one, is a number.
pub open spec fn line_size_reads(query: Seq<(Seq<char>, Seq<char>)>) -> bool {
    spec_query_value(query, "cache_line_size"@) matches Some(value) ==> spec_parse_u64(
        value,
    ) is Some
}

/// A descriptor that lacks `cache_bdev` is refused as missing `cache_bdev`,
/// and one that has it and lacks `core_bdev` as missing `core_bdev`, whatever
/// its other parameters are. This holds of every descriptor whose path names
/// a device and whose line size reads: those two checks come first.
pub proof fn law_missing_parameter(uri: UriView, uuid: Option<Seq<char>>)
    requires
        spec_has_segment(uri.path),
        line_size_reads(uri.query),
    ensures
        spec_query_value(uri.query, "cache_bdev"@) is None ==> spec_validate(uri, uuid) == Err::<
            OcfView,
            BdevErrorView,
        >(BdevErrorView::MissingParameter { name: "cache_bdev"@ }),
        spec_query_value(uri.query, "cache_bdev"@) is Some && spec_query_value(
            uri.query,
            "core_bdev"@,
        ) is None ==> spec_validate(uri, uuid) == Err::<OcfView, BdevErrorView>(
            BdevErrorView::MissingParameter { name: "core_bdev"@ },
        ),
{
}

/// Whether a descriptor passes every check that comes before the one for
/// unknown parameters.
pub open spec fn known_parameters_read(uri: UriView, uuid: Option<Seq<char>>) -> bool {
    &&& spec_has_segment(uri.path)
    &&& line_size_reads(uri.query)
    &&& spec_query_value(uri.query, "cache_bdev"@) is Some
    &&& spec_query_value(uri.query, "core_bdev"@) is Some
    &&& spec_query_value(uri.query, "uuid"@) is Some ==> uuid is Some
}

/// A descriptor with a query key that no OCF device knows is never accepted.
/// Where its known parameters read, it is refused as `UnknownParameter`, and
/// the name in the error is the first such key of the query: the key at
/// `at` where no unknown key is written before it.
pub proof fn law_unknown_parameter(uri: UriView, uuid: Option<Seq<char>>, at: int)
    requires
        0 <= at < uri.query.len(),
        !ocf_parameters().contains(uri.query[at].0),
    ensures
        spec_validate(uri, uuid) is Err,
        known_parameters_read(uri, uuid) ==> spec_validate(uri, uuid) == Err::<
            OcfView,
            BdevErrorView,
        >(
            BdevErrorView::UnknownParameter {
                name: spec_first_unknown(uri.query, ocf_parameters())->0,
            },
        ),
        spec_first_unknown(uri.query, ocf_parameters()) matches Some(name)
            && !ocf_parameters().contains(name) && (exists|i: int|
            0 <= i <= at && #[trigger] uri.query[i].0 == name),
        (forall|i: int| 0 <= i < at ==> ocf_parameters().contains(#[trigger] uri.query[i].0))
            ==> spec_first_unknown(uri.query, ocf_parameters()) == Some(uri.query[at].0),
{
    lemma_first_unknown(uri.query, ocf_parameters());
    crate::uri::lemma_first_unknown_at(uri.query, ocf_parameters(), at);
}

/// A descriptor whose `cache_line_size` is no unsigned number is refused as
/// `InvalidParameter`, with the name of the parameter and the value as it is
/// written. This holds of every descriptor whose path names a device: that
/// check comes first.
pub proof fn law_invalid_line_size(uri: UriView, uuid: Option<Seq<char>>)
    requires
        spec_has_segment(uri.path),
        !line_size_reads(uri.query),
    ensures
        spec_validate(uri, uuid) == Err::<OcfView, BdevErrorView>(
            BdevErrorView::InvalidParameter {
                name: "cache_line_size"@,
                value: spec_query_value(uri.query, "cache_line_size"@)->0,
            },
        ),
{
}

} // verus!
