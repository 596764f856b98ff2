use vstd::prelude::*;

verus! {

/// The media-kind tag distinguishing episodic-series catalog entries from
/// serialized-print entries; it drives which specifics variant applies.
#[derive(Clone, Copy, PartialEq, Eq, Structural, Debug)]
pub enum MediaLot {
    Studies,
    Comic,
}

/// The external catalog a record comes from.
#[derive(Clone, Copy, PartialEq, Eq, Structural, Debug)]
pub enum MediaSource {
    Mal,
}

/// The role an image plays on a details record.
#[derive(Clone, Copy, PartialEq, Eq, Structural, Debug)]
pub enum MetadataImageLot {
    Poster,
}

/// Failure taxonomy of a provider operation: transport failures and
/// undecodable payloads carry context, a non-media provider invoked for a
/// catalog operation reports `Unsupported`, and an unrecognized namespace
/// reaching the lot mapping reports `InvariantViolation`.
#[derive(Debug)]
pub enum ProviderError {
    Transport(String),
    Decode(String),
    Unsupported,
    InvariantViolation,
}

/// A raw `{name}` object, flattened to its name during translation.
#[derive(Debug)]
pub struct NamedObject {
    pub name: String,
}

/// One search result in the canonical shape.
#[derive(Debug)]
pub struct MetadataSearchItem {
    pub identifier: String,
    pub title: String,
    pub publish_year: Option<i32>,
    pub image: Option<String>,
}

/// Pagination summary of a search response. `next_page` is `None` exactly
/// when the source signals no further pages.
#[derive(Debug)]
pub struct SearchDetails {
    pub total: i32,
    pub next_page: Option<i32>,
}

/// A page of search results.
#[derive(Debug)]
pub struct SearchResults<T> {
    pub details: SearchDetails,
    pub items: Vec<T>,
}

/// A lightweight cross-reference to another catalog entry, used only inside
/// a details record's suggestions list.
#[derive(Debug)]
pub struct PartialMetadataWithoutId {
    pub identifier: String,
    pub title: String,
    pub image: Option<String>,
    pub source: MediaSource,
    pub lot: MediaLot,
}

/// An image URL together with its role.
#[derive(Debug)]
pub struct MetadataImageForMediaDetails {
    pub image: String,
    pub lot: MetadataImageLot,
}

/// Kind-specific payload of an episodic-series record.
#[derive(Debug)]
pub struct StudiesSpecifics {
    pub episodes: Option<i32>,
}

/// Kind-specific payload of a serialized-print record.
#[derive(Debug)]
pub struct ComicSpecifics {
    pub chapters: Option<i32>,
    pub volumes: Option<i32>,
    pub url: Option<String>,
}

/// The canonical record for one catalog entry. Exactly the specifics variant
/// matching `lot` is populated by the translation.
#[derive(Debug)]
pub struct MediaDetails {
    pub identifier: String,
    pub title: String,
    pub source: MediaSource,
    pub description: Option<String>,
    pub lot: MediaLot,
    pub is_nsfw: Option<bool>,
    pub production_status: Option<String>,
    pub trackers: Vec<String>,
    pub url_images: Vec<MetadataImageForMediaDetails>,
    pub publish_year: Option<i32>,
    pub publish_date: Option<crate::dates::Date>,
    pub suggestions: Vec<PartialMetadataWithoutId>,
    pub provider_rating: Option<rust_decimal::Decimal>,
    pub studies_specifics: Option<StudiesSpecifics>,
    pub comic_specifics: Option<ComicSpecifics>,
}

/// Provider ratings are carried through opaquely as decimals of the
/// `rust_decimal` crate; the translation never reads into one.
#[verifier::external_type_specification]
#[verifier::external_body]
pub struct ExDecimal(rust_decimal::Decimal);

/// Relies on `rust_decimal::Decimal` being `Copy`: its derived `clone`
/// returns the value itself.
pub assume_specification[ <rust_decimal::Decimal as Clone>::clone ](
    d: &rust_decimal::Decimal,
) -> (r: rust_decimal::Decimal)
    ensures
        r == *d,
;

/// The mathematical shape of one suggestion: every text field as its
/// character sequence.
#[verifier::ext_equal]
pub struct SuggestionView {
    pub identifier: Seq<char>,
    pub title: Seq<char>,
    pub image: Option<Seq<char>>,
    pub source: MediaSource,
    pub lot: MediaLot,
}

impl View for PartialMetadataWithoutId {
    type V = SuggestionView;

    open spec fn view(&self) -> SuggestionView {
        SuggestionView {
            identifier: self.identifier@,
            title: self.title@,
            image: match self.image {
                Some(s) => Some(s@),
                None => None,
            },
            source: self.source,
            lot: self.lot,
        }
    }
}

} // verus!
