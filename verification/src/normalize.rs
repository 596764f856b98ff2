use vstd::prelude::*;
use vstd::string::StringExecFns;

use rand::seq::SliceRandom;

use crate::dates::{convert_date_to_year, convert_string_to_date, date_of_str, year_of_str, Date};
use crate::models::{
    ComicSpecifics, MediaDetails, MediaLot, MediaSource, MetadataImageForMediaDetails,
    MetadataImageLot, MetadataSearchItem, NamedObject, PartialMetadataWithoutId, ProviderError,
    SearchDetails, SearchResults, StudiesSpecifics, SuggestionView,
};
use crate::numtext::{dec_str_int, decimal_string_i128};
use crate::raw::{opt_list, opt_named, ItemData, ItemNode};

verus! {

/// The closed mapping from a catalog namespace to its media-kind tag; any
/// other namespace is a programming-error invariant violation.
pub fn media_lot_for_namespace(namespace: &str) -> (r: Result<MediaLot, ProviderError>)
    ensures
        namespace@ == "studies"@ ==> r == Ok::<MediaLot, ProviderError>(MediaLot::Studies),
        namespace@ == "comic"@ ==> r == Ok::<MediaLot, ProviderError>(MediaLot::Comic),
        namespace@ != "studies"@ && namespace@ != "comic"@ ==> r == Err::<
            MediaLot,
            ProviderError,
        >(ProviderError::InvariantViolation),
{
    proof {
        reveal_strlit("studies");
        reveal_strlit("comic");
        assert("studies"@.len() == 7);
        assert("comic"@.len() == 5);
        assert("studies"@ != "comic"@);
    }
    let owned = namespace.to_owned();
    if owned == String::from_str("studies") {
        Ok(MediaLot::Studies)
    } else if owned == String::from_str("comic") {
        Ok(MediaLot::Comic)
    } else {
        Err(ProviderError::InvariantViolation)
    }
}

/// The page a search runs at when the caller names none.
pub fn effective_page(page: Option<i32>) -> (r: i32)
    requires
        page matches Some(p) ==> 1 <= p,
    ensures
        r == (match page {
            Some(p) => p,
            None => 1,
        }),
        1 <= r,
{
    match page {
        Some(p) => p,
        None => 1,
    }
}

/// The upstream offset of a page: pages are one-based and hold `limit`
/// entries each.
pub fn search_offset(page: i32, limit: i32) -> (r: i32)
    requires
        1 <= page,
        0 <= limit,
        (page - 1) * limit <= i32::MAX,
    ensures
        r == (page - 1) * limit,
{
    proof {
        assert((page - 1) * limit >= 0) by (nonlinear_arith)
            requires
                1 <= page,
                0 <= limit,
        ;
    }
    (page - 1) * limit
}

/// The publish year a raw start-date field yields, absent when the field is
/// absent or unparsable.
pub open spec fn opt_year(o: Option<String>) -> Option<i32> {
    match o {
        None => None,
        Some(s) => year_of_str(s@),
    }
}

/// The publish date a raw start-date field yields, absent when the field is
/// absent or unparsable.
pub open spec fn opt_date(o: Option<String>) -> Option<Date> {
    match o {
        None => None,
        Some(s) => date_of_str(s@),
    }
}

/// The NSFW flag a raw rating classification yields: unknown when the field
/// is absent, all-ages exactly for the sentinel `"white"`.
pub open spec fn nsfw_flag(raw: Option<String>) -> Option<bool> {
    match raw {
        None => None,
        Some(s) => Some(!(s@ == "white"@)),
    }
}

fn derive_is_nsfw(raw: &Option<String>) -> (r: Option<bool>)
    ensures
        r == nsfw_flag(*raw),
{
    match raw {
        None => None,
        Some(s) => {
            let white = String::from_str("white");
            Some(!(*s == white))
        },
    }
}

/// What one canonical search item holds of the raw node it was read from.
pub open spec fn search_item_matches(item: MetadataSearchItem, d: ItemData) -> bool {
    &&& item.identifier@ == dec_str_int(d.node.id as int)
    &&& item.title == d.node.title
    &&& item.publish_year == opt_year(d.node.start_date)
    &&& item.image == Some(d.node.main_picture.large)
}

/// Translates one raw search node to the canonical search-item shape.
pub fn search_item_of(d: &ItemData) -> (r: MetadataSearchItem)
    ensures
        search_item_matches(r, *d),
{
    let publish_year = match &d.node.start_date {
        None => None,
        Some(s) => convert_date_to_year(s.as_str()),
    };
    MetadataSearchItem {
        identifier: decimal_string_i128(d.node.id),
        title: d.node.title.clone(),
        publish_year,
        image: Some(d.node.main_picture.large.clone()),
    }
}

/// Translates one raw search page to the canonical shape: every node mapped
/// in order, an advisory total of 100 (the upstream payload reports no true
/// count), and a next page exactly when the raw paging cursor is non-null.
pub fn normalize_search(data: &Vec<ItemData>, page: i32, next: &Option<String>) -> (r:
    SearchResults<MetadataSearchItem>)
    requires
        1 <= page < i32::MAX,
    ensures
        r.details.total == 100,
        r.details.next_page == (if (*next) is Some {
            Some((page + 1) as i32)
        } else {
            None::<i32>
        }),
        r.items@.len() == data@.len(),
        forall|i: int|
            0 <= i < data@.len() ==> search_item_matches(#[trigger] r.items@[i], data@[i]),
{
    let mut items: Vec<MetadataSearchItem> = Vec::new();
    let mut i: usize = 0;
    while i < data.len()
        invariant
            i <= data@.len(),
            items@.len() == i,
            forall|j: int| 0 <= j < i ==> search_item_matches(#[trigger] items@[j], data@[j]),
        decreases data@.len() - i,
    {
        items.push(search_item_of(&data[i]));
        i += 1;
    }
    let next_page = match next {
        Some(_) => Some(page + 1),
        None => None,
    };
    SearchResults { details: SearchDetails { total: 100, next_page }, items }
}

/// The view of a suggestion built from one raw cross-reference, tagged with
/// the lot of the relation list it stood in.
pub open spec fn suggestion_view(d: ItemData, lot: MediaLot) -> SuggestionView {
    SuggestionView {
        identifier: dec_str_int(d.node.id as int),
        title: d.node.title@,
        image: Some(d.node.main_picture.large@),
        source: MediaSource::Mal,
        lot,
    }
}

/// The views of a whole relation list, in its order.
pub open spec fn suggestion_views(s: Seq<ItemData>, lot: MediaLot) -> Seq<SuggestionView> {
    s.map_values(|d: ItemData| suggestion_view(d, lot))
}

/// The views of a suggestions list, element by element.
pub open spec fn seq_view(s: Seq<PartialMetadataWithoutId>) -> Seq<SuggestionView> {
    s.map_values(|p: PartialMetadataWithoutId| p@)
}

/// The combined suggestions a raw node yields before shuffling: all
/// related-episodic entries tagged episodic, then all related-print entries
/// tagged print, then all recommendations tagged with the node's own lot.
pub open spec fn suggestions_view_of(node: ItemNode, lot: MediaLot) -> Seq<SuggestionView> {
    suggestion_views(opt_list(node.related_studies), MediaLot::Studies) + suggestion_views(
        opt_list(node.related_comic),
        MediaLot::Comic,
    ) + suggestion_views(opt_list(node.recommendations), lot)
}

fn push_suggestions(
    list: &Option<Vec<ItemData>>,
    lot: MediaLot,
    out: &mut Vec<PartialMetadataWithoutId>,
)
    ensures
        seq_view(final(out)@) == seq_view(old(out)@) + suggestion_views(opt_list(*list), lot),
{
    match list {
        None => {
            proof {
                assert(seq_view(out@) =~= seq_view(out@) + suggestion_views(
                    Seq::empty(),
                    lot,
                ));
            }
        },
        Some(v) => {
            let mut i: usize = 0;
            while i < v.len()
                invariant
                    i <= v@.len(),
                    seq_view(out@) == seq_view(old(out)@) + suggestion_views(
                        v@.take(i as int),
                        lot,
                    ),
                decreases v@.len() - i,
            {
                let d = &v[i];
                let p = PartialMetadataWithoutId {
                    identifier: decimal_string_i128(d.node.id),
                    title: d.node.title.clone(),
                    image: Some(d.node.main_picture.large.clone()),
                    source: MediaSource::Mal,
                    lot,
                };
                proof {
                    assert(p@ =~= suggestion_view(v@[i as int], lot));
                }
                let ghost pre = out@;
                out.push(p);
                proof {
                    assert(out@ =~= pre.push(p));
                    assert(seq_view(out@) =~= seq_view(pre).push(p@));
                    assert(v@.take(i as int + 1) =~= v@.take(i as int).push(v@[i as int]));
                    assert(suggestion_views(v@.take(i as int + 1), lot) =~= suggestion_views(
                        v@.take(i as int),
                        lot,
                    ).push(suggestion_view(v@[i as int], lot)));
                    assert(seq_view(out@) =~= seq_view(old(out)@) + suggestion_views(
                        v@.take(i as int + 1),
                        lot,
                    ));
                }
                i += 1;
            }
            proof {
                assert(v@.take(v@.len() as int) =~= v@);
                assert(seq_view(out@) =~= seq_view(old(out)@) + suggestion_views(v@, lot));
            }
        },
    }
}

/// Relies on rand's `SliceRandom::shuffle` with the process-wide generator:
/// a Fisher-Yates pass permutes the slice in place, so the contents and the
/// length are kept whatever the drawn order.
#[verifier::external_body]
fn shuffle_suggestions(v: &mut Vec<PartialMetadataWithoutId>)
    ensures
        final(v)@.len() == old(v)@.len(),
        seq_view(final(v)@).to_multiset() == seq_view(old(v)@).to_multiset(),
{
    v.as_mut_slice().shuffle(&mut rand::thread_rng());
}

/// The raw tracker names, flattened to plain strings.
pub open spec fn tracker_names(o: Option<Vec<NamedObject>>) -> Seq<String> {
    opt_named(o).map_values(|g: NamedObject| g.name)
}

fn flatten_names(list: &Option<Vec<NamedObject>>) -> (r: Vec<String>)
    ensures
        r@ == tracker_names(*list),
{
    let mut out: Vec<String> = Vec::new();
    match list {
        None => {
            proof {
                assert(out@ =~= tracker_names(*list));
            }
        },
        Some(v) => {
            let mut i: usize = 0;
            while i < v.len()
                invariant
                    i <= v@.len(),
                    out@ == v@.take(i as int).map_values(|g: NamedObject| g.name),
                decreases v@.len() - i,
            {
                out.push(v[i].name.clone());
                proof {
                    assert(out@ =~= v@.take(i as int + 1).map_values(
                        |g: NamedObject| g.name,
                    ));
                }
                i += 1;
            }
            proof {
                assert(v@.take(v@.len() as int) =~= v@);
            }
        },
    }
    out
}

/// Law of the combined suggestions list: it holds exactly as many entries
/// as the three relation lists together.
pub proof fn lemma_suggestions_count(node: ItemNode, lot: MediaLot)
    ensures
        suggestions_view_of(node, lot).len() == opt_list(node.related_studies).len() + opt_list(
            node.related_comic,
        ).len() + opt_list(node.recommendations).len(),
{
}

/// Law of suggestion membership: whatever order a shuffle leaves the list
/// in, every member is the view of an entry of one of the three relation
/// lists, tagged with the episodic lot for a related-episodic entry, the
/// print lot for a related-print entry, and the node's own lot for a
/// recommendation.
pub proof fn lemma_suggestions_membership(node: ItemNode, lot: MediaLot, x: SuggestionView)
    requires
        suggestions_view_of(node, lot).to_multiset().contains(x),
    ensures
        x.source == MediaSource::Mal,
        x.lot == MediaLot::Studies || x.lot == MediaLot::Comic || x.lot == lot,
        (exists|j: int|
            0 <= j < opt_list(node.related_studies).len() && x == suggestion_view(
                opt_list(node.related_studies)[j],
                MediaLot::Studies,
            )) || (exists|j: int|
            0 <= j < opt_list(node.related_comic).len() && x == suggestion_view(
                opt_list(node.related_comic)[j],
                MediaLot::Comic,
            )) || (exists|j: int|
            0 <= j < opt_list(node.recommendations).len() && x == suggestion_view(
                opt_list(node.recommendations)[j],
                lot,
            )),
{
    broadcast use vstd::seq_lib::group_to_multiset_ensures;

    let s = suggestions_view_of(node, lot);
    assert(s.contains(x));
    let i = choose|i: int| 0 <= i < s.len() && s[i] == x;
    let a = suggestion_views(opt_list(node.related_studies), MediaLot::Studies);
    let b = suggestion_views(opt_list(node.related_comic), MediaLot::Comic);
    let c = suggestion_views(opt_list(node.recommendations), lot);
    if i < a.len() {
        assert(x == suggestion_view(opt_list(node.related_studies)[i], MediaLot::Studies));
    } else if i < a.len() + b.len() {
        assert(x == suggestion_view(opt_list(node.related_comic)[i - a.len()], MediaLot::Comic));
    } else {
        assert(x == suggestion_view(
            opt_list(node.recommendations)[i - a.len() - b.len()],
            lot,
        ));
    }
}

/// NSFW derivation law: an absent raw rating yields an unknown flag, the
/// all-ages sentinel `"white"` yields an explicit false, and any other
/// rating string yields an explicit true.
pub proof fn lemma_nsfw_derivation(raw: Option<String>)
    ensures
        raw is None ==> nsfw_flag(raw) is None,
        (raw matches Some(s) && s@ == "white"@) ==> nsfw_flag(raw) == Some(false),
        (raw matches Some(s) && s@ != "white"@) ==> nsfw_flag(raw) == Some(true),
{
}

/// Translates one raw catalog node to the canonical details record for the
/// given lot. Exactly the specifics variant matching the lot can be
/// populated, the other is always absent: print specifics appear only on a
/// print record whose node carries both the chapter and the volume count,
/// episodic specifics only on an episodic record whose node carries an
/// episode count. The suggestions hold the three relation lists' entries,
/// shuffled.
pub fn normalize_details(node: &ItemNode, lot: MediaLot) -> (r: MediaDetails)
    ensures
        r.identifier@ == dec_str_int(node.id as int),
        r.title == node.title,
        r.source == MediaSource::Mal,
        r.lot == lot,
        r.description == node.synopsis,
        r.is_nsfw == nsfw_flag(node.nsfw),
        r.production_status == node.status,
        r.trackers@ == tracker_names(node.trackers),
        (r.url_images@ =~= seq![
            MetadataImageForMediaDetails {
                image: node.main_picture.large,
                lot: MetadataImageLot::Poster,
            },
        ]),
        r.publish_year == opt_year(node.start_date),
        r.publish_date == opt_date(node.start_date),
        r.provider_rating == node.mean,
        r.studies_specifics == (if lot == MediaLot::Studies {
            match node.num_episodes {
                Some(e) => Some(StudiesSpecifics { episodes: Some(e) }),
                None => None::<StudiesSpecifics>,
            }
        } else {
            None::<StudiesSpecifics>
        }),
        r.comic_specifics == (if lot == MediaLot::Comic {
            match (node.num_volumes, node.num_chapters) {
                (Some(v), Some(c)) => Some(
                    ComicSpecifics { chapters: Some(c), volumes: Some(v), url: None },
                ),
                _ => None::<ComicSpecifics>,
            }
        } else {
            None::<ComicSpecifics>
        }),
        r.suggestions@.len() == opt_list(node.related_studies).len() + opt_list(
            node.related_comic,
        ).len() + opt_list(node.recommendations).len(),
        seq_view(r.suggestions@).to_multiset() == suggestions_view_of(*node, lot).to_multiset(),
{
    let comic_specifics = if matches!(lot, MediaLot::Comic) {
        match (&node.num_volumes, &node.num_chapters) {
            (Some(v), Some(c)) => Some(
                ComicSpecifics { chapters: Some(*c), volumes: Some(*v), url: None },
            ),
            _ => None,
        }
    } else {
        None
    };
    let studies_specifics = if matches!(lot, MediaLot::Studies) {
        match &node.num_episodes {
            Some(e) => Some(StudiesSpecifics { episodes: Some(*e) }),
            None => None,
        }
    } else {
        None
    };
    let mut suggestions: Vec<PartialMetadataWithoutId> = Vec::new();
    push_suggestions(&node.related_studies, MediaLot::Studies, &mut suggestions);
    push_suggestions(&node.related_comic, MediaLot::Comic, &mut suggestions);
    push_suggestions(&node.recommendations, lot, &mut suggestions);
    proof {
        assert(seq_view(suggestions@) =~= suggestions_view_of(*node, lot));
    }
    shuffle_suggestions(&mut suggestions);
    let (publish_year, publish_date) = match &node.start_date {
        None => (None, None),
        Some(s) => (convert_date_to_year(s.as_str()), convert_string_to_date(s.as_str())),
    };
    let provider_rating = match &node.mean {
        None => None,
        Some(m) => Some(m.clone()),
    };
    let description = match &node.synopsis {
        None => None,
        Some(s) => Some(s.clone()),
    };
    let production_status = match &node.status {
        None => None,
        Some(s) => Some(s.clone()),
    };
    MediaDetails {
        identifier: decimal_string_i128(node.id),
        title: node.title.clone(),
        source: MediaSource::Mal,
        description,
        lot,
        is_nsfw: derive_is_nsfw(&node.nsfw),
        production_status,
        trackers: flatten_names(&node.trackers),
        url_images: vec![
            MetadataImageForMediaDetails {
                image: node.main_picture.large.clone(),
                lot: MetadataImageLot::Poster,
            },
        ],
        publish_year,
        publish_date,
        suggestions,
        provider_rating,
        studies_specifics,
        comic_specifics,
    }
}

} // verus!
