use mal_provider::models::{MediaLot, MediaSource, MetadataImageLot, ProviderError};
use mal_provider::normalize::{
    effective_page, media_lot_for_namespace, normalize_details, normalize_search, search_item_of,
    search_offset,
};
use mal_provider::raw::{ItemData, ItemImage, ItemNode};

fn node(id: i128, title: &str) -> ItemNode {
    ItemNode {
        id,
        title: title.to_string(),
        main_picture: ItemImage {
            large: format!("img-{}", id),
        },
        nsfw: None,
        synopsis: None,
        trackers: None,
        studios: None,
        start_date: None,
        mean: None,
        status: None,
        num_episodes: None,
        num_chapters: None,
        num_volumes: None,
        related_studies: None,
        related_comic: None,
        recommendations: None,
    }
}

fn data(id: i128, title: &str) -> ItemData {
    ItemData {
        node: node(id, title),
    }
}

#[test]
fn search_scenario_page_two() {
    let items = vec![data(1, "steel alchemist"), data(2, "steel fortress"), data(3, "steelworks")];
    let r = normalize_search(&items, 2, &Some("cursor123".to_string()));
    assert_eq!(r.items.len(), 3);
    assert_eq!(r.details.total, 100);
    assert_eq!(r.details.next_page, Some(3));
    assert_eq!(r.items[0].identifier, "1");
    assert_eq!(r.items[1].title, "steel fortress");
    assert_eq!(r.items[2].image, Some("img-3".to_string()));
}

#[test]
fn search_empty_page_is_not_an_error() {
    let items: Vec<ItemData> = vec![];
    let r = normalize_search(&items, 1, &None);
    assert_eq!(r.items.len(), 0);
    assert_eq!(r.details.next_page, None);
}

#[test]
fn next_page_follows_the_raw_cursor() {
    let items = vec![data(7, "a")];
    let with_cursor = normalize_search(&items, 5, &Some("n".to_string()));
    assert_eq!(with_cursor.details.next_page, Some(6));
    let without_cursor = normalize_search(&items, 5, &None);
    assert_eq!(without_cursor.details.next_page, None);
}

#[test]
fn search_item_publish_year_from_date() {
    let mut d = data(42, "dated");
    d.node.start_date = Some("2021-03-05".to_string());
    let item = search_item_of(&d);
    assert_eq!(item.publish_year, Some(2021));
    assert_eq!(item.identifier, "42");
}

#[test]
fn search_item_year_absent_when_unparsable() {
    let mut d = data(42, "undated");
    d.node.start_date = Some("soon".to_string());
    assert_eq!(search_item_of(&d).publish_year, None);
    d.node.start_date = None;
    assert_eq!(search_item_of(&d).publish_year, None);
}

#[test]
fn details_episodic_specifics() {
    let mut n = node(10, "steel alchemist");
    n.num_episodes = Some(12);
    let lot = media_lot_for_namespace("studies").unwrap();
    let r = normalize_details(&n, lot);
    assert_eq!(r.lot, MediaLot::Studies);
    let s = r.studies_specifics.unwrap();
    assert_eq!(s.episodes, Some(12));
    assert!(r.comic_specifics.is_none());
}

#[test]
fn print_specifics_need_both_counts() {
    let mut n = node(11, "print");
    n.num_chapters = Some(30);
    let only_chapters = normalize_details(&n, MediaLot::Comic);
    assert!(only_chapters.comic_specifics.is_none());

    let mut n = node(11, "print");
    n.num_volumes = Some(4);
    let only_volumes = normalize_details(&n, MediaLot::Comic);
    assert!(only_volumes.comic_specifics.is_none());

    let mut n = node(11, "print");
    n.num_chapters = Some(30);
    n.num_volumes = Some(4);
    let both = normalize_details(&n, MediaLot::Comic);
    let c = both.comic_specifics.unwrap();
    assert_eq!(c.chapters, Some(30));
    assert_eq!(c.volumes, Some(4));
    assert_eq!(c.url, None);
    assert!(both.studies_specifics.is_none());
}

#[test]
fn specifics_follow_the_lot() {
    let mut n = node(12, "both-counted");
    n.num_episodes = Some(24);
    n.num_chapters = Some(100);
    n.num_volumes = Some(10);
    let as_studies = normalize_details(&n, MediaLot::Studies);
    assert!(as_studies.comic_specifics.is_none());
    assert_eq!(as_studies.studies_specifics.unwrap().episodes, Some(24));
    let as_comic = normalize_details(&n, MediaLot::Comic);
    assert!(as_comic.studies_specifics.is_none());
    let c = as_comic.comic_specifics.unwrap();
    assert_eq!((c.chapters, c.volumes), (Some(100), Some(10)));
}

#[test]
fn nsfw_white_means_all_ages() {
    let mut n = node(1, "t");
    n.nsfw = Some("white".to_string());
    assert_eq!(normalize_details(&n, MediaLot::Studies).is_nsfw, Some(false));
}

#[test]
fn nsfw_any_other_rating_is_true() {
    let mut n = node(1, "t");
    n.nsfw = Some("gray".to_string());
    assert_eq!(normalize_details(&n, MediaLot::Studies).is_nsfw, Some(true));
}

#[test]
fn nsfw_absent_stays_unknown() {
    let n = node(1, "t");
    assert_eq!(normalize_details(&n, MediaLot::Studies).is_nsfw, None);
}

#[test]
fn suggestions_keep_membership_and_count() {
    let mut n = node(100, "root");
    n.related_studies = Some(vec![data(1, "a"), data(2, "b")]);
    n.related_comic = Some(vec![data(3, "c")]);
    n.recommendations = Some(vec![data(4, "d"), data(5, "e")]);
    let r = normalize_details(&n, MediaLot::Comic);
    assert_eq!(r.suggestions.len(), 5);
    let mut seen: Vec<(String, MediaLot)> = r
        .suggestions
        .iter()
        .map(|s| (s.identifier.clone(), s.lot))
        .collect();
    seen.sort_by(|a, b| a.0.cmp(&b.0));
    let expected = vec![
        ("1".to_string(), MediaLot::Studies),
        ("2".to_string(), MediaLot::Studies),
        ("3".to_string(), MediaLot::Comic),
        ("4".to_string(), MediaLot::Comic),
        ("5".to_string(), MediaLot::Comic),
    ];
    assert_eq!(seen, expected);
    for s in &r.suggestions {
        assert_eq!(s.source, MediaSource::Mal);
        assert_eq!(s.image, Some(format!("img-{}", s.identifier)));
    }
}

#[test]
fn details_carries_plain_fields_through() {
    let mut n = node(77, "carried");
    n.synopsis = Some("a story".to_string());
    n.status = Some("finished_airing".to_string());
    n.start_date = Some("1999-01-31".to_string());
    n.mean = Some(rust_decimal::Decimal::new(85, 1));
    n.trackers = Some(vec![
        mal_provider::models::NamedObject {
            name: "action".to_string(),
        },
        mal_provider::models::NamedObject {
            name: "drama".to_string(),
        },
    ]);
    let r = normalize_details(&n, MediaLot::Studies);
    assert_eq!(r.identifier, "77");
    assert_eq!(r.title, "carried");
    assert_eq!(r.source, MediaSource::Mal);
    assert_eq!(r.description, Some("a story".to_string()));
    assert_eq!(r.production_status, Some("finished_airing".to_string()));
    assert_eq!(r.publish_year, Some(1999));
    let d = r.publish_date.unwrap();
    assert_eq!((d.year, d.month, d.day), (1999, 1, 31));
    assert_eq!(r.provider_rating, Some(rust_decimal::Decimal::new(85, 1)));
    assert_eq!(r.trackers, vec!["action".to_string(), "drama".to_string()]);
    assert_eq!(r.url_images.len(), 1);
    assert_eq!(r.url_images[0].image, "img-77");
    assert_eq!(r.url_images[0].lot, MetadataImageLot::Poster);
}

#[test]
fn trackers_absent_is_empty() {
    let n = node(1, "t");
    let r = normalize_details(&n, MediaLot::Studies);
    assert!(r.trackers.is_empty());
}

#[test]
fn namespace_mapping_is_closed() {
    assert!(matches!(media_lot_for_namespace("studies"), Ok(MediaLot::Studies)));
    assert!(matches!(media_lot_for_namespace("comic"), Ok(MediaLot::Comic)));
    assert!(matches!(
        media_lot_for_namespace("podcast"),
        Err(ProviderError::InvariantViolation)
    ));
}

#[test]
fn paging_defaults_and_offset() {
    assert_eq!(effective_page(None), 1);
    assert_eq!(effective_page(Some(4)), 4);
    assert_eq!(search_offset(1, 20), 0);
    assert_eq!(search_offset(2, 20), 20);
}
