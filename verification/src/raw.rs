use vstd::prelude::*;

use crate::models::NamedObject;

verus! {

/// The picture object of a raw catalog node; only its large variant is read.
#[derive(Debug)]
pub struct ItemImage {
    pub large: String,
}

/// One raw catalog node as the upstream API shapes it, every field that may
/// be absent held as an option. Related and recommended entries nest the
/// same shape.
#[derive(Debug)]
pub struct ItemNode {
    pub id: i128,
    pub title: String,
    pub main_picture: ItemImage,
    pub nsfw: Option<String>,
    pub synopsis: Option<String>,
    pub trackers: Option<Vec<NamedObject>>,
    pub studios: Option<Vec<NamedObject>>,
    pub start_date: Option<String>,
    pub mean: Option<rust_decimal::Decimal>,
    pub status: Option<String>,
    pub num_episodes: Option<i32>,
    pub num_chapters: Option<i32>,
    pub num_volumes: Option<i32>,
    pub related_studies: Option<Vec<ItemData>>,
    pub related_comic: Option<Vec<ItemData>>,
    pub recommendations: Option<Vec<ItemData>>,
}

/// The wrapper the upstream API puts around each node in a list.
#[derive(Debug)]
pub struct ItemData {
    pub node: ItemNode,
}

/// An absent raw list reads as an empty one, never as an error.
pub open spec fn opt_list(o: Option<Vec<ItemData>>) -> Seq<ItemData> {
    match o {
        None => Seq::empty(),
        Some(v) => v@,
    }
}

/// An absent list of named objects reads as an empty one.
pub open spec fn opt_named(o: Option<Vec<NamedObject>>) -> Seq<NamedObject> {
    match o {
        None => Seq::empty(),
        Some(v) => v@,
    }
}

} // verus!
