//! How a client shows a hero hub, and the rule that restyles hero hubs.
use vstd::prelude::*;
use crate::config::Config;
use crate::models::{MetaData, Platform, PlexContext};
use crate::text::{contains, has_infix, lowercase, owned, to_lowercase};
use crate::utils::{collection_id_of_hub, hub_collection_id};
use crate::models::ChildSlot;
use super::{CollectionDetails, PlexData, TransformError};
use super::media_style::{all_hero, first_hero_error, hero_children, hero_meta, is_hero_meta};

verus! {

/// The kind of device a client runs on, told by its product name.
#[derive(Clone, Copy, Debug, PartialEq, Eq, Structural)]
pub enum DeviceType {
    Tv,
    Mobile,
}

impl DeviceType {
    /// A product whose name contains `(tv)`, ignoring case, runs on a TV.
    pub fn from_product(product: String) -> (r: DeviceType)
        ensures
            r == device_of(product@),
    {
        let p = to_lowercase(product.as_str());
        if contains(p.as_str(), "(tv)") {
            DeviceType::Tv
        } else {
            DeviceType::Mobile
        }
    }
}

pub open spec fn device_of(product: Seq<char>) -> DeviceType {
    if has_infix(lowercase(product), "(tv)"@) {
        DeviceType::Tv
    } else {
        DeviceType::Mobile
    }
}

/// How a client shows a hero hub.
#[derive(Clone, Debug)]
pub struct ClientHeroStyle {
    pub enabled: bool,
    /// The type the hub is given.
    pub kind: String,
    /// The style the hub is given.
    pub style: Option<String>,
    /// The type the hub's children are given, if any.
    pub child_type: Option<String>,
    /// Whether the cover art is also written to `thumb`.
    pub cover_art_as_thumb: bool,
    /// Whether the cover art is also written to `art`.
    pub cover_art_as_art: bool,
}

/// The fields of a hero style, as values.
pub type HeroStyleView = (bool, Seq<char>, Option<Seq<char>>, Option<Seq<char>>, bool, bool);

impl View for ClientHeroStyle {
    type V = HeroStyleView;

    open spec fn view(&self) -> HeroStyleView {
        (
            self.enabled,
            self.kind@,
            match self.style {
                Some(s) => Some(s@),
                None => None,
            },
            match self.child_type {
                Some(s) => Some(s@),
                None => None,
            },
            self.cover_art_as_thumb,
            self.cover_art_as_art,
        )
    }
}

/// The style most clients get: a mixed hero with cover art as thumbnail.
pub open spec fn default_hero_style() -> HeroStyleView {
    (true, "mixed"@, Some("hero"@), None, true, false)
}

/// The style of a client, by its platform and its kind of device.
pub open spec fn hero_style_for(platform: Platform, device: DeviceType) -> HeroStyleView {
    match platform {
        Platform::Android => match device {
            DeviceType::Tv => (true, "clip"@, Some("hero"@), Some("clip"@), true, true),
            DeviceType::Mobile => (true, "clip"@, None, Some("clip"@), true, true),
        },
        Platform::Ios | Platform::TvOS => (true, "mixed"@, Some("hero"@), None, false, true),
        _ => default_hero_style(),
    }
}

/// The style of the client that sent a request.
pub open spec fn hero_style_of(context: PlexContext) -> HeroStyleView {
    hero_style_for(
        context.platform,
        device_of(
            match context.product {
                Some(p) => p@,
                None => Seq::empty(),
            },
        ),
    )
}

impl Default for ClientHeroStyle {
    /// The style most clients get (see `default_hero_style`).
    fn default() -> (r: ClientHeroStyle)
        ensures
            r@ == default_hero_style(),
    {
        ClientHeroStyle::default_style()
    }
}

impl ClientHeroStyle {
    /// The style most clients get.
    pub fn default_style() -> (r: ClientHeroStyle)
        ensures
            r@ == default_hero_style(),
    {
        ClientHeroStyle {
            enabled: true,
            style: Some(owned("hero")),
            kind: owned("mixed"),
            child_type: None,
            cover_art_as_thumb: true,
            cover_art_as_art: false,
        }
    }

    /// The style of the client that sent a request: Android TVs and phones
    /// show clips, iOS and tvOS take the cover art as art, others the
    /// default.
    pub fn from_context(context: &PlexContext) -> (r: ClientHeroStyle)
        ensures
            r@ == hero_style_of(*context),
    {
        let product = match &context.product {
            Some(p) => p.clone(),
            None => String::new(),
        };
        let device_type = DeviceType::from_product(product);
        match context.platform {
            Platform::Android => match device_type {
                DeviceType::Tv => ClientHeroStyle {
                    style: Some(owned("hero")),
                    kind: owned("clip"),
                    child_type: Some(owned("clip")),
                    cover_art_as_art: true,
                    cover_art_as_thumb: true,
                    enabled: true,
                },
                DeviceType::Mobile => ClientHeroStyle {
                    style: None,
                    kind: owned("clip"),
                    child_type: Some(owned("clip")),
                    cover_art_as_art: true,
                    cover_art_as_thumb: true,
                    enabled: true,
                },
            },
            Platform::Roku => ClientHeroStyle::roku(),
            Platform::Ios => ClientHeroStyle::ios_style(),
            Platform::TvOS => ClientHeroStyle::tvos_style(),
            _ => ClientHeroStyle::default_style(),
        }
    }

    /// Roku shows the default hero.
    pub fn roku() -> (r: ClientHeroStyle)
        ensures
            r@ == default_hero_style(),
    {
        let mut s = ClientHeroStyle::default_style();
        s.style = Some(owned("hero"));
        s
    }

    /// Plex HTPC shows the default hero.
    pub fn htpc_style() -> (r: ClientHeroStyle)
        ensures
            r@ == default_hero_style(),
    {
        ClientHeroStyle::default_style()
    }

    /// iOS takes the cover art as art and not as thumbnail.
    pub fn ios_style() -> (r: ClientHeroStyle)
        ensures
            r@ == (true, "mixed"@, Some("hero"@), None::<Seq<char>>, false, true),
    {
        let mut s = ClientHeroStyle::default_style();
        s.cover_art_as_art = true;
        s.cover_art_as_thumb = false;
        s
    }

    /// tvOS takes the cover art as art and not as thumbnail.
    pub fn tvos_style() -> (r: ClientHeroStyle)
        ensures
            r@ == (true, "mixed"@, Some("hero"@), None::<Seq<char>>, false, true),
    {
        let mut s = ClientHeroStyle::default_style();
        s.cover_art_as_art = true;
        s.cover_art_as_thumb = false;
        s
    }
}

/// The rule that restyles hero hubs; `is_home` is kept for the home screen.
#[derive(Clone, Copy, Debug, Default)]
pub struct HubStyleTransform {
    pub is_home: bool,
}

/// Some configured hero row occurs, non-empty, in the hub identifier.
pub open spec fn matches_hero_row(rows: Seq<String>, id: Seq<char>) -> bool {
    exists|k: int| 0 <= k < rows.len() && rows[k]@.len() > 0 && has_infix(id, #[trigger] rows[k]@)
}

/// The fetched details of a collection, if any were fetched.
pub open spec fn details_of(cs: Seq<CollectionDetails>, id: i32) -> Option<CollectionDetails>
    decreases cs.len(),
{
    if cs.len() == 0 {
        None
    } else if cs[0].id == id {
        Some(cs[0])
    } else {
        details_of(cs.drop_first(), id)
    }
}

/// Whether a hub is shown as hero: a hub whose identifier holds a configured
/// hero row is; else a collection hub is when the first item of its
/// collection carries the `REPLEXHERO` label. `NotFetched` tells that the
/// collection could not be had; a collection without items, or an
/// identifier without a collection id, fails.
pub open spec fn hero_decision(x: MetaData, config: Config, data: PlexData) -> Result<bool, TransformError> {
    if !x.is_hub_spec() {
        Ok(false)
    } else if config.hero_rows is Some && matches_hero_row(config.hero_rows->0@, x.hub_identifier->0@) {
        Ok(true)
    } else if !x.is_collection_hub_spec() {
        Ok(false)
    } else {
        match hub_collection_id(x.hub_identifier->0@) {
            None => Err(TransformError::MissingField),
            Some(id) => match details_of(data.collections@, id) {
                None => Err(TransformError::NotFetched),
                Some(d) => match d.hero {
                    None => Err(TransformError::MissingChildren),
                    Some(h) => Ok(h),
                },
            },
        }
    }
}

/// Finds the fetched details of a collection.
pub fn find_details(cs: &Vec<CollectionDetails>, id: i32) -> (r: Option<CollectionDetails>)
    ensures
        r == details_of(cs@, id),
{
    let mut i: usize = 0;
    assert(cs@.skip(0) == cs@);
    while i < cs.len()
        invariant
            i <= cs@.len(),
            details_of(cs@, id) == details_of(cs@.skip(i as int), id),
        decreases cs.len() - i,
    {
        proof {
            assert(cs@.skip(i as int)[0] == cs@[i as int]);
            assert(cs@.skip(i as int).drop_first() == cs@.skip(i + 1));
        }
        if cs[i].id == id {
            return Some(cs[i]);
        }
        i = i + 1;
    }
    assert(cs@.skip(i as int).len() == 0);
    None
}

impl MetaData {
    /// Whether this hub is shown as hero (see `hero_decision`).
    pub fn is_hero(&self, config: &Config, data: &PlexData) -> (r: Result<bool, TransformError>)
        ensures
            r == hero_decision(*self, *config, *data),
    {
        if !self.is_hub() {
            return Ok(false);
        }
        let id = match &self.hub_identifier {
            Some(id) => id,
            None => return Ok(false),
        };
        match &config.hero_rows {
            Some(rows) => {
                let mut k: usize = 0;
                while k < rows.len()
                    invariant
                        k <= rows@.len(),
                        self.is_hub_spec(),
                        config.hero_rows == Some(*rows),
                        self.hub_identifier == Some(*id),
                        forall|j: int|
                            0 <= j < k ==> !(rows@[j]@.len() > 0 && has_infix(id@, #[trigger] rows@[j]@)),
                    decreases rows.len() - k,
                {
                    if !rows[k].as_str().is_empty() && contains(id.as_str(), rows[k].as_str()) {
                        assert(rows@[k as int]@.len() > 0 && has_infix(id@, rows@[k as int]@));
                        assert(matches_hero_row(rows@, id@));
                        return Ok(true);
                    }
                    k = k + 1;
                }
            },
            None => {},
        }
        if !self.is_collection_hub() {
            return Ok(false);
        }
        let collection_id = match collection_id_of_hub(self) {
            Some(c) => c,
            None => return Err(TransformError::MissingField),
        };
        match find_details(&data.collections, collection_id) {
            None => Err(TransformError::NotFetched),
            Some(d) => match d.hero {
                None => Err(TransformError::MissingChildren),
                Some(h) => Ok(h),
            },
        }
    }
}

/// `y` is the hero hub `x` restyled for a client of style `st`: it takes
/// the style's style and type and the hero display hints, and the children
/// it lists (see `children_list_slot`) are shown as hero; its size becomes
/// their number.
pub open spec fn hero_hub(x: MetaData, y: MetaData, st: HeroStyleView, token: Seq<char>) -> bool {
    let s = x.children_list_slot();
    &&& y == (MetaData { style: y.style, kind: y.kind, meta: y.meta, size: Some(x.slot(s)@.len() as i32), ..x }).with_slot(s, y.slot(s))
    &&& (match y.style {
        Some(v) => Some(v@),
        None => None,
    }) == st.2
    &&& y.kind@ == st.1
    &&& y.meta is Some && is_hero_meta(y.meta->0)
    &&& all_hero(x.slot(s)@, y.slot(s)@, st, token)
}

/// Why a hub cannot be restyled.
pub open spec fn hub_style_error(x: MetaData, context: PlexContext, config: Config, data: PlexData) -> Option<TransformError> {
    if !x.is_hub_spec() {
        None
    } else {
        match hero_decision(x, config, data) {
            Err(TransformError::NotFetched) => None,
            Err(e) => Some(e),
            Ok(false) => None,
            Ok(true) => match first_hero_error(x.slot(x.children_list_slot())@, context.token) {
                Some(e) => Some(e),
                None => if x.slot(x.children_list_slot())@.len() > i32::MAX {
                    Some(TransformError::TooLarge)
                } else {
                    None
                },
            },
        }
    }
}

/// What the rule makes of an item: a hub shown as hero is restyled (see
/// `hero_hub`); any other item, and a hub whose collection could not be
/// fetched, stays as it is.
pub open spec fn hub_styled(x: MetaData, y: MetaData, context: PlexContext, config: Config, data: PlexData) -> bool {
    if x.is_hub_spec() && hero_decision(x, config, data) == Ok::<bool, TransformError>(true) {
        hero_hub(x, y, hero_style_of(context), context.token->0@)
    } else {
        y == x
    }
}

impl HubStyleTransform {
    /// Restyles a hub that is shown as hero (see `hub_styled`).
    pub fn transform_metadata(&self, item: MetaData, options: &PlexContext, config: &Config, data: &PlexData) -> (r: Result<MetaData, TransformError>)
        ensures
            match r {
                Ok(y) => hub_style_error(item, *options, *config, *data) is None
                    && hub_styled(item, y, *options, *config, *data),
                Err(e) => hub_style_error(item, *options, *config, *data) == Some(e),
            },
    {
        let mut item = item;
        if !item.is_hub() {
            return Ok(item);
        }
        let is_hero = match item.is_hero(config, data) {
            Ok(h) => h,
            Err(TransformError::NotFetched) => false,
            Err(e) => return Err(e),
        };
        if !is_hero {
            return Ok(item);
        }
        let style = ClientHeroStyle::from_context(options);
        let s = item.list_slot();
        let ghost x0 = item;
        let children = item.take_slot(s);
        let children = match hero_children(children, &style, &options.token) {
            Ok(c) => c,
            Err(e) => return Err(e),
        };
        if children.len() > i32::MAX as usize {
            return Err(TransformError::TooLarge);
        }
        let n = children.len() as i32;
        item.put_slot(s, children);
        item.size = Some(n);
        item.style = style.style;
        item.kind = style.kind;
        item.meta = Some(hero_meta());
        assert(item == (MetaData { style: item.style, kind: item.kind, meta: item.meta, size: Some(x0.slot(s)@.len() as i32), ..x0 }).with_slot(s, item.slot(s)));
        Ok(item)
    }
}

} // verus!
