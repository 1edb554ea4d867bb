//! The data of Plex responses and requests, and the questions the rules ask
//! of it: which children an item has, whether it is a hub, a collection hub,
//! watched, labelled.
use vstd::prelude::*;
use crate::text::{has_prefix, lowercase, owned, same_lowercase, same_text, starts_with};

verus! {

/// A screen resolution a client reports.
#[derive(Clone, Debug, Default)]
pub struct Resolution {
    pub height: i64,
    pub width: i64,
}

/// How a hub is shown.
#[derive(Clone, Copy, Debug, PartialEq, Eq, Structural)]
pub enum Style {
    Hero,
    Shelf,
}

/// The platform a client runs on.
#[derive(Clone, Copy, Debug, PartialEq, Eq, Structural)]
pub enum Platform {
    Android,
    Ios,
    Safari,
    Chrome,
    Roku,
    TvOS,
    Generic,
}

impl Default for Platform {
    fn default() -> (r: Platform)
        ensures
            r == Platform::Generic,
    {
        Platform::Generic
    }
}

impl Platform {
    /// The platform assumed when a client names none.
    pub fn default_platform() -> (r: Platform)
        ensures
            r == Platform::Generic,
    {
        Platform::Generic
    }
}

impl Style {
    /// The lower-case name of the style, as it appears in paths and in the
    /// `style` attribute of a hub.
    pub fn name(&self) -> (r: String)
        ensures
            r@ == style_name(*self),
    {
        match self {
            Style::Hero => owned("hero"),
            Style::Shelf => owned("shelf"),
        }
    }
}

/// The platform a client names in its `X-Plex-Platform`: the names the
/// proxy writes are read back, any other name is `Generic`.
pub open spec fn platform_of(name: Seq<char>) -> Platform {
    if name == "Android"@ {
        Platform::Android
    } else if name == "iOS"@ {
        Platform::Ios
    } else if name == "Safari"@ {
        Platform::Safari
    } else if name == "Chrome"@ {
        Platform::Chrome
    } else if name == "Roku"@ {
        Platform::Roku
    } else if name == "tvOS"@ {
        Platform::TvOS
    } else {
        Platform::Generic
    }
}

impl Platform {
    /// Reads a platform name (see `platform_of`).
    pub fn from_name(name: &str) -> (r: Platform)
        ensures
            r == platform_of(name@),
    {
        if same_text(name, "Android") {
            Platform::Android
        } else if same_text(name, "iOS") {
            Platform::Ios
        } else if same_text(name, "Safari") {
            Platform::Safari
        } else if same_text(name, "Chrome") {
            Platform::Chrome
        } else if same_text(name, "Roku") {
            Platform::Roku
        } else if same_text(name, "tvOS") {
            Platform::TvOS
        } else {
            Platform::Generic
        }
    }
}

impl Style {
    /// Reads a style as it appears in paths: `hero` or `shelf`; `None` for
    /// any other text.
    pub fn from_name(name: &str) -> (r: Option<Style>)
        ensures
            r == style_of(name@),
    {
        if same_text(name, "hero") {
            Some(Style::Hero)
        } else if same_text(name, "shelf") {
            Some(Style::Shelf)
        } else {
            None
        }
    }
}

/// The style a path names, if any.
pub open spec fn style_of(name: Seq<char>) -> Option<Style> {
    if name == "hero"@ {
        Some(Style::Hero)
    } else if name == "shelf"@ {
        Some(Style::Shelf)
    } else {
        None
    }
}

pub open spec fn style_name(s: Style) -> Seq<char> {
    match s {
        Style::Hero => "hero"@,
        Style::Shelf => "shelf"@,
    }
}

/// Options a client may pass to the remixing endpoints.
#[derive(Clone, Debug, Default)]
pub struct ReplexOptions {
    pub limit: Option<i32>,
    pub platform: Option<String>,
    pub include_watched: bool,
}

/// A boolean that is written as `0` or `1` in XML, as some clients need.
#[derive(Clone, Copy, Debug, Default, PartialEq, Eq, Structural)]
pub struct SpecialBool {
    inner: bool,
}

impl SpecialBool {
    pub fn new(inner: bool) -> (r: Self)
        ensures
            r.value() == inner,
    {
        Self { inner }
    }

    pub closed spec fn value(self) -> bool {
        self.inner
    }

    /// The boolean held.
    pub fn get(&self) -> (r: bool)
        ensures
            r == self.value(),
    {
        self.inner
    }
}

/// An external identifier of an item.
#[derive(Clone, Debug, Default)]
pub struct Guid {
    pub id: String,
}

/// A named tag (collection, country, director, genre).
#[derive(Clone, Debug, Default)]
pub struct Tag {
    pub tag: String,
}

/// One version (file set) of a playable item.
#[derive(Clone, Debug, Default)]
pub struct Media {
    pub id: i64,
    pub duration: Option<i64>,
    pub bitrate: Option<i64>,
    pub audio_channels: Option<i64>,
    pub audio_codec: Option<String>,
    pub video_codec: Option<String>,
    pub video_resolution: Option<String>,
    pub height: Option<i64>,
    pub width: Option<i64>,
    pub part_count: Option<i32>,
    pub channel_art: Option<String>,
    pub video_profile: Option<String>,
    pub video_frame_rate: Option<String>,
    pub container: Option<String>,
    pub protocol: Option<String>,
    pub optimized_for_streaming: Option<SpecialBool>,
    pub selected: Option<bool>,
    pub parts: Vec<MediaPart>,
}

/// One file of a media version.
#[derive(Clone, Debug, Default)]
pub struct MediaPart {
    pub id: i64,
    pub key: Option<String>,
    pub duration: Option<i64>,
    pub file: Option<String>,
    pub size: Option<i64>,
    pub container: Option<String>,
    pub video_profile: Option<String>,
    pub protocol: Option<String>,
    pub optimized_for_streaming: Option<SpecialBool>,
    pub selected: Option<bool>,
    pub streams: Vec<Stream>,
}

/// One audio, video or subtitle stream of a part. The frame rate is held as the bit pattern of its floating-point value.
#[derive(Clone, Debug, Default)]
pub struct Stream {
    pub id: i64,
    pub stream_type: Option<i64>,
    pub default: Option<bool>,
    pub codec: Option<String>,
    pub index: Option<i64>,
    pub bitrate: Option<i64>,
    pub language: Option<String>,
    pub language_tag: Option<String>,
    pub language_code: Option<String>,
    pub doviblcompat_id: Option<i64>,
    pub doviblpresent: Option<bool>,
    pub dovielpresent: Option<bool>,
    pub dovilevel: Option<i64>,
    pub dovipresent: Option<bool>,
    pub doviprofile: Option<i64>,
    pub dovirpupresent: Option<bool>,
    pub doviversion: Option<String>,
    pub bit_depth: Option<i64>,
    pub chroma_location: Option<String>,
    pub chroma_subsampling: Option<String>,
    pub coded_height: Option<i64>,
    pub coded_width: Option<i64>,
    pub color_primaries: Option<String>,
    pub color_range: Option<String>,
    pub color_space: Option<String>,
    pub color_trc: Option<String>,
    pub frame_rate_bits: Option<u64>,
    pub height: Option<i64>,
    pub level: Option<i64>,
    pub original: Option<bool>,
    pub profile: Option<String>,
    pub ref_frames: Option<i64>,
    pub width: Option<i64>,
    pub display_title: Option<String>,
    pub extended_display_title: Option<String>,
    pub has_scaling_matrix: Option<bool>,
    pub scan_type: Option<String>,
    pub selected: Option<bool>,
    pub channels: Option<i64>,
    pub audio_channel_layout: Option<String>,
    pub sampling_rate: Option<i64>,
    pub forced: Option<bool>,
    pub title: Option<String>,
    pub hearing_impaired: Option<bool>,
    pub decision: Option<String>,
}

/// An image attached to an item.
#[derive(Clone, Debug, Default)]
pub struct Image {
    pub alt: Option<String>,
    pub kind: String,
    pub url: String,
}

/// A label set on an item.
#[derive(Clone, Debug, Default)]
pub struct Label {
    pub id: i64,
    pub tag: String,
    pub filter: String,
}

/// Images of the context an item is shown in.
#[derive(Clone, Debug, Default)]
pub struct Context {
    pub images: Vec<Image>,
}

/// An item of a Plex response: a hub, a collection, a movie, a show, an episode and so on. Ratings are held as the bit patterns of their floating-point values.
#[derive(Debug, Default)]
pub struct MetaData {
    pub rating_key: Option<String>,
    pub key: Option<String>,
    pub guid: Option<String>,
    pub primary_guid: Option<String>,
    pub title: String,
    pub slug: Option<String>,
    pub tagline: Option<String>,
    pub thumb: Option<String>,
    pub theme: Option<String>,
    pub composite: Option<String>,
    pub banner: Option<String>,
    pub icon: Option<String>,
    pub view_group: Option<String>,
    pub added_at: Option<i64>,
    pub updated_at: Option<i64>,
    pub last_viewed_at: Option<i64>,
    pub included_at: Option<i64>,
    pub duration: Option<i64>,
    pub view_mode: Option<i32>,
    pub art: Option<String>,
    pub index: Option<i32>,
    pub subtype: Option<String>,
    pub studio: Option<String>,
    pub content_rating: Option<String>,
    pub rating_bits: Option<u64>,
    pub audience_rating_bits: Option<u64>,
    pub view_offset: Option<i64>,
    pub primary_extra_key: Option<String>,
    pub chapter_source: Option<String>,
    pub rating_image: Option<String>,
    pub audiance_rating_image: Option<String>,
    pub parent_year: Option<i32>,
    pub parent_index: Option<u32>,
    pub parent_guid: Option<String>,
    pub parent_studio: Option<String>,
    pub parent_key: Option<String>,
    pub parent_rating_key: Option<String>,
    pub parent_title: Option<String>,
    pub parent_art: Option<String>,
    pub parent_thumb: Option<String>,
    pub grandparent_rating_key: Option<String>,
    pub grandparent_key: Option<String>,
    pub grandparent_guid: Option<String>,
    pub grandparent_title: Option<String>,
    pub grandparent_thumb: Option<String>,
    pub grandparent_art: Option<String>,
    pub library_section_id: Option<i64>,
    pub library_section_title: Option<String>,
    pub library_section_key: Option<String>,
    pub kind: String,
    pub summary: Option<String>,
    pub year: Option<i32>,
    pub promoted: Option<SpecialBool>,
    pub skip_details: Option<SpecialBool>,
    pub placeholder: Option<bool>,
    pub context: Option<String>,
    pub hub_key: Option<String>,
    pub hub_identifier: Option<String>,
    pub size: Option<i32>,
    pub more: Option<SpecialBool>,
    pub style: Option<String>,
    pub meta: Option<Meta>,
    pub metadata: Vec<MetaData>,
    pub directory: Vec<MetaData>,
    pub video: Vec<MetaData>,
    pub child_count: Option<String>,
    pub skip_children: Option<bool>,
    pub leaf_count: Option<i32>,
    pub viewed_leaf_count: Option<i32>,
    pub view_count: Option<i32>,
    pub labels: Vec<Label>,
    pub originally_available_at: Option<String>,
    pub media: Vec<Media>,
    pub guids: Vec<Guid>,
    pub user_state: Option<SpecialBool>,
    pub images: Vec<Image>,
    pub context_images: Option<Context>,
    pub extra_type: Option<i32>,
    pub play_queue_item_id: Option<i64>,
    pub collections: Vec<Tag>,
    pub countries: Vec<Tag>,
    pub directors: Vec<Tag>,
    pub genres: Vec<Tag>,
}

/// The top-level container of a Plex response.
#[derive(Clone, Debug, Default)]
pub struct MediaContainer {
    pub size: Option<i64>,
    pub total_size: Option<i32>,
    pub offset: Option<i32>,
    pub allow_sync: Option<SpecialBool>,
    pub identifier: Option<String>,
    pub library_section_id: Option<i64>,
    pub library_section_title: Option<String>,
    pub library_section_uuid: Option<String>,
    pub hub: Vec<MetaData>,
    pub metadata: Vec<MetaData>,
    pub video: Vec<MetaData>,
    pub directory: Vec<MetaData>,
    pub play_queue_id: Option<i64>,
    pub play_queue_selected_item_id: Option<i64>,
    pub play_queue_selected_item_offset: Option<i32>,
    pub play_queue_selected_metadata_item_id: Option<String>,
    pub play_queue_shuffled: Option<bool>,
    pub play_queue_source_uri: Option<String>,
    pub play_queue_total_count: Option<i32>,
    pub play_queue_version: Option<i32>,
    pub media_tag_prefix: Option<String>,
    pub media_tag_version: Option<i64>,
    pub direct_play_decision_code: Option<i64>,
    pub direct_play_decision_text: Option<String>,
    pub general_decision_code: Option<i64>,
    pub general_decision_text: Option<String>,
    pub resource_session: Option<String>,
    pub transcode_decision_code: Option<i64>,
    pub transcode_decision_text: Option<String>,
    pub meta: Option<Meta>,
}

/// Fields a client shows for items of a type.
#[derive(Clone, Debug, Default)]
pub struct DisplayField {
    pub kind: Option<String>,
    pub fields: Vec<String>,
}

/// The type entry of a `Meta` block.
#[derive(Clone, Debug, Default)]
pub struct MetaType {
    pub kind: Option<String>,
    pub active: Option<bool>,
    pub title: Option<String>,
}

/// The image kind a client shows for items of a type.
#[derive(Clone, Debug, Default)]
pub struct DisplayImage {
    pub kind: Option<String>,
    pub image_type: Option<String>,
}

/// Display hints that a hub sends along with its items.
#[derive(Clone, Debug, Default)]
pub struct Meta {
    pub display_fields: Vec<DisplayField>,
    pub display_images: Vec<DisplayImage>,
    pub kind: Option<MetaType>,
}

/// What a client tells about itself in the headers and query of a request.
#[derive(Clone, Debug, Default)]
pub struct PlexContext {
    pub content_directory_id: Option<Vec<String>>,
    pub pinned_content_directory_id: Option<Vec<String>>,
    pub platform: Platform,
    pub screen_resolution: Vec<Resolution>,
    pub screen_resolution_original: Option<String>,
    pub client_capabilities: Option<String>,
    pub product: Option<String>,
    pub version: Option<String>,
    pub count: Option<i32>,
    pub client_identifier: Option<String>,
    pub session_id: Option<String>,
    pub session_identifier: Option<String>,
    pub playback_session_id: Option<String>,
    pub playback_id: Option<String>,
    pub token: Option<String>,
    pub platform_version: Option<String>,
    pub features: Option<String>,
    pub model: Option<String>,
    pub device: Option<String>,
    pub device_name: Option<String>,
    pub drm: Option<String>,
    pub text_format: Option<String>,
    pub provider_version: Option<String>,
    pub container_size: Option<i32>,
    pub container_start: Option<i32>,
    pub http_pipeline: Option<String>,
    pub include_collections: bool,
    pub include_advanced: bool,
    pub forwarded_for: Option<String>,
    pub real_ip: Option<String>,
    pub forwarded_proto: Option<String>,
    pub forwarded_host: Option<String>,
    pub forwarded_port: Option<String>,
    pub exclude_all_leaves: bool,
    pub size: Option<String>,
    pub width: Option<i32>,
    pub height: Option<i32>,
    pub quality: Option<i32>,
    pub url: Option<String>,
}

/// A response body together with the format it is written in.
#[derive(Clone, Debug, Default)]
pub struct MediaContainerWrapper<T> {
    pub media_container: T,
    pub content_type: crate::utils::ContentType,
}

/// The list of an item's children that an operation reads or writes.
#[derive(Clone, Copy, Debug, PartialEq, Eq, Structural)]
pub enum ChildSlot {
    Metadata,
    Directory,
    Video,
    Hub,
}


/// `b` is a copy of the item `a`: every field of a text, number, boolean
/// or `SpecialBool` is the same, every other list has as many entries, and
/// each child list holds copies of the children, in order.
pub open spec fn copy_of(a: MetaData, b: MetaData) -> bool
    decreases a,
{
    &&& b.rating_key == a.rating_key
    &&& b.key == a.key
    &&& b.guid == a.guid
    &&& b.primary_guid == a.primary_guid
    &&& b.title == a.title
    &&& b.slug == a.slug
    &&& b.tagline == a.tagline
    &&& b.thumb == a.thumb
    &&& b.theme == a.theme
    &&& b.composite == a.composite
    &&& b.banner == a.banner
    &&& b.icon == a.icon
    &&& b.view_group == a.view_group
    &&& b.added_at == a.added_at
    &&& b.updated_at == a.updated_at
    &&& b.last_viewed_at == a.last_viewed_at
    &&& b.included_at == a.included_at
    &&& b.duration == a.duration
    &&& b.view_mode == a.view_mode
    &&& b.art == a.art
    &&& b.index == a.index
    &&& b.subtype == a.subtype
    &&& b.studio == a.studio
    &&& b.content_rating == a.content_rating
    &&& b.rating_bits == a.rating_bits
    &&& b.audience_rating_bits == a.audience_rating_bits
    &&& b.view_offset == a.view_offset
    &&& b.primary_extra_key == a.primary_extra_key
    &&& b.chapter_source == a.chapter_source
    &&& b.rating_image == a.rating_image
    &&& b.audiance_rating_image == a.audiance_rating_image
    &&& b.parent_year == a.parent_year
    &&& b.parent_index == a.parent_index
    &&& b.parent_guid == a.parent_guid
    &&& b.parent_studio == a.parent_studio
    &&& b.parent_key == a.parent_key
    &&& b.parent_rating_key == a.parent_rating_key
    &&& b.parent_title == a.parent_title
    &&& b.parent_art == a.parent_art
    &&& b.parent_thumb == a.parent_thumb
    &&& b.grandparent_rating_key == a.grandparent_rating_key
    &&& b.grandparent_key == a.grandparent_key
    &&& b.grandparent_guid == a.grandparent_guid
    &&& b.grandparent_title == a.grandparent_title
    &&& b.grandparent_thumb == a.grandparent_thumb
    &&& b.grandparent_art == a.grandparent_art
    &&& b.library_section_id == a.library_section_id
    &&& b.library_section_title == a.library_section_title
    &&& b.library_section_key == a.library_section_key
    &&& b.kind == a.kind
    &&& b.summary == a.summary
    &&& b.year == a.year
    &&& b.promoted == a.promoted
    &&& b.skip_details == a.skip_details
    &&& b.placeholder == a.placeholder
    &&& b.context == a.context
    &&& b.hub_key == a.hub_key
    &&& b.hub_identifier == a.hub_identifier
    &&& b.size == a.size
    &&& b.more == a.more
    &&& b.style == a.style
    &&& b.child_count == a.child_count
    &&& b.skip_children == a.skip_children
    &&& b.leaf_count == a.leaf_count
    &&& b.viewed_leaf_count == a.viewed_leaf_count
    &&& b.view_count == a.view_count
    &&& b.originally_available_at == a.originally_available_at
    &&& b.user_state == a.user_state
    &&& b.extra_type == a.extra_type
    &&& b.play_queue_item_id == a.play_queue_item_id
    &&& b.labels@.len() == a.labels@.len()
    &&& b.media@.len() == a.media@.len()
    &&& b.guids@.len() == a.guids@.len()
    &&& b.images@.len() == a.images@.len()
    &&& b.collections@.len() == a.collections@.len()
    &&& b.countries@.len() == a.countries@.len()
    &&& b.directors@.len() == a.directors@.len()
    &&& b.genres@.len() == a.genres@.len()
    &&& copies_of(a.metadata@, b.metadata@)
    &&& copies_of(a.directory@, b.directory@)
    &&& copies_of(a.video@, b.video@)
}

/// Each item of `ys` is a copy of the item of `xs` at its place.
pub open spec fn copies_of(xs: Seq<MetaData>, ys: Seq<MetaData>) -> bool
    decreases xs,
{
    &&& ys.len() == xs.len()
    &&& forall|i: int| 0 <= i < xs.len() ==> copy_of(xs[i], #[trigger] ys[i])
}

/// A copy of an optional text.
fn copy_text(o: &Option<String>) -> (r: Option<String>)
    ensures
        r == *o,
{
    match o {
        Some(t) => Some(t.clone()),
        None => None,
    }
}

impl Clone for MetaData {
    /// A copy of the item and, recursively, of its children.
    fn clone(&self) -> (r: MetaData)
        ensures
            copy_of(*self, r),
        decreases self,
    {
        MetaData {
            rating_key: copy_text(&self.rating_key),
            key: copy_text(&self.key),
            guid: copy_text(&self.guid),
            primary_guid: copy_text(&self.primary_guid),
            title: self.title.clone(),
            slug: copy_text(&self.slug),
            tagline: copy_text(&self.tagline),
            thumb: copy_text(&self.thumb),
            theme: copy_text(&self.theme),
            composite: copy_text(&self.composite),
            banner: copy_text(&self.banner),
            icon: copy_text(&self.icon),
            view_group: copy_text(&self.view_group),
            added_at: self.added_at,
            updated_at: self.updated_at,
            last_viewed_at: self.last_viewed_at,
            included_at: self.included_at,
            duration: self.duration,
            view_mode: self.view_mode,
            art: copy_text(&self.art),
            index: self.index,
            subtype: copy_text(&self.subtype),
            studio: copy_text(&self.studio),
            content_rating: copy_text(&self.content_rating),
            rating_bits: self.rating_bits,
            audience_rating_bits: self.audience_rating_bits,
            view_offset: self.view_offset,
            primary_extra_key: copy_text(&self.primary_extra_key),
            chapter_source: copy_text(&self.chapter_source),
            rating_image: copy_text(&self.rating_image),
            audiance_rating_image: copy_text(&self.audiance_rating_image),
            parent_year: self.parent_year,
            parent_index: self.parent_index,
            parent_guid: copy_text(&self.parent_guid),
            parent_studio: copy_text(&self.parent_studio),
            parent_key: copy_text(&self.parent_key),
            parent_rating_key: copy_text(&self.parent_rating_key),
            parent_title: copy_text(&self.parent_title),
            parent_art: copy_text(&self.parent_art),
            parent_thumb: copy_text(&self.parent_thumb),
            grandparent_rating_key: copy_text(&self.grandparent_rating_key),
            grandparent_key: copy_text(&self.grandparent_key),
            grandparent_guid: copy_text(&self.grandparent_guid),
            grandparent_title: copy_text(&self.grandparent_title),
            grandparent_thumb: copy_text(&self.grandparent_thumb),
            grandparent_art: copy_text(&self.grandparent_art),
            library_section_id: self.library_section_id,
            library_section_title: copy_text(&self.library_section_title),
            library_section_key: copy_text(&self.library_section_key),
            kind: self.kind.clone(),
            summary: copy_text(&self.summary),
            year: self.year,
            promoted: self.promoted,
            skip_details: self.skip_details,
            placeholder: self.placeholder,
            context: copy_text(&self.context),
            hub_key: copy_text(&self.hub_key),
            hub_identifier: copy_text(&self.hub_identifier),
            size: self.size,
            more: self.more,
            style: copy_text(&self.style),
            meta: self.meta.clone(),
            metadata: clone_items(&self.metadata),
            directory: clone_items(&self.directory),
            video: clone_items(&self.video),
            child_count: copy_text(&self.child_count),
            skip_children: self.skip_children,
            leaf_count: self.leaf_count,
            viewed_leaf_count: self.viewed_leaf_count,
            view_count: self.view_count,
            labels: self.labels.clone(),
            originally_available_at: copy_text(&self.originally_available_at),
            media: self.media.clone(),
            guids: self.guids.clone(),
            user_state: self.user_state,
            images: self.images.clone(),
            context_images: self.context_images.clone(),
            extra_type: self.extra_type,
            play_queue_item_id: self.play_queue_item_id,
            collections: self.collections.clone(),
            countries: self.countries.clone(),
            directors: self.directors.clone(),
            genres: self.genres.clone(),
        }
    }
}

/// Copies of the items of a list.
fn clone_items(v: &Vec<MetaData>) -> (r: Vec<MetaData>)
    ensures
        copies_of(v@, r@),
    decreases v,
{
    let mut out: Vec<MetaData> = Vec::new();
    let mut i: usize = 0;
    while i < v.len()
        invariant
            i <= v@.len(),
            out@.len() == i,
            forall|k: int| 0 <= k < i ==> copy_of(v@[k], #[trigger] out@[k]),
        decreases v@.len() - i,
    {
        out.push(v[i].clone());
        i = i + 1;
    }
    out
}

impl MetaData {
    /// An item with every field empty and the given title and type.
    pub fn empty(title: String, kind: String) -> (r: MetaData)
        ensures
            r.title == title,
            r.kind == kind,
            r.metadata@.len() == 0,
            r.directory@.len() == 0,
            r.video@.len() == 0,
    {
        let mut m = MetaData {
            rating_key: None,
            key: None,
            guid: None,
            primary_guid: None,
            title: String::new(),
            slug: None,
            tagline: None,
            thumb: None,
            theme: None,
            composite: None,
            banner: None,
            icon: None,
            view_group: None,
            added_at: None,
            updated_at: None,
            last_viewed_at: None,
            included_at: None,
            duration: None,
            view_mode: None,
            art: None,
            index: None,
            subtype: None,
            studio: None,
            content_rating: None,
            rating_bits: None,
            audience_rating_bits: None,
            view_offset: None,
            primary_extra_key: None,
            chapter_source: None,
            rating_image: None,
            audiance_rating_image: None,
            parent_year: None,
            parent_index: None,
            parent_guid: None,
            parent_studio: None,
            parent_key: None,
            parent_rating_key: None,
            parent_title: None,
            parent_art: None,
            parent_thumb: None,
            grandparent_rating_key: None,
            grandparent_key: None,
            grandparent_guid: None,
            grandparent_title: None,
            grandparent_thumb: None,
            grandparent_art: None,
            library_section_id: None,
            library_section_title: None,
            library_section_key: None,
            kind: String::new(),
            summary: None,
            year: None,
            promoted: None,
            skip_details: None,
            placeholder: None,
            context: None,
            hub_key: None,
            hub_identifier: None,
            size: None,
            more: None,
            style: None,
            meta: None,
            metadata: Vec::new(),
            directory: Vec::new(),
            video: Vec::new(),
            child_count: None,
            skip_children: None,
            leaf_count: None,
            viewed_leaf_count: None,
            view_count: None,
            labels: Vec::new(),
            originally_available_at: None,
            media: Vec::new(),
            guids: Vec::new(),
            user_state: None,
            images: Vec::new(),
            context_images: None,
            extra_type: None,
            play_queue_item_id: None,
            collections: Vec::new(),
            countries: Vec::new(),
            directors: Vec::new(),
            genres: Vec::new(),
        };
        m.title = title;
        m.kind = kind;
        m
    }

    /// The children that `children` returns: the first non-empty list among
    /// `metadata`, `directory` and `video`.
    pub open spec fn children_spec(self) -> Seq<MetaData> {
        if self.metadata@.len() > 0 {
            self.metadata@
        } else if self.directory@.len() > 0 {
            self.directory@
        } else if self.video@.len() > 0 {
            self.video@
        } else {
            Seq::empty()
        }
    }

    /// The list that `children_mut` hands out: the first non-empty list among
    /// `metadata`, `video` and `directory`, else `metadata`.
    pub open spec fn children_mut_slot(self) -> ChildSlot {
        if self.metadata@.len() > 0 {
            ChildSlot::Metadata
        } else if self.video@.len() > 0 {
            ChildSlot::Video
        } else if self.directory@.len() > 0 {
            ChildSlot::Directory
        } else {
            ChildSlot::Metadata
        }
    }

    pub open spec fn slot(self, s: ChildSlot) -> Vec<MetaData> {
        match s {
            ChildSlot::Directory => self.directory,
            ChildSlot::Video => self.video,
            _ => self.metadata,
        }
    }

    pub open spec fn with_slot(self, s: ChildSlot, v: Vec<MetaData>) -> MetaData {
        match s {
            ChildSlot::Directory => MetaData { directory: v, ..self },
            ChildSlot::Video => MetaData { video: v, ..self },
            _ => MetaData { metadata: v, ..self },
        }
    }

    /// What `set_children` makes of the item: the first non-empty list among
    /// `metadata`, `directory` and `video` is replaced (nothing is, when all
    /// three are empty) and `size` becomes the number of children given.
    pub open spec fn with_children(self, value: Vec<MetaData>) -> MetaData {
        let sized = MetaData { size: Some(value@.len() as i32), ..self };
        if self.metadata@.len() > 0 {
            MetaData { metadata: value, ..sized }
        } else if self.directory@.len() > 0 {
            MetaData { directory: value, ..sized }
        } else if self.video@.len() > 0 {
            MetaData { video: value, ..sized }
        } else {
            sized
        }
    }

    /// The list that `children` reads and `set_children` writes: the first
    /// non-empty list among `metadata`, `directory` and `video`, else
    /// `metadata`.
    pub open spec fn children_list_slot(self) -> ChildSlot {
        if self.metadata@.len() > 0 {
            ChildSlot::Metadata
        } else if self.directory@.len() > 0 {
            ChildSlot::Directory
        } else if self.video@.len() > 0 {
            ChildSlot::Video
        } else {
            ChildSlot::Metadata
        }
    }

    /// Which list `children` reads (see `children_list_slot`).
    pub fn list_slot(&self) -> (r: ChildSlot)
        ensures
            r == self.children_list_slot(),
    {
        if self.metadata.len() > 0 {
            ChildSlot::Metadata
        } else if self.directory.len() > 0 {
            ChildSlot::Directory
        } else if self.video.len() > 0 {
            ChildSlot::Video
        } else {
            ChildSlot::Metadata
        }
    }

    /// Takes one list of children out, leaving it empty.
    pub fn take_slot(&mut self, s: ChildSlot) -> (r: Vec<MetaData>)
        ensures
            r == old(self).slot(s),
            *final(self) == old(self).with_slot(s, final(self).slot(s)),
            final(self).slot(s)@.len() == 0,
    {
        let mut v: Vec<MetaData> = Vec::new();
        match s {
            ChildSlot::Directory => std::mem::swap(&mut v, &mut self.directory),
            ChildSlot::Video => std::mem::swap(&mut v, &mut self.video),
            _ => std::mem::swap(&mut v, &mut self.metadata),
        }
        v
    }

    /// Puts a list of children in place.
    pub fn put_slot(&mut self, s: ChildSlot, v: Vec<MetaData>)
        ensures
            *final(self) == old(self).with_slot(s, v),
    {
        match s {
            ChildSlot::Directory => self.directory = v,
            ChildSlot::Video => self.video = v,
            _ => self.metadata = v,
        }
    }

    /// Copies of the children (see `children_spec`).
    pub fn children(&self) -> (r: Vec<MetaData>)
        ensures
            r@.len() == self.children_spec().len(),
            forall|i: int| 0 <= i < r@.len() ==> cloned(self.children_spec()[i], r@[i]),
    {
        if self.metadata.len() > 0 {
            self.metadata.clone()
        } else if self.directory.len() > 0 {
            self.directory.clone()
        } else if self.video.len() > 0 {
            self.video.clone()
        } else {
            Vec::new()
        }
    }

    /// Whether `children` would return a non-empty list.
    pub fn has_children(&self) -> (r: bool)
        ensures
            r == (self.children_spec().len() > 0),
    {
        self.metadata.len() > 0 || self.directory.len() > 0 || self.video.len() > 0
    }

    /// The list of children that can be changed in place (see
    /// `children_mut_slot`).
    pub fn children_mut(&mut self) -> (r: &mut Vec<MetaData>)
        ensures
            *r == old(self).slot(old(self).children_mut_slot()),
            *final(self) == old(self).with_slot(old(self).children_mut_slot(), *final(r)),
    {
        if self.metadata.len() > 0 {
            &mut self.metadata
        } else if self.video.len() > 0 {
            &mut self.video
        } else if self.directory.len() > 0 {
            &mut self.directory
        } else {
            &mut self.metadata
        }
    }

    /// Replaces the children (see `with_children`); the count is stored as
    /// an `i32`, cut to its low 32 bits past `i32::MAX`.
    pub fn set_children(&mut self, value: Vec<MetaData>)
        ensures
            *final(self) == old(self).with_children(value),
    {
        let len = #[verifier::truncate] (value.len() as i32);
        if self.metadata.len() > 0 {
            self.metadata = value;
        } else if self.directory.len() > 0 {
            self.directory = value;
        } else if self.video.len() > 0 {
            self.video = value;
        }
        self.size = Some(len);
    }

    pub open spec fn is_hub_spec(self) -> bool {
        self.hub_identifier is Some
    }

    /// The item is a hub: it has a hub identifier.
    pub fn is_hub(&self) -> (r: bool)
        ensures
            r == self.is_hub_spec(),
    {
        self.hub_identifier.is_some()
    }

    /// The item is a movie or a show and no hub.
    pub fn is_media(&self) -> (r: bool)
        ensures
            r == (!self.is_hub_spec() && (self.kind@ == "movie"@ || self.kind@ == "show"@)),
    {
        !self.is_hub() && (same_text(self.kind.as_str(), "movie") || same_text(self.kind.as_str(), "show"))
    }

    pub open spec fn is_collection_hub_spec(self) -> bool {
        self.is_hub_spec() && self.context is Some && has_prefix(
            self.context->0@,
            "hub.custom.collection"@,
        )
    }

    /// The item is a hub of a custom collection: its context starts with
    /// `hub.custom.collection`.
    pub fn is_collection_hub(&self) -> (r: bool)
        ensures
            r == self.is_collection_hub_spec(),
    {
        if !self.is_hub() {
            return false;
        }
        match &self.context {
            Some(c) => starts_with(c.as_str(), "hub.custom.collection"),
            None => false,
        }
    }

    pub open spec fn has_label_spec(self, name: Seq<char>) -> bool {
        exists|i: int|
            0 <= i < self.labels@.len() && lowercase(#[trigger] self.labels@[i].tag@) == lowercase(
                name,
            )
    }

    /// The item carries a label whose tag equals `name` ignoring case.
    pub fn has_label(&self, name: String) -> (r: bool)
        ensures
            r == self.has_label_spec(name@),
    {
        let mut i: usize = 0;
        while i < self.labels.len()
            invariant
                i <= self.labels@.len(),
                forall|k: int|
                    0 <= k < i ==> lowercase(#[trigger] self.labels@[k].tag@) != lowercase(name@),
            decreases self.labels.len() - i,
        {
            if same_lowercase(self.labels[i].tag.as_str(), name.as_str()) {
                return true;
            }
            i = i + 1;
        }
        false
    }

    pub open spec fn is_watched_spec(self) -> bool {
        (self.view_count is Some && self.view_count->0 > 0) || (self.viewed_leaf_count is Some
            && self.viewed_leaf_count->0 > 0)
    }

    /// The item was viewed, or some of its leaves were.
    pub fn is_watched(&self) -> (r: bool)
        ensures
            r == self.is_watched_spec(),
    {
        match self.view_count {
            Some(c) => if c > 0 {
                return true;
            },
            None => {},
        }
        match self.viewed_leaf_count {
            Some(c) => c > 0,
            None => false,
        }
    }
}

impl MediaContainer {
    /// A container with every field empty.
    pub fn empty() -> (r: MediaContainer)
        ensures
            r.is_empty_spec(),
    {
        MediaContainer {
            size: None,
            total_size: None,
            offset: None,
            allow_sync: None,
            identifier: None,
            library_section_id: None,
            library_section_title: None,
            library_section_uuid: None,
            hub: Vec::new(),
            metadata: Vec::new(),
            video: Vec::new(),
            directory: Vec::new(),
            play_queue_id: None,
            play_queue_selected_item_id: None,
            play_queue_selected_item_offset: None,
            play_queue_selected_metadata_item_id: None,
            play_queue_shuffled: None,
            play_queue_source_uri: None,
            play_queue_total_count: None,
            play_queue_version: None,
            media_tag_prefix: None,
            media_tag_version: None,
            direct_play_decision_code: None,
            direct_play_decision_text: None,
            general_decision_code: None,
            general_decision_text: None,
            resource_session: None,
            transcode_decision_code: None,
            transcode_decision_text: None,
            meta: None,
        }
    }

    pub open spec fn is_empty_spec(self) -> bool {
        &&& self.size is None
        &&& self.total_size is None
        &&& self.offset is None
        &&& self.identifier is None
        &&& self.hub@.len() == 0
        &&& self.metadata@.len() == 0
        &&& self.video@.len() == 0
        &&& self.directory@.len() == 0
        &&& self.meta is None
    }

    /// The children: the first non-empty list among `metadata`, `hub`,
    /// `video` and `directory`.
    pub open spec fn children_slot(self) -> ChildSlot {
        if self.metadata@.len() > 0 {
            ChildSlot::Metadata
        } else if self.hub@.len() > 0 {
            ChildSlot::Hub
        } else if self.video@.len() > 0 {
            ChildSlot::Video
        } else if self.directory@.len() > 0 {
            ChildSlot::Directory
        } else {
            ChildSlot::Metadata
        }
    }

    pub open spec fn slot(self, s: ChildSlot) -> Vec<MetaData> {
        match s {
            ChildSlot::Hub => self.hub,
            ChildSlot::Directory => self.directory,
            ChildSlot::Video => self.video,
            ChildSlot::Metadata => self.metadata,
        }
    }

    pub open spec fn with_slot(self, s: ChildSlot, v: Vec<MetaData>) -> MediaContainer {
        match s {
            ChildSlot::Hub => MediaContainer { hub: v, ..self },
            ChildSlot::Directory => MediaContainer { directory: v, ..self },
            ChildSlot::Video => MediaContainer { video: v, ..self },
            ChildSlot::Metadata => MediaContainer { metadata: v, ..self },
        }
    }

    pub open spec fn children_spec(self) -> Seq<MetaData> {
        self.slot(self.children_slot())@
    }

    /// What `set_children` makes of the container: the list of the children
    /// slot is replaced (when the container has children) and `size` becomes
    /// the number of children given.
    pub open spec fn with_children(self, value: Vec<MetaData>) -> MediaContainer {
        let sized = MediaContainer { size: Some(value@.len() as i64), ..self };
        if self.children_spec().len() > 0 {
            sized.with_slot(self.children_slot(), value)
        } else {
            sized
        }
    }

    /// `d` is the container after its children were replaced by `out` with
    /// `set_children` (see `with_children`), as values.
    pub open spec fn children_replaced(self, d: MediaContainer, out: Seq<MetaData>) -> bool {
        let sized = MediaContainer { size: Some(out.len() as i64), ..self };
        if self.children_spec().len() > 0 {
            &&& d == sized.with_slot(self.children_slot(), d.slot(self.children_slot()))
            &&& d.slot(self.children_slot())@ == out
        } else {
            d == sized
        }
    }

    /// Whether the container lists hubs.
    pub fn is_hub(&self) -> (r: bool)
        ensures
            r == (self.hub@.len() > 0),
    {
        self.hub.len() > 0
    }

    /// Sets the type of every hub.
    pub fn set_type(&mut self, value: String)
        ensures
            final(self).hub@.len() == old(self).hub@.len(),
            forall|i: int|
                0 <= i < final(self).hub@.len() ==> #[trigger] final(self).hub@[i] == (MetaData {
                    kind: value,
                    ..old(self).hub@[i]
                }),
            *final(self) == (MediaContainer { hub: final(self).hub, ..*old(self) }),
    {
        let mut i: usize = 0;
        while i < self.hub.len()
            invariant
                i <= self.hub@.len(),
                self.hub@.len() == old(self).hub@.len(),
                forall|k: int|
                    0 <= k < i ==> #[trigger] self.hub@[k] == (MetaData {
                        kind: value,
                        ..old(self).hub@[k]
                    }),
                forall|k: int| i <= k < self.hub@.len() ==> #[trigger] self.hub@[k] == old(self).hub@[k],
                *self == (MediaContainer { hub: self.hub, ..*old(self) }),
            decreases self.hub@.len() - i,
        {
            let v = value.clone();
            let h = &mut self.hub[i];
            h.kind = v;
            i = i + 1;
        }
    }

    /// Replaces the children (see `with_children`).
    pub fn set_children(&mut self, value: Vec<MetaData>)
        requires
            value@.len() <= i64::MAX,
        ensures
            *final(self) == old(self).with_children(value),
    {
        let len = value.len() as i64;
        if self.metadata.len() > 0 {
            self.metadata = value;
        } else if self.hub.len() > 0 {
            self.hub = value;
        } else if self.video.len() > 0 {
            self.video = value;
        } else if self.directory.len() > 0 {
            self.directory = value;
        }
        self.size = Some(len);
    }

    /// Replaces the children with copies of `value` (see `with_children`).
    pub fn set_children_mut(&mut self, value: &mut Vec<MetaData>)
        requires
            old(value)@.len() <= i64::MAX,
        ensures
            *final(value) == *old(value),
            final(self).size == Some(old(value)@.len() as i64),
            old(self).children_spec().len() > 0 ==> {
                let s = old(self).children_slot();
                &&& final(self).slot(s)@.len() == old(value)@.len()
                &&& forall|i: int|
                    0 <= i < old(value)@.len() ==> cloned(old(value)@[i], #[trigger] final(self).slot(s)@[i])
                &&& *final(self) == (MediaContainer { size: final(self).size, ..*old(self) }).with_slot(s, final(self).slot(s))
            },
            old(self).children_spec().len() == 0 ==> *final(self) == (MediaContainer {
                size: final(self).size,
                ..*old(self)
            }),
    {
        let copy = value.clone();
        self.set_children(copy);
    }

    /// The list of children that can be changed in place.
    pub fn children_mut(&mut self) -> (r: &mut Vec<MetaData>)
        ensures
            *r == old(self).slot(old(self).children_slot()),
            *final(self) == old(self).with_slot(old(self).children_slot(), *final(r)),
    {
        if self.metadata.len() > 0 {
            &mut self.metadata
        } else if self.hub.len() > 0 {
            &mut self.hub
        } else if self.video.len() > 0 {
            &mut self.video
        } else if self.directory.len() > 0 {
            &mut self.directory
        } else {
            &mut self.metadata
        }
    }

    /// Copies of the children.
    pub fn children(&self) -> (r: Vec<MetaData>)
        ensures
            r@.len() == self.children_spec().len(),
            forall|i: int| 0 <= i < r@.len() ==> cloned(self.children_spec()[i], r@[i]),
    {
        if self.metadata.len() > 0 {
            self.metadata.clone()
        } else if self.hub.len() > 0 {
            self.hub.clone()
        } else if self.video.len() > 0 {
            self.video.clone()
        } else if self.directory.len() > 0 {
            self.directory.clone()
        } else {
            Vec::new()
        }
    }

    /// Which list holds the children (see `children_slot`).
    pub fn slot_of_children(&self) -> (r: ChildSlot)
        ensures
            r == self.children_slot(),
    {
        if self.metadata.len() > 0 {
            ChildSlot::Metadata
        } else if self.hub.len() > 0 {
            ChildSlot::Hub
        } else if self.video.len() > 0 {
            ChildSlot::Video
        } else if self.directory.len() > 0 {
            ChildSlot::Directory
        } else {
            ChildSlot::Metadata
        }
    }

    /// Whether the container has children.
    pub fn has_children(&self) -> (r: bool)
        ensures
            r == (self.children_spec().len() > 0),
    {
        self.metadata.len() > 0 || self.hub.len() > 0 || self.video.len() > 0 || self.directory.len() > 0
    }

    /// Puts a list in place.
    pub fn put_slot(&mut self, s: ChildSlot, v: Vec<MetaData>)
        ensures
            *final(self) == old(self).with_slot(s, v),
    {
        match s {
            ChildSlot::Hub => self.hub = v,
            ChildSlot::Directory => self.directory = v,
            ChildSlot::Video => self.video = v,
            ChildSlot::Metadata => self.metadata = v,
        }
    }

    /// Moves the children out of their slot; the slot is left empty.
    pub fn take_children(&mut self) -> (r: Vec<MetaData>)
        ensures
            r@ == old(self).children_spec(),
            old(self).children_spec().len() > 0 ==> *final(self) == old(self).with_slot(
                old(self).children_slot(),
                final(self).slot(old(self).children_slot()),
            ),
            old(self).children_spec().len() > 0 ==> final(self).slot(old(self).children_slot())@.len() == 0,
            old(self).children_spec().len() == 0 ==> *final(self) == *old(self),
    {
        let mut out: Vec<MetaData> = Vec::new();
        if self.metadata.len() > 0 {
            std::mem::swap(&mut self.metadata, &mut out);
        } else if self.hub.len() > 0 {
            std::mem::swap(&mut self.hub, &mut out);
        } else if self.video.len() > 0 {
            std::mem::swap(&mut self.video, &mut out);
        } else if self.directory.len() > 0 {
            std::mem::swap(&mut self.directory, &mut out);
        }
        out
    }

    /// The size, or 0 when unknown.
    pub fn get_size(&self) -> (r: i64)
        ensures
            r == match self.size {
                Some(s) => s,
                None => 0,
            },
    {
        match self.size {
            Some(s) => s,
            None => 0,
        }
    }

    /// Sets the size.
    pub fn set_size(&mut self, value: i64)
        ensures
            *final(self) == (MediaContainer { size: Some(value), ..*old(self) }),
    {
        self.size = Some(value);
    }
}

impl MediaContainerWrapper<MediaContainer> {
    /// The response lists hubs.
    pub fn is_hub(&self) -> (r: bool)
        ensures
            r == (self.media_container.hub@.len() > 0),
    {
        self.media_container.hub.len() > 0
    }

    /// The response lists the hubs of one library section.
    pub fn is_section_hub(&self) -> (r: bool)
        ensures
            r == (self.media_container.hub@.len() > 0
                && self.media_container.library_section_id is Some),
    {
        self.is_hub() && self.media_container.library_section_id.is_some()
    }
}

} // verus!
