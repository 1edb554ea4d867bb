//! The rules each response handler applies, and their application.
use vstd::prelude::*;
use crate::config::Config;
use crate::models::{MediaContainer, MediaContainerWrapper, MetaData, PlexContext, Style};
use crate::transform::{
    FilterStep, PlexData, TransformBuilder, TransformContext, TransformError, TransformStep, applied, applied_fails,
    filtered_by, list_error, resized,
};
use crate::transform::collection_style::CollectionStyleTransform;
use crate::transform::hub_interleave::HubInterleaveTransform;
use crate::transform::hub_key::HubKeyTransform;
use crate::transform::hub_reorder::HubReorderTransform;
use crate::transform::hub_style::HubStyleTransform;
use crate::transform::library_interleave::LibraryInterleaveTransform;
use crate::transform::media_style::MediaStyleTransform;
use crate::transform::restrictions::HubRestrictionTransform;
use crate::transform::user_state::UserStateTransform;
use crate::utils::ContentType;

verus! {

/// The rules for hub lists: restrictions, hero style, interleaving, user
/// state, keys through the proxy.
pub open spec fn hubs_steps() -> Seq<TransformStep> {
    seq![
        TransformStep::HubRestriction(HubRestrictionTransform),
        TransformStep::HubStyle(HubStyleTransform { is_home: true }),
        TransformStep::HubInterleave(HubInterleaveTransform),
        TransformStep::UserState(UserStateTransform),
        TransformStep::HubKey(HubKeyTransform),
    ]
}

/// The rules for the items behind a hub key: restrictions, the style the
/// key names, user state, keys through the proxy.
pub open spec fn default_steps(style: Style) -> Seq<TransformStep> {
    seq![
        TransformStep::HubRestriction(HubRestrictionTransform),
        TransformStep::MediaStyle(MediaStyleTransform { style }),
        TransformStep::UserState(UserStateTransform),
        TransformStep::HubKey(HubKeyTransform),
    ]
}

/// Whether the children of collections are shown within a hub: a guess
/// from a request that names a content directory and asks for no
/// collections, advanced filters or leaves.
pub open spec fn collections_within_hub(context: PlexContext) -> bool {
    context.content_directory_id is Some && !context.include_collections && !context.include_advanced
        && !context.exclude_all_leaves
}

/// `w` is what applying `ts` (without filters) makes of `container`,
/// answered in `content_type`.
pub open spec fn response_of(
    ts: Seq<TransformStep>,
    container: MediaContainer,
    w: MediaContainerWrapper<MediaContainer>,
    content_type: ContentType,
    ctx: TransformContext,
) -> bool {
    &&& w.content_type == content_type
    &&& exists|c1: MediaContainer, c2: MediaContainer|
        #[trigger] filtered_by(Seq::<FilterStep>::empty(), container, c1, ctx.config, ctx.data)
        && #[trigger] applied(ts, c1, c2, ctx) && resized(c2, w.media_container)
}

pub open spec fn response_fails(ts: Seq<TransformStep>, container: MediaContainer, e: TransformError, ctx: TransformContext) -> bool {
    list_error(Seq::<FilterStep>::empty(), container.children_spec(), ctx.config, ctx.data) == Some(e) || exists|
        c1: MediaContainer,
    |
        #[trigger] filtered_by(Seq::<FilterStep>::empty(), container, c1, ctx.config, ctx.data) && applied_fails(ts, c1, e, ctx)
}

fn apply_steps(
    steps: Vec<TransformStep>,
    container: MediaContainer,
    content_type: ContentType,
    ctx: TransformContext,
) -> (r: Result<MediaContainerWrapper<MediaContainer>, TransformError>)
    ensures
        match r {
            Ok(w) => response_of(steps@, container, w, content_type, ctx),
            Err(e) => response_fails(steps@, container, e, ctx),
        },
{
    let mut b = TransformBuilder::new(ctx.options, ctx.config, ctx.data);
    b.transforms = steps;
    assert(b.filters@ == Seq::<FilterStep>::empty());
    b.apply_to(MediaContainerWrapper { media_container: container, content_type })
}

/// A list of hubs rewritten by the hub rules (see `hubs_steps`).
pub fn transform_hubs_response(
    container: MediaContainer,
    content_type: ContentType,
    options: PlexContext,
    config: Config,
    data: PlexData,
) -> (r: Result<MediaContainerWrapper<MediaContainer>, TransformError>)
    ensures
        match r {
            Ok(w) => response_of(hubs_steps(), container, w, content_type, TransformContext { options, config, data }),
            Err(e) => response_fails(hubs_steps(), container, e, TransformContext { options, config, data }),
        },
{
    let mut steps: Vec<TransformStep> = Vec::new();
    steps.push(TransformStep::HubRestriction(HubRestrictionTransform));
    steps.push(TransformStep::HubStyle(HubStyleTransform { is_home: true }));
    steps.push(TransformStep::HubInterleave(HubInterleaveTransform));
    steps.push(TransformStep::UserState(UserStateTransform));
    steps.push(TransformStep::HubKey(HubKeyTransform));
    assert(steps@ == hubs_steps());
    apply_steps(steps, container, content_type, TransformContext { options, config, data })
}

/// The items behind a hub key rewritten by the rules for its style (see
/// `default_steps`).
pub fn default_transform(
    container: MediaContainer,
    style: Style,
    content_type: ContentType,
    options: PlexContext,
    config: Config,
    data: PlexData,
) -> (r: Result<MediaContainerWrapper<MediaContainer>, TransformError>)
    ensures
        match r {
            Ok(w) => response_of(default_steps(style), container, w, content_type, TransformContext { options, config, data }),
            Err(e) => response_fails(default_steps(style), container, e, TransformContext { options, config, data }),
        },
{
    let mut steps: Vec<TransformStep> = Vec::new();
    steps.push(TransformStep::HubRestriction(HubRestrictionTransform));
    steps.push(TransformStep::MediaStyle(MediaStyleTransform { style }));
    steps.push(TransformStep::UserState(UserStateTransform));
    steps.push(TransformStep::HubKey(HubKeyTransform));
    assert(steps@ == default_steps(style));
    apply_steps(steps, container, content_type, TransformContext { options, config, data })
}

/// The rules for the children of collections, given what was fetched for
/// each collection: interleaving, custom order, restrictions, collection
/// style, user state.
pub open spec fn collections_steps_ok(steps: Seq<TransformStep>, ids: Seq<u32>, offset: i32, limit: i32, context: PlexContext) -> bool {
    &&& steps.len() == 5
    &&& steps[0] matches TransformStep::LibraryInterleave(l) && l.collection_ids@ == ids && l.offset == offset
        && l.limit == limit
    &&& steps[1] matches TransformStep::HubReorder(h) && h.collection_ids@ == ids
    &&& steps[2] == TransformStep::HubRestriction(HubRestrictionTransform)
    &&& steps[3] matches TransformStep::CollectionStyle(c) && c.collection_ids@ == ids && c.hub
        == collections_within_hub(context)
    &&& steps[4] == TransformStep::UserState(UserStateTransform)
}

/// An empty container of size 0 at `offset`.
pub open spec fn collection_stub(stub: MediaContainer, offset: i32) -> bool {
    &&& stub.size == Some(0i64)
    &&& stub.offset == Some(offset)
    &&& (MediaContainer { size: None, offset: None, ..stub }).is_empty_spec()
}

/// The children of collections, mixed and styled: a stub container with
/// size 0 at `offset` is filled by the collection rules (see
/// `collections_steps_ok`); `fetched` holds the children fetched for each
/// collection with `offset` and `limit`.
pub fn get_collections_children(
    collection_ids: Vec<u32>,
    offset: i32,
    limit: i32,
    fetched: Vec<Vec<MetaData>>,
    content_type: ContentType,
    options: PlexContext,
    config: Config,
    data: PlexData,
) -> (r: Result<MediaContainerWrapper<MediaContainer>, TransformError>)
    ensures
        exists|steps: Seq<TransformStep>, stub: MediaContainer| {
            &&& #[trigger] collections_steps_ok(steps, collection_ids@, offset, limit, options)
            &&& steps[0] matches TransformStep::LibraryInterleave(l) && l.fetched@ == fetched@
            &&& #[trigger] collection_stub(stub, offset)
            &&& match r {
                Ok(w) => response_of(steps, stub, w, content_type, TransformContext { options, config, data }),
                Err(e) => response_fails(steps, stub, e, TransformContext { options, config, data }),
            }
        },
{
    let mut stub = MediaContainer::empty();
    stub.size = Some(0);
    stub.offset = Some(offset);
    let ghost g_stub = stub;
    let hub = options.content_directory_id.is_some() && !options.include_collections && !options.include_advanced
        && !options.exclude_all_leaves;
    let mut steps: Vec<TransformStep> = Vec::new();
    let ids2 = collection_ids.clone();
    let ids3 = collection_ids.clone();
    steps.push(TransformStep::LibraryInterleave(LibraryInterleaveTransform { collection_ids, offset, limit, fetched }));
    steps.push(TransformStep::HubReorder(HubReorderTransform { collection_ids: ids2 }));
    steps.push(TransformStep::HubRestriction(HubRestrictionTransform));
    steps.push(TransformStep::CollectionStyle(CollectionStyleTransform { collection_ids: ids3, hub }));
    steps.push(TransformStep::UserState(UserStateTransform));
    let ghost g_steps = steps@;
    let r = apply_steps(steps, stub, content_type, TransformContext { options, config, data });
    assert(collections_steps_ok(g_steps, collection_ids@, offset, limit, options));
    assert(collection_stub(g_stub, offset));
    r
}

} // verus!
