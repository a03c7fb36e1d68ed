//! The optional features of an adapter or device, and their numbers in the C interface.
use vstd::prelude::*;

use crate::native;

verus! {

/// An optional feature that the C interface can name.
#[derive(Clone, Copy, Debug, PartialEq, Eq, Structural)]
pub enum Feature {
    DepthClipControl,
    Depth24UnormStencil8,
    Depth32FloatStencil8,
    TimestampQuery,
    PipelineStatisticsQuery,
    TextureCompressionBc,
    TextureCompressionEtc2,
    TextureCompressionAstc,
    IndirectFirstInstance,
    PrimitiveIndex,
    Immediates,
    TextureAdapterSpecificFormatFeatures,
}

/// A set of features: one flag per feature that the C interface can name.
#[derive(Clone, Copy, Debug, PartialEq, Eq, Structural)]
pub struct Features {
    pub depth_clip_control: bool,
    pub depth24unorm_stencil8: bool,
    pub depth32float_stencil8: bool,
    pub timestamp_query: bool,
    pub pipeline_statistics_query: bool,
    pub texture_compression_bc: bool,
    pub texture_compression_etc2: bool,
    pub texture_compression_astc: bool,
    pub indirect_first_instance: bool,
    pub primitive_index: bool,
    pub immediates: bool,
    pub texture_adapter_specific_format_features: bool,
}

/// Whether a set holds a feature.
pub open spec fn features_contain(fs: Features, f: Feature) -> bool {
    match f {
        Feature::DepthClipControl => fs.depth_clip_control,
        Feature::Depth24UnormStencil8 => fs.depth24unorm_stencil8,
        Feature::Depth32FloatStencil8 => fs.depth32float_stencil8,
        Feature::TimestampQuery => fs.timestamp_query,
        Feature::PipelineStatisticsQuery => fs.pipeline_statistics_query,
        Feature::TextureCompressionBc => fs.texture_compression_bc,
        Feature::TextureCompressionEtc2 => fs.texture_compression_etc2,
        Feature::TextureCompressionAstc => fs.texture_compression_astc,
        Feature::IndirectFirstInstance => fs.indirect_first_instance,
        Feature::PrimitiveIndex => fs.primitive_index,
        Feature::Immediates => fs.immediates,
        Feature::TextureAdapterSpecificFormatFeatures => fs.texture_adapter_specific_format_features,
    }
}

/// The C number of each feature: `WGPUFeatureName` for the standard ones, `WGPUNativeFeature`
/// for the ones particular to this library.
pub open spec fn feature_code(f: Feature) -> u32 {
    match f {
        Feature::DepthClipControl => native::WGPUFeatureName_DepthClipControl,
        Feature::Depth24UnormStencil8 => native::WGPUFeatureName_Depth24UnormStencil8,
        Feature::Depth32FloatStencil8 => native::WGPUFeatureName_Depth32FloatStencil8,
        Feature::TimestampQuery => native::WGPUFeatureName_TimestampQuery,
        Feature::PipelineStatisticsQuery => native::WGPUFeatureName_PipelineStatisticsQuery,
        Feature::TextureCompressionBc => native::WGPUFeatureName_TextureCompressionBC,
        Feature::TextureCompressionEtc2 => native::WGPUFeatureName_TextureCompressionETC2,
        Feature::TextureCompressionAstc => native::WGPUFeatureName_TextureCompressionASTC,
        Feature::IndirectFirstInstance => native::WGPUFeatureName_IndirectFirstInstance,
        Feature::PrimitiveIndex => native::WGPUFeatureName_PrimitiveIndex,
        Feature::Immediates => native::WGPUNativeFeature_Immediates,
        Feature::TextureAdapterSpecificFormatFeatures => native::WGPUNativeFeature_TEXTURE_ADAPTER_SPECIFIC_FORMAT_FEATURES,
    }
}

/// The order in which a set of features is listed to the caller.
pub open spec fn feature_order() -> Seq<Feature> {
    seq![
        Feature::DepthClipControl,
        Feature::Depth24UnormStencil8,
        Feature::Depth32FloatStencil8,
        Feature::TimestampQuery,
        Feature::PipelineStatisticsQuery,
        Feature::TextureCompressionBc,
        Feature::TextureCompressionEtc2,
        Feature::TextureCompressionAstc,
        Feature::IndirectFirstInstance,
        Feature::PrimitiveIndex,
        Feature::Immediates,
        Feature::TextureAdapterSpecificFormatFeatures,
    ]
}

/// The numbers of the features of `order` that the set holds, in that order.
pub open spec fn listed_codes(fs: Features, order: Seq<Feature>) -> Seq<u32>
    decreases order.len(),
{
    if order.len() == 0 {
        Seq::empty()
    } else {
        let rest = listed_codes(fs, order.drop_last());
        if features_contain(fs, order.last()) {
            rest.push(feature_code(order.last()))
        } else {
            rest
        }
    }
}

/// The empty set of features.
pub open spec fn no_features() -> Features {
    Features {
        depth_clip_control: false,
        depth24unorm_stencil8: false,
        depth32float_stencil8: false,
        timestamp_query: false,
        pipeline_statistics_query: false,
        texture_compression_bc: false,
        texture_compression_etc2: false,
        texture_compression_astc: false,
        indirect_first_instance: false,
        primitive_index: false,
        immediates: false,
        texture_adapter_specific_format_features: false,
    }
}

impl Features {
    /// The empty set.
    pub fn empty() -> (r: Features)
        ensures
            r == no_features(),
            forall|f: Feature| !features_contain(r, f),
    {
        Features {
            depth_clip_control: false,
            depth24unorm_stencil8: false,
            depth32float_stencil8: false,
            timestamp_query: false,
            pipeline_statistics_query: false,
            texture_compression_bc: false,
            texture_compression_etc2: false,
            texture_compression_astc: false,
            indirect_first_instance: false,
        primitive_index: false,
            immediates: false,
            texture_adapter_specific_format_features: false,
        }
    }

    /// Whether the set holds a feature.
    pub fn contains(&self, f: Feature) -> (r: bool)
        ensures
            r == features_contain(*self, f),
    {
        match f {
            Feature::DepthClipControl => self.depth_clip_control,
            Feature::Depth24UnormStencil8 => self.depth24unorm_stencil8,
            Feature::Depth32FloatStencil8 => self.depth32float_stencil8,
            Feature::TimestampQuery => self.timestamp_query,
            Feature::PipelineStatisticsQuery => self.pipeline_statistics_query,
            Feature::TextureCompressionBc => self.texture_compression_bc,
            Feature::TextureCompressionEtc2 => self.texture_compression_etc2,
            Feature::TextureCompressionAstc => self.texture_compression_astc,
            Feature::IndirectFirstInstance => self.indirect_first_instance,
            Feature::PrimitiveIndex => self.primitive_index,
            Feature::Immediates => self.immediates,
            Feature::TextureAdapterSpecificFormatFeatures => self.texture_adapter_specific_format_features,
        }
    }
}

/// The C number of a feature.
pub fn to_native_feature(f: Feature) -> (r: u32)
    ensures
        r == feature_code(f),
{
    match f {
        Feature::DepthClipControl => native::WGPUFeatureName_DepthClipControl,
        Feature::Depth24UnormStencil8 => native::WGPUFeatureName_Depth24UnormStencil8,
        Feature::Depth32FloatStencil8 => native::WGPUFeatureName_Depth32FloatStencil8,
        Feature::TimestampQuery => native::WGPUFeatureName_TimestampQuery,
        Feature::PipelineStatisticsQuery => native::WGPUFeatureName_PipelineStatisticsQuery,
        Feature::TextureCompressionBc => native::WGPUFeatureName_TextureCompressionBC,
        Feature::TextureCompressionEtc2 => native::WGPUFeatureName_TextureCompressionETC2,
        Feature::TextureCompressionAstc => native::WGPUFeatureName_TextureCompressionASTC,
        Feature::IndirectFirstInstance => native::WGPUFeatureName_IndirectFirstInstance,
        Feature::PrimitiveIndex => native::WGPUFeatureName_PrimitiveIndex,
        Feature::Immediates => native::WGPUNativeFeature_Immediates,
        Feature::TextureAdapterSpecificFormatFeatures => native::WGPUNativeFeature_TEXTURE_ADAPTER_SPECIFIC_FORMAT_FEATURES,
    }
}

/// Converts the C number of a feature; `None` for a number that names none.
pub fn map_feature(value: u32) -> (r: Option<Feature>)
    ensures
        forall|f: Feature| (r == Some(f)) <==> feature_code(f) == value,
        r == feature_of_code(value),
{
    let r = match value {
        native::WGPUFeatureName_DepthClipControl => Some(Feature::DepthClipControl),
        native::WGPUFeatureName_Depth24UnormStencil8 => Some(Feature::Depth24UnormStencil8),
        native::WGPUFeatureName_Depth32FloatStencil8 => Some(Feature::Depth32FloatStencil8),
        native::WGPUFeatureName_TimestampQuery => Some(Feature::TimestampQuery),
        native::WGPUFeatureName_PipelineStatisticsQuery => Some(Feature::PipelineStatisticsQuery),
        native::WGPUFeatureName_TextureCompressionBC => Some(Feature::TextureCompressionBc),
        native::WGPUFeatureName_TextureCompressionETC2 => Some(Feature::TextureCompressionEtc2),
        native::WGPUFeatureName_TextureCompressionASTC => Some(Feature::TextureCompressionAstc),
        native::WGPUFeatureName_IndirectFirstInstance => Some(Feature::IndirectFirstInstance),
        native::WGPUFeatureName_PrimitiveIndex => Some(Feature::PrimitiveIndex),
        native::WGPUNativeFeature_Immediates => Some(Feature::Immediates),
        native::WGPUNativeFeature_TEXTURE_ADAPTER_SPECIFIC_FORMAT_FEATURES => Some(Feature::TextureAdapterSpecificFormatFeatures),
        _ => None,
    };
    proof {
        if let Some(f) = r {
            assert(feature_code(f) == value);
            assert forall|g: Feature| feature_code(g) == value implies g == f by {
                lemma_feature_code_injective(g, f);
            }
        }
    }
    r
}

/// The features in the order in which they are listed.
fn feature_list() -> (r: Vec<Feature>)
    ensures
        r@ == feature_order(),
{
    let r = vec![
        Feature::DepthClipControl,
        Feature::Depth24UnormStencil8,
        Feature::Depth32FloatStencil8,
        Feature::TimestampQuery,
        Feature::PipelineStatisticsQuery,
        Feature::TextureCompressionBc,
        Feature::TextureCompressionEtc2,
        Feature::TextureCompressionAstc,
        Feature::IndirectFirstInstance,
        Feature::PrimitiveIndex,
        Feature::Immediates,
        Feature::TextureAdapterSpecificFormatFeatures,
    ];
    assert(r@ == feature_order());
    r
}

/// Lists the C numbers of the features that a set holds, in the fixed order of the features.
pub fn features_to_slice(features: &Features) -> (r: Vec<u32>)
    ensures
        r@ == listed_codes(*features, feature_order()),
{
    let order = feature_list();
    let mut temp: Vec<u32> = Vec::new();
    let mut i: usize = 0;
    while i < order.len()
        invariant
            i <= order@.len(),
            order@ == feature_order(),
            temp@ == listed_codes(*features, order@.subrange(0, i as int)),
        decreases order.len() - i,
    {
        assert(order@.subrange(0, i + 1).drop_last() == order@.subrange(0, i as int));
        if features.contains(order[i]) {
            temp.push(to_native_feature(order[i]));
        }
        i = i + 1;
    }
    assert(order@.subrange(0, i as int) == order@);
    temp
}

/// Whether a set holds the feature that a C number names; false for a number that names none.
pub fn has_feature(features: &Features, value: u32) -> (r: bool)
    ensures
        r == exists|f: Feature| feature_code(f) == value && features_contain(*features, f),
{
    match map_feature(value) {
        Some(f) => {
            assert(feature_code(f) == value);
            assert(forall|g: Feature| feature_code(g) == value ==> Some(g) == Some(f));
            features.contains(f)
        },
        None => false,
    }
}

/// The features that a device is asked for through the flags of the device extension: a
/// feature particular to this library is asked for where the flags share a bit with its number.
pub open spec fn requested_features(native_features: u32) -> Features {
    Features {
        immediates: (native_features & native::WGPUNativeFeature_Immediates) > 0,
        texture_adapter_specific_format_features:
            (native_features & native::WGPUNativeFeature_TEXTURE_ADAPTER_SPECIFIC_FORMAT_FEATURES) > 0,
        ..no_features()
    }
}

/// Finds the features that a device is asked for from the flags of the device extension.
pub fn map_requested_features(native_features: u32) -> (r: Features)
    ensures
        r == requested_features(native_features),
{
    let mut features = Features::empty();
    if (native_features & native::WGPUNativeFeature_TEXTURE_ADAPTER_SPECIFIC_FORMAT_FEATURES) > 0 {
        features.texture_adapter_specific_format_features = true;
    }
    if (native_features & native::WGPUNativeFeature_Immediates) > 0 {
        features.immediates = true;
    }
    features
}

/// A number is listed for a set exactly when it is the number of a feature of `order` that the
/// set holds.
pub proof fn lemma_listed_codes_members(fs: Features, order: Seq<Feature>, x: u32)
    ensures
        listed_codes(fs, order).contains(x) <==> exists|i: int|
            0 <= i < order.len() && features_contain(fs, #[trigger] order[i]) && feature_code(order[i]) == x,
    decreases order.len(),
{
    if order.len() > 0 {
        let prefix = order.drop_last();
        lemma_listed_codes_members(fs, prefix, x);
        let rest = listed_codes(fs, prefix);
        if exists|i: int| 0 <= i < prefix.len() && features_contain(fs, #[trigger] prefix[i]) && feature_code(prefix[i]) == x {
            let i = choose|i: int| 0 <= i < prefix.len() && features_contain(fs, #[trigger] prefix[i]) && feature_code(prefix[i]) == x;
            assert(order[i] == prefix[i]);
        }
        if exists|i: int| 0 <= i < order.len() && features_contain(fs, #[trigger] order[i]) && feature_code(order[i]) == x {
            let i = choose|i: int| 0 <= i < order.len() && features_contain(fs, #[trigger] order[i]) && feature_code(order[i]) == x;
            if i < order.len() - 1 {
                assert(prefix[i] == order[i]);
            } else {
                assert(listed_codes(fs, order) == rest.push(x));
                assert(listed_codes(fs, order)[rest.len() as int] == x);
            }
        }
        if features_contain(fs, order.last()) {
            assert(listed_codes(fs, order) == rest.push(feature_code(order.last())));
            if listed_codes(fs, order).contains(x) {
                let k = choose|k: int| 0 <= k < listed_codes(fs, order).len() && listed_codes(fs, order)[k] == x;
                if k < rest.len() {
                    assert(rest[k] == x);
                } else {
                    assert(order[order.len() - 1] == order.last());
                }
            }
            if rest.contains(x) {
                let k = choose|k: int| 0 <= k < rest.len() && rest[k] == x;
                assert(listed_codes(fs, order)[k] == x);
            }
        }
    }
}

/// The list of a set of features holds, for every feature of the set, its number, and nothing
/// else: every number in it names a feature of the set.
pub proof fn features_listing_is_exact(fs: Features, x: u32)
    ensures
        listed_codes(fs, feature_order()).contains(x) <==> exists|f: Feature|
            features_contain(fs, f) && feature_code(f) == x,
{
    lemma_listed_codes_members(fs, feature_order(), x);
    let order = feature_order();
    if exists|f: Feature| features_contain(fs, f) && feature_code(f) == x {
        let f = choose|f: Feature| features_contain(fs, f) && feature_code(f) == x;
        match f {
            Feature::DepthClipControl => assert(order[0] == f),
            Feature::Depth24UnormStencil8 => assert(order[1] == f),
            Feature::Depth32FloatStencil8 => assert(order[2] == f),
            Feature::TimestampQuery => assert(order[3] == f),
            Feature::PipelineStatisticsQuery => assert(order[4] == f),
            Feature::TextureCompressionBc => assert(order[5] == f),
            Feature::TextureCompressionEtc2 => assert(order[6] == f),
            Feature::TextureCompressionAstc => assert(order[7] == f),
            Feature::IndirectFirstInstance => assert(order[8] == f),
            Feature::PrimitiveIndex => assert(order[9] == f),
            Feature::Immediates => assert(order[10] == f),
            Feature::TextureAdapterSpecificFormatFeatures => assert(order[11] == f),
        }
    }
}

/// No two features share a C number.
pub proof fn lemma_feature_code_injective(f: Feature, g: Feature)
    requires
        feature_code(f) == feature_code(g),
    ensures
        f == g,
{
}

/// The feature that a C number names, if any.
pub open spec fn feature_of_code(value: u32) -> Option<Feature> {
    if exists|f: Feature| feature_code(f) == value {
        Some(choose|f: Feature| feature_code(f) == value)
    } else {
        None
    }
}

/// The numbers listed for the features of an order without repeats have no repeats.
proof fn lemma_listed_codes_distinct(fs: Features, order: Seq<Feature>)
    requires
        order.no_duplicates(),
    ensures
        listed_codes(fs, order).no_duplicates(),
    decreases order.len(),
{
    if order.len() > 0 {
        let prefix = order.drop_last();
        assert(prefix.no_duplicates()) by {
            assert forall|i: int, j: int| 0 <= i < prefix.len() && 0 <= j < prefix.len() && i != j
                implies prefix[i] != prefix[j] by {
                assert(prefix[i] == order[i] && prefix[j] == order[j]);
            }
        }
        lemma_listed_codes_distinct(fs, prefix);
        let rest = listed_codes(fs, prefix);
        if features_contain(fs, order.last()) {
            let x = feature_code(order.last());
            lemma_listed_codes_members(fs, prefix, x);
            if rest.contains(x) {
                let i = choose|i: int|
                    0 <= i < prefix.len() && features_contain(fs, #[trigger] prefix[i]) && feature_code(prefix[i]) == x;
                lemma_feature_code_injective(prefix[i], order.last());
                assert(prefix[i] == order[i]);
                assert(order[order.len() - 1] == order.last());
            }
            let all = listed_codes(fs, order);
            assert(all == rest.push(x));
            assert forall|i: int, j: int| 0 <= i < all.len() && 0 <= j < all.len() && i != j
                implies all[i] != all[j] by {
                if i < rest.len() && j < rest.len() {
                    assert(all[i] == rest[i] && all[j] == rest[j]);
                } else if i < rest.len() {
                    assert(all[i] == rest[i]);
                } else if j < rest.len() {
                    assert(all[j] == rest[j]);
                }
            }
        }
    }
}

/// The list of a set of features names each feature of the set once: it has no repeats, and a
/// number is in it exactly when it names, as `map_feature` reads it, a feature of the set.
pub proof fn features_listing_names_held_features_once(fs: Features)
    ensures
        listed_codes(fs, feature_order()).no_duplicates(),
        forall|n: u32| #[trigger] listed_codes(fs, feature_order()).contains(n) <==> (feature_of_code(n) matches Some(f)
            && features_contain(fs, f)),
{
    let order = feature_order();
    assert(order.no_duplicates());
    lemma_listed_codes_distinct(fs, order);
    assert forall|n: u32| #[trigger] listed_codes(fs, feature_order()).contains(n) <==> (feature_of_code(n) matches Some(f)
        && features_contain(fs, f)) by {
        features_listing_is_exact(fs, n);
        if exists|f: Feature| feature_code(f) == n {
            let f = choose|f: Feature| feature_code(f) == n;
            assert forall|g: Feature| feature_code(g) == n implies g == f by {
                lemma_feature_code_injective(g, f);
            }
        }
    }
}

/// Every number in the list of a set of features names, back through `map_feature`, a feature
/// that the set holds: listing and looking up agree.
pub proof fn listed_features_are_held(fs: Features, f: Feature)
    requires
        listed_codes(fs, feature_order()).contains(feature_code(f)),
    ensures
        features_contain(fs, f),
{
    features_listing_is_exact(fs, feature_code(f));
    let g = choose|g: Feature| features_contain(fs, g) && feature_code(g) == feature_code(f);
    assert(g == f);
}

/// Each feature is numbered by the header constant of the same name: `WGPUFeatureName` for the
/// standard features, `WGPUNativeFeature` for the ones particular to this library.
pub proof fn feature_numbers_are_the_header_constants()
    ensures
        feature_code(Feature::DepthClipControl) == native::WGPUFeatureName_DepthClipControl,
        feature_code(Feature::Depth24UnormStencil8) == native::WGPUFeatureName_Depth24UnormStencil8,
        feature_code(Feature::Depth32FloatStencil8) == native::WGPUFeatureName_Depth32FloatStencil8,
        feature_code(Feature::TimestampQuery) == native::WGPUFeatureName_TimestampQuery,
        feature_code(Feature::PipelineStatisticsQuery) == native::WGPUFeatureName_PipelineStatisticsQuery,
        feature_code(Feature::TextureCompressionBc) == native::WGPUFeatureName_TextureCompressionBC,
        feature_code(Feature::TextureCompressionEtc2) == native::WGPUFeatureName_TextureCompressionETC2,
        feature_code(Feature::TextureCompressionAstc) == native::WGPUFeatureName_TextureCompressionASTC,
        feature_code(Feature::IndirectFirstInstance) == native::WGPUFeatureName_IndirectFirstInstance,
        feature_code(Feature::PrimitiveIndex) == native::WGPUFeatureName_PrimitiveIndex,
        feature_code(Feature::Immediates) == native::WGPUNativeFeature_Immediates,
        feature_code(Feature::TextureAdapterSpecificFormatFeatures) == native::WGPUNativeFeature_TEXTURE_ADAPTER_SPECIFIC_FORMAT_FEATURES,
{
}

/// A set holds a feature exactly when the flag of the same name is set.
pub proof fn features_are_held_by_their_flags(fs: Features)
    ensures
        features_contain(fs, Feature::DepthClipControl) == fs.depth_clip_control,
        features_contain(fs, Feature::Depth24UnormStencil8) == fs.depth24unorm_stencil8,
        features_contain(fs, Feature::Depth32FloatStencil8) == fs.depth32float_stencil8,
        features_contain(fs, Feature::TimestampQuery) == fs.timestamp_query,
        features_contain(fs, Feature::PipelineStatisticsQuery) == fs.pipeline_statistics_query,
        features_contain(fs, Feature::TextureCompressionBc) == fs.texture_compression_bc,
        features_contain(fs, Feature::TextureCompressionEtc2) == fs.texture_compression_etc2,
        features_contain(fs, Feature::TextureCompressionAstc) == fs.texture_compression_astc,
        features_contain(fs, Feature::IndirectFirstInstance) == fs.indirect_first_instance,
        features_contain(fs, Feature::PrimitiveIndex) == fs.primitive_index,
        features_contain(fs, Feature::Immediates) == fs.immediates,
        features_contain(fs, Feature::TextureAdapterSpecificFormatFeatures) == fs.texture_adapter_specific_format_features,
{
}

/// What a set lists for one feature: the feature's number where the set holds it, else nothing.
pub open spec fn listed_if(held: bool, code: u32) -> Seq<u32> {
    if held { seq![code] } else { Seq::empty() }
}

/// The numbers listed for the features of `order` are those listed for all of them but the last,
/// then the last one's number where the set holds it.
proof fn lemma_listed_codes_step(fs: Features, order: Seq<Feature>)
    requires
        order.len() > 0,
    ensures
        listed_codes(fs, order) == listed_codes(fs, order.drop_last())
            + listed_if(features_contain(fs, order.last()), feature_code(order.last())),
{
    let rest = listed_codes(fs, order.drop_last());
    if features_contain(fs, order.last()) {
        assert(rest.push(feature_code(order.last())) =~= rest + seq![feature_code(order.last())]);
    } else {
        assert(rest =~= rest + Seq::<u32>::empty());
    }
}

/// The features of a set are listed in a fixed order, the standard features first and those
/// particular to this library last: each that the set holds once, by the header constant of its
/// name, and no other number.
pub proof fn features_are_listed_in_fixed_order(fs: Features)
    ensures
        listed_codes(fs, feature_order()) == Seq::<u32>::empty()
            + listed_if(fs.depth_clip_control, native::WGPUFeatureName_DepthClipControl)
            + listed_if(fs.depth24unorm_stencil8, native::WGPUFeatureName_Depth24UnormStencil8)
            + listed_if(fs.depth32float_stencil8, native::WGPUFeatureName_Depth32FloatStencil8)
            + listed_if(fs.timestamp_query, native::WGPUFeatureName_TimestampQuery)
            + listed_if(fs.pipeline_statistics_query, native::WGPUFeatureName_PipelineStatisticsQuery)
            + listed_if(fs.texture_compression_bc, native::WGPUFeatureName_TextureCompressionBC)
            + listed_if(fs.texture_compression_etc2, native::WGPUFeatureName_TextureCompressionETC2)
            + listed_if(fs.texture_compression_astc, native::WGPUFeatureName_TextureCompressionASTC)
            + listed_if(fs.indirect_first_instance, native::WGPUFeatureName_IndirectFirstInstance)
            + listed_if(fs.primitive_index, native::WGPUFeatureName_PrimitiveIndex)
            + listed_if(fs.immediates, native::WGPUNativeFeature_Immediates)
            + listed_if(fs.texture_adapter_specific_format_features, native::WGPUNativeFeature_TEXTURE_ADAPTER_SPECIFIC_FORMAT_FEATURES),
{
    let o = feature_order();
    assert forall|k: int| 0 < k <= o.len() implies #[trigger] listed_codes(fs, o.subrange(0, k))
        == listed_codes(fs, o.subrange(0, k - 1)) + listed_if(features_contain(fs, o[k - 1]), feature_code(o[k - 1])) by {
        assert(o.subrange(0, k).drop_last() =~= o.subrange(0, k - 1));
        lemma_listed_codes_step(fs, o.subrange(0, k));
    }
    assert(o.subrange(0, 0) =~= Seq::<Feature>::empty());
    assert(o.subrange(0, 12) =~= o);
}

} // verus!
