//! Layers: batching instances into depth-ordered draw commands.
//!
//! A [`LayerBuilder`] groups added instances into one bucket per vector
//! image, in first-seen order, handing each added instance the layer's
//! running depth offset and advancing that offset by the image's depth
//! budget so successive images never collide. Building sorts each bucket's
//! instances by depth (ties keep submission order), allocates one contiguous
//! device range per bucket sized to hold all of its instances, uploads the
//! k-th instance in depth order into the k-th stride-wide window, and emits
//! one draw command per bucket into the fill pass and the stroke pass as the
//! image's operations demand. The resulting [`Layer`] is immutable.

use vstd::prelude::*;

use crate::address::GPU_ADDR_OFFSET_MASK;
use crate::address::GpuAddress;
use crate::address::GpuAddressRange;
use crate::context::Context;
use crate::device::Device;
use crate::error::RenderError;
use crate::ids::EffectId;
use crate::ids::GeometryId;
use crate::ids::VectorImageId;
use crate::image::VectorImageInstance;
use std::rc::Rc;

verus! {

/// One batched draw: all instances of one vector image, starting at a base
/// device address.
pub struct DrawCmd {
    pub geometry: GeometryId,
    pub num_instances: u32,
    pub base_address: GpuAddress,
}

/// Which vertex buffers a render pass draws.
#[derive(Copy, Clone, Debug, PartialEq, Eq, Structural)]
pub enum VertexType {
    Fill,
    Stroke,
}

/// The fixed configuration a render pass hands to the device.
pub struct RenderPassOptions {
    pub vertex_type: VertexType,
    pub enable_blending: bool,
    pub enable_depth_write: bool,
    pub enable_depth_test: bool,
    pub effect: EffectId,
}

/// Spec model of one added instance: its assigned depth offset and its GPU
/// words.
#[verifier::ext_equal]
pub struct InstanceModel {
    pub z_index: u32,
    pub words: Seq<u32>,
}

/// Spec model of one image bucket: the image's descriptor data and the
/// instances added for it, in submission order.
#[verifier::ext_equal]
pub struct BucketModel {
    pub id: VectorImageId,
    pub geometry: GeometryId,
    pub mem_per_instance: u32,
    pub contains_fill_ops: bool,
    pub contains_stroke_ops: bool,
    pub instances: Seq<InstanceModel>,
}

/// `x` inserted behind every entry of `s` whose depth does not exceed its
/// own: the insertion step of a stable depth sort.
pub open spec fn depth_insert(s: Seq<InstanceModel>, x: InstanceModel) -> Seq<InstanceModel>
    decreases s.len(),
{
    if s.len() == 0 {
        seq![x]
    } else if s.last().z_index > x.z_index {
        depth_insert(s.drop_last(), x).push(s.last())
    } else {
        s.push(x)
    }
}

/// `s` in ascending depth order, entries of equal depth keeping their
/// relative order: a stable insertion sort.
pub open spec fn depth_sorted(s: Seq<InstanceModel>) -> Seq<InstanceModel>
    decreases s.len(),
{
    if s.len() == 0 {
        s
    } else {
        depth_insert(depth_sorted(s.drop_last()), s.last())
    }
}

/// Ascending depth order.
pub open spec fn is_depth_ordered(s: Seq<InstanceModel>) -> bool {
    forall|i: int, j: int| 0 <= i < j < s.len() ==> s[i].z_index <= s[j].z_index
}

/// Law (insertion step): inserting into a depth-ordered sequence splices the
/// new entry exactly behind every entry of depth at most its own — entries
/// of equal depth that were already present stay in front, so submission
/// order among equal depths is preserved — and the result is depth-ordered.
pub proof fn lemma_depth_insert_stable(s: Seq<InstanceModel>, x: InstanceModel)
    requires
        is_depth_ordered(s),
    ensures
        is_depth_ordered(depth_insert(s, x)),
        exists|k: int|
            {
                &&& 0 <= k <= s.len()
                &&& #[trigger] depth_insert(s, x) =~= s.subrange(0, k) + seq![x] + s.subrange(
                    k,
                    s.len() as int,
                )
                &&& (forall|j: int| 0 <= j < k ==> s[j].z_index <= x.z_index)
                &&& (forall|j: int| k <= j < s.len() ==> s[j].z_index > x.z_index)
            },
    decreases s.len(),
{
    if s.len() == 0 {
        let k: int = 0;
        assert(depth_insert(s, x) =~= s.subrange(0, k) + seq![x] + s.subrange(k, s.len() as int));
    } else if s.last().z_index > x.z_index {
        lemma_depth_insert_stable(s.drop_last(), x);
        let k = choose|k: int|
            {
                &&& 0 <= k <= s.drop_last().len()
                &&& #[trigger] depth_insert(s.drop_last(), x) =~= s.drop_last().subrange(0, k)
                    + seq![x] + s.drop_last().subrange(k, s.drop_last().len() as int)
                &&& (forall|j: int| 0 <= j < k ==> s.drop_last()[j].z_index <= x.z_index)
                &&& (forall|j: int|
                    k <= j < s.drop_last().len() ==> s.drop_last()[j].z_index > x.z_index)
            };
        assert forall|j: int| 0 <= j < k implies s[j].z_index <= x.z_index by {
            assert(s[j] == s.drop_last()[j]);
        }
        assert forall|j: int| k <= j < s.len() implies s[j].z_index > x.z_index by {
            if j < s.len() - 1 {
                assert(s[j] == s.drop_last()[j]);
            }
        }
        assert(depth_insert(s, x) =~= s.subrange(0, k) + seq![x] + s.subrange(k, s.len() as int));
    } else {
        let k = s.len() as int;
        assert(depth_insert(s, x) =~= s.subrange(0, k) + seq![x] + s.subrange(k, s.len() as int));
        assert(forall|j: int| 0 <= j < k ==> s[j].z_index <= x.z_index);
    }
}

/// Law: a bucket's instances sorted for upload are in ascending depth order.
pub proof fn lemma_depth_sorted_ordered(s: Seq<InstanceModel>)
    ensures
        is_depth_ordered(depth_sorted(s)),
        depth_sorted(s).len() == s.len(),
    decreases s.len(),
{
    if s.len() > 0 {
        lemma_depth_sorted_ordered(s.drop_last());
        lemma_depth_insert_stable(depth_sorted(s.drop_last()), s.last());
    }
}

/// Law: sorting for upload loses and invents nothing — the sorted sequence
/// holds exactly the added instances.
pub proof fn lemma_depth_sorted_permutes(s: Seq<InstanceModel>)
    ensures
        depth_sorted(s).to_multiset() =~= s.to_multiset(),
    decreases s.len(),
{
    if s.len() > 0 {
        lemma_depth_sorted_permutes(s.drop_last());
        lemma_depth_sorted_ordered(s.drop_last());
        lemma_depth_insert_stable(depth_sorted(s.drop_last()), s.last());
        let sorted_prefix = depth_sorted(s.drop_last());
        let k = choose|k: int|
            {
                &&& 0 <= k <= sorted_prefix.len()
                &&& #[trigger] depth_insert(sorted_prefix, s.last()) =~= sorted_prefix.subrange(
                    0,
                    k,
                ) + seq![s.last()] + sorted_prefix.subrange(k, sorted_prefix.len() as int)
            };
        vstd::seq_lib::lemma_multiset_commutative(
            sorted_prefix.subrange(0, k) + seq![s.last()],
            sorted_prefix.subrange(k, sorted_prefix.len() as int),
        );
        vstd::seq_lib::lemma_multiset_commutative(sorted_prefix.subrange(0, k), seq![s.last()]);
        vstd::seq_lib::lemma_multiset_commutative(
            sorted_prefix.subrange(0, k),
            sorted_prefix.subrange(k, sorted_prefix.len() as int),
        );
        assert(sorted_prefix.subrange(0, k) + sorted_prefix.subrange(k, sorted_prefix.len() as int)
            =~= sorted_prefix);
        assert(s.drop_last().push(s.last()) =~= s);
        vstd::seq_lib::lemma_multiset_commutative(s.drop_last(), seq![s.last()]);
        assert(s.drop_last() + seq![s.last()] =~= s);
    }
}

/// The per-instance upload windows of one allocated bucket range: the k-th
/// instance in depth order is uploaded into the k-th stride-wide window, so
/// device-side instance k occupies `[base + k*stride, base + (k+1)*stride)`.
pub fn instance_upload_ranges(range: GpuAddressRange, stride: u32, count: u32) -> (r: Vec<
    GpuAddressRange,
>)
    requires
        range.wf(),
        range.is_global(),
        stride * count == range.len_spec(),
    ensures
        r@.len() == count,
        forall|k: int|
            0 <= k < count ==> {
                let sub = #[trigger] r@[k];
                &&& sub.wf()
                &&& sub.is_global()
                &&& sub.start_spec().offset_spec() == range.start_spec().offset_spec() + k * stride
                &&& sub.len_spec() == stride
            },
{
    let mut r: Vec<GpuAddressRange> = Vec::new();
    let mut cursor = range;
    let base = range.start().offset();
    let mut k: u32 = 0;
    proof {
        assert(base + stride * count <= GPU_ADDR_OFFSET_MASK) by {
            let e = range.end_spec().raw_spec();
            assert((e & 0x00FF_FFFFu32) <= 0x00FF_FFFFu32) by (bit_vector);
        }
    }
    while k < count
        invariant
            range.wf(),
            range.is_global(),
            stride * count == range.len_spec(),
            base == range.start_spec().offset_spec(),
            base + stride * count <= GPU_ADDR_OFFSET_MASK,
            0 <= k <= count,
            cursor.wf(),
            cursor.is_global(),
            cursor.end_spec() == range.end_spec(),
            cursor.start_spec().offset_spec() == base + k * stride,
            cursor.len_spec() == stride * (count - k),
            r@.len() == k,
            forall|j: int|
                0 <= j < k ==> {
                    let sub = #[trigger] r@[j];
                    &&& sub.wf()
                    &&& sub.is_global()
                    &&& sub.start_spec().offset_spec() == base + j * stride
                    &&& sub.len_spec() == stride
                },
        decreases count - k,
    {
        proof {
            assert(stride * (count - k) >= stride && stride * (count - k) == stride + stride * (
            count - (k + 1))) by (nonlinear_arith)
                requires
                    k < count,
            ;
            assert(base + (k + 1) * stride <= base + stride * count) by (nonlinear_arith)
                requires
                    k < count,
                    stride >= 0,
                    base >= 0,
            ;
            assert(base + k * stride + stride == base + (k + 1) * stride) by (nonlinear_arith);
            let s = stride;
            assert(s <= 0x00FF_FFFFu32 ==> s & 0xFF00_0000u32 == 0) by (bit_vector);
        }
        let start = cursor.start();
        let end_off = start.offset() + stride;
        proof {
            assert(end_off <= 0x00FF_FFFFu32 ==> end_off & 0xFF00_0000u32 == 0) by (bit_vector);
        }
        let window_end = GpuAddress::global(end_off);
        let window = GpuAddressRange::new(start, window_end);
        r.push(window);
        cursor.shrink_left(stride);
        k = k + 1;
    }
    r
}

/// One queued instance with its assigned depth offset.
struct RenderedInstance {
    instance: Rc<VectorImageInstance>,
    z_index: u32,
}

impl Clone for RenderedInstance {
    /// Shares the instance handle and copies the depth offset.
    fn clone(&self) -> (r: Self)
        ensures
            r == *self,
    {
        RenderedInstance { instance: Rc::clone(&self.instance), z_index: self.z_index }
    }
}

/// The spec model of one queued instance.
spec fn model_of(ri: RenderedInstance) -> InstanceModel {
    InstanceModel { z_index: ri.z_index, words: (*ri.instance).gpu_data_spec() }
}

/// The spec models of a queue of instances, in order.
spec fn models_of(s: Seq<RenderedInstance>) -> Seq<InstanceModel> {
    s.map(|i: int, ri: RenderedInstance| model_of(ri))
}

/// Splicing the new entry at position `k` — behind every entry of depth at
/// most its own — is exactly what `depth_insert` does.
proof fn lemma_depth_insert_at(s: Seq<InstanceModel>, x: InstanceModel, k: int)
    requires
        0 <= k <= s.len(),
        forall|j: int| k <= j < s.len() ==> s[j].z_index > x.z_index,
        k > 0 ==> s[k - 1].z_index <= x.z_index,
    ensures
        depth_insert(s, x) =~= s.subrange(0, k) + seq![x] + s.subrange(k, s.len() as int),
    decreases s.len(),
{
    if s.len() == 0 {
    } else if s.last().z_index > x.z_index {
        assert(k < s.len());
        lemma_depth_insert_at(s.drop_last(), x, k);
        assert(depth_insert(s, x) =~= s.subrange(0, k) + seq![x] + s.subrange(k, s.len() as int));
    } else {
        assert(k == s.len());
        assert(depth_insert(s, x) =~= s.subrange(0, k) + seq![x] + s.subrange(k, s.len() as int));
    }
}

/// Inserts one instance behind every queued instance whose depth does not
/// exceed its own, keeping the queue in depth order.
#[verifier::loop_isolation(false)]
fn insert_by_depth(out: &mut Vec<RenderedInstance>, x: RenderedInstance)
    requires
        is_depth_ordered(models_of(old(out)@)),
    ensures
        models_of(final(out)@) =~= depth_insert(models_of(old(out)@), model_of(x)),
        is_depth_ordered(models_of(final(out)@)),
{
    let ghost s = models_of(out@);
    let mut i: usize = out.len();
    while i > 0 && out[i - 1].z_index > x.z_index
        invariant
            0 <= i <= out@.len(),
            forall|j: int| i <= j < s.len() ==> s[j].z_index > x.z_index,
        decreases i,
    {
        i = i - 1;
    }
    proof {
        lemma_depth_insert_at(s, model_of(x), i as int);
        lemma_depth_insert_stable(s, model_of(x));
    }
    out.insert(i, x);
    proof {
        assert(models_of(out@) =~= s.subrange(0, i as int) + seq![model_of(x)] + s.subrange(
            i as int,
            s.len() as int,
        ));
    }
}

/// A copy of the queue in ascending depth order, entries of equal depth
/// keeping their submission order.
#[verifier::loop_isolation(false)]
fn sort_by_depth(input: &Vec<RenderedInstance>) -> (r: Vec<RenderedInstance>)
    ensures
        models_of(r@) =~= depth_sorted(models_of(input@)),
        r@.len() == input@.len(),
{
    let mut out: Vec<RenderedInstance> = Vec::new();
    let mut k: usize = 0;
    proof {
        assert(models_of(out@) =~= depth_sorted(models_of(input@).subrange(0, 0)));
    }
    while k < input.len()
        invariant
            0 <= k <= input@.len(),
            out@.len() == k,
            models_of(out@) =~= depth_sorted(models_of(input@).subrange(0, k as int)),
            is_depth_ordered(models_of(out@)),
        decreases input@.len() - k,
    {
        let x = input[k].clone();
        proof {
            let m = models_of(input@);
            assert(m.subrange(0, (k + 1) as int).drop_last() =~= m.subrange(0, k as int));
            assert(m.subrange(0, (k + 1) as int).last() == model_of(x));
        }
        insert_by_depth(&mut out, x);
        proof {
            lemma_depth_sorted_ordered(models_of(input@).subrange(0, (k + 1) as int));
        }
        k = k + 1;
    }
    proof {
        assert(models_of(input@).subrange(0, input@.len() as int) =~= models_of(input@));
    }
    out
}

/// One bucket: the descriptor data of one vector image and the instances
/// queued for it, in submission order.
struct LayerVectorImage {
    id: VectorImageId,
    geometry: GeometryId,
    mem_per_instance: u32,
    contains_fill_ops: bool,
    contains_stroke_ops: bool,
    instances: Vec<RenderedInstance>,
}

/// The spec model of one bucket.
spec fn bucket_model_of(b: LayerVectorImage) -> BucketModel {
    BucketModel {
        id: b.id,
        geometry: b.geometry,
        mem_per_instance: b.mem_per_instance,
        contains_fill_ops: b.contains_fill_ops,
        contains_stroke_ops: b.contains_stroke_ops,
        instances: models_of(b.instances@),
    }
}

/// Groups added instances by the vector image they instantiate and assigns
/// each a depth offset from the layer's running counter.
pub struct LayerBuilder {
    vector_images: Vec<LayerVectorImage>,
    z_index: u32,
}

impl LayerBuilder {
    /// The buckets accumulated so far, one per distinct image, in first-seen
    /// order.
    pub closed spec fn buckets_spec(self) -> Seq<BucketModel> {
        self.vector_images@.map(|i: int, b: LayerVectorImage| bucket_model_of(b))
    }

    /// The depth offset the next added instance will receive.
    pub closed spec fn z_index_spec(self) -> u32 {
        self.z_index
    }

    /// Buckets belong to distinct images.
    pub open spec fn wf(self) -> bool {
        forall|i: int, j: int|
            0 <= i < j < self.buckets_spec().len() ==> (#[trigger] self.buckets_spec()[i]).id != (
            #[trigger] self.buckets_spec()[j]).id
    }

    /// Whether a bucket for the image exists already.
    pub open spec fn has_bucket(self, id: VectorImageId) -> bool {
        exists|b: int|
            0 <= b < self.buckets_spec().len() && (#[trigger] self.buckets_spec()[b]).id == id
    }

    /// The index of the image's bucket.
    pub open spec fn bucket_index_spec(self, id: VectorImageId) -> int {
        choose|b: int|
            0 <= b < self.buckets_spec().len() && (#[trigger] self.buckets_spec()[b]).id == id
    }

    pub(crate) fn new() -> (r: Self)
        ensures
            r.wf(),
            r.buckets_spec() =~= Seq::<BucketModel>::empty(),
            r.z_index_spec() == 0,
    {
        let r = LayerBuilder { vector_images: Vec::new(), z_index: 0 };
        proof {
            assert(r.buckets_spec() =~= Seq::<BucketModel>::empty());
        }
        r
    }

    /// Queues one instance: finds or creates the bucket of the instance's
    /// image, hands the instance the layer's current depth offset, and
    /// advances the offset by the image's depth budget, so depth indices of
    /// successive images never collide within the layer.
    #[verifier::loop_isolation(false)]
    pub fn add(&mut self, instance: Rc<VectorImageInstance>)
        requires
            old(self).wf(),
            old(self).z_index_spec() + instance.base_spec().z_range_spec() <= u32::MAX,
        ensures
            final(self).wf(),
            final(self).z_index_spec() == old(self).z_index_spec()
                + instance.base_spec().z_range_spec(),
            ({
                let img = instance.base_spec();
                let entry = InstanceModel {
                    z_index: old(self).z_index_spec(),
                    words: instance.gpu_data_spec(),
                };
                if old(self).has_bucket(img.id_spec()) {
                    let b = old(self).bucket_index_spec(img.id_spec());
                    let ob = old(self).buckets_spec()[b];
                    final(self).buckets_spec() =~~= old(self).buckets_spec().update(
                        b,
                        BucketModel { instances: ob.instances.push(entry), ..ob },
                    )
                } else {
                    final(self).buckets_spec() =~~= old(self).buckets_spec().push(
                        BucketModel {
                            id: img.id_spec(),
                            geometry: img.geometry_spec(),
                            mem_per_instance: img.mem_per_instance_spec(),
                            contains_fill_ops: img.contains_fill_ops_spec(),
                            contains_stroke_ops: img.contains_stroke_ops_spec(),
                            instances: seq![entry],
                        },
                    )
                }
            }),
    {
        let base = &*instance;
        let img_id = base.base().id();
        let z_range = base.base().z_range();
        let geometry = base.base().geometry();
        let mem_per_instance = base.base().mem_per_instance();
        let contains_fill_ops = base.base().contains_fill_ops();
        let contains_stroke_ops = base.base().contains_stroke_ops();
        let n = self.vector_images.len();
        let mut b: usize = 0;
        while b < n && self.vector_images[b].id != img_id
            invariant
                0 <= b <= n,
                forall|j: int| 0 <= j < b ==> (#[trigger] self.buckets_spec()[j]).id != img_id,
            decreases n - b,
        {
            b = b + 1;
        }
        let entry = RenderedInstance { instance, z_index: self.z_index };
        if b < n {
            proof {
                assert(self.buckets_spec()[b as int].id == img_id);
                let c = self.bucket_index_spec(img_id);
                assert(0 <= c < self.buckets_spec().len() && self.buckets_spec()[c].id == img_id);
                assert(c == b as int);
            }
            self.vector_images[b].instances.push(entry);
            proof {
                let bs0 = old(self).buckets_spec();
                let bs1 = self.buckets_spec();
                let img = old(self).buckets_spec()[b as int];
                assert forall|i: int| 0 <= i < bs1.len() implies bs1[i] =~~= bs0.update(
                    b as int,
                    BucketModel {
                        instances: img.instances.push(model_of(entry)),
                        ..img
                    },
                )[i] by {
                    if i == b {
                        assert(self.vector_images@[i].instances@ =~= old(
                            self,
                        ).vector_images@[i].instances@.push(entry));
                        assert(models_of(self.vector_images@[i].instances@) =~~= models_of(
                            old(self).vector_images@[i].instances@,
                        ).push(model_of(entry)));
                    } else {
                        assert(self.vector_images@[i] == old(self).vector_images@[i]);
                    }
                }
            }
        } else {
            let mut instances: Vec<RenderedInstance> = Vec::new();
            instances.push(entry);
            self.vector_images.push(
                LayerVectorImage {
                    id: img_id,
                    geometry,
                    mem_per_instance,
                    contains_fill_ops,
                    contains_stroke_ops,
                    instances,
                },
            );
            proof {
                assert(!old(self).has_bucket(img_id));
                let bs0 = old(self).buckets_spec();
                let bs1 = self.buckets_spec();
                assert forall|i: int| 0 <= i < bs1.len() implies bs1[i] =~~= bs0.push(
                    BucketModel {
                        id: img_id,
                        geometry,
                        mem_per_instance,
                        contains_fill_ops,
                        contains_stroke_ops,
                        instances: seq![model_of(entry)],
                    },
                )[i] by {
                    if i < bs0.len() {
                        assert(self.vector_images@[i] == old(self).vector_images@[i]);
                    } else {
                        assert(models_of(self.vector_images@[i].instances@) =~~= seq![
                            model_of(entry),
                        ]);
                    }
                }
            }
        }
        self.z_index = self.z_index + z_range;
    }
}


/// The fill-pass draw commands a bucket sequence yields, short of the
/// device-chosen base addresses: one `(geometry, instance count)` entry per
/// bucket that recorded fill operations, in bucket order.
pub open spec fn fill_pass_model(buckets: Seq<BucketModel>) -> Seq<(GeometryId, nat)>
    decreases buckets.len(),
{
    if buckets.len() == 0 {
        Seq::<(GeometryId, nat)>::empty()
    } else {
        fill_pass_model(buckets.drop_last()) + (if buckets.last().contains_fill_ops {
            seq![(buckets.last().geometry, buckets.last().instances.len())]
        } else {
            Seq::<(GeometryId, nat)>::empty()
        })
    }
}

/// The stroke-pass draw commands a bucket sequence yields, short of the
/// device-chosen base addresses: one `(geometry, instance count)` entry per
/// bucket that recorded stroke operations, in bucket order.
pub open spec fn stroke_pass_model(buckets: Seq<BucketModel>) -> Seq<(GeometryId, nat)>
    decreases buckets.len(),
{
    if buckets.len() == 0 {
        Seq::<(GeometryId, nat)>::empty()
    } else {
        stroke_pass_model(buckets.drop_last()) + (if buckets.last().contains_stroke_ops {
            seq![(buckets.last().geometry, buckets.last().instances.len())]
        } else {
            Seq::<(GeometryId, nat)>::empty()
        })
    }
}

/// A built layer: the ordered draw-command list of each render pass.
/// Immutable once built.
pub struct Layer {
    fill_pass: Vec<DrawCmd>,
    stroke_pass: Vec<DrawCmd>,
}

impl LayerBuilder {
    /// Builds the layer. For each bucket, in first-seen image order: sorts
    /// the bucket's instances by depth (ties keep submission order),
    /// allocates one contiguous device range of exactly `mem_per_instance`
    /// times the instance count, uploads the k-th instance in depth order
    /// into the k-th stride-wide window of that range, and emits one draw
    /// command into the fill pass and one into the stroke pass as the
    /// image's recorded operations demand. A bucket whose memory would
    /// overrun the address space's offset field refuses the build.
    #[verifier::loop_isolation(false)]
    pub fn build<D: Device>(self, ctx: &mut Context<D>) -> (r: Result<Layer, RenderError>)
        requires
            forall|b: int|
                0 <= b < self.buckets_spec().len() ==> (
                #[trigger] self.buckets_spec()[b]).instances.len() <= u32::MAX,
        ensures
            final(ctx).next_vector_image_id_spec() == old(ctx).next_vector_image_id_spec(),
            final(ctx).next_geometry_id_spec() == old(ctx).next_geometry_id_spec(),
            (r matches Ok(_)) <==> (forall|b: int|
                0 <= b < self.buckets_spec().len() ==> (
                #[trigger] self.buckets_spec()[b]).mem_per_instance
                    * self.buckets_spec()[b].instances.len() <= GPU_ADDR_OFFSET_MASK),
            r matches Err(e) ==> e == RenderError::AllocationTooLarge,
            r matches Ok(layer) ==> {
                let fills = fill_pass_model(self.buckets_spec());
                let strokes = stroke_pass_model(self.buckets_spec());
                &&& layer.fill_pass_spec().len() == fills.len()
                &&& (forall|i: int|
                    0 <= i < fills.len() ==> {
                        let cmd = #[trigger] layer.fill_pass_spec()[i];
                        &&& cmd.geometry == fills[i].0
                        &&& cmd.num_instances == fills[i].1
                        &&& cmd.base_address.wf()
                        &&& cmd.base_address.address_type_spec()
                            == crate::address::GpuAddressType::Global
                    })
                &&& layer.stroke_pass_spec().len() == strokes.len()
                &&& (forall|i: int|
                    0 <= i < strokes.len() ==> {
                        let cmd = #[trigger] layer.stroke_pass_spec()[i];
                        &&& cmd.geometry == strokes[i].0
                        &&& cmd.num_instances == strokes[i].1
                        &&& cmd.base_address.wf()
                        &&& cmd.base_address.address_type_spec()
                            == crate::address::GpuAddressType::Global
                    })
            },
    {
        let ghost bm = self.buckets_spec();
        let LayerBuilder { vector_images, z_index: _ } = self;
        let mut fill_pass: Vec<DrawCmd> = Vec::new();
        let mut stroke_pass: Vec<DrawCmd> = Vec::new();
        let device = ctx.device_mut();
        let n = vector_images.len();
        let mut b: usize = 0;
        while b < n
            invariant
                0 <= b <= n,
                n == vector_images@.len(),
                bm.len() == n,
                forall|j: int| 0 <= j < n ==> bm[j] == bucket_model_of(vector_images@[j]),
                forall|j: int|
                    0 <= j < b ==> (#[trigger] bm[j]).mem_per_instance * bm[j].instances.len()
                        <= GPU_ADDR_OFFSET_MASK,
                fill_pass@.len() == fill_pass_model(bm.subrange(0, b as int)).len(),
                forall|i: int|
                    0 <= i < fill_pass@.len() ==> {
                        let cmd = #[trigger] fill_pass@[i];
                        let fills = fill_pass_model(bm.subrange(0, b as int));
                        &&& cmd.geometry == fills[i].0
                        &&& cmd.num_instances == fills[i].1
                        &&& cmd.base_address.wf()
                        &&& cmd.base_address.address_type_spec()
                            == crate::address::GpuAddressType::Global
                    },
                stroke_pass@.len() == stroke_pass_model(bm.subrange(0, b as int)).len(),
                forall|i: int|
                    0 <= i < stroke_pass@.len() ==> {
                        let cmd = #[trigger] stroke_pass@[i];
                        let strokes = stroke_pass_model(bm.subrange(0, b as int));
                        &&& cmd.geometry == strokes[i].0
                        &&& cmd.num_instances == strokes[i].1
                        &&& cmd.base_address.wf()
                        &&& cmd.base_address.address_type_spec()
                            == crate::address::GpuAddressType::Global
                    },
            decreases n - b,
        {
            let bucket = &vector_images[b];
            let num_usize = bucket.instances.len();
            proof {
                assert(bm[b as int].instances.len() == num_usize);
            }
            let num_instances = num_usize as u32;
            proof {
                let m = bucket.mem_per_instance as int;
                let c = num_instances as int;
                assert(m * c <= 0xFFFF_FFFF * 0xFFFF_FFFF) by (nonlinear_arith)
                    requires
                        0 <= m <= 0xFFFF_FFFF,
                        0 <= c <= 0xFFFF_FFFF,
                ;
            }
            let total64: u64 = (bucket.mem_per_instance as u64) * (num_instances as u64);
            if total64 > (GPU_ADDR_OFFSET_MASK as u64) {
                proof {
                    assert((#[trigger] bm[b as int]).mem_per_instance * bm[b as int].instances.len()
                        > GPU_ADDR_OFFSET_MASK);
                }
                return Err(RenderError::AllocationTooLarge);
            }
            let total = total64 as u32;
            let range = device.allocate_gpu_data(total);
            let sorted = sort_by_depth(&bucket.instances);
            let windows = instance_upload_ranges(range, bucket.mem_per_instance, num_instances);
            let mut k: usize = 0;
            while k < sorted.len()
                invariant
                    sorted@.len() == num_usize,
                    windows@.len() == num_instances,
                    0 <= k <= num_usize,
                decreases sorted@.len() - k,
            {
                device.set_gpu_data(windows[k], (&*sorted[k].instance).gpu_data());
                k = k + 1;
            }
            let base_address = range.start();
            proof {
                assert(bm.subrange(0, (b + 1) as int).drop_last() =~= bm.subrange(0, b as int));
                assert(bm.subrange(0, (b + 1) as int).last() == bm[b as int]);
            }
            if bucket.contains_fill_ops {
                fill_pass.push(DrawCmd { geometry: bucket.geometry, num_instances, base_address });
            }
            if bucket.contains_stroke_ops {
                stroke_pass.push(
                    DrawCmd { geometry: bucket.geometry, num_instances, base_address },
                );
            }
            b = b + 1;
        }
        proof {
            assert(bm.subrange(0, n as int) =~= bm);
        }
        Ok(Layer { fill_pass, stroke_pass })
    }
}

impl Layer {
    /// The fill pass's draw commands, in bucket order.
    pub closed spec fn fill_pass_spec(self) -> Seq<DrawCmd> {
        self.fill_pass@
    }

    /// The stroke pass's draw commands, in bucket order.
    pub closed spec fn stroke_pass_spec(self) -> Seq<DrawCmd> {
        self.stroke_pass@
    }

    /// The fill pass's draw commands, in bucket order.
    pub fn fill_pass(&self) -> (r: &Vec<DrawCmd>)
        ensures
            r@ == self.fill_pass_spec(),
    {
        &self.fill_pass
    }

    /// The stroke pass's draw commands, in bucket order.
    pub fn stroke_pass(&self) -> (r: &Vec<DrawCmd>)
        ensures
            r@ == self.stroke_pass_spec(),
    {
        &self.stroke_pass
    }

    /// Runs the opaque fill pass: depth write and test on, blending off.
    pub fn render_opaque_fills<D: Device>(&self, ctx: &mut Context<D>)
        ensures
            final(ctx).next_vector_image_id_spec() == old(ctx).next_vector_image_id_spec(),
            final(ctx).next_geometry_id_spec() == old(ctx).next_geometry_id_spec(),
    {
        let device = ctx.device_mut();
        device.render_pass(
            self.fill_pass.as_slice(),
            &(RenderPassOptions {
                vertex_type: VertexType::Fill,
                enable_blending: false,
                enable_depth_write: true,
                enable_depth_test: true,
                effect: EffectId::new(0),
            }),
        );
    }

    /// Runs the opaque stroke pass: depth write and test on, blending off.
    pub fn render_opaque_strokes<D: Device>(&self, ctx: &mut Context<D>)
        ensures
            final(ctx).next_vector_image_id_spec() == old(ctx).next_vector_image_id_spec(),
            final(ctx).next_geometry_id_spec() == old(ctx).next_geometry_id_spec(),
    {
        let device = ctx.device_mut();
        device.render_pass(
            self.stroke_pass.as_slice(),
            &(RenderPassOptions {
                vertex_type: VertexType::Stroke,
                enable_blending: false,
                enable_depth_write: true,
                enable_depth_test: true,
                effect: EffectId::new(0),
            }),
        );
    }

    /// Renders every layer's fill pass, then every layer's stroke pass, in
    /// the order given.
    pub fn render_all<D: Device>(layers: &[Layer], ctx: &mut Context<D>)
        ensures
            final(ctx).next_vector_image_id_spec() == old(ctx).next_vector_image_id_spec(),
            final(ctx).next_geometry_id_spec() == old(ctx).next_geometry_id_spec(),
    {
        let mut k: usize = 0;
        while k < layers.len()
            invariant
                0 <= k <= layers@.len(),
                ctx.next_vector_image_id_spec() == old(ctx).next_vector_image_id_spec(),
                ctx.next_geometry_id_spec() == old(ctx).next_geometry_id_spec(),
            decreases layers@.len() - k,
        {
            layers[k].render_opaque_fills(ctx);
            k = k + 1;
        }
        let mut j: usize = 0;
        while j < layers.len()
            invariant
                0 <= j <= layers@.len(),
                ctx.next_vector_image_id_spec() == old(ctx).next_vector_image_id_spec(),
                ctx.next_geometry_id_spec() == old(ctx).next_geometry_id_spec(),
            decreases layers@.len() - j,
        {
            layers[j].render_opaque_strokes(ctx);
            j = j + 1;
        }
    }
}

} // verus!
