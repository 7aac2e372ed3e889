//! The entries of bind group layouts and bind groups, from ordered lists.
//! The place of an item in its list is its binding index. The entries are
//! worked out here; whoever owns the device hands them to it.
use vstd::prelude::*;

verus! {

/// The label of the bind group layouts made here.
pub const BIND_GROUP_LAYOUT_LABEL: &'static str = "[wgsim] bind group layout";

/// The label of the bind groups made here.
pub const BIND_GROUP_LABEL: &'static str = "[wgsim] bind group";

/// One slot of a bind group layout: its index, the shader stages that see
/// it, the kind of resource it takes, and for an array of resources their
/// number. A slot for a single resource has no number; a number of zero
/// stands for none.
#[derive(Debug, Clone, Copy)]
pub struct LayoutEntry {
    pub binding: u32,
    pub visibility: wgpu::ShaderStages,
    pub ty: wgpu::BindingType,
    pub count: Option<u32>,
}

/// Whether `entries` are the slots for the given kinds and stages: as many
/// as there are kinds, the slot at each place with that place as its index,
/// the kind and the stages of that place, and no array.
pub open spec fn is_layout_of(
    entries: Seq<LayoutEntry>,
    binding_types: Seq<wgpu::BindingType>,
    shader_stages: Seq<wgpu::ShaderStages>,
) -> bool {
    &&& entries.len() == binding_types.len()
    &&& forall|i: int|
        0 <= i < entries.len() ==> (#[trigger] entries[i]) == (LayoutEntry {
            binding: i as u32,
            visibility: shader_stages[i],
            ty: binding_types[i],
            count: None,
        })
}

/// Whether `entries` bind the given resources: as many as there are
/// resources, the entry at each place with that place as its index and the
/// resource of that place.
pub open spec fn binds(
    entries: Seq<wgpu::BindGroupEntry<'_>>,
    resources: Seq<wgpu::BindingResource<'_>>,
) -> bool {
    &&& entries.len() == resources.len()
    &&& forall|i: int|
        0 <= i < entries.len() ==> (#[trigger] entries[i]).binding == i && entries[i].resource
            == resources[i]
}

/// The slots of a bind group layout for the given kinds of resource and the
/// shader stages that see each.
pub fn layout_entries(
    binding_types: &[wgpu::BindingType],
    shader_stages: &[wgpu::ShaderStages],
) -> (entries: Vec<LayoutEntry>)
    requires
        binding_types@.len() == shader_stages@.len(),
        binding_types@.len() <= u32::MAX,
    ensures
        is_layout_of(entries@, binding_types@, shader_stages@),
{
    let mut entries: Vec<LayoutEntry> = Vec::new();
    let mut i: usize = 0;
    while i < shader_stages.len()
        invariant
            binding_types@.len() == shader_stages@.len(),
            binding_types@.len() <= u32::MAX,
            i <= shader_stages@.len(),
            is_layout_of(entries@, binding_types@.take(i as int), shader_stages@),
        decreases shader_stages@.len() - i,
    {
        entries.push(
            LayoutEntry {
                binding: i as u32,
                visibility: shader_stages[i],
                ty: binding_types[i],
                count: None,
            },
        );
        i += 1;
    }
    assert(binding_types@.take(i as int) =~= binding_types@);
    entries
}

/// The entries of a bind group that binds the given resources in order.
pub fn bind_entries<'a>(resources: &[wgpu::BindingResource<'a>]) -> (entries: Vec<
    wgpu::BindGroupEntry<'a>,
>)
    requires
        resources@.len() <= u32::MAX,
    ensures
        binds(entries@, resources@),
{
    let mut entries: Vec<wgpu::BindGroupEntry<'a>> = Vec::new();
    let mut i: usize = 0;
    while i < resources.len()
        invariant
            resources@.len() <= u32::MAX,
            i <= resources@.len(),
            binds(entries@, resources@.take(i as int)),
        decreases resources@.len() - i,
    {
        entries.push(wgpu::BindGroupEntry { binding: i as u32, resource: resources[i].clone() });
        i += 1;
    }
    assert(resources@.take(i as int) =~= resources@);
    entries
}

/// `wgpu::BindingResource::clone`: the copy refers to the same buffers,
/// samplers and views as the resource it was made from.
pub assume_specification<'a>[ <wgpu::BindingResource<'a> as Clone>::clone ](
    resource: &wgpu::BindingResource<'a>,
) -> (copy: wgpu::BindingResource<'a>)
    ensures
        copy == *resource,
;

/// Lists of equal length `n` give `n` slots, whose indices are 0 to `n - 1`
/// in the order of the lists.
pub proof fn lemma_layout_indices(
    entries: Seq<LayoutEntry>,
    binding_types: Seq<wgpu::BindingType>,
    shader_stages: Seq<wgpu::ShaderStages>,
)
    requires
        is_layout_of(entries, binding_types, shader_stages),
        binding_types.len() == shader_stages.len(),
        binding_types.len() <= u32::MAX,
    ensures
        entries.len() == shader_stages.len(),
        forall|i: int| 0 <= i < entries.len() ==> (#[trigger] entries[i]).binding == i,
        forall|i: int, j: int|
            0 <= i < j < entries.len() ==> (#[trigger] entries[i]).binding < (
            #[trigger] entries[j]).binding,
{
}

/// A list of `n` resources gives `n` entries, whose indices are 0 to
/// `n - 1` in the order of the list.
pub proof fn lemma_bind_indices(
    entries: Seq<wgpu::BindGroupEntry<'_>>,
    resources: Seq<wgpu::BindingResource<'_>>,
)
    requires
        binds(entries, resources),
    ensures
        entries.len() == resources.len(),
        forall|i: int, j: int|
            0 <= i < j < entries.len() ==> (#[trigger] entries[i]).binding < (
            #[trigger] entries[j]).binding,
{
}

} // verus!
