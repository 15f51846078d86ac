use vstd::prelude::*;

verus! {

/// How many descriptors of each kind a descriptor pool is sized for.
#[derive(Clone, Copy, Debug, PartialEq, Eq, Structural)]
pub struct DescriptorsDesc {
    pub buffers: usize,
    pub images: usize,
    pub acceleration_structures: usize,
}

/// A descriptor set with the layout it was allocated from, as raw handles.
/// The null handle is zero.
#[derive(Clone, Copy, Debug, PartialEq, Eq, Structural)]
pub struct GpuDescriptors {
    pub layout: u64,
    pub set: u64,
}

/// A pipeline layout and the sampler descriptors that go with it.
#[derive(Clone, Copy, Debug, PartialEq, Eq, Structural)]
pub struct Layout {
    pub pipeline_layout: u64,
    pub samplers: GpuDescriptors,
}

/// One range of push constants, in bytes, visible to every shader stage.
#[derive(Clone, Copy, Debug, PartialEq, Eq, Structural)]
pub struct PushConstantRange {
    pub offset: u32,
    pub size: u32,
}

impl GpuDescriptors {
    /// The descriptors of a layout that binds none: both handles null.
    pub fn null() -> (r: GpuDescriptors)
        ensures
            r == (GpuDescriptors { layout: 0, set: 0 }),
    {
        GpuDescriptors { layout: 0, set: 0 }
    }
}

/// The push-constant ranges of a layout with `num_constants` bytes of
/// constants: none when there are no constants, else one range from offset 0.
pub open spec fn push_constants_of(num_constants: u32) -> Seq<PushConstantRange> {
    if num_constants > 0 {
        seq![PushConstantRange { offset: 0, size: num_constants }]
    } else {
        Seq::empty()
    }
}

/// The ranges to put into the pipeline-layout description.
pub fn push_constant_ranges(num_constants: u32) -> (r: Vec<PushConstantRange>)
    ensures
        r@ == push_constants_of(num_constants),
{
    let mut ranges: Vec<PushConstantRange> = Vec::new();
    if num_constants > 0 {
        ranges.push(PushConstantRange { offset: 0, size: num_constants });
    }
    assert(ranges@ =~= push_constants_of(num_constants));
    ranges
}

} // verus!
