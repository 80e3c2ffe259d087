//! Configurations of the upsampling network's building blocks, and the channel widths they
//! imply. The layers themselves are built by the caller from these figures.
use vstd::prelude::*;

verus! {

/// A residual block: two 3×3 convolutions over `channels` channels and a skip connection.
#[derive(Debug, Clone, Copy, PartialEq, Eq, Structural)]
pub struct ResBlockConfig {
    pub channels: usize,
}

impl ResBlockConfig {
    pub fn new(channels: usize) -> (r: Self)
        ensures
            r.channels == channels,
    {
        ResBlockConfig { channels }
    }
}

/// A fusion block: concatenation of two feature maps, a 1×1 projection to `out_channels`,
/// then a residual refinement.
#[derive(Debug, Clone, Copy, PartialEq, Eq, Structural)]
pub struct FusionBlockConfig {
    pub main_channels: usize,
    pub ref_channels: usize,
    pub out_channels: usize,
}

impl FusionBlockConfig {
    pub fn new(main_channels: usize, ref_channels: usize, out_channels: usize) -> (r: Self)
        ensures
            r == (FusionBlockConfig { main_channels, ref_channels, out_channels }),
    {
        FusionBlockConfig { main_channels, ref_channels, out_channels }
    }

    /// Channels entering the projection: both inputs side by side.
    pub fn input_channels(&self) -> (r: usize)
        requires
            self.main_channels + self.ref_channels <= usize::MAX,
        ensures
            r == self.main_channels + self.ref_channels,
    {
        self.main_channels + self.ref_channels
    }
}

/// A 2× upsampling stage over `channels` channels, fused with a `ref_channels` skip.
#[derive(Debug, Clone, Copy, PartialEq, Eq, Structural)]
pub struct UpsampleStageConfig {
    pub channels: usize,
    pub ref_channels: usize,
}

impl UpsampleStageConfig {
    pub fn new(channels: usize, ref_channels: usize) -> (r: Self)
        ensures
            r == (UpsampleStageConfig { channels, ref_channels }),
    {
        UpsampleStageConfig { channels, ref_channels }
    }

    /// The fusion block of the stage: upsampled features with the skip, back to `channels`.
    pub fn fusion(&self) -> (r: FusionBlockConfig)
        ensures
            r == (FusionBlockConfig {
                main_channels: self.channels,
                ref_channels: self.ref_channels,
                out_channels: self.channels,
            }),
    {
        FusionBlockConfig::new(self.channels, self.ref_channels, self.channels)
    }
}

/// The presence gate: three 3×3 convolutions from 7 input channels through
/// `hidden_channels` to one gate channel.
#[derive(Debug, Clone, Copy, PartialEq, Eq, Structural)]
pub struct PresenceGateConfig {
    pub hidden_channels: usize,
}

impl PresenceGateConfig {
    pub fn new(hidden_channels: usize) -> (r: Self)
        ensures
            r.hidden_channels == hidden_channels,
    {
        PresenceGateConfig { hidden_channels }
    }
}

/// The whole upsampler: `base_channels` wide (64 by default), with `num_res_blocks` residual
/// blocks per stack (4 by default).
#[derive(Debug, Clone, Copy, PartialEq, Eq, Structural)]
pub struct RefGuidedUpsamplerConfig {
    pub base_channels: usize,
    pub num_res_blocks: usize,
}

/// The channel widths of the upsampler: the base width, the doubled width of the coarse
/// reference levels, and the halved width of the detail head.
#[derive(Debug, Clone, Copy, PartialEq, Eq, Structural)]
pub struct ChannelPlan {
    pub base: usize,
    pub doubled: usize,
    pub half: usize,
}

impl RefGuidedUpsamplerConfig {
    /// The default configuration.
    pub fn new() -> (r: Self)
        ensures
            r == (RefGuidedUpsamplerConfig { base_channels: 64, num_res_blocks: 4 }),
    {
        RefGuidedUpsamplerConfig { base_channels: 64, num_res_blocks: 4 }
    }

    pub fn with_base_channels(self, base_channels: usize) -> (r: Self)
        ensures
            r == (RefGuidedUpsamplerConfig { base_channels, ..self }),
    {
        RefGuidedUpsamplerConfig { base_channels, ..self }
    }

    pub fn with_num_res_blocks(self, num_res_blocks: usize) -> (r: Self)
        ensures
            r == (RefGuidedUpsamplerConfig { num_res_blocks, ..self }),
    {
        RefGuidedUpsamplerConfig { num_res_blocks, ..self }
    }

    /// The widths the layers are built with.
    pub fn channel_plan(&self) -> (r: ChannelPlan)
        requires
            self.base_channels * 2 <= usize::MAX,
        ensures
            r == (ChannelPlan {
                base: self.base_channels,
                doubled: (self.base_channels * 2) as usize,
                half: (self.base_channels / 2) as usize,
            }),
    {
        let c = self.base_channels;
        ChannelPlan { base: c, doubled: c * 2, half: c / 2 }
    }

    /// The bottleneck fusion: main features with the coarsest reference level, back to the base
    /// width.
    pub fn bottleneck(&self) -> (r: FusionBlockConfig)
        requires
            self.base_channels * 2 <= usize::MAX,
        ensures
            r == (FusionBlockConfig {
                main_channels: self.base_channels,
                ref_channels: (self.base_channels * 2) as usize,
                out_channels: self.base_channels,
            }),
    {
        let plan = self.channel_plan();
        FusionBlockConfig::new(plan.base, plan.doubled, plan.base)
    }
}

} // verus!
