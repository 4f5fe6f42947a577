//! What the engine is constructed with and what one generation asks of it.

use vstd::prelude::*;

verus! {

/// Width of a generated image, in pixels.
pub const DEFAULT_WIDTH: u32 = 512;

/// Height of a generated image, in pixels.
pub const DEFAULT_HEIGHT: u32 = 512;

/// Number of sampling steps of one generation.
pub const DEFAULT_SAMPLE_STEPS: u32 = 20;

/// Guidance scale of one generation, in thousandths: 1000 stands for 1.0.
pub const DEFAULT_CFG_SCALE_MILLI: u32 = 1000;

/// Whether a text can be handed to the engine as a C string: none of its
/// characters is NUL.
pub open spec fn holds_no_nul(text: Seq<char>) -> bool {
    forall|i: int| 0 <= i < text.len() ==> text[i] != '\0'
}

/// What the engine is constructed with: the weight files and where the text
/// encoder and the autoencoder run.
#[derive(Debug)]
pub struct SDInitParams {
    pub diffusion_model_path: String,
    pub clip_l_path: String,
    pub t5xxl_path: String,
    pub vae_path: String,
    pub clip_on_cpu: bool,
    pub vae_on_cpu: bool,
}

/// Construction parameters as a mathematical value.
pub struct InitView {
    pub diffusion_model_path: Seq<char>,
    pub clip_l_path: Seq<char>,
    pub t5xxl_path: Seq<char>,
    pub vae_path: Seq<char>,
    pub clip_on_cpu: bool,
    pub vae_on_cpu: bool,
}

impl InitView {
    /// Each of the four paths can be handed to the engine as a C string.
    pub open spec fn paths_hold_no_nul(self) -> bool {
        &&& holds_no_nul(self.diffusion_model_path)
        &&& holds_no_nul(self.clip_l_path)
        &&& holds_no_nul(self.t5xxl_path)
        &&& holds_no_nul(self.vae_path)
    }
}

impl View for SDInitParams {
    type V = InitView;

    open spec fn view(&self) -> InitView {
        InitView {
            diffusion_model_path: self.diffusion_model_path@,
            clip_l_path: self.clip_l_path@,
            t5xxl_path: self.t5xxl_path@,
            vae_path: self.vae_path@,
            clip_on_cpu: self.clip_on_cpu,
            vae_on_cpu: self.vae_on_cpu,
        }
    }
}

/// The FLUX Kontext configuration: weights beside the program, the text
/// encoder on the CPU, the autoencoder not.
pub open spec fn flux_kontext_config() -> InitView {
    InitView {
        diffusion_model_path: "./flux-kontext.gguf"@,
        clip_l_path: "./clip_l.safetensors"@,
        t5xxl_path: "./t5xxl_fp8_e4m3fn.safetensors"@,
        vae_path: "./ae.safetensors"@,
        clip_on_cpu: true,
        vae_on_cpu: false,
    }
}

/// None of the paths of the FLUX Kontext configuration holds a NUL.
pub proof fn lemma_flux_kontext_paths_hold_no_nul()
    ensures
        flux_kontext_config().paths_hold_no_nul(),
{
    reveal_strlit("./flux-kontext.gguf");
    reveal_strlit("./clip_l.safetensors");
    reveal_strlit("./t5xxl_fp8_e4m3fn.safetensors");
    reveal_strlit("./ae.safetensors");
}

impl SDInitParams {
    /// The FLUX Kontext configuration.
    pub fn flux_kontext() -> (params: SDInitParams)
        ensures
            params@ == flux_kontext_config(),
            params@.paths_hold_no_nul(),
    {
        proof {
            lemma_flux_kontext_paths_hold_no_nul();
        }
        SDInitParams {
            diffusion_model_path: "./flux-kontext.gguf".to_owned(),
            clip_l_path: "./clip_l.safetensors".to_owned(),
            t5xxl_path: "./t5xxl_fp8_e4m3fn.safetensors".to_owned(),
            vae_path: "./ae.safetensors".to_owned(),
            clip_on_cpu: true,
            vae_on_cpu: false,
        }
    }
}

/// What one generation asks of the engine. The guidance scale is held in
/// thousandths.
#[derive(Debug)]
pub struct SDGenerationParams {
    pub prompt: String,
    pub width: u32,
    pub height: u32,
    pub sample_steps: u32,
    pub cfg_scale_milli: u32,
}

/// Generation parameters as a mathematical value.
pub struct ParamsView {
    pub prompt: Seq<char>,
    pub width: u32,
    pub height: u32,
    pub sample_steps: u32,
    pub cfg_scale_milli: u32,
}

impl ParamsView {
    /// The parameters every job runs with, for a prompt.
    pub open spec fn standard(prompt: Seq<char>) -> ParamsView {
        ParamsView {
            prompt,
            width: DEFAULT_WIDTH,
            height: DEFAULT_HEIGHT,
            sample_steps: DEFAULT_SAMPLE_STEPS,
            cfg_scale_milli: DEFAULT_CFG_SCALE_MILLI,
        }
    }

    /// The image has an area and the sampler takes at least one step.
    pub open spec fn valid(self) -> bool {
        self.width > 0 && self.height > 0 && self.sample_steps > 0
    }
}

impl View for SDGenerationParams {
    type V = ParamsView;

    open spec fn view(&self) -> ParamsView {
        ParamsView {
            prompt: self.prompt@,
            width: self.width,
            height: self.height,
            sample_steps: self.sample_steps,
            cfg_scale_milli: self.cfg_scale_milli,
        }
    }
}

impl SDGenerationParams {
    /// The parameters every job runs with: 512 by 512 pixels, 20 steps,
    /// guidance scale 1.0.
    pub fn for_prompt(prompt: String) -> (params: SDGenerationParams)
        ensures
            params@ == ParamsView::standard(prompt@),
            params@.valid(),
    {
        SDGenerationParams {
            prompt,
            width: DEFAULT_WIDTH,
            height: DEFAULT_HEIGHT,
            sample_steps: DEFAULT_SAMPLE_STEPS,
            cfg_scale_milli: DEFAULT_CFG_SCALE_MILLI,
        }
    }

    /// Whether the image has an area and the sampler takes at least one step.
    pub fn is_valid(&self) -> (valid: bool)
        ensures
            valid == self@.valid(),
    {
        self.width > 0 && self.height > 0 && self.sample_steps > 0
    }

    /// A copy, field by field.
    pub fn duplicate(&self) -> (copy: SDGenerationParams)
        ensures
            copy@ == self@,
    {
        SDGenerationParams {
            prompt: self.prompt.clone(),
            width: self.width,
            height: self.height,
            sample_steps: self.sample_steps,
            cfg_scale_milli: self.cfg_scale_milli,
        }
    }
}

} // verus!
