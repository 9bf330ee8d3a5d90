use vstd::prelude::*;

verus! {

/// What the graphics collaborator reports: whether graphics are switchable, and the
/// environment variables that select each GPU, where there is one.
pub struct GpuOptions {
    pub switchable: bool,
    pub default_gpu: Option<Vec<(String, String)>>,
    pub non_default_gpu: Option<Vec<(String, String)>>,
}

/// The variables to set: none unless the non-default GPU is preferred; then those of the
/// non-default GPU on switchable graphics, else those of the default one, else none.
pub open spec fn gpu_env(prefer_non_default: bool, gpu: GpuOptions) -> Seq<(String, String)> {
    if !prefer_non_default {
        seq![]
    } else {
        let chosen = if gpu.switchable {
            gpu.non_default_gpu
        } else {
            gpu.default_gpu
        };
        match chosen {
            Some(v) => v@,
            None => seq![],
        }
    }
}

/// The environment variables that the spawned process gets for the GPU preference.
pub fn select_gpu_env(prefer_non_default: bool, gpu: GpuOptions) -> (r: Vec<(String, String)>)
    ensures
        r@ == gpu_env(prefer_non_default, gpu),
{
    if !prefer_non_default {
        return Vec::new();
    }
    let chosen = if gpu.switchable {
        gpu.non_default_gpu
    } else {
        gpu.default_gpu
    };
    match chosen {
        Some(v) => v,
        None => Vec::new(),
    }
}

} // verus!
