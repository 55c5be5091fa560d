//! The Core ML model: the range check on scores, the checks that precede
//! loading a model through the bridge, and the loaded model itself.
//!
//! The filesystem probe and the bridge call are the caller's: the probe's
//! answer comes in as a flag, the bridge call as a closure.
use vstd::prelude::*;
use vstd::string::*;
use crate::float_bits::{f32_at_most, f32_le, F32_ONE, F32_ZERO};
use crate::inference_ml::config::InferenceConfig;
use crate::inference_ml::error::InferenceError;
use crate::text::{decimal, push_decimal};

verus! {

/// Whether a score (binary32 bit pattern) lies in `[0.0, 1.0]`; NaN does not.
pub open spec fn score_in_range(score: u32) -> bool {
    f32_le(F32_ZERO, score) && f32_le(score, F32_ONE)
}

/// Checks that a score returned by the model lies in `[0.0, 1.0]`.
///
/// A score out of range is `InferenceFailed("score hors [0.0, 1.0] : ")`;
/// the message ends where the score's decimal rendering, a floating-point
/// formatting left to the caller, is to be written.
pub fn check_score(score: u32) -> (r: Result<u32, InferenceError>)
    ensures
        score_in_range(score) ==> r == Ok::<u32, InferenceError>(score),
        !score_in_range(score) ==> (r matches Err(InferenceError::InferenceFailed(m)) && m@
            == "score hors [0.0, 1.0] : "@),
{
    if !(f32_at_most(F32_ZERO, score) && f32_at_most(score, F32_ONE)) {
        proof {
            reveal_strlit("score hors [0.0, 1.0] : ");
        }
        return Err(InferenceError::InferenceFailed(String::from_str("score hors [0.0, 1.0] : ")));
    }
    Ok(score)
}

/// Number of bytes that the UTF-8 encoding of `c` takes.
pub open spec fn utf8_len(c: char) -> nat {
    if (c as u32) < 0x80 {
        1
    } else if (c as u32) < 0x800 {
        2
    } else if (c as u32) < 0x1_0000 {
        3
    } else {
        4
    }
}

/// Number of bytes that the UTF-8 encoding of `s` takes.
pub open spec fn utf8_byte_len(s: Seq<char>) -> nat
    decreases s.len(),
{
    if s.len() == 0 {
        0
    } else {
        utf8_byte_len(s.drop_last()) + utf8_len(s.last())
    }
}

/// Index of the first NUL character of `s`, if it has one.
pub open spec fn first_nul(s: Seq<char>) -> Option<int> {
    if exists|i: int| 0 <= i < s.len() && s[i] == '\0' {
        Some(choose|i: int| 0 <= i < s.len() && s[i] == '\0' && forall|j: int| 0 <= j < i ==> s[j] != '\0')
    } else {
        None
    }
}

/// Compute units that the model is loaded for.
#[derive(Debug, Clone, Copy, PartialEq, Eq)]
pub enum ComputeUnits {
    /// CPU, GPU and Neural Engine.
    All,
    /// CPU only.
    CpuOnly,
}

/// A model load that passed the path checks: what remains is the bridge call
/// on `model_path` (which holds no NUL character) for `compute_units`.
#[derive(Debug)]
pub struct LoadRequest {
    pub model_path: String,
    pub compute_units: ComputeUnits,
}

/// Text of the error that turning a path with a NUL character at byte
/// `position` into a C string reports.
pub open spec fn nul_error_text(position: nat) -> Seq<char> {
    "nul byte found in provided data at position: "@ + decimal(position)
}

proof fn lemma_first_nul_is(s: Seq<char>, i: int)
    requires
        0 <= i < s.len(),
        s[i] == '\0',
        forall|j: int| 0 <= j < i ==> s[j] != '\0',
    ensures
        first_nul(s) == Some(i),
{
    let k = choose|k: int| 0 <= k < s.len() && s[k] == '\0' && forall|j: int| 0 <= j < k ==> s[j] != '\0';
    assert(0 <= k < s.len() && s[k] == '\0' && forall|j: int| 0 <= j < k ==> s[j] != '\0');
    if k < i {
        assert(s[k] != '\0');
    } else if k > i {
        assert(s[i] != '\0');
    }
}

/// Decides whether a model can be handed to the bridge.
///
/// `path_exists` is what probing `config.model_path` on the filesystem
/// found. A missing path is `ModelNotFound(path)`; a path holding a NUL
/// character cannot become a C string and is `LoadFailed` with the byte
/// position of the first NUL; otherwise the request to pass to the bridge.
pub fn plan_model_load(config: &InferenceConfig, cpu_only: bool, path_exists: bool) -> (r: Result<
    LoadRequest,
    InferenceError,
>)
    ensures
        !path_exists ==> (r matches Err(InferenceError::ModelNotFound(p)) && p@
            == config.model_path@),
        path_exists && first_nul(config.model_path@) is Some ==> (r matches Err(
            InferenceError::LoadFailed(m),
        ) && m@ == nul_error_text(
            utf8_byte_len(config.model_path@.take(first_nul(config.model_path@).unwrap())),
        )),
        path_exists && first_nul(config.model_path@) is None ==> (r matches Ok(req)
            && req.model_path@ == config.model_path@ && req.compute_units == if cpu_only {
            ComputeUnits::CpuOnly
        } else {
            ComputeUnits::All
        }),
{
    if !path_exists {
        return Err(InferenceError::ModelNotFound(config.model_path.clone()));
    }
    let path = config.model_path.as_str();
    let n = path.unicode_len();
    let mut i: usize = 0;
    let mut bytes: u128 = 0;
    while i < n
        invariant
            n == path@.len(),
            path@ == config.model_path@,
            i <= n,
            path_exists,
            bytes == utf8_byte_len(path@.take(i as int)),
            bytes <= 4 * i,
            forall|j: int| 0 <= j < i ==> path@[j] != '\0',
        decreases n - i,
    {
        let c = path.get_char(i);
        assert(path@.take(i + 1).drop_last() =~= path@.take(i as int));
        if c == '\0' {
            proof {
                lemma_first_nul_is(path@, i as int);
                reveal_strlit("nul byte found in provided data at position: ");
            }
            let mut msg = String::from_str("nul byte found in provided data at position: ");
            push_decimal(&mut msg, bytes);
            return Err(InferenceError::LoadFailed(msg));
        }
        let w: u128 = if (c as u32) < 0x80 {
            1
        } else if (c as u32) < 0x800 {
            2
        } else if (c as u32) < 0x1_0000 {
            3
        } else {
            4
        };
        bytes = bytes + w;
        i = i + 1;
    }
    let units = if cpu_only {
        ComputeUnits::CpuOnly
    } else {
        ComputeUnits::All
    };
    Ok(LoadRequest { model_path: config.model_path.clone(), compute_units: units })
}

/// A Core ML model loaded through the Objective-C++ bridge.
///
/// `H` is the bridge's handle to the loaded `MLModel`; releasing the model
/// is the handle's own business when it is dropped.
pub struct CoreMLModel<H> {
    handle: H,
    compute_units: ComputeUnits,
}

impl<H> CoreMLModel<H> {
    /// The bridge handle this model holds.
    pub closed spec fn bridge_handle(self) -> H {
        self.handle
    }

    /// The compute units the model was loaded for.
    pub closed spec fn units(self) -> ComputeUnits {
        self.compute_units
    }

    /// The bridge handle, for running an inference on it.
    pub fn handle(&self) -> (h: &H)
        ensures
            *h == self.bridge_handle(),
    {
        &self.handle
    }

    /// The compute units the model was loaded for.
    pub fn compute_units(&self) -> (u: ComputeUnits)
        ensures
            u == self.units(),
    {
        self.compute_units
    }

    /// Runs one inference and checks its score.
    ///
    /// `run` is the bridge call on the model's handle, returning the score
    /// (binary32 bit pattern); the matrix it runs on is the caller's. A
    /// score outside `[0.0, 1.0]` is refused as [`check_score`] does.
    pub fn infer(&self, run: impl FnOnce(&H) -> u32) -> (r: Result<u32, InferenceError>)
        requires
            forall|h: &H| call_requires(run, (h,)),
        ensures
            exists|score: u32|
                #![trigger call_ensures(run, (&self.bridge_handle(),), score)]
                call_ensures(run, (&self.bridge_handle(),), score) && (score_in_range(score)
                    ==> r == Ok::<u32, InferenceError>(score)) && (!score_in_range(score) ==> (r matches Err(
                    InferenceError::InferenceFailed(m),
                ) && m@ == "score hors [0.0, 1.0] : "@)),
    {
        let score = run(&self.handle);
        assert(call_ensures(run, (&self.bridge_handle(),), score));
        check_score(score)
    }

    /// Loads the model at `config.model_path` for all compute units (the
    /// Neural Engine first).
    ///
    /// `path_exists` is what probing the path on the filesystem found;
    /// `open` is the bridge call, which returns `None` for a null handle.
    /// It is called only on a path that exists and holds no NUL character.
    pub fn load(config: &InferenceConfig, path_exists: bool, open: impl FnOnce(LoadRequest) -> Option<H>) -> (r: Result<Self, InferenceError>)
        requires
            bridge_accepts_plan(config, false, path_exists, open),
        ensures
            load_outcome(config, false, path_exists, open, r),
    {
        Self::load_inner(config, false, path_exists, open)
    }

    /// Same as [`CoreMLModel::load`], for the CPU alone.
    pub fn load_cpu_only(config: &InferenceConfig, path_exists: bool, open: impl FnOnce(LoadRequest) -> Option<H>) -> (r: Result<Self, InferenceError>)
        requires
            bridge_accepts_plan(config, true, path_exists, open),
        ensures
            load_outcome(config, true, path_exists, open, r),
    {
        Self::load_inner(config, true, path_exists, open)
    }

    fn load_inner<F: FnOnce(LoadRequest) -> Option<H>>(config: &InferenceConfig, cpu_only: bool, path_exists: bool, open: F) -> (r: Result<Self, InferenceError>)
        requires
            bridge_accepts_plan(config, cpu_only, path_exists, open),
        ensures
            load_outcome(config, cpu_only, path_exists, open, r),
    {
        match plan_model_load(config, cpu_only, path_exists) {
            Err(e) => Err(e),
            Ok(req) => {
                let units = req.compute_units;
                let ghost asked = req;
                let opened = open(req);
                assert(call_ensures(open, (asked,), opened));
                match opened {
                    None => Err(InferenceError::NullHandle),
                    Some(h) => Ok(CoreMLModel { handle: h, compute_units: units }),
                }
            },
        }
    }
}

/// Compute units that a load asks for.
pub open spec fn planned_units(cpu_only: bool) -> ComputeUnits {
    if cpu_only {
        ComputeUnits::CpuOnly
    } else {
        ComputeUnits::All
    }
}

/// The bridge may be called on the request that the checks plan, and on no
/// other: only when the path exists and holds no NUL character, with that
/// path and the planned compute units.
pub open spec fn bridge_accepts_plan<H, F: FnOnce(LoadRequest) -> Option<H>>(
    config: &InferenceConfig,
    cpu_only: bool,
    path_exists: bool,
    open: F,
) -> bool {
    path_exists && first_nul(config.model_path@) is None ==> forall|req: LoadRequest|
        req.model_path@ == config.model_path@ && req.compute_units == planned_units(cpu_only)
            ==> #[trigger] call_requires(open, (req,))
}

/// What loading a model gives: the refusals of [`plan_model_load`], and
/// otherwise the outcome of one bridge call on the planned request, a null
/// handle being `NullHandle`.
pub open spec fn load_outcome<H, F: FnOnce(LoadRequest) -> Option<H>>(
    config: &InferenceConfig,
    cpu_only: bool,
    path_exists: bool,
    open: F,
    r: Result<CoreMLModel<H>, InferenceError>,
) -> bool {
    &&& !path_exists ==> (r matches Err(InferenceError::ModelNotFound(p)) && p@
        == config.model_path@)
    &&& path_exists && first_nul(config.model_path@) is Some ==> (r matches Err(
        InferenceError::LoadFailed(m),
    ) && m@ == nul_error_text(
        utf8_byte_len(config.model_path@.take(first_nul(config.model_path@).unwrap())),
    ))
    &&& path_exists && first_nul(config.model_path@) is None ==> exists|req: LoadRequest, opened: Option<H>|
        #![trigger call_ensures(open, (req,), opened)]
        req.model_path@ == config.model_path@ && req.compute_units == (if cpu_only {
            ComputeUnits::CpuOnly
        } else {
            ComputeUnits::All
        }) && call_ensures(open, (req,), opened) && match opened {
            None => r == Err::<CoreMLModel<H>, InferenceError>(InferenceError::NullHandle),
            Some(h) => r matches Ok(m) && m.bridge_handle() == h && m.units() == req.compute_units,
        }
}

} // verus!
