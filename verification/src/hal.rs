//! The hardware-abstraction layer: the capability set that the shell drives,
//! and the mock that stands behind it.
//!
//! The mock answers from fixed texts and from a small manifest of modules. Its
//! one piece of logic is the signature check, [`signature_outcome`]: a
//! function of the manifest, the module's name and the signature source.

use crate::text::enclose;
use crate::text::join;
use crate::text::text_eq;
use crate::text::texts;
use vstd::hash_map::StringHashMap;
use vstd::prelude::*;
use vstd::string::StringExecFns;

verus! {

/// The signature source that stands for the simulated ledger.
pub const LEDGER_SOURCE: &'static str = "GitHubBlockchainLedger (Simulated)";

/// The signature source that stands for the internal manifest.
pub const INTERNAL_SOURCE: &'static str = "InternalManifest";

/// The module whose local signature is made to differ from the expected one.
pub const MISMATCHED_MODULE: &'static str = "UserInterfaceModule";

/// The local signature that the mock reports for [`MISMATCHED_MODULE`]. It is
/// a fixed text, not the result of any hashing.
pub const MISMATCHED_SIGNATURE: &'static str = "hash_ui_zxcv_FAIL";

/// The module that passes the internal check without standing in the manifest.
pub const INTERNAL_ONLY_MODULE: &'static str = "RustHAL_Interface";

/// Stand-in for tensor data: a free-form description.
#[derive(Debug)]
pub struct TensorData {
    pub info: String,
}

/// What the manifest records of one module.
pub struct ManifestEntry {
    /// The signature that the module is expected to have.
    pub signature: Seq<char>,
    /// Where the module comes from.
    pub source_url: Seq<char>,
}

/// A manifest: module names, each with its entry.
pub type Manifest = Map<Seq<char>, ManifestEntry>;

/// The manifest that every [`MockHal`] is built with.
pub open spec fn builtin_manifest() -> Manifest {
    Map::<Seq<char>, ManifestEntry>::empty().insert(
        "SoulOS_Core"@,
        ManifestEntry { signature: "hash_core_123_abc"@, source_url: "gh://soulware/core/v1.0"@ },
    ).insert(
        "TensorMemoryDriver"@,
        ManifestEntry {
            signature: "hash_tensor_xyz_789"@,
            source_url: "gh://soulware/tensor/v0.9"@,
        },
    ).insert(
        "EmotionalResonanceEngine"@,
        ManifestEntry { signature: "hash_ere_qwerty_456"@, source_url: "gh://soulware/ere/v0.5"@ },
    ).insert(
        "UserInterfaceModule"@,
        ManifestEntry { signature: "hash_ui_zxcv_321"@, source_url: "gh://soulware/ui/v1.1"@ },
    )
}

/// The signature that the mock finds for a module on this machine: the
/// expected one, but for [`MISMATCHED_MODULE`], which gets
/// [`MISMATCHED_SIGNATURE`].
pub open spec fn local_signature(module_name: Seq<char>, expected: Seq<char>) -> Seq<char> {
    if module_name == MISMATCHED_MODULE@ {
        MISMATCHED_SIGNATURE@
    } else {
        expected
    }
}

/// The reason given for a module that the ledger does not list.
pub open spec fn not_listed_reason(module_name: Seq<char>) -> Seq<char> {
    "Module '"@ + module_name + "' not listed in the simulated GitHub Blockchain Ledger."@
}

/// The reason given for a module that the internal check does not know.
pub open spec fn not_recognized_reason(module_name: Seq<char>) -> Seq<char> {
    "Core module '"@ + module_name + "' not recognized for internal check."@
}

/// The reason given for a signature source that is neither of the two known.
pub open spec fn unknown_source_reason(source: Seq<char>) -> Seq<char> {
    "Unknown signature source: "@ + source
}

/// The outcome of a signature check: `Ok(true)` for verified, `Ok(false)` for
/// failed, `Err` with the reason where no comparison could be made.
///
/// The source is looked at first, then whether the manifest lists the module,
/// then the signatures.
pub open spec fn signature_outcome(
    manifest: Manifest,
    module_name: Seq<char>,
    source: Seq<char>,
) -> Result<bool, Seq<char>> {
    if source == LEDGER_SOURCE@ {
        if manifest.contains_key(module_name) {
            let expected = manifest[module_name].signature;
            Ok(local_signature(module_name, expected) == expected)
        } else {
            Err(not_listed_reason(module_name))
        }
    } else if source == INTERNAL_SOURCE@ {
        if manifest.contains_key(module_name) || module_name == INTERNAL_ONLY_MODULE@ {
            Ok(true)
        } else {
            Err(not_recognized_reason(module_name))
        }
    } else {
        Err(unknown_source_reason(source))
    }
}

/// The ledger verifies every module that the manifest lists, but for
/// [`MISMATCHED_MODULE`].
pub proof fn lemma_ledger_verifies_listed(manifest: Manifest, module_name: Seq<char>)
    requires
        manifest.contains_key(module_name),
        module_name != MISMATCHED_MODULE@,
    ensures
        signature_outcome(manifest, module_name, LEDGER_SOURCE@) == Ok::<bool, Seq<char>>(true),
{
}

/// The ledger fails [`MISMATCHED_MODULE`] wherever the manifest lists it with
/// a signature other than [`MISMATCHED_SIGNATURE`].
pub proof fn lemma_ledger_fails_mismatched(manifest: Manifest)
    requires
        manifest.contains_key(MISMATCHED_MODULE@),
        manifest[MISMATCHED_MODULE@].signature != MISMATCHED_SIGNATURE@,
    ensures
        signature_outcome(manifest, MISMATCHED_MODULE@, LEDGER_SOURCE@) == Ok::<bool, Seq<char>>(
            false,
        ),
{
}

/// The built-in manifest lists [`MISMATCHED_MODULE`] with such a signature: in
/// a [`MockHal`] the ledger check of that module fails.
pub proof fn lemma_builtin_fails_mismatched()
    ensures
        signature_outcome(builtin_manifest(), MISMATCHED_MODULE@, LEDGER_SOURCE@) == Ok::<
            bool,
            Seq<char>,
        >(false),
{
    reveal_strlit("hash_ui_zxcv_321");
    reveal_strlit("hash_ui_zxcv_FAIL");
    assert("hash_ui_zxcv_321"@.len() != "hash_ui_zxcv_FAIL"@.len());
    lemma_ledger_fails_mismatched(builtin_manifest());
}

/// The ledger gives an error, and no verdict, for a module that the manifest
/// does not list.
pub proof fn lemma_ledger_rejects_unlisted(manifest: Manifest, module_name: Seq<char>)
    requires
        !manifest.contains_key(module_name),
    ensures
        signature_outcome(manifest, module_name, LEDGER_SOURCE@) == Err::<bool, Seq<char>>(
            not_listed_reason(module_name),
        ),
{
}

/// The internal check verifies a module exactly when the manifest lists it or
/// it is [`INTERNAL_ONLY_MODULE`]; every other module gets an error. It never
/// fails a module.
pub proof fn lemma_internal_check(manifest: Manifest, module_name: Seq<char>)
    ensures
        signature_outcome(manifest, module_name, INTERNAL_SOURCE@) == Ok::<bool, Seq<char>>(true)
            <==> manifest.contains_key(module_name) || module_name == INTERNAL_ONLY_MODULE@,
        signature_outcome(manifest, module_name, INTERNAL_SOURCE@) != Ok::<bool, Seq<char>>(true)
            ==> signature_outcome(manifest, module_name, INTERNAL_SOURCE@) == Err::<
            bool,
            Seq<char>,
        >(not_recognized_reason(module_name)),
{
    lemma_sources_differ();
}

/// A source that is neither [`LEDGER_SOURCE`] nor [`INTERNAL_SOURCE`] gives an
/// error, whatever the module and the manifest.
pub proof fn lemma_unknown_source(manifest: Manifest, module_name: Seq<char>, source: Seq<char>)
    requires
        source != LEDGER_SOURCE@,
        source != INTERNAL_SOURCE@,
    ensures
        signature_outcome(manifest, module_name, source) == Err::<bool, Seq<char>>(
            unknown_source_reason(source),
        ),
{
}

/// The two signature sources have different names.
pub proof fn lemma_sources_differ()
    ensures
        LEDGER_SOURCE@ != INTERNAL_SOURCE@,
{
    reveal_strlit("GitHubBlockchainLedger (Simulated)");
    reveal_strlit("InternalManifest");
    assert(LEDGER_SOURCE@.len() != INTERNAL_SOURCE@.len());
}

/// A check's result with the reason taken by its view.
pub open spec fn outcome_view(result: Result<bool, String>) -> Result<bool, Seq<char>> {
    match result {
        Ok(verified) => Ok(verified),
        Err(reason) => Err(reason@),
    }
}

/// The text of the mock's status.
pub open spec fn mock_status() -> Seq<char> {
    "MockStatus: System Optimal, Resonance Field Stable."@
}

/// The entries of the mock's emotional map.
pub open spec fn mock_emotional_map() -> Seq<Seq<char>> {
    seq!["Joy: Bright Cloud"@, "Sadness: Blue Mist"@]
}

/// The node that the mock collapses every waveform to.
pub open spec fn mock_collapse_result() -> Seq<char> {
    "MockHAL: Waveform collapsed to 'MockMemoryNode'"@
}

/// The text of the mock's NPU report.
pub open spec fn mock_npu_status() -> Seq<char> {
    "MockHAL: NPU initialized and ready for ONNX models."@
}

/// What the mock reports of a model run.
pub open spec fn mock_onnx_info(model_path: Seq<char>, input_info: Seq<char>) -> Seq<char> {
    "MockHAL: ONNX model "@ + model_path + " processed with input "@ + input_info
}

/// The capabilities of the hardware-abstraction layer.
///
/// Each capability comes with a predicate over its result: what an
/// implementation promises of that call. An implementation that does not
/// define the predicate promises nothing. The trait itself adds nothing, so a
/// caller that knows only the trait learns that the result is one that the
/// implementation allows.
pub trait HalTrait {
    /// What the implementation promises of [`HalTrait::get_system_status`].
    open spec fn status_spec(&self, result: Result<String, String>) -> bool {
        true
    }

    /// What the implementation promises of
    /// [`HalTrait::verify_module_signature`].
    open spec fn signature_spec(
        &self,
        module_name: Seq<char>,
        signature_source: Seq<char>,
        result: Result<bool, String>,
    ) -> bool {
        true
    }

    /// What the implementation promises of [`HalTrait::get_emotional_map`].
    open spec fn emotional_map_spec(&self, result: Result<Vec<String>, String>) -> bool {
        true
    }

    /// What the implementation promises of
    /// [`HalTrait::collapse_truth_waveform`].
    open spec fn collapse_spec(
        &self,
        emotion: Seq<char>,
        mode: Seq<char>,
        time_vector: Seq<char>,
        result: Result<String, String>,
    ) -> bool {
        true
    }

    /// What the implementation promises of [`HalTrait::initialize_npu`].
    open spec fn npu_spec(&self, result: Result<String, String>) -> bool {
        true
    }

    /// What the implementation promises of [`HalTrait::run_onnx_model`].
    open spec fn onnx_spec(
        &self,
        model_path: Seq<char>,
        input_info: Seq<char>,
        result: Result<TensorData, String>,
    ) -> bool {
        true
    }

    /// The state of the system, in words.
    fn get_system_status(&self) -> (result: Result<String, String>)
        ensures
            self.status_spec(result),
    ;

    /// Checks the signature of `module_name` against `signature_source`:
    /// `Ok(true)` for verified, `Ok(false)` for failed, `Err` with the reason
    /// where no comparison could be made.
    fn verify_module_signature(&self, module_name: &str, signature_source: &str) -> (result: Result<
        bool,
        String,
    >)
        ensures
            self.signature_spec(module_name@, signature_source@, result),
    ;

    /// The entries of the emotional map.
    fn get_emotional_map(&self) -> (result: Result<Vec<String>, String>)
        ensures
            self.emotional_map_spec(result),
    ;

    /// Collapses a truth waveform and names the node it collapsed to.
    fn collapse_truth_waveform(&self, emotion: &str, mode: &str, time_vector: &str) -> (result:
        Result<String, String>)
        ensures
            self.collapse_spec(emotion@, mode@, time_vector@, result),
    ;

    /// Brings up the NPU and reports on it.
    fn initialize_npu(&self) -> (result: Result<String, String>)
        ensures
            self.npu_spec(result),
    ;

    /// Runs the model at `model_path` on `inputs`.
    fn run_onnx_model(&self, model_path: &str, inputs: &TensorData) -> (result: Result<
        TensorData,
        String,
    >)
        ensures
            self.onnx_spec(model_path@, inputs.info@, result),
    ;
}

/// A HAL that answers from fixed texts and from a manifest of known modules.
/// Nothing changes the manifest once the mock is built.
pub struct MockHal {
    github_manifest: StringHashMap<(String, String)>,
}

impl View for MockHal {
    type V = Manifest;

    /// The manifest that the mock checks modules against.
    closed spec fn view(&self) -> Manifest {
        self.github_manifest@.map_values(
            |entry: (String, String)| ManifestEntry { signature: entry.0@, source_url: entry.1@ },
        )
    }
}

impl MockHal {
    /// A mock with the built-in manifest.
    pub fn new() -> (hal: Self)
        ensures
            hal@ == builtin_manifest(),
    {
        let mut manifest: StringHashMap<(String, String)> = StringHashMap::new();
        manifest.insert(
            "SoulOS_Core".to_owned(),
            ("hash_core_123_abc".to_owned(), "gh://soulware/core/v1.0".to_owned()),
        );
        manifest.insert(
            "TensorMemoryDriver".to_owned(),
            ("hash_tensor_xyz_789".to_owned(), "gh://soulware/tensor/v0.9".to_owned()),
        );
        manifest.insert(
            "EmotionalResonanceEngine".to_owned(),
            ("hash_ere_qwerty_456".to_owned(), "gh://soulware/ere/v0.5".to_owned()),
        );
        manifest.insert(
            "UserInterfaceModule".to_owned(),
            ("hash_ui_zxcv_321".to_owned(), "gh://soulware/ui/v1.1".to_owned()),
        );
        let hal = MockHal { github_manifest: manifest };
        assert(hal@ =~= builtin_manifest());
        hal
    }
}

impl HalTrait for MockHal {
    open spec fn status_spec(&self, result: Result<String, String>) -> bool {
        result matches Ok(status) && status@ == mock_status()
    }

    open spec fn signature_spec(
        &self,
        module_name: Seq<char>,
        signature_source: Seq<char>,
        result: Result<bool, String>,
    ) -> bool {
        outcome_view(result) == signature_outcome(self@, module_name, signature_source)
    }

    open spec fn emotional_map_spec(&self, result: Result<Vec<String>, String>) -> bool {
        result matches Ok(entries) && texts(entries@) == mock_emotional_map()
    }

    open spec fn collapse_spec(
        &self,
        emotion: Seq<char>,
        mode: Seq<char>,
        time_vector: Seq<char>,
        result: Result<String, String>,
    ) -> bool {
        result matches Ok(node) && node@ == mock_collapse_result()
    }

    open spec fn npu_spec(&self, result: Result<String, String>) -> bool {
        result matches Ok(status) && status@ == mock_npu_status()
    }

    open spec fn onnx_spec(
        &self,
        model_path: Seq<char>,
        input_info: Seq<char>,
        result: Result<TensorData, String>,
    ) -> bool {
        result matches Ok(output) && output.info@ == mock_onnx_info(model_path, input_info)
    }

    fn get_system_status(&self) -> (result: Result<String, String>) {
        Ok("MockStatus: System Optimal, Resonance Field Stable.".to_owned())
    }

    fn verify_module_signature(&self, module_name: &str, signature_source: &str) -> (result: Result<
        bool,
        String,
    >) {
        if text_eq(signature_source, LEDGER_SOURCE) {
            match self.github_manifest.get(module_name) {
                Some(entry) => {
                    let local_signature = if text_eq(module_name, MISMATCHED_MODULE) {
                        MISMATCHED_SIGNATURE.to_owned()
                    } else {
                        entry.0.clone()
                    };
                    Ok(local_signature == entry.0)
                },
                None => Err(
                    enclose(
                        "Module '",
                        module_name,
                        "' not listed in the simulated GitHub Blockchain Ledger.",
                    ),
                ),
            }
        } else if text_eq(signature_source, INTERNAL_SOURCE) {
            if self.github_manifest.contains_key(module_name) || text_eq(
                module_name,
                INTERNAL_ONLY_MODULE,
            ) {
                Ok(true)
            } else {
                Err(enclose("Core module '", module_name, "' not recognized for internal check."))
            }
        } else {
            Err(join("Unknown signature source: ", signature_source))
        }
    }

    fn get_emotional_map(&self) -> (result: Result<Vec<String>, String>) {
        let mut entries: Vec<String> = Vec::new();
        entries.push("Joy: Bright Cloud".to_owned());
        entries.push("Sadness: Blue Mist".to_owned());
        assert(texts(entries@) =~= mock_emotional_map());
        Ok(entries)
    }

    fn collapse_truth_waveform(&self, emotion: &str, mode: &str, time_vector: &str) -> (result:
        Result<String, String>) {
        Ok("MockHAL: Waveform collapsed to 'MockMemoryNode'".to_owned())
    }

    fn initialize_npu(&self) -> (result: Result<String, String>) {
        Ok("MockHAL: NPU initialized and ready for ONNX models.".to_owned())
    }

    fn run_onnx_model(&self, model_path: &str, inputs: &TensorData) -> (result: Result<
        TensorData,
        String,
    >) {
        let mut info = enclose("MockHAL: ONNX model ", model_path, " processed with input ");
        info.append(inputs.info.as_str());
        Ok(TensorData { info })
    }
}

} // verus!
