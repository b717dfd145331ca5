//! Execution-environment settings shared by systemd service processes.

use crate::systemd::checks::cap_ok;
use crate::systemd::checks::env_entry_ok;
use crate::systemd::checks::first_bad_cap;
use crate::systemd::checks::first_bad_env_entry;
use crate::systemd::checks::first_empty;
use crate::systemd::checks::first_with_eq;
use crate::systemd::checks::opt_all_caps_ok;
use crate::systemd::checks::opt_all_env_entries_ok;
use crate::systemd::checks::opt_all_nonempty;
use crate::systemd::checks::opt_all_without_eq;
use crate::systemd::render::bool_text;
use crate::systemd::render::list_text;
use crate::systemd::render::multi_text;
use crate::systemd::render::opt_i32_text;
use crate::systemd::render::opt_text;
use crate::systemd::render::opt_texts;
use crate::systemd::render::scalar_text;
use crate::systemd::render::write_bool;
use crate::systemd::render::write_i32;
use crate::systemd::render::write_list;
use crate::systemd::render::write_multi;
use crate::systemd::render::write_scalar;
use crate::text::i32_string;
use crate::text::int_text;
use vstd::prelude::*;
use vstd::string::StrSliceExecFns;
use vstd::string::StringExecFns;

verus! {
/// Execution environment options for the service's processes.
#[derive(Debug, Clone)]
pub struct Exec {
    /// Working directory for executed processes.
    pub working_directory: Option<String>,
    /// Root directory for executed processes.
    pub root_directory: Option<String>,
    /// Image to mount as root directory.
    pub root_image: Option<String>,
    /// Options for mounting the root image.
    pub root_image_options: Option<Vec<String>>,
    /// Verity data for the root image.
    pub root_verity: Option<String>,
    /// Hash for root verity.
    pub root_hash: Option<String>,
    /// Signature for the root hash.
    pub root_hash_signature: Option<String>,
    /// Path to the cryptographic key for the root hash signature.
    pub root_hash_signature_key: Option<String>,
    /// Path to the PCR private key for the root hash signature.
    pub root_hash_signature_pcr_private_key: Option<String>,
    /// Path to the PCR public key for the root hash signature.
    pub root_hash_signature_pcr_public_key: Option<String>,
    /// Ephemeral root directory.
    pub root_ephemeral: Option<bool>,
    /// User identity for executed processes.
    pub user: Option<String>,
    /// Group identity for executed processes.
    pub group: Option<String>,
    /// Supplementary groups for executed processes.
    pub supplementary_groups: Option<Vec<String>>,
    /// PAM service name.
    pub pam_name: Option<String>,
    /// Environment variables to set.
    pub environment: Option<Vec<String>>,
    /// Environment files to read.
    pub environment_file: Option<Vec<String>>,
    /// Environment variables to pass from the parent.
    pub pass_environment: Option<Vec<String>>,
    /// Environment variables to unset.
    pub unset_environment: Option<Vec<String>>,
    /// CPU time limit.
    pub limit_cpu: Option<String>,
    /// File size limit.
    pub limit_fsize: Option<String>,
    /// No new privileges.
    pub no_new_privileges: Option<bool>,
    /// Private temporary directory.
    pub private_tmp: Option<bool>,
    /// Private devices.
    pub private_devices: Option<bool>,
    /// Protect kernel tunables.
    pub protect_kernel_tunables: Option<bool>,
    /// Protect kernel modules.
    pub protect_kernel_modules: Option<bool>,
    /// Protect control groups.
    pub protect_control_groups: Option<bool>,
    /// Capability bounding set.
    pub capability_bounding_set: Option<Vec<String>>,
    /// Ambient capabilities.
    pub ambient_capabilities: Option<Vec<String>>,
    /// Nice level.
    pub nice: Option<i32>,
    /// OOM score adjust.
    pub oom_score_adjust: Option<i32>,
    /// Read-write paths.
    pub read_write_paths: Option<Vec<String>>,
    /// Read-only paths.
    pub read_only_paths: Option<Vec<String>>,
    /// Inaccessible paths.
    pub inaccessible_paths: Option<Vec<String>>,
    /// Private network.
    pub private_network: Option<bool>,
    /// Network namespace path.
    pub network_namespace_path: Option<String>,
}
impl Exec {
    /// Creates a new empty `Exec` record.
    pub fn new() -> (r: Self)
        ensures
            r == Exec::unset(),
    {
        Exec::default()
    }

    /// The section value with every field absent.
    pub open spec fn unset() -> Exec {
        Exec {
            working_directory: None,
            root_directory: None,
            root_image: None,
            root_image_options: None,
            root_verity: None,
            root_hash: None,
            root_hash_signature: None,
            root_hash_signature_key: None,
            root_hash_signature_pcr_private_key: None,
            root_hash_signature_pcr_public_key: None,
            root_ephemeral: None,
            user: None,
            group: None,
            supplementary_groups: None,
            pam_name: None,
            environment: None,
            environment_file: None,
            pass_environment: None,
            unset_environment: None,
            limit_cpu: None,
            limit_fsize: None,
            no_new_privileges: None,
            private_tmp: None,
            private_devices: None,
            protect_kernel_tunables: None,
            protect_kernel_modules: None,
            protect_control_groups: None,
            capability_bounding_set: None,
            ambient_capabilities: None,
            nice: None,
            oom_score_adjust: None,
            read_write_paths: None,
            read_only_paths: None,
            inaccessible_paths: None,
            private_network: None,
            network_namespace_path: None,
        }
    }
    /// The full text of the rendered section block.
    #[verifier::opaque]
    pub open spec fn text_spec(self) -> Seq<char> {
        scalar_text("WorkingDirectory"@, opt_text(self.working_directory))
            + scalar_text("RootDirectory"@, opt_text(self.root_directory))
            + scalar_text("RootImage"@, opt_text(self.root_image))
            + list_text("RootImageOptions"@, opt_texts(self.root_image_options))
            + scalar_text("RootVerity"@, opt_text(self.root_verity))
            + scalar_text("RootHash"@, opt_text(self.root_hash))
            + scalar_text("RootHashSignature"@, opt_text(self.root_hash_signature))
            + scalar_text("RootHashSignature"@, opt_text(self.root_hash_signature_key))
            + scalar_text("RootHashSignature"@, opt_text(self.root_hash_signature_pcr_private_key))
            + scalar_text("RootHashSignature"@, opt_text(self.root_hash_signature_pcr_public_key))
            + bool_text("RootEphemeral"@, self.root_ephemeral)
            + scalar_text("User"@, opt_text(self.user))
            + scalar_text("Group"@, opt_text(self.group))
            + list_text("SupplementaryGroups"@, opt_texts(self.supplementary_groups))
            + scalar_text("PAMName"@, opt_text(self.pam_name))
            + list_text("Environment"@, opt_texts(self.environment))
            + multi_text("EnvironmentFile"@, opt_texts(self.environment_file))
            + list_text("PassEnvironment"@, opt_texts(self.pass_environment))
            + list_text("UnsetEnvironment"@, opt_texts(self.unset_environment))
            + scalar_text("LimitCPU"@, opt_text(self.limit_cpu))
            + scalar_text("LimitFSIZE"@, opt_text(self.limit_fsize))
            + bool_text("NoNewPrivileges"@, self.no_new_privileges)
            + bool_text("PrivateTmp"@, self.private_tmp)
            + bool_text("PrivateDevices"@, self.private_devices)
            + bool_text("ProtectKernelTunables"@, self.protect_kernel_tunables)
            + bool_text("ProtectKernelModules"@, self.protect_kernel_modules)
            + bool_text("ProtectControlGroups"@, self.protect_control_groups)
            + list_text("CapabilityBoundingSet"@, opt_texts(self.capability_bounding_set))
            + list_text("AmbientCapabilities"@, opt_texts(self.ambient_capabilities))
            + scalar_text("Nice"@, opt_i32_text(self.nice))
            + scalar_text("OOMScoreAdjust"@, opt_i32_text(self.oom_score_adjust))
            + multi_text("ReadWritePaths"@, opt_texts(self.read_write_paths))
            + multi_text("ReadOnlyPaths"@, opt_texts(self.read_only_paths))
            + multi_text("InaccessiblePaths"@, opt_texts(self.inaccessible_paths))
            + bool_text("PrivateNetwork"@, self.private_network)
            + scalar_text("NetworkNamespacePath"@, opt_text(self.network_namespace_path))
    }
    /// The niceness interval constraint alone.
    pub open spec fn nice_ok(self) -> bool {
        match self.nice {
            None => true,
            Some(n) => -20 <= n <= 19,
        }
    }

    /// The OOM-score-adjustment interval constraint alone.
    pub open spec fn oom_ok(self) -> bool {
        match self.oom_score_adjust {
            None => true,
            Some(n) => -1000 <= n <= 1000,
        }
    }

    /// Every field value meets its documented constraint.
    pub open spec fn valid(self) -> bool {
        &&& self.nice_ok()
        &&& self.oom_ok()
        &&& opt_all_env_entries_ok(self.environment)
        &&& opt_all_without_eq(self.pass_environment)
        &&& opt_all_without_eq(self.unset_environment)
        &&& opt_all_caps_ok(self.capability_bounding_set)
        &&& opt_all_caps_ok(self.ambient_capabilities)
        &&& opt_all_nonempty(self.supplementary_groups)
        &&& opt_all_nonempty(self.root_image_options)
    }

    /// The message reported for a niceness outside its interval.
    pub open spec fn nice_error_text(n: i32) -> Seq<char> {
        "Nice level "@ + int_text(n as int) + " must be between -20 and 19"@
    }

    /// The message reported for an OOM score adjustment outside its interval.
    pub open spec fn oom_error_text(n: i32) -> Seq<char> {
        "OOMScoreAdjust "@ + int_text(n as int) + " must be between -1000 and 1000"@
    }

    /// The message reported for a malformed environment entry.
    pub open spec fn env_error_text(s: Seq<char>) -> Seq<char> {
        if !s.contains('=') {
            "Environment variable '"@ + s + "' must be in KEY=VALUE format"@
        } else {
            "Invalid environment variable format: '"@ + s + "'"@
        }
    }

    /// The message reported for a pass-through entry holding a separator.
    pub open spec fn pass_env_error_text(s: Seq<char>) -> Seq<char> {
        "PassEnvironment variable '"@ + s + "' should not contain '='"@
    }

    /// The message reported for an unset entry holding a separator.
    pub open spec fn unset_env_error_text(s: Seq<char>) -> Seq<char> {
        "UnsetEnvironment variable '"@ + s + "' should not contain '='"@
    }

    /// The message reported for a capability token lacking its prefix.
    pub open spec fn cap_error_text(s: Seq<char>) -> Seq<char> {
        "Capability '"@ + s + "' must start with 'CAP_'"@
    }

    /// The message of a validation failure names the offending field and,
    /// where the rule is about a value, quotes an offending value; it comes
    /// from the first rule checked whose earlier rules are all met.
    pub open spec fn explains_failure(self, m: Seq<char>) -> bool {
        ||| {
            &&& self.nice matches Some(n)
            &&& !(-20 <= n <= 19)
            &&& m == Exec::nice_error_text(n)
        }
        ||| {
            &&& self.nice_ok()
            &&& self.oom_score_adjust matches Some(n)
            &&& !(-1000 <= n <= 1000)
            &&& m == Exec::oom_error_text(n)
        }
        ||| {
            &&& self.nice_ok()
            &&& self.oom_ok()
            &&& self.environment matches Some(v)
            &&& exists|i: int|
                0 <= i < v@.len() && !env_entry_ok(v@[i]@) && m == Exec::env_error_text(v@[i]@)
        }
        ||| {
            &&& self.nice_ok()
            &&& self.oom_ok()
            &&& opt_all_env_entries_ok(self.environment)
            &&& self.pass_environment matches Some(v)
            &&& exists|i: int|
                0 <= i < v@.len() && v@[i]@.contains('=') && m == Exec::pass_env_error_text(
                    v@[i]@,
                )
        }
        ||| {
            &&& self.nice_ok()
            &&& self.oom_ok()
            &&& opt_all_env_entries_ok(self.environment)
            &&& opt_all_without_eq(self.pass_environment)
            &&& self.unset_environment matches Some(v)
            &&& exists|i: int|
                0 <= i < v@.len() && v@[i]@.contains('=') && m == Exec::unset_env_error_text(
                    v@[i]@,
                )
        }
        ||| {
            &&& self.nice_ok()
            &&& self.oom_ok()
            &&& opt_all_env_entries_ok(self.environment)
            &&& opt_all_without_eq(self.pass_environment)
            &&& opt_all_without_eq(self.unset_environment)
            &&& self.capability_bounding_set matches Some(v)
            &&& exists|i: int|
                0 <= i < v@.len() && !cap_ok(v@[i]@) && m == Exec::cap_error_text(v@[i]@)
        }
        ||| {
            &&& self.nice_ok()
            &&& self.oom_ok()
            &&& opt_all_env_entries_ok(self.environment)
            &&& opt_all_without_eq(self.pass_environment)
            &&& opt_all_without_eq(self.unset_environment)
            &&& opt_all_caps_ok(self.capability_bounding_set)
            &&& self.ambient_capabilities matches Some(v)
            &&& exists|i: int|
                0 <= i < v@.len() && !cap_ok(v@[i]@) && m == Exec::cap_error_text(v@[i]@)
        }
        ||| {
            &&& self.nice_ok()
            &&& self.oom_ok()
            &&& opt_all_env_entries_ok(self.environment)
            &&& opt_all_without_eq(self.pass_environment)
            &&& opt_all_without_eq(self.unset_environment)
            &&& opt_all_caps_ok(self.capability_bounding_set)
            &&& opt_all_caps_ok(self.ambient_capabilities)
            &&& self.supplementary_groups matches Some(v)
            &&& exists|i: int| 0 <= i < v@.len() && v@[i]@.len() == 0
            &&& m == "Supplementary group names cannot be empty"@
        }
        ||| {
            &&& self.nice_ok()
            &&& self.oom_ok()
            &&& opt_all_env_entries_ok(self.environment)
            &&& opt_all_without_eq(self.pass_environment)
            &&& opt_all_without_eq(self.unset_environment)
            &&& opt_all_caps_ok(self.capability_bounding_set)
            &&& opt_all_caps_ok(self.ambient_capabilities)
            &&& opt_all_nonempty(self.supplementary_groups)
            &&& self.root_image_options matches Some(v)
            &&& exists|i: int| 0 <= i < v@.len() && v@[i]@.len() == 0
            &&& m == "RootImageOptions cannot contain empty strings"@
        }
    }

    /// Validate the execution environment configuration.
    pub fn validate(&self) -> (r: Result<(), String>)
        ensures
            r is Ok <==> self.valid(),
            (r matches Err(m) ==> self.explains_failure(m@)),
    {
        match self.nice {
            Some(n) => {
                if n < -20 || n > 19 {
                    let mut msg = String::from_str("Nice level ");
                    let number = i32_string(n);
                    msg.append(number.as_str());
                    msg.append(" must be between -20 and 19");
                    proof {
                        assert(msg@ == Exec::nice_error_text(n));
                    }
                    return Err(msg);
                }
            },
            None => {},
        }
        match self.oom_score_adjust {
            Some(n) => {
                if n < -1000 || n > 1000 {
                    let mut msg = String::from_str("OOMScoreAdjust ");
                    let number = i32_string(n);
                    msg.append(number.as_str());
                    msg.append(" must be between -1000 and 1000");
                    proof {
                        assert(msg@ == Exec::oom_error_text(n));
                    }
                    return Err(msg);
                }
            },
            None => {},
        }
        match &self.environment {
            Some(entries) => {
                match first_bad_env_entry(entries) {
                    Some((i, missing)) => {
                        if missing {
                            let mut msg = String::from_str("Environment variable '");
                            msg.append(entries[i].as_str());
                            msg.append("' must be in KEY=VALUE format");
                            proof {
                                assert(msg@ == Exec::env_error_text(entries@[i as int]@));
                            }
                            return Err(msg);
                        } else {
                            let mut msg = String::from_str("Invalid environment variable format: '");
                            msg.append(entries[i].as_str());
                            msg.append("'");
                            proof {
                                assert(msg@ == Exec::env_error_text(entries@[i as int]@));
                            }
                            return Err(msg);
                        }
                    },
                    None => {},
                }
            },
            None => {},
        }
        match &self.pass_environment {
            Some(entries) => {
                match first_with_eq(entries) {
                    Some(i) => {
                        let mut msg = String::from_str("PassEnvironment variable '");
                        msg.append(entries[i].as_str());
                        msg.append("' should not contain '='");
                        proof {
                            assert(msg@ == Exec::pass_env_error_text(entries@[i as int]@));
                        }
                        return Err(msg);
                    },
                    None => {},
                }
            },
            None => {},
        }
        match &self.unset_environment {
            Some(entries) => {
                match first_with_eq(entries) {
                    Some(i) => {
                        let mut msg = String::from_str("UnsetEnvironment variable '");
                        msg.append(entries[i].as_str());
                        msg.append("' should not contain '='");
                        proof {
                            assert(msg@ == Exec::unset_env_error_text(entries@[i as int]@));
                        }
                        return Err(msg);
                    },
                    None => {},
                }
            },
            None => {},
        }
        match &self.capability_bounding_set {
            Some(caps) => {
                match first_bad_cap(caps) {
                    Some(i) => {
                        let mut msg = String::from_str("Capability '");
                        msg.append(caps[i].as_str());
                        msg.append("' must start with 'CAP_'");
                        proof {
                            assert(msg@ == Exec::cap_error_text(caps@[i as int]@));
                        }
                        return Err(msg);
                    },
                    None => {},
                }
            },
            None => {},
        }
        match &self.ambient_capabilities {
            Some(caps) => {
                match first_bad_cap(caps) {
                    Some(i) => {
                        let mut msg = String::from_str("Capability '");
                        msg.append(caps[i].as_str());
                        msg.append("' must start with 'CAP_'");
                        proof {
                            assert(msg@ == Exec::cap_error_text(caps@[i as int]@));
                        }
                        return Err(msg);
                    },
                    None => {},
                }
            },
            None => {},
        }
        match &self.supplementary_groups {
            Some(groups) => {
                match first_empty(groups) {
                    Some(_i) => {
                        return Err(String::from_str("Supplementary group names cannot be empty"));
                    },
                    None => {},
                }
            },
            None => {},
        }
        match &self.root_image_options {
            Some(options) => {
                match first_empty(options) {
                    Some(_i) => {
                        return Err(String::from_str("RootImageOptions cannot contain empty strings"));
                    },
                    None => {},
                }
            },
            None => {},
        }
        Ok(())
    }

    /// Render the section into its text block, in the fixed field order.
    #[verifier::rlimit(50)]
    pub fn render(&self) -> (r: String)
        ensures
            r@ == self.text_spec(),
    {
        proof {
            reveal(Exec::text_spec);
        }
        let mut buf = String::new();
        write_scalar(&mut buf, "WorkingDirectory", &self.working_directory);
        proof {
            assert(buf@ =~= scalar_text("WorkingDirectory"@, opt_text(self.working_directory)));
        }
        write_scalar(&mut buf, "RootDirectory", &self.root_directory);
        write_scalar(&mut buf, "RootImage", &self.root_image);
        write_list(&mut buf, "RootImageOptions", &self.root_image_options);
        write_scalar(&mut buf, "RootVerity", &self.root_verity);
        write_scalar(&mut buf, "RootHash", &self.root_hash);
        write_scalar(&mut buf, "RootHashSignature", &self.root_hash_signature);
        write_scalar(&mut buf, "RootHashSignature", &self.root_hash_signature_key);
        write_scalar(&mut buf, "RootHashSignature", &self.root_hash_signature_pcr_private_key);
        write_scalar(&mut buf, "RootHashSignature", &self.root_hash_signature_pcr_public_key);
        write_bool(&mut buf, "RootEphemeral", &self.root_ephemeral);
        write_scalar(&mut buf, "User", &self.user);
        write_scalar(&mut buf, "Group", &self.group);
        write_list(&mut buf, "SupplementaryGroups", &self.supplementary_groups);
        write_scalar(&mut buf, "PAMName", &self.pam_name);
        write_list(&mut buf, "Environment", &self.environment);
        write_multi(&mut buf, "EnvironmentFile", &self.environment_file);
        write_list(&mut buf, "PassEnvironment", &self.pass_environment);
        write_list(&mut buf, "UnsetEnvironment", &self.unset_environment);
        write_scalar(&mut buf, "LimitCPU", &self.limit_cpu);
        write_scalar(&mut buf, "LimitFSIZE", &self.limit_fsize);
        write_bool(&mut buf, "NoNewPrivileges", &self.no_new_privileges);
        write_bool(&mut buf, "PrivateTmp", &self.private_tmp);
        write_bool(&mut buf, "PrivateDevices", &self.private_devices);
        write_bool(&mut buf, "ProtectKernelTunables", &self.protect_kernel_tunables);
        write_bool(&mut buf, "ProtectKernelModules", &self.protect_kernel_modules);
        write_bool(&mut buf, "ProtectControlGroups", &self.protect_control_groups);
        write_list(&mut buf, "CapabilityBoundingSet", &self.capability_bounding_set);
        write_list(&mut buf, "AmbientCapabilities", &self.ambient_capabilities);
        write_i32(&mut buf, "Nice", &self.nice);
        write_i32(&mut buf, "OOMScoreAdjust", &self.oom_score_adjust);
        write_multi(&mut buf, "ReadWritePaths", &self.read_write_paths);
        write_multi(&mut buf, "ReadOnlyPaths", &self.read_only_paths);
        write_multi(&mut buf, "InaccessiblePaths", &self.inaccessible_paths);
        write_bool(&mut buf, "PrivateNetwork", &self.private_network);
        write_scalar(&mut buf, "NetworkNamespacePath", &self.network_namespace_path);
        buf
    }
    pub fn working_directory(self, value: String) -> (r: Self)
        ensures
            r == (Exec { working_directory: Some(value), ..self }),
    {
        Exec { working_directory: Some(value), ..self }
    }

    pub fn user(self, value: String) -> (r: Self)
        ensures
            r == (Exec { user: Some(value), ..self }),
    {
        Exec { user: Some(value), ..self }
    }

    pub fn group(self, value: String) -> (r: Self)
        ensures
            r == (Exec { group: Some(value), ..self }),
    {
        Exec { group: Some(value), ..self }
    }

    pub fn environment(self, value: Vec<String>) -> (r: Self)
        ensures
            r == (Exec { environment: Some(value), ..self }),
    {
        Exec { environment: Some(value), ..self }
    }

    pub fn no_new_privileges(self, value: bool) -> (r: Self)
        ensures
            r == (Exec { no_new_privileges: Some(value), ..self }),
    {
        Exec { no_new_privileges: Some(value), ..self }
    }

    pub fn private_tmp(self, value: bool) -> (r: Self)
        ensures
            r == (Exec { private_tmp: Some(value), ..self }),
    {
        Exec { private_tmp: Some(value), ..self }
    }
}

impl Default for Exec {
    /// The all-absent section value.
    fn default() -> (r: Self)
        ensures
            r == Exec::unset(),
    {
        Exec {
            working_directory: None,
            root_directory: None,
            root_image: None,
            root_image_options: None,
            root_verity: None,
            root_hash: None,
            root_hash_signature: None,
            root_hash_signature_key: None,
            root_hash_signature_pcr_private_key: None,
            root_hash_signature_pcr_public_key: None,
            root_ephemeral: None,
            user: None,
            group: None,
            supplementary_groups: None,
            pam_name: None,
            environment: None,
            environment_file: None,
            pass_environment: None,
            unset_environment: None,
            limit_cpu: None,
            limit_fsize: None,
            no_new_privileges: None,
            private_tmp: None,
            private_devices: None,
            protect_kernel_tunables: None,
            protect_kernel_modules: None,
            protect_control_groups: None,
            capability_bounding_set: None,
            ambient_capabilities: None,
            nice: None,
            oom_score_adjust: None,
            read_write_paths: None,
            read_only_paths: None,
            inaccessible_paths: None,
            private_network: None,
            network_namespace_path: None,
        }
    }
}

/// A default-constructed execution-environment record renders to nothing
/// at all: it has no header of its own and every field is unset.
pub proof fn lemma_unset_exec_renders_nothing()
    ensures
        Exec::unset().text_spec() == Seq::<char>::empty(),
{
    reveal(Exec::text_spec);
    assert(Exec::unset().text_spec() =~= Seq::<char>::empty());
}

} // verus!
