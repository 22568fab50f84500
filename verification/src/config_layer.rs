//! Where a layer of configuration comes from, and which layer overrides
//! which.

use core::cmp::Ordering;
use vstd::prelude::*;
use vstd::std_specs::cmp::PartialOrdSpec;
use vstd::std_specs::cmp::PartialOrdSpecImpl;

verus! {

/// The source of one layer of configuration. A setting from a layer of
/// higher precedence overrides the same setting from a layer of lower
/// precedence.
#[derive(Debug, Clone, PartialEq, Eq)]
pub enum ConfigLayerSource {
    /// Managed preferences delivered by device management.
    Mdm { domain: String, key: String },
    /// The managed configuration file of the system.
    System { file: String },
    /// The user's configuration file.
    User { file: String },
    /// A configuration folder within a project; there may be several between
    /// the working directory and the project's root.
    Project { dot_codex_folder: String },
    /// Overrides given for the session on the command line.
    SessionFlags,
    /// The legacy managed configuration, from a file.
    LegacyManagedConfigTomlFromFile { file: String },
    /// The legacy managed configuration, from device management.
    LegacyManagedConfigTomlFromMdm,
}

impl ConfigLayerSource {
    /// The precedence of a source.
    pub open spec fn spec_precedence(&self) -> i16 {
        match self {
            ConfigLayerSource::Mdm { .. } => 0i16,
            ConfigLayerSource::System { .. } => 10i16,
            ConfigLayerSource::User { .. } => 20i16,
            ConfigLayerSource::Project { .. } => 25i16,
            ConfigLayerSource::SessionFlags => 30i16,
            ConfigLayerSource::LegacyManagedConfigTomlFromFile { .. } => 40i16,
            ConfigLayerSource::LegacyManagedConfigTomlFromMdm => 50i16,
        }
    }

    /// The precedence of a source.
    #[verifier::when_used_as_spec(spec_precedence)]
    pub fn precedence(&self) -> (rank: i16)
        ensures
            rank == self.spec_precedence(),
    {
        match self {
            ConfigLayerSource::Mdm { .. } => 0,
            ConfigLayerSource::System { .. } => 10,
            ConfigLayerSource::User { .. } => 20,
            ConfigLayerSource::Project { .. } => 25,
            ConfigLayerSource::SessionFlags => 30,
            ConfigLayerSource::LegacyManagedConfigTomlFromFile { .. } => 40,
            ConfigLayerSource::LegacyManagedConfigTomlFromMdm => 50,
        }
    }
}

/// How two precedences compare.
pub open spec fn compare_ranks(left: i16, right: i16) -> Ordering {
    if left < right {
        Ordering::Less
    } else if left == right {
        Ordering::Equal
    } else {
        Ordering::Greater
    }
}

impl PartialOrdSpecImpl for ConfigLayerSource {
    open spec fn obeys_partial_cmp_spec() -> bool {
        true
    }

    open spec fn partial_cmp_spec(&self, other: &ConfigLayerSource) -> Option<Ordering> {
        Some(compare_ranks(self.spec_precedence(), other.spec_precedence()))
    }
}

/// Sources compare by precedence alone: a source is less than another where
/// the other's settings override its own.
impl PartialOrd for ConfigLayerSource {
    fn partial_cmp(&self, other: &ConfigLayerSource) -> (order: Option<Ordering>) {
        let left = self.precedence();
        let right = other.precedence();
        if left < right {
            Some(Ordering::Less)
        } else if left == right {
            Some(Ordering::Equal)
        } else {
            Some(Ordering::Greater)
        }
    }
}

/// The sources in ascending precedence: device management, the system, the
/// user, a project, the session's flags, the legacy managed file, the legacy
/// managed preferences. Each is less than the next, and so than all after it.
pub proof fn lemma_precedence_chain(
    mdm: ConfigLayerSource,
    system: ConfigLayerSource,
    user: ConfigLayerSource,
    project: ConfigLayerSource,
    session: ConfigLayerSource,
    legacy_file: ConfigLayerSource,
    legacy_mdm: ConfigLayerSource,
)
    requires
        mdm is Mdm,
        system is System,
        user is User,
        project is Project,
        session is SessionFlags,
        legacy_file is LegacyManagedConfigTomlFromFile,
        legacy_mdm is LegacyManagedConfigTomlFromMdm,
    ensures
        PartialOrdSpec::partial_cmp_spec(&mdm, &system) == Some(Ordering::Less),
        PartialOrdSpec::partial_cmp_spec(&system, &user) == Some(Ordering::Less),
        PartialOrdSpec::partial_cmp_spec(&user, &project) == Some(Ordering::Less),
        PartialOrdSpec::partial_cmp_spec(&project, &session) == Some(Ordering::Less),
        PartialOrdSpec::partial_cmp_spec(&session, &legacy_file) == Some(Ordering::Less),
        PartialOrdSpec::partial_cmp_spec(&legacy_file, &legacy_mdm) == Some(Ordering::Less),
{
}

/// Being less is transitive, and no source is less than one of its own kind.
pub proof fn lemma_precedence_order(
    a: ConfigLayerSource,
    b: ConfigLayerSource,
    c: ConfigLayerSource,
)
    ensures
        PartialOrdSpec::partial_cmp_spec(&a, &b) == Some(Ordering::Less)
            && PartialOrdSpec::partial_cmp_spec(&b, &c) == Some(
            Ordering::Less,
        ) ==> PartialOrdSpec::partial_cmp_spec(&a, &c) == Some(Ordering::Less),
        PartialOrdSpec::partial_cmp_spec(&a, &b) == Some(Ordering::Less) <==> a.spec_precedence()
            < b.spec_precedence(),
        PartialOrdSpec::partial_cmp_spec(&a, &a) == Some(Ordering::Equal),
{
}

} // verus!
