//! Advanced backend routing: profile-driven backend selection, the capability catalog,
//! capability-based selection, and the host-side session state machine.
use vstd::prelude::*;

use crate::protocol::{
    backend_name, both, capabilities_support, capability_score_spec, lifecycle_allows,
    no_capabilities, no_requirements, AdvancedAgentComposition, AdvancedAgentEvent,
    AdvancedAgentEventEnvelope, AdvancedAgentRole, AdvancedBackendCapabilities,
    AdvancedBackendDescriptor, AdvancedBackendErrorKind, AdvancedBackendHello,
    AdvancedBackendLifecycleState, AdvancedBackendOptInMode, AdvancedBackendSelection,
    AdvancedBackendSelectionReason, AdvancedBackendStability, AdvancedCapabilityCatalog,
    AdvancedCapabilityMatch, AdvancedCapabilityRequirements, AdvancedCapabilitySelection,
    AdvancedCommandAckStatus, AdvancedExecutionReason, AdvancedFrontend, AdvancedHostCommand,
    AdvancedHostCommandEnvelope, AdvancedHostResponseEnvelope, AdvancedIpcTransportDescriptor,
    AdvancedIpcTransportKind, AdvancedProfileBackend, AdvancedProfileExecutionPlan,
    AdvancedSequenceNumber, AdvancedSessionId, AdvancedTargetDiscovery, AdvancedTargetRef,
    MouseInputMode,
};
use crate::text::{
    decimal_digits, json_string, push_all, push_json_string, push_str, string_from_chars,
    string_of, u64_to_decimal,
};
use crate::types::{
    clone_opt_string, error_message, unsupported_chars, ProfileAction, ProfileConfig,
    WindowSelector, WinrError, WinrResult,
};

verus! {

// ----------------------------------------------------------------------------------------------
// Profile-driven selection.
/// The mouse input mode a profile's action asks for.
pub open spec fn profile_input_mode(profile: ProfileConfig) -> Option<MouseInputMode> {
    match profile.action {
        ProfileAction::MouseClick { input_mode, .. } => input_mode,
    }
}

/// Capability requirements of a profile: message input for message-mode clicks,
/// foreground input otherwise.
pub open spec fn requirements_for_profile(profile: ProfileConfig) -> AdvancedCapabilityRequirements {
    if profile_input_mode(profile) == Some(MouseInputMode::Message) {
        AdvancedCapabilityRequirements { message_input: true, ..no_requirements() }
    } else {
        AdvancedCapabilityRequirements { foreground_input: true, ..no_requirements() }
    }
}

/// Derives capability requirements from a profile.
pub fn capability_requirements_for_profile(profile: &ProfileConfig) -> (r:
    AdvancedCapabilityRequirements)
    ensures
        r == requirements_for_profile(*profile),
{
    match &profile.action {
        ProfileAction::MouseClick { input_mode, .. } => match input_mode {
            Some(MouseInputMode::Message) => AdvancedCapabilityRequirements {
                message_input: true,
                ..AdvancedCapabilityRequirements::none()
            },
            _ => AdvancedCapabilityRequirements {
                foreground_input: true,
                ..AdvancedCapabilityRequirements::none()
            },
        },
    }
}

/// The backend and capabilities of each catalog entry, in catalog order.
pub open spec fn catalog_entries(catalog: AdvancedCapabilityCatalog) -> Seq<
    (AdvancedProfileBackend, AdvancedBackendCapabilities),
> {
    catalog.backends@.map_values(|d: AdvancedBackendDescriptor| (d.backend, d.capabilities))
}

/// The capabilities of the standard backends: foreground, message, inject.
pub open spec fn standard_entries() -> Seq<(AdvancedProfileBackend, AdvancedBackendCapabilities)> {
    seq![
        (AdvancedProfileBackend::Foreground, AdvancedBackendCapabilities {
            foreground_input: true,
            ..no_capabilities()
        }),
        (AdvancedProfileBackend::Message, AdvancedBackendCapabilities {
            message_input: true,
            ..no_capabilities()
        }),
        (AdvancedProfileBackend::Inject, no_capabilities()),
    ]
}

/// How one catalog entry measures against requirements.
pub open spec fn match_for(
    entry: (AdvancedProfileBackend, AdvancedBackendCapabilities),
    requirements: AdvancedCapabilityRequirements,
) -> AdvancedCapabilityMatch {
    AdvancedCapabilityMatch {
        backend: entry.0,
        satisfies_requirements: capabilities_support(entry.1, requirements),
        score: capability_score_spec(entry.1, requirements) as u32,
    }
}

/// `k` is the entry that selection picks: it satisfies the requirements, no satisfying entry
/// scores higher, and every earlier satisfying entry scores lower.
pub open spec fn is_selected_index(
    entries: Seq<(AdvancedProfileBackend, AdvancedBackendCapabilities)>,
    requirements: AdvancedCapabilityRequirements,
    k: int,
) -> bool {
    &&& 0 <= k < entries.len()
    &&& capabilities_support(entries[k].1, requirements)
    &&& forall|j: int|
        0 <= j < entries.len() && capabilities_support(#[trigger] entries[j].1, requirements)
            ==> capability_score_spec(entries[j].1, requirements) <= capability_score_spec(
            entries[k].1,
            requirements,
        )
    &&& forall|j: int|
        0 <= j < k && capabilities_support(#[trigger] entries[j].1, requirements)
            ==> capability_score_spec(entries[j].1, requirements) < capability_score_spec(
            entries[k].1,
            requirements,
        )
}

/// The backend selection picks for the given entries and requirements.
pub open spec fn selected_backend_spec(
    entries: Seq<(AdvancedProfileBackend, AdvancedBackendCapabilities)>,
    requirements: AdvancedCapabilityRequirements,
) -> Option<AdvancedProfileBackend> {
    if exists|k: int| is_selected_index(entries, requirements, k) {
        Some(entries[choose|k: int| is_selected_index(entries, requirements, k)].0)
    } else {
        None
    }
}

/// The backend `auto` resolves to for a profile on the command-line catalog.
pub open spec fn inferred_backend_spec(profile: ProfileConfig) -> AdvancedProfileBackend {
    match selected_backend_spec(standard_entries(), requirements_for_profile(profile)) {
        Some(b) => b,
        None => AdvancedProfileBackend::Foreground,
    }
}

/// Why `auto` resolved as it did.
pub open spec fn inferred_reason_spec(profile: ProfileConfig) -> AdvancedBackendSelectionReason {
    if profile_input_mode(profile) == Some(MouseInputMode::Message) {
        AdvancedBackendSelectionReason::AutoFromMouseMessageAction
    } else {
        AdvancedBackendSelectionReason::AutoDefaultForeground
    }
}

/// Backend selection for a profile and frontend: `auto` is inferred from the profile,
/// any other value is taken as an explicit opt-in.
pub open spec fn backend_selection_spec(
    profile: ProfileConfig,
    frontend: AdvancedFrontend,
) -> AdvancedBackendSelection {
    let requested = profile.execution.backend;
    if requested == AdvancedProfileBackend::Auto {
        AdvancedBackendSelection {
            frontend,
            requested: AdvancedProfileBackend::Auto,
            resolved: inferred_backend_spec(profile),
            reason: inferred_reason_spec(profile),
            opt_in_mode: AdvancedBackendOptInMode::AutoDetectFromProfile,
            advanced_backend_requested: false,
        }
    } else {
        AdvancedBackendSelection {
            frontend,
            requested,
            resolved: requested,
            reason: AdvancedBackendSelectionReason::ExplicitProfileBackend,
            opt_in_mode: AdvancedBackendOptInMode::ExplicitProfileOnly,
            advanced_backend_requested: requested == AdvancedProfileBackend::Inject,
        }
    }
}

/// Resolves which backend runs a profile for a frontend.
pub fn resolve_backend_selection(profile: &ProfileConfig, frontend: AdvancedFrontend) -> (r:
    AdvancedBackendSelection)
    ensures
        r == backend_selection_spec(*profile, frontend),
{
    match profile.execution.backend {
        AdvancedProfileBackend::Auto => AdvancedBackendSelection {
            frontend,
            requested: AdvancedProfileBackend::Auto,
            resolved: inferred_backend(profile),
            reason: inferred_reason(profile),
            opt_in_mode: AdvancedBackendOptInMode::AutoDetectFromProfile,
            advanced_backend_requested: false,
        },
        backend => AdvancedBackendSelection {
            frontend,
            requested: backend,
            resolved: backend,
            reason: AdvancedBackendSelectionReason::ExplicitProfileBackend,
            opt_in_mode: AdvancedBackendOptInMode::ExplicitProfileOnly,
            advanced_backend_requested: backend == AdvancedProfileBackend::Inject,
        },
    }
}

/// The backend `auto` resolves to: the capability selection over the command-line catalog,
/// or foreground when nothing satisfies the profile.
fn inferred_backend(profile: &ProfileConfig) -> (r: AdvancedProfileBackend)
    ensures
        r == inferred_backend_spec(*profile),
{
    let requirements = capability_requirements_for_profile(profile);
    let catalog = catalog_for_frontend(AdvancedFrontend::Cli);
    let selection = select_backend_by_capabilities(&catalog, &requirements);
    proof {
        assert(catalog_entries(catalog) =~= standard_entries());
    }
    match selection.selected_backend {
        Some(b) => b,
        None => AdvancedProfileBackend::Foreground,
    }
}

/// Why `auto` resolved as it did.
fn inferred_reason(profile: &ProfileConfig) -> (r: AdvancedBackendSelectionReason)
    ensures
        r == inferred_reason_spec(*profile),
{
    match &profile.action {
        ProfileAction::MouseClick { input_mode: Some(MouseInputMode::Message), .. } =>
            AdvancedBackendSelectionReason::AutoFromMouseMessageAction,
        _ => AdvancedBackendSelectionReason::AutoDefaultForeground,
    }
}

/// Law: `auto` infers the message backend exactly for mouse-click profiles that ask for
/// message input, and the foreground backend otherwise.
pub proof fn lemma_auto_inference(profile: ProfileConfig)
    ensures
        inferred_backend_spec(profile) == (if profile_input_mode(profile) == Some(
            MouseInputMode::Message,
        ) {
            AdvancedProfileBackend::Message
        } else {
            AdvancedProfileBackend::Foreground
        }),
{
    reveal(both);
    let entries = standard_entries();
    let req = requirements_for_profile(profile);
    let k: int = if profile_input_mode(profile) == Some(MouseInputMode::Message) {
        1
    } else {
        0
    };
    assert(is_selected_index(entries, req, k));
    let chosen = choose|j: int| is_selected_index(entries, req, j);
    assert(is_selected_index(entries, req, chosen));
    if chosen != k {
        assert(capabilities_support(entries[chosen].1, req));
        assert(false);
    }
}

// ----------------------------------------------------------------------------------------------
// Catalog.
/// The note texts of a descriptor equal the given texts.
pub open spec fn notes_are(notes: Seq<String>, texts: Seq<Seq<char>>) -> bool {
    notes.len() == texts.len() && forall|i: int| 0 <= i < notes.len() ==> #[trigger] notes[i]@
        == texts[i]
}

/// `d` is the standard foreground-input backend: stable, foreground input only, neither
/// replaceable nor tied to an app pack, with its one note.
pub open spec fn is_foreground_descriptor(d: AdvancedBackendDescriptor) -> bool {
    &&& d.backend == AdvancedProfileBackend::Foreground
    &&& d.stability == AdvancedBackendStability::Stable
    &&& d.capabilities == (AdvancedBackendCapabilities { foreground_input: true, ..no_capabilities() })
    &&& !d.replaceable
    &&& !d.app_pack_specific
    &&& notes_are(d.notes@, seq!["standard desktop foreground input backend"@])
}

/// `d` is the standard message backend: experimental, message input only, replaceable, not
/// tied to an app pack, with its one note.
pub open spec fn is_message_descriptor(d: AdvancedBackendDescriptor) -> bool {
    &&& d.backend == AdvancedProfileBackend::Message
    &&& d.stability == AdvancedBackendStability::Experimental
    &&& d.capabilities == (AdvancedBackendCapabilities { message_input: true, ..no_capabilities() })
    &&& d.replaceable
    &&& !d.app_pack_specific
    &&& notes_are(d.notes@, seq!["classic Win32-oriented background message backend"@])
}

/// `d` is the stub inject backend: fragile, no capability, replaceable, not tied to an app
/// pack, with its two notes.
pub open spec fn is_stub_descriptor(d: AdvancedBackendDescriptor) -> bool {
    &&& d.backend == AdvancedProfileBackend::Inject
    &&& d.stability == AdvancedBackendStability::Fragile
    &&& d.capabilities == no_capabilities()
    &&& d.replaceable
    &&& !d.app_pack_specific
    &&& notes_are(
        d.notes@,
        seq![
            "advanced backends are selected by capabilities instead of app-specific assumptions"@,
            "low-level attach and injection implementations are treated as replaceable"@,
        ],
    )
}

/// The catalog of backends offered to a frontend: foreground, message, inject.
pub fn catalog_for_frontend(frontend: AdvancedFrontend) -> (r: AdvancedCapabilityCatalog)
    ensures
        r.frontends@ == seq![frontend],
        catalog_entries(r) == standard_entries(),
        r.backends@.len() == 3,
        r.backends@[0].stability == AdvancedBackendStability::Stable,
        r.backends@[1].stability == AdvancedBackendStability::Experimental,
        r.backends@[2].stability == AdvancedBackendStability::Fragile,
        is_foreground_descriptor(r.backends@[0]),
        is_message_descriptor(r.backends@[1]),
        is_stub_descriptor(r.backends@[2]),
{
    let mut frontends: Vec<AdvancedFrontend> = Vec::new();
    frontends.push(frontend);
    let mut backends: Vec<AdvancedBackendDescriptor> = Vec::new();
    backends.push(foreground_backend_descriptor());
    backends.push(message_backend_descriptor());
    backends.push(stub_backend_descriptor());
    let r = AdvancedCapabilityCatalog { frontends, backends };
    proof {
        assert(r.frontends@ =~= seq![frontend]);
        assert(catalog_entries(r) =~= standard_entries());
    }
    r
}

/// Descriptor of the standard foreground-input backend.
pub fn foreground_backend_descriptor() -> (r: AdvancedBackendDescriptor)
    ensures
        r.backend == AdvancedProfileBackend::Foreground,
        r.stability == AdvancedBackendStability::Stable,
        r.capabilities == (AdvancedBackendCapabilities {
            foreground_input: true,
            ..no_capabilities()
        }),
        !r.replaceable,
        !r.app_pack_specific,
        notes_are(r.notes@, seq!["standard desktop foreground input backend"@]),
{
    let mut notes: Vec<String> = Vec::new();
    notes.push(string_of("standard desktop foreground input backend"));
    AdvancedBackendDescriptor {
        backend: AdvancedProfileBackend::Foreground,
        stability: AdvancedBackendStability::Stable,
        capabilities: AdvancedBackendCapabilities {
            foreground_input: true,
            ..AdvancedBackendCapabilities::none()
        },
        replaceable: false,
        app_pack_specific: false,
        notes,
    }
}

/// Descriptor of the background window-message backend.
pub fn message_backend_descriptor() -> (r: AdvancedBackendDescriptor)
    ensures
        r.backend == AdvancedProfileBackend::Message,
        r.stability == AdvancedBackendStability::Experimental,
        r.capabilities == (AdvancedBackendCapabilities {
            message_input: true,
            ..no_capabilities()
        }),
        r.replaceable,
        !r.app_pack_specific,
        notes_are(r.notes@, seq!["classic Win32-oriented background message backend"@]),
{
    let mut notes: Vec<String> = Vec::new();
    notes.push(string_of("classic Win32-oriented background message backend"));
    AdvancedBackendDescriptor {
        backend: AdvancedProfileBackend::Message,
        stability: AdvancedBackendStability::Experimental,
        capabilities: AdvancedBackendCapabilities {
            message_input: true,
            ..AdvancedBackendCapabilities::none()
        },
        replaceable: true,
        app_pack_specific: false,
        notes,
    }
}

/// Descriptor of the scaffolded injection backend: fragile, replaceable, no capabilities yet.
pub fn stub_backend_descriptor() -> (r: AdvancedBackendDescriptor)
    ensures
        r.backend == AdvancedProfileBackend::Inject,
        r.stability == AdvancedBackendStability::Fragile,
        r.capabilities == no_capabilities(),
        r.replaceable,
        !r.app_pack_specific,
        notes_are(
            r.notes@,
            seq![
                "advanced backends are selected by capabilities instead of app-specific assumptions"@,
                "low-level attach and injection implementations are treated as replaceable"@,
            ],
        ),
{
    let mut notes: Vec<String> = Vec::new();
    notes.push(
        string_of(
            "advanced backends are selected by capabilities instead of app-specific assumptions",
        ),
    );
    notes.push(string_of("low-level attach and injection implementations are treated as replaceable"));
    AdvancedBackendDescriptor {
        backend: AdvancedProfileBackend::Inject,
        stability: AdvancedBackendStability::Fragile,
        capabilities: AdvancedBackendCapabilities::none(),
        replaceable: true,
        app_pack_specific: false,
        notes,
    }
}

/// Descriptor of the default in-process host/agent channel.
pub fn default_transport_descriptor() -> (r: AdvancedIpcTransportDescriptor)
    ensures
        r.kind == AdvancedIpcTransportKind::InProcess,
        r.supports_commands,
        r.supports_events,
        r.supports_binary_payloads,
        r.ordered_delivery,
        notes_are(
            r.notes@,
            seq![
                "phase 2 starts with an in-process transport for protocol validation"@,
                "later transports can swap in named pipes or shared memory without changing the host runtime"@,
            ],
        ),
{
    let mut notes: Vec<String> = Vec::new();
    notes.push(string_of("phase 2 starts with an in-process transport for protocol validation"));
    notes.push(
        string_of(
            "later transports can swap in named pipes or shared memory without changing the host runtime",
        ),
    );
    AdvancedIpcTransportDescriptor {
        kind: AdvancedIpcTransportKind::InProcess,
        supports_commands: true,
        supports_events: true,
        supports_binary_payloads: true,
        ordered_delivery: true,
        notes,
    }
}

/// The default agent: input shim, render observer and memory observer.
pub fn default_agent_composition() -> (r: AdvancedAgentComposition)
    ensures
        r.roles@ == seq![
            AdvancedAgentRole::InputShim,
            AdvancedAgentRole::RenderObserver,
            AdvancedAgentRole::MemoryObserver,
        ],
{
    let mut roles: Vec<AdvancedAgentRole> = Vec::new();
    roles.push(AdvancedAgentRole::InputShim);
    roles.push(AdvancedAgentRole::RenderObserver);
    roles.push(AdvancedAgentRole::MemoryObserver);
    proof {
        assert(roles@ =~= seq![
            AdvancedAgentRole::InputShim,
            AdvancedAgentRole::RenderObserver,
            AdvancedAgentRole::MemoryObserver,
        ]);
    }
    AdvancedAgentComposition { roles }
}

// ----------------------------------------------------------------------------------------------
// Capability-based selection.
/// Number of required capabilities that a backend offers.
pub fn capability_score(
    capabilities: &AdvancedBackendCapabilities,
    requirements: &AdvancedCapabilityRequirements,
) -> (r: u32)
    ensures
        r as nat == capability_score_spec(*capabilities, *requirements),
        r <= 9,
{
    capabilities.score_against(requirements)
}

/// Sort key of a match: satisfying entries first, then higher scores.
pub open spec fn match_rank(m: AdvancedCapabilityMatch) -> int {
    (if m.satisfies_requirements {
        100int
    } else {
        0int
    }) + m.score as int
}

/// The matches are ordered by non-increasing rank.
pub open spec fn ranked(s: Seq<AdvancedCapabilityMatch>) -> bool {
    forall|i: int, j: int| 0 <= i < j < s.len() ==> match_rank(s[i]) >= match_rank(s[j])
}

/// `m` placed into ranked `sorted` after every entry of equal or higher rank.
pub open spec fn ranked_insert(sorted: Seq<AdvancedCapabilityMatch>, m: AdvancedCapabilityMatch) -> Seq<
    AdvancedCapabilityMatch,
>
    decreases sorted.len(),
{
    if sorted.len() == 0 {
        seq![m]
    } else if match_rank(sorted.last()) >= match_rank(m) {
        sorted.push(m)
    } else {
        ranked_insert(sorted.drop_last(), m).push(sorted.last())
    }
}

/// The matches ordered by non-increasing rank, equal ranks in their original order (a stable
/// sort).
pub open spec fn stable_ranked(s: Seq<AdvancedCapabilityMatch>) -> Seq<AdvancedCapabilityMatch>
    decreases s.len(),
{
    if s.len() == 0 {
        Seq::empty()
    } else {
        ranked_insert(stable_ranked(s.drop_last()), s.last())
    }
}

/// Inserting at the first position whose rank is below `m`'s is `ranked_insert`.
proof fn lemma_ranked_insert_at(sorted: Seq<AdvancedCapabilityMatch>, m: AdvancedCapabilityMatch, p: int)
    requires
        0 <= p <= sorted.len(),
        forall|i: int| 0 <= i < p ==> match_rank(#[trigger] sorted[i]) >= match_rank(m),
        forall|i: int| p <= i < sorted.len() ==> match_rank(#[trigger] sorted[i]) < match_rank(m),
    ensures
        ranked_insert(sorted, m) == sorted.insert(p, m),
    decreases sorted.len(),
{
    if sorted.len() == 0 {
        assert(sorted.insert(p, m) =~= seq![m]);
    } else if match_rank(sorted.last()) >= match_rank(m) {
        assert(p == sorted.len());
        assert(sorted.insert(p, m) =~= sorted.push(m));
    } else {
        let rest = sorted.drop_last();
        assert forall|i: int| 0 <= i < p implies match_rank(#[trigger] rest[i]) >= match_rank(m) by {
            assert(rest[i] == sorted[i]);
        }
        assert forall|i: int| p <= i < rest.len() implies match_rank(#[trigger] rest[i]) < match_rank(m) by {
            assert(rest[i] == sorted[i]);
        }
        lemma_ranked_insert_at(rest, m, p);
        assert(rest.insert(p, m).push(sorted.last()) =~= sorted.insert(p, m));
    }
}

fn rank_of(m: &AdvancedCapabilityMatch) -> (r: u32)
    requires
        m.score <= 9,
    ensures
        r as int == match_rank(*m),
{
    (if m.satisfies_requirements {
        100
    } else {
        0
    }) + m.score
}

/// Stable insertion of `m` into ranked `sorted`: after every entry of equal or higher rank.
fn insert_ranked(sorted: &mut Vec<AdvancedCapabilityMatch>, m: AdvancedCapabilityMatch)
    requires
        ranked(old(sorted)@),
        m.score <= 9,
        forall|i: int| 0 <= i < old(sorted)@.len() ==> (#[trigger] old(sorted)@[i]).score <= 9,
    ensures
        ranked(final(sorted)@),
        final(sorted)@ == ranked_insert(old(sorted)@, m),
        final(sorted)@.to_multiset() == old(sorted)@.to_multiset().insert(m),
        forall|i: int| 0 <= i < final(sorted)@.len() ==> (#[trigger] final(sorted)@[i]).score <= 9,
{
    let key = rank_of(&m);
    let mut pos: usize = 0;
    while pos < sorted.len() && rank_of(&sorted[pos]) >= key
        invariant
            pos <= sorted.len(),
            sorted@ == old(sorted)@,
            forall|i: int| 0 <= i < sorted@.len() ==> (#[trigger] sorted@[i]).score <= 9,
            forall|i: int| 0 <= i < pos ==> match_rank(#[trigger] sorted@[i]) >= key,
        decreases sorted.len() - pos,
    {
        pos = pos + 1;
    }
    let ghost before = sorted@;
    proof {
        vstd::seq_lib::to_multiset_insert(before, pos as int, m);
    }
    proof {
        assert forall|i: int| pos <= i < before.len() implies match_rank(#[trigger] before[i]) < key by {
            if pos < before.len() {
                assert(match_rank(before[pos as int]) < key);
                assert(match_rank(before[pos as int]) >= match_rank(before[i]));
            }
        }
        lemma_ranked_insert_at(before, m, pos as int);
    }
    sorted.insert(pos, m);
    proof {
        assert(sorted@ == before.insert(pos as int, m));
        assert forall|i: int, j: int| 0 <= i < j < sorted@.len() implies match_rank(sorted@[i])
            >= match_rank(sorted@[j]) by {
            if j < pos {
                assert(sorted@[i] == before[i] && sorted@[j] == before[j]);
            } else if j == pos {
                assert(sorted@[i] == before[i]);
            } else if i == pos {
                assert(sorted@[j] == before[j - 1]);
                if pos < before.len() {
                    assert(match_rank(before[pos as int]) < key);
                    assert(match_rank(before[pos as int]) >= match_rank(before[j - 1]));
                }
            } else if i < pos {
                assert(sorted@[i] == before[i] && sorted@[j] == before[j - 1]);
            } else {
                assert(sorted@[i] == before[i - 1] && sorted@[j] == before[j - 1]);
            }
        }
        assert forall|i: int| 0 <= i < sorted@.len() implies (#[trigger] sorted@[i]).score <= 9 by {
            if i < pos {
                assert(sorted@[i] == before[i]);
            } else if i > pos {
                assert(sorted@[i] == before[i - 1]);
            }
        }
    }
}

/// Ranks every catalog backend against requirements and selects the best satisfying one:
/// the highest score among satisfying backends, the earliest in the catalog on ties.
#[verifier::rlimit(60)]
pub fn select_backend_by_capabilities(
    catalog: &AdvancedCapabilityCatalog,
    requirements: &AdvancedCapabilityRequirements,
) -> (r: AdvancedCapabilitySelection)
    ensures
        r.requirements == *requirements,
        r.selected_backend == selected_backend_spec(catalog_entries(*catalog), *requirements),
        ranked(r.matches@),
        r.matches@.to_multiset() == catalog_entries(*catalog).map_values(
            |e: (AdvancedProfileBackend, AdvancedBackendCapabilities)| match_for(e, *requirements),
        ).to_multiset(),
        r.matches@ == stable_ranked(
            catalog_entries(*catalog).map_values(
                |e: (AdvancedProfileBackend, AdvancedBackendCapabilities)| match_for(e, *requirements),
            ),
        ),
{
    let ghost entries = catalog_entries(*catalog);
    let ghost all = entries.map_values(
        |e: (AdvancedProfileBackend, AdvancedBackendCapabilities)| match_for(e, *requirements),
    );
    let mut matches: Vec<AdvancedCapabilityMatch> = Vec::new();
    let mut best: Option<usize> = None;
    let mut best_score: u32 = 0;
    let mut i: usize = 0;
    proof {
        assert(all.subrange(0, 0) =~= Seq::<AdvancedCapabilityMatch>::empty());
        assert(matches@ =~= Seq::<AdvancedCapabilityMatch>::empty());
    }
    while i < catalog.backends.len()
        invariant
            i <= catalog.backends.len(),
            entries == catalog_entries(*catalog),
            all == entries.map_values(
                |e: (AdvancedProfileBackend, AdvancedBackendCapabilities)| match_for(e, *requirements),
            ),
            ranked(matches@),
            matches@ == stable_ranked(all.subrange(0, i as int)),
            matches@.to_multiset() == all.subrange(0, i as int).to_multiset(),
            forall|k: int| 0 <= k < matches@.len() ==> (#[trigger] matches@[k]).score <= 9,
            match best {
                None => forall|j: int|
                    0 <= j < i ==> !capabilities_support(#[trigger] entries[j].1, *requirements),
                Some(b) => {
                    &&& b < i
                    &&& best_score as nat == capability_score_spec(entries[b as int].1, *requirements)
                    &&& capabilities_support(entries[b as int].1, *requirements)
                    &&& forall|j: int|
                        0 <= j < i && capabilities_support(#[trigger] entries[j].1, *requirements)
                            ==> capability_score_spec(entries[j].1, *requirements) <= best_score
                    &&& forall|j: int|
                        0 <= j < b && capabilities_support(#[trigger] entries[j].1, *requirements)
                            ==> capability_score_spec(entries[j].1, *requirements) < best_score
                },
            },
        decreases catalog.backends.len() - i,
    {
        let descriptor = &catalog.backends[i];
        let satisfies = descriptor.capabilities.supports(requirements);
        let score = capability_score(&descriptor.capabilities, requirements);
        let m = AdvancedCapabilityMatch {
            backend: descriptor.backend,
            satisfies_requirements: satisfies,
            score,
        };
        proof {
            assert(entries[i as int] == (descriptor.backend, descriptor.capabilities));
            assert(m == all[i as int]);
            assert(all.subrange(0, i + 1) =~= all.subrange(0, i as int).push(m));
            assert(all.subrange(0, i + 1).drop_last() =~= all.subrange(0, i as int));
            vstd::seq_lib::to_multiset_build(all.subrange(0, i as int), m);
        }
        insert_ranked(&mut matches, m);
        if satisfies {
            match best {
                None => {
                    best = Some(i);
                    best_score = score;
                },
                Some(_) => {
                    if score > best_score {
                        best = Some(i);
                        best_score = score;
                    }
                },
            }
        }
        i = i + 1;
    }
    proof {
        assert(all.subrange(0, i as int) =~= all);
    }
    let selected = match best {
        Some(b) => {
            proof {
                assert(is_selected_index(entries, *requirements, b as int));
                let c = choose|k: int| is_selected_index(entries, *requirements, k);
                assert(is_selected_index(entries, *requirements, c));
                if c < b {
                    assert(false);
                }
                if c > b {
                    assert(false);
                }
            }
            Some(catalog.backends[b].backend)
        },
        None => {
            proof {
                if exists|k: int| is_selected_index(entries, *requirements, k) {
                    let c = choose|k: int| is_selected_index(entries, *requirements, k);
                    assert(!capabilities_support(entries[c].1, *requirements));
                }
            }
            None
        },
    };
    AdvancedCapabilitySelection { requirements: *requirements, matches, selected_backend: selected }
}

// ----------------------------------------------------------------------------------------------
// Targets, hello and plans.
/// The target identity a selector describes.
pub open spec fn target_ref_of(selector: WindowSelector) -> AdvancedTargetRef {
    AdvancedTargetRef {
        hwnd: selector.hwnd,
        pid: selector.pid,
        exe: selector.exe,
        window_class: selector.class_name,
        title_hint: selector.title_contains,
    }
}

/// Converts a window selector into an advanced target reference.
pub fn selector_into_target_ref(selector: &WindowSelector) -> (r: AdvancedTargetRef)
    ensures
        r == target_ref_of(*selector),
{
    AdvancedTargetRef {
        hwnd: clone_opt_string(&selector.hwnd),
        pid: selector.pid,
        exe: clone_opt_string(&selector.exe),
        window_class: clone_opt_string(&selector.class_name),
        title_hint: clone_opt_string(&selector.title_contains),
    }
}

/// The handshake the injection backend announces for a profile before any agent answered.
pub fn stub_hello(profile: &ProfileConfig) -> (r: AdvancedBackendHello)
    ensures
        r.protocol_version == 1,
        r.backend == AdvancedProfileBackend::Inject,
        r.lifecycle_state == AdvancedBackendLifecycleState::Discovered,
        r.capabilities == no_capabilities(),
        r.target == target_ref_of(profile.target),
        r.transport.kind == AdvancedIpcTransportKind::InProcess,
        r.transport.supports_events,
        r.composition.roles@.len() == 3,
{
    AdvancedBackendHello {
        protocol_version: 1,
        backend: AdvancedProfileBackend::Inject,
        lifecycle_state: AdvancedBackendLifecycleState::Discovered,
        capabilities: AdvancedBackendCapabilities::none(),
        target: selector_into_target_ref(&profile.target),
        transport: default_transport_descriptor(),
        composition: default_agent_composition(),
    }
}

/// How a profile will be executed from the command line.
pub fn build_execution_plan(profile: &ProfileConfig) -> (r: AdvancedProfileExecutionPlan)
    ensures
        r.profile_id == profile.profile.id,
        r.backend == backend_selection_spec(*profile, AdvancedFrontend::Cli).resolved,
        r.target == target_ref_of(profile.target),
{
    let selection = resolve_backend_selection(profile, AdvancedFrontend::Cli);
    AdvancedProfileExecutionPlan {
        profile_id: profile.profile.id.clone(),
        backend: selection.resolved,
        target: selector_into_target_ref(&profile.target),
    }
}

// ----------------------------------------------------------------------------------------------
// Structured errors.
/// Stable name of a lifecycle state.
pub open spec fn lifecycle_name_spec(state: AdvancedBackendLifecycleState) -> Seq<char> {
    match state {
        AdvancedBackendLifecycleState::Discovered => "discovered"@,
        AdvancedBackendLifecycleState::Attachable => "attachable"@,
        AdvancedBackendLifecycleState::Attached => "attached"@,
        AdvancedBackendLifecycleState::Degraded => "degraded"@,
        AdvancedBackendLifecycleState::Detached => "detached"@,
    }
}

/// Stable name of a lifecycle state.
pub fn lifecycle_name(state: AdvancedBackendLifecycleState) -> (r: &'static str)
    ensures
        r@ == lifecycle_name_spec(state),
{
    match state {
        AdvancedBackendLifecycleState::Discovered => "discovered",
        AdvancedBackendLifecycleState::Attachable => "attachable",
        AdvancedBackendLifecycleState::Attached => "attached",
        AdvancedBackendLifecycleState::Degraded => "degraded",
        AdvancedBackendLifecycleState::Detached => "detached",
    }
}

/// Stable name of an advanced error kind.
pub open spec fn error_kind_name_spec(kind: AdvancedBackendErrorKind) -> Seq<char> {
    match kind {
        AdvancedBackendErrorKind::DiscoveryFailed => "discovery_failed"@,
        AdvancedBackendErrorKind::NoAttachableTarget => "no_attachable_target"@,
        AdvancedBackendErrorKind::AmbiguousAttachableTarget => "ambiguous_attachable_target"@,
        AdvancedBackendErrorKind::SessionMismatch => "session_mismatch"@,
        AdvancedBackendErrorKind::SequenceOutOfOrder => "sequence_out_of_order"@,
        AdvancedBackendErrorKind::InvalidStateTransition => "invalid_state_transition"@,
        AdvancedBackendErrorKind::HandshakeMismatch => "handshake_mismatch"@,
        AdvancedBackendErrorKind::AttachNotImplemented => "attach_not_implemented"@,
    }
}

fn error_kind_name(kind: AdvancedBackendErrorKind) -> (r: &'static str)
    ensures
        r@ == error_kind_name_spec(kind),
{
    match kind {
        AdvancedBackendErrorKind::DiscoveryFailed => "discovery_failed",
        AdvancedBackendErrorKind::NoAttachableTarget => "no_attachable_target",
        AdvancedBackendErrorKind::AmbiguousAttachableTarget => "ambiguous_attachable_target",
        AdvancedBackendErrorKind::SessionMismatch => "session_mismatch",
        AdvancedBackendErrorKind::SequenceOutOfOrder => "sequence_out_of_order",
        AdvancedBackendErrorKind::InvalidStateTransition => "invalid_state_transition",
        AdvancedBackendErrorKind::HandshakeMismatch => "handshake_mismatch",
        AdvancedBackendErrorKind::AttachNotImplemented => "attach_not_implemented",
    }
}

/// The JSON payload of a structured advanced error, fields in declaration order.
pub open spec fn advanced_error_json(
    kind: AdvancedBackendErrorKind,
    backend: AdvancedProfileBackend,
    detail: Seq<char>,
    lifecycle_state: Option<AdvancedBackendLifecycleState>,
) -> Seq<char> {
    "{\"kind\":"@ + json_string(error_kind_name_spec(kind)) + ",\"backend\":"@ + json_string(
        backend_name(backend),
    ) + ",\"detail\":"@ + json_string(detail) + ",\"lifecycle_state\":"@ + match lifecycle_state {
        Some(s) => json_string(lifecycle_name_spec(s)),
        None => "null"@,
    } + "}"@
}

/// The message text of a structured advanced error.
pub open spec fn advanced_error_message(
    kind: AdvancedBackendErrorKind,
    backend: AdvancedProfileBackend,
    detail: Seq<char>,
    lifecycle_state: Option<AdvancedBackendLifecycleState>,
) -> Seq<char> {
    "advanced backend error: "@ + advanced_error_json(kind, backend, detail, lifecycle_state)
}

/// Reports a structured advanced error through `WinrError::Unsupported`, carrying the
/// JSON payload.
pub fn advanced_error(
    kind: AdvancedBackendErrorKind,
    backend: AdvancedProfileBackend,
    detail: &Vec<char>,
    lifecycle_state: Option<AdvancedBackendLifecycleState>,
) -> (r: WinrError)
    ensures
        r is Unsupported,
        r->Unsupported_message@ == advanced_error_message(kind, backend, detail@, lifecycle_state),
{
    let mut out: Vec<char> = Vec::new();
    push_str(&mut out, "advanced backend error: ");
    push_str(&mut out, "{\"kind\":");
    push_json_string(&mut out, error_kind_name(kind));
    push_str(&mut out, ",\"backend\":");
    push_json_string(&mut out, backend.as_str());
    push_str(&mut out, ",\"detail\":");
    let detail_text = string_from_chars(detail);
    push_json_string(&mut out, detail_text.as_str());
    push_str(&mut out, ",\"lifecycle_state\":");
    match lifecycle_state {
        Some(s) => push_json_string(&mut out, lifecycle_name(s)),
        None => push_str(&mut out, "null"),
    }
    push_str(&mut out, "}");
    proof {
        assert(out@ =~= advanced_error_message(kind, backend, detail@, lifecycle_state));
    }
    unsupported_chars(&out)
}

} // verus!
