//! Layered input: routing semantic actions to the input sinks a backend offers, and
//! describing each routing for operators.
use vstd::prelude::*;

use crate::protocol::{AdvancedBackendCapabilities, AdvancedTargetRef};
use crate::text::{decimal_digits, push_all, push_str, string_from_chars, string_of, u64_to_decimal};
use crate::workflows::{
    chosen_sink, preferred_input_sink, preferred_order, InputSinkKind, InputSinkMapping,
    InputSinkPreference, SemanticInputAction, SemanticInputTarget,
};

verus! {

/// A backend that turns semantic actions into input through one of several sinks.
pub trait LayeredInputBackend {
    fn capabilities(&self) -> AdvancedBackendCapabilities;

    fn supported_sinks(&self) -> Vec<InputSinkKind>;

    fn map_action(&self, action: &SemanticInputAction, preference: Option<&InputSinkPreference>) -> Option<
        InputSinkMapping,
    >;

    fn describe_mapping(&self, mapping: &InputSinkMapping) -> String;
}

/// A layered backend with fixed capabilities for a target.
#[derive(Debug)]
pub struct StubLayeredInputBackend {
    pub target: AdvancedTargetRef,
    pub capabilities: AdvancedBackendCapabilities,
}

/// How a semantic target is named in details: `current_target`, `entity:<id>`, `region:<id>`.
pub open spec fn target_text(target: SemanticInputTarget) -> Seq<char> {
    match target {
        SemanticInputTarget::CurrentTarget => "current_target"@,
        SemanticInputTarget::EntityId { entity_id } => "entity:"@ + entity_id@,
        SemanticInputTarget::RegionId { region_id } => "region:"@ + region_id@,
    }
}

/// Names a semantic target.
pub fn describe_target(target: &SemanticInputTarget) -> (r: String)
    ensures
        r@ == target_text(*target),
{
    let mut out: Vec<char> = Vec::new();
    match target {
        SemanticInputTarget::CurrentTarget => push_str(&mut out, "current_target"),
        SemanticInputTarget::EntityId { entity_id } => {
            push_str(&mut out, "entity:");
            push_str(&mut out, entity_id.as_str());
        },
        SemanticInputTarget::RegionId { region_id } => {
            push_str(&mut out, "region:");
            push_str(&mut out, region_id.as_str());
        },
    }
    proof {
        assert(out@ =~= target_text(*target));
    }
    string_from_chars(&out)
}

/// The detail the stub backend gives a routing.
pub open spec fn routing_detail(sink: InputSinkKind, action: SemanticInputAction) -> Seq<char> {
    match sink {
        InputSinkKind::SemanticInternalAction => match action {
            SemanticInputAction::Approach { target } => "semantic approach via internal controller to "@
                + target_text(target),
            SemanticInputAction::WalkTo { target } => "semantic walk_to via internal controller to "@
                + target_text(target),
            _ => "semantic internal action controller"@,
        },
        InputSinkKind::InjectedRawInput => "map semantic intent to injected raw input shim"@,
        InputSinkKind::Win32Message => "map semantic intent to classic Win32 message sequence"@,
        InputSinkKind::Win32Foreground => "map semantic intent to foreground Win32 input"@,
    }
}

/// Debug name of a sink kind.
pub open spec fn sink_name(sink: InputSinkKind) -> Seq<char> {
    match sink {
        InputSinkKind::Win32Foreground => "Win32Foreground"@,
        InputSinkKind::Win32Message => "Win32Message"@,
        InputSinkKind::InjectedRawInput => "InjectedRawInput"@,
        InputSinkKind::SemanticInternalAction => "SemanticInternalAction"@,
    }
}

/// The sinks a capability set offers, in routing order.
pub open spec fn offered_sinks(caps: AdvancedBackendCapabilities) -> Seq<InputSinkKind> {
    (if caps.internal_interaction || caps.semantic_navigation {
        seq![InputSinkKind::SemanticInternalAction]
    } else {
        Seq::empty()
    }) + (if caps.injected_input {
        seq![InputSinkKind::InjectedRawInput]
    } else {
        Seq::empty()
    }) + (if caps.message_input {
        seq![InputSinkKind::Win32Message]
    } else {
        Seq::empty()
    }) + (if caps.foreground_input {
        seq![InputSinkKind::Win32Foreground]
    } else {
        Seq::empty()
    })
}

/// The operator-facing description of a routing on a target.
pub open spec fn mapping_text(pid: Option<u32>, mapping: InputSinkMapping) -> Seq<char> {
    "target="@ + match pid {
        Some(p) => decimal_digits(p as nat),
        None => "unknown"@,
    } + " sink="@ + sink_name(mapping.sink) + " detail="@ + mapping.detail@
}

fn sink_debug_name(sink: InputSinkKind) -> (r: &'static str)
    ensures
        r@ == sink_name(sink),
{
    match sink {
        InputSinkKind::Win32Foreground => "Win32Foreground",
        InputSinkKind::Win32Message => "Win32Message",
        InputSinkKind::InjectedRawInput => "InjectedRawInput",
        InputSinkKind::SemanticInternalAction => "SemanticInternalAction",
    }
}

impl StubLayeredInputBackend {
    /// A backend for the target offering foreground, message and injected input, semantic
    /// navigation and in-game interaction.
    pub fn new(target: AdvancedTargetRef) -> (r: Self)
        ensures
            r.target == target,
            r.capabilities.foreground_input,
            r.capabilities.message_input,
            !r.capabilities.uia_input,
            r.capabilities.injected_input,
            !r.capabilities.render_observation,
            !r.capabilities.memory_observation,
            r.capabilities.semantic_navigation,
            !r.capabilities.entity_tracking,
            r.capabilities.internal_interaction,
    {
        StubLayeredInputBackend {
            target,
            capabilities: AdvancedBackendCapabilities {
                foreground_input: true,
                message_input: true,
                uia_input: false,
                injected_input: true,
                render_observation: false,
                memory_observation: false,
                semantic_navigation: true,
                entity_tracking: false,
                internal_interaction: true,
            },
        }
    }

    /// The detail of a routing.
    fn detail_for_action(&self, sink: InputSinkKind, action: &SemanticInputAction) -> (r: String)
        ensures
            r@ == routing_detail(sink, *action),
    {
        let mut out: Vec<char> = Vec::new();
        match sink {
            InputSinkKind::SemanticInternalAction => match action {
                SemanticInputAction::Approach { target } => {
                    push_str(&mut out, "semantic approach via internal controller to ");
                    let t = describe_target(target);
                    push_str(&mut out, t.as_str());
                },
                SemanticInputAction::WalkTo { target } => {
                    push_str(&mut out, "semantic walk_to via internal controller to ");
                    let t = describe_target(target);
                    push_str(&mut out, t.as_str());
                },
                _ => push_str(&mut out, "semantic internal action controller"),
            },
            InputSinkKind::InjectedRawInput => push_str(
                &mut out,
                "map semantic intent to injected raw input shim",
            ),
            InputSinkKind::Win32Message => push_str(
                &mut out,
                "map semantic intent to classic Win32 message sequence",
            ),
            InputSinkKind::Win32Foreground => push_str(
                &mut out,
                "map semantic intent to foreground Win32 input",
            ),
        }
        proof {
            assert(out@ =~= routing_detail(sink, *action));
        }
        string_from_chars(&out)
    }
}

impl LayeredInputBackend for StubLayeredInputBackend {
    /// The backend's capabilities.
    fn capabilities(&self) -> (r: AdvancedBackendCapabilities)
        ensures
            r == self.capabilities,
    {
        self.capabilities
    }

    /// The sinks the capabilities offer: semantic actions, injected input, window messages,
    /// foreground input.
    fn supported_sinks(&self) -> (r: Vec<InputSinkKind>)
        ensures
            r@ == offered_sinks(self.capabilities),
    {
        let mut sinks: Vec<InputSinkKind> = Vec::new();
        if self.capabilities.internal_interaction || self.capabilities.semantic_navigation {
            sinks.push(InputSinkKind::SemanticInternalAction);
        }
        if self.capabilities.injected_input {
            sinks.push(InputSinkKind::InjectedRawInput);
        }
        if self.capabilities.message_input {
            sinks.push(InputSinkKind::Win32Message);
        }
        if self.capabilities.foreground_input {
            sinks.push(InputSinkKind::Win32Foreground);
        }
        proof {
            assert(sinks@ =~= offered_sinks(self.capabilities));
        }
        sinks
    }

    /// Routes the action to the first capable sink of the preference (or of the default
    /// order), with the stub's detail for that sink.
    fn map_action(&self, action: &SemanticInputAction, preference: Option<&InputSinkPreference>) -> (r:
        Option<InputSinkMapping>)
        ensures
            match chosen_sink(
                preferred_order(
                    self.capabilities,
                    match preference {
                        Some(p) => Some(*p),
                        None => None,
                    },
                    *action,
                ),
                self.capabilities,
                *action,
            ) {
                Some(sink) => r matches Some(m) && m.sink == sink && m.action == *action && m.detail@
                    == routing_detail(sink, *action),
                None => r is None,
            },
    {
        let sink = match preferred_input_sink(&self.capabilities, preference, action) {
            Some(s) => s,
            None => {
                return None;
            },
        };
        Some(
            InputSinkMapping {
                sink,
                action: action.clone(),
                detail: self.detail_for_action(sink, action),
            },
        )
    }

    /// `target=<pid or unknown> sink=<sink> detail=<detail>`.
    fn describe_mapping(&self, mapping: &InputSinkMapping) -> (r: String)
        ensures
            r@ == mapping_text(self.target.pid, *mapping),
    {
        let mut out: Vec<char> = Vec::new();
        push_str(&mut out, "target=");
        match self.target.pid {
            Some(pid) => {
                let digits = u64_to_decimal(pid as u64);
                push_all(&mut out, &digits);
            },
            None => push_str(&mut out, "unknown"),
        }
        push_str(&mut out, " sink=");
        push_str(&mut out, sink_debug_name(mapping.sink));
        push_str(&mut out, " detail=");
        push_str(&mut out, mapping.detail.as_str());
        proof {
            assert(out@ =~= mapping_text(self.target.pid, *mapping));
        }
        string_from_chars(&out)
    }
}

} // verus!
