//! What the synapse tells a host about itself before any instance exists: its names, its
//! ports, its variables, its one parameter and what a host may do with it.
use crate::binary64::Binary64;
use crate::keys::{
    conductance_unit_of, input_port_of, is_output_port, lemma_input_names,
    lemma_variable_names, variable_of, ConductanceUnit, InputPort, Variable,
};
use crate::synapse::RthybridElectricalSynapseRust;
use vstd::prelude::*;

verus! {

/// The kind of component, as a host sorts its catalogue.
#[derive(Clone, Copy, Debug, PartialEq, Eq, Structural)]
pub enum PluginType {
    /// An ordinary processing component.
    Standard,
}

/// Whether a host may add input ports to a component while it builds its graph.
#[derive(Clone, Copy, Debug, PartialEq, Eq, Structural)]
pub enum ExtendableInputs {
    /// The ports are those that `inputs` lists.
    NotExtendable,
}

/// What a host may do with a component, and what it has to do before starting it.
#[derive(Clone, Debug)]
pub struct PluginBehavior {
    pub supports_start_stop: bool,
    pub supports_restart: bool,
    pub supports_apply: bool,
    pub extendable_inputs: ExtendableInputs,
    pub loads_started: bool,
    pub external_window: bool,
    pub starts_expanded: bool,
    /// Input ports that must be connected before a start.
    pub start_requires_connected_inputs: Vec<String>,
    /// Output ports that must be connected before a start.
    pub start_requires_connected_outputs: Vec<String>,
}

impl RthybridElectricalSynapseRust {
    /// The name shown to a person.
    pub fn name() -> (name: &'static str)
        ensures
            name@ == "RTHybrid Electrical Synapse"@,
    {
        "RTHybrid Electrical Synapse"
    }

    /// The identifier under which a host registers the component.
    pub fn kind() -> (kind: &'static str)
        ensures
            kind@ == "rthybrid_electrical_synapse"@,
    {
        "rthybrid_electrical_synapse"
    }

    /// The synapse is an ordinary processing component.
    pub fn plugin_type() -> (plugin_type: PluginType)
        ensures
            plugin_type == PluginType::Standard,
    {
        PluginType::Standard
    }

    /// The names of the input ports, in the order a host shows them: post-synaptic
    /// voltage, pre-synaptic voltage, scale, offset. `set_input_value` knows each of them.
    pub fn inputs() -> (names: &'static [&'static str])
        ensures
            names@.len() == 4,
            names@[0]@ == "Post-synaptic Voltage (V)"@,
            names@[1]@ == "Pre-synaptic Voltage (V)"@,
            names@[2]@ == "Scale (Pre to Post)"@,
            names@[3]@ == "Offset (Pre to Post)"@,
            input_port_of(names@[0]@) == Some(InputPort::PostVoltage),
            input_port_of(names@[1]@) == Some(InputPort::PreVoltage),
            input_port_of(names@[2]@) == Some(InputPort::Scale),
            input_port_of(names@[3]@) == Some(InputPort::Offset),
    {
        proof {
            lemma_input_names();
        }
        &[
            "Post-synaptic Voltage (V)",
            "Pre-synaptic Voltage (V)",
            "Scale (Pre to Post)",
            "Offset (Pre to Post)",
        ]
    }

    /// The name of the one output port, the current. `get_output_value` knows it.
    pub fn outputs() -> (names: &'static [&'static str])
        ensures
            names@.len() == 1,
            names@[0]@ == "Current (nA)"@,
            is_output_port(names@[0]@),
    {
        &["Current (nA)"]
    }

    /// The names of the variables that a host can inspect: the four inputs, the
    /// conductance and the current. `get_internal_value` knows each of them.
    pub fn internal_variables() -> (names: &'static [&'static str])
        ensures
            names@.len() == 6,
            names@[0]@ == "post_v"@,
            names@[1]@ == "pre_v"@,
            names@[2]@ == "scale"@,
            names@[3]@ == "offset"@,
            names@[4]@ == "g_us"@,
            names@[5]@ == "current"@,
            variable_of(names@[0]@) == Some(Variable::PostVoltage),
            variable_of(names@[1]@) == Some(Variable::PreVoltage),
            variable_of(names@[2]@) == Some(Variable::Scale),
            variable_of(names@[3]@) == Some(Variable::Offset),
            variable_of(names@[4]@) == Some(Variable::Conductance),
            variable_of(names@[5]@) == Some(Variable::Current),
    {
        proof {
            lemma_variable_names();
        }
        &["post_v", "pre_v", "scale", "offset", "g_us", "current"]
    }

    /// The configurable parameters with their defaults: the conductance, which starts at
    /// `+0.0` microsiemens. `set_config_value` knows the key.
    pub fn default_vars() -> (vars: Vec<(&'static str, Binary64)>)
        ensures
            vars@.len() == 1,
            vars@[0].0@ == "g_us"@,
            vars@[0].1 == Binary64::zero(),
            vars@[0].1 == Self::initial().g_us,
            conductance_unit_of(vars@[0].0@) == Some(ConductanceUnit::Microsiemens),
    {
        let mut vars: Vec<(&'static str, Binary64)> = Vec::new();
        vars.push(("g_us", Binary64::zero()));
        vars
    }

    /// A host may start, stop and restart the synapse, but not apply changes while it
    /// runs. The ports are fixed, the synapse loads stopped, needs no window of its own,
    /// shows expanded, and can be started with nothing connected.
    pub fn behavior() -> (behavior: PluginBehavior)
        ensures
            behavior.supports_start_stop,
            behavior.supports_restart,
            !behavior.supports_apply,
            behavior.extendable_inputs == ExtendableInputs::NotExtendable,
            !behavior.loads_started,
            !behavior.external_window,
            behavior.starts_expanded,
            behavior.start_requires_connected_inputs@.len() == 0,
            behavior.start_requires_connected_outputs@.len() == 0,
    {
        PluginBehavior {
            supports_start_stop: true,
            supports_restart: true,
            supports_apply: false,
            extendable_inputs: ExtendableInputs::NotExtendable,
            loads_started: false,
            external_window: false,
            starts_expanded: true,
            start_requires_connected_inputs: Vec::new(),
            start_requires_connected_outputs: Vec::new(),
        }
    }
}

} // verus!
