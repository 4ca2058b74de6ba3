//! The names by which a host addresses the synapse, and the slots they stand for.
//!
//! A host speaks to the component in strings. Each string is looked up once, here, and
//! becomes a small enumerated slot; a string that names nothing becomes `None`.
use vstd::prelude::*;
use vstd::string::StringSliceAdditionalSpecFns;
use vstd::utf8::encode_utf8_decode_utf8;

verus! {

/// The unit in which a configuration key gives the gap conductance.
#[derive(Clone, Copy, Debug, PartialEq, Eq, Structural)]
pub enum ConductanceUnit {
    /// The value is stored as it is.
    Microsiemens,
    /// The value is a thousand times the one to store.
    Nanosiemens,
}

/// One of the four input ports.
#[derive(Clone, Copy, Debug, PartialEq, Eq, Structural)]
pub enum InputPort {
    PostVoltage,
    PreVoltage,
    Scale,
    Offset,
}

/// One of the six variables that a host can inspect.
#[derive(Clone, Copy, Debug, PartialEq, Eq, Structural)]
pub enum Variable {
    PostVoltage,
    PreVoltage,
    Scale,
    Offset,
    Conductance,
    Current,
}

/// The unit that a configuration key stands for, if it is one of the conductance keys.
pub open spec fn conductance_unit_of(key: Seq<char>) -> Option<ConductanceUnit> {
    if key == "g_us"@ || key == "g_gap"@ || key == "g (uS)"@ || key == "g (microS)"@ || key
        == "g"@ {
        Some(ConductanceUnit::Microsiemens)
    } else if key == "g (nS)"@ {
        Some(ConductanceUnit::Nanosiemens)
    } else {
        None
    }
}

/// The input port that a name stands for, if it names one.
pub open spec fn input_port_of(key: Seq<char>) -> Option<InputPort> {
    if key == "Post-synaptic Voltage (V)"@ {
        Some(InputPort::PostVoltage)
    } else if key == "Pre-synaptic Voltage (V)"@ {
        Some(InputPort::PreVoltage)
    } else if key == "Scale (Pre to Post)"@ {
        Some(InputPort::Scale)
    } else if key == "Offset (Pre to Post)"@ {
        Some(InputPort::Offset)
    } else {
        None
    }
}

/// Whether a name is that of the one output port.
pub open spec fn is_output_port(key: Seq<char>) -> bool {
    key == "Current (nA)"@
}

/// The variable that a name stands for, if it names one.
pub open spec fn variable_of(key: Seq<char>) -> Option<Variable> {
    if key == "post_v"@ {
        Some(Variable::PostVoltage)
    } else if key == "pre_v"@ {
        Some(Variable::PreVoltage)
    } else if key == "scale"@ {
        Some(Variable::Scale)
    } else if key == "offset"@ {
        Some(Variable::Offset)
    } else if key == "g_us"@ {
        Some(Variable::Conductance)
    } else if key == "current"@ {
        Some(Variable::Current)
    } else {
        None
    }
}

/// The four input names are told apart, each standing for its own port.
pub proof fn lemma_input_names()
    ensures
        input_port_of("Post-synaptic Voltage (V)"@) == Some(InputPort::PostVoltage),
        input_port_of("Pre-synaptic Voltage (V)"@) == Some(InputPort::PreVoltage),
        input_port_of("Scale (Pre to Post)"@) == Some(InputPort::Scale),
        input_port_of("Offset (Pre to Post)"@) == Some(InputPort::Offset),
{
    reveal_strlit("Post-synaptic Voltage (V)");
    reveal_strlit("Pre-synaptic Voltage (V)");
    reveal_strlit("Scale (Pre to Post)");
    reveal_strlit("Offset (Pre to Post)");
    assert("Post-synaptic Voltage (V)"@.len() == 25);
    assert("Pre-synaptic Voltage (V)"@.len() == 24);
    assert("Scale (Pre to Post)"@.len() == 19);
    assert("Offset (Pre to Post)"@.len() == 20);
}

/// The six variable names are told apart, each standing for its own variable.
pub proof fn lemma_variable_names()
    ensures
        variable_of("post_v"@) == Some(Variable::PostVoltage),
        variable_of("pre_v"@) == Some(Variable::PreVoltage),
        variable_of("scale"@) == Some(Variable::Scale),
        variable_of("offset"@) == Some(Variable::Offset),
        variable_of("g_us"@) == Some(Variable::Conductance),
        variable_of("current"@) == Some(Variable::Current),
{
    reveal_strlit("post_v");
    reveal_strlit("pre_v");
    reveal_strlit("scale");
    reveal_strlit("offset");
    reveal_strlit("g_us");
    reveal_strlit("current");
    assert("post_v"@.len() == 6 && "post_v"@[0] == 'p');
    assert("pre_v"@.len() == 5 && "pre_v"@[0] == 'p');
    assert("scale"@.len() == 5 && "scale"@[0] == 's');
    assert("offset"@.len() == 6 && "offset"@[0] == 'o');
    assert("g_us"@.len() == 4);
    assert("current"@.len() == 7);
}

/// The six configuration keys are told apart: five give the conductance in microsiemens,
/// one gives it in nanosiemens.
pub proof fn lemma_config_keys()
    ensures
        conductance_unit_of("g_us"@) == Some(ConductanceUnit::Microsiemens),
        conductance_unit_of("g_gap"@) == Some(ConductanceUnit::Microsiemens),
        conductance_unit_of("g (uS)"@) == Some(ConductanceUnit::Microsiemens),
        conductance_unit_of("g (microS)"@) == Some(ConductanceUnit::Microsiemens),
        conductance_unit_of("g"@) == Some(ConductanceUnit::Microsiemens),
        conductance_unit_of("g (nS)"@) == Some(ConductanceUnit::Nanosiemens),
{
    reveal_strlit("g_us");
    reveal_strlit("g_gap");
    reveal_strlit("g (uS)");
    reveal_strlit("g (microS)");
    reveal_strlit("g");
    reveal_strlit("g (nS)");
    assert("g_us"@.len() == 4);
    assert("g_gap"@.len() == 5);
    assert("g (uS)"@.len() == 6 && "g (uS)"@[3] == 'u');
    assert("g (microS)"@.len() == 10);
    assert("g"@.len() == 1);
    assert("g (nS)"@.len() == 6 && "g (nS)"@[3] == 'n');
}

/// Whether two strings hold the same characters.
pub fn same_text(a: &str, b: &str) -> (same: bool)
    ensures
        same == (a@ == b@),
{
    let x = a.as_bytes();
    let y = b.as_bytes();
    proof {
        // A string is determined by its bytes: decoding them gives the characters back.
        encode_utf8_decode_utf8(a@);
        encode_utf8_decode_utf8(b@);
    }
    if x.len() != y.len() {
        return false;
    }
    let mut i: usize = 0;
    while i < x.len()
        invariant
            i <= x.len(),
            x.len() == y.len(),
            x@ == a.spec_bytes(),
            y@ == b.spec_bytes(),
            forall|j: int| 0 <= j < i ==> x@[j] == y@[j],
        decreases x.len() - i,
    {
        if x[i] != y[i] {
            return false;
        }
        i += 1;
    }
    assert(x@ =~= y@);
    true
}

impl ConductanceUnit {
    /// Looks a configuration key up among the conductance keys.
    pub fn parse(key: &str) -> (unit: Option<ConductanceUnit>)
        ensures
            unit == conductance_unit_of(key@),
    {
        if same_text(key, "g_us") || same_text(key, "g_gap") || same_text(key, "g (uS)")
            || same_text(key, "g (microS)") || same_text(key, "g") {
            Some(ConductanceUnit::Microsiemens)
        } else if same_text(key, "g (nS)") {
            Some(ConductanceUnit::Nanosiemens)
        } else {
            None
        }
    }
}

impl InputPort {
    /// Looks a name up among the input ports.
    pub fn parse(key: &str) -> (port: Option<InputPort>)
        ensures
            port == input_port_of(key@),
    {
        if same_text(key, "Post-synaptic Voltage (V)") {
            Some(InputPort::PostVoltage)
        } else if same_text(key, "Pre-synaptic Voltage (V)") {
            Some(InputPort::PreVoltage)
        } else if same_text(key, "Scale (Pre to Post)") {
            Some(InputPort::Scale)
        } else if same_text(key, "Offset (Pre to Post)") {
            Some(InputPort::Offset)
        } else {
            None
        }
    }
}

impl Variable {
    /// Looks a name up among the variables.
    pub fn parse(key: &str) -> (variable: Option<Variable>)
        ensures
            variable == variable_of(key@),
    {
        if same_text(key, "post_v") {
            Some(Variable::PostVoltage)
        } else if same_text(key, "pre_v") {
            Some(Variable::PreVoltage)
        } else if same_text(key, "scale") {
            Some(Variable::Scale)
        } else if same_text(key, "offset") {
            Some(Variable::Offset)
        } else if same_text(key, "g_us") {
            Some(Variable::Conductance)
        } else if same_text(key, "current") {
            Some(Variable::Current)
        } else {
            None
        }
    }
}

} // verus!
