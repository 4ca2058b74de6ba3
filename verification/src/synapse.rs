//! The electrical synapse: its state and the four operations a host drives it with.
//!
//! A gap junction passes a current proportional to the voltage difference across it. The
//! pre-synaptic voltage may first be scaled and offset, so that two sides which measure in
//! different frames can be joined. Whatever comes in, the output stays a finite number
//! between minus and plus one million nanoamps.
use crate::arithmetic::{is_difference, is_product, is_quotient, is_sum, Arithmetic};
use crate::binary64::Binary64;
use crate::json::{json_number_bits, number_bits};
use crate::keys::{
    conductance_unit_of, input_port_of, is_output_port, same_text, variable_of,
    ConductanceUnit, InputPort, Variable,
};
use vstd::prelude::*;

verus! {

/// The encoding of `1e6`: the bound on the scale, on the offset in millivolts and on the
/// output current.
pub const LIMIT_BITS: u64 = 0x412e_8480_0000_0000;

/// The encoding of `-1e6`.
pub const NEGATIVE_LIMIT_BITS: u64 = 0xc12e_8480_0000_0000;

/// The encoding of the binary64 nearest to `1e-15`: a scale whose absolute value is
/// below it counts as no scale at all.
pub const DEGENERATE_SCALE_BITS: u64 = 0x3cd2_03af_9ee7_5616;

/// The state of one synapse. Every field is plain data, and no operation relies on what
/// the fields held before: a tick checks them anew.
#[derive(Clone, Copy, Debug)]
pub struct RthybridElectricalSynapseRust {
    /// Post-synaptic membrane voltage, in volts.
    pub post_v: Binary64,
    /// Pre-synaptic membrane voltage, in volts.
    pub pre_v: Binary64,
    /// Factor applied to the pre-synaptic voltage.
    pub scale: Binary64,
    /// Offset added to the scaled pre-synaptic voltage, in volts.
    pub offset: Binary64,
    /// The current computed by the last tick, in nanoamps.
    pub out_0: Binary64,
    /// Gap conductance, in microsiemens.
    pub g_us: Binary64,
}

/// The answers that the arithmetic gives in the course of one tick, in the order in which
/// they are asked for.
pub struct TickTrace {
    /// The stored offset times a thousand: the offset in millivolts, before it is chosen
    /// or held to the limit.
    pub offset_mv: Binary64,
    /// The post-synaptic voltage times a thousand.
    pub v_post_mv: Binary64,
    /// The pre-synaptic voltage times a thousand.
    pub pre_mv: Binary64,
    /// `pre_mv` times the scale in use.
    pub scaled_pre_mv: Binary64,
    /// `scaled_pre_mv` plus the offset in use: the pre-synaptic driving voltage.
    pub v_pre_mv: Binary64,
    /// `v_post_mv` minus `v_pre_mv`: the voltage across the junction.
    pub drop_mv: Binary64,
    /// The conductance times `drop_mv`: the current, before it is settled.
    pub raw: Binary64,
}

impl RthybridElectricalSynapseRust {
    /// The state of a new synapse: every field `+0.0`.
    pub open spec fn initial() -> Self {
        RthybridElectricalSynapseRust {
            post_v: Binary64::zero(),
            pre_v: Binary64::zero(),
            scale: Binary64::zero(),
            offset: Binary64::zero(),
            out_0: Binary64::zero(),
            g_us: Binary64::zero(),
        }
    }

    /// Whether a number is finite and lies between minus and plus one million, both
    /// included.
    pub open spec fn within_limit(x: Binary64) -> bool {
        &&& x.is_finite()
        &&& Self::negative_limit().rank() <= x.rank() <= Self::limit().rank()
    }

    /// What the setters and the tick keep true once it holds: the four inputs are finite,
    /// and the output is finite and within the limit. The conductance is not part of it,
    /// since a configuration value is stored as it comes.
    pub open spec fn wf(self) -> bool {
        &&& self.post_v.is_finite()
        &&& self.pre_v.is_finite()
        &&& self.scale.is_finite()
        &&& self.offset.is_finite()
        &&& Self::within_limit(self.out_0)
    }

    /// Whether the conductance or one of the four inputs is an infinity or a NaN.
    pub open spec fn corrupted(self) -> bool {
        ||| !self.g_us.is_finite()
        ||| !self.post_v.is_finite()
        ||| !self.pre_v.is_finite()
        ||| !self.scale.is_finite()
        ||| !self.offset.is_finite()
    }

    /// The value held for an input port.
    pub open spec fn input(self, port: InputPort) -> Binary64 {
        match port {
            InputPort::PostVoltage => self.post_v,
            InputPort::PreVoltage => self.pre_v,
            InputPort::Scale => self.scale,
            InputPort::Offset => self.offset,
        }
    }

    /// The value held for a variable.
    pub open spec fn variable(self, variable: Variable) -> Binary64 {
        match variable {
            Variable::PostVoltage => self.post_v,
            Variable::PreVoltage => self.pre_v,
            Variable::Scale => self.scale,
            Variable::Offset => self.offset,
            Variable::Conductance => self.g_us,
            Variable::Current => self.out_0,
        }
    }

    /// The state after `value` has arrived on the port named `key`: the port holds the
    /// value if it is finite and `+0.0` if it is not; a name that is no port changes
    /// nothing.
    pub open spec fn with_input(self, key: Seq<char>, value: Binary64) -> Self {
        match input_port_of(key) {
            Some(InputPort::PostVoltage) => RthybridElectricalSynapseRust {
                post_v: value.finite_or_zero(),
                ..self
            },
            Some(InputPort::PreVoltage) => RthybridElectricalSynapseRust {
                pre_v: value.finite_or_zero(),
                ..self
            },
            Some(InputPort::Scale) => RthybridElectricalSynapseRust {
                scale: value.finite_or_zero(),
                ..self
            },
            Some(InputPort::Offset) => RthybridElectricalSynapseRust {
                offset: value.finite_or_zero(),
                ..self
            },
            None => self,
        }
    }

    /// Whether `after` is a state that the number `number` under the configuration key
    /// `key` can leave. Under a key in microsiemens the number becomes the conductance.
    /// Under the key in nanosiemens the conductance becomes what `arithmetic` answers to
    /// `number / 1000`. Any other key changes nothing. No key changes anything but the
    /// conductance.
    pub open spec fn configured<A: Arithmetic>(
        self,
        arithmetic: &A,
        key: Seq<char>,
        number: Binary64,
        after: Self,
    ) -> bool {
        match conductance_unit_of(key) {
            Some(ConductanceUnit::Microsiemens) => after == (RthybridElectricalSynapseRust {
                g_us: number,
                ..self
            }),
            Some(ConductanceUnit::Nanosiemens) => exists|thousandth: Binary64|
                {
                    &&& #[trigger] is_quotient(
                        arithmetic,
                        number,
                        Binary64::thousand(),
                        thousandth,
                    )
                    &&& after == (RthybridElectricalSynapseRust { g_us: thousandth, ..self })
                },
            None => after == self,
        }
    }

    /// The scale and the offset in millivolts that a tick computes with, given the stored
    /// scale and the stored offset times a thousand. A scale that is all but zero stands
    /// for no transform: scale one, offset zero. Any other pair is used as it is, each
    /// of the two held to the limit.
    pub open spec fn transform(scale: Binary64, offset_mv: Binary64) -> (Binary64, Binary64) {
        if scale.abs().lt(Self::degenerate_scale()) {
            (Binary64::one(), Binary64::zero())
        } else {
            (
                scale.clamped(Self::negative_limit(), Self::limit()),
                offset_mv.clamped(Self::negative_limit(), Self::limit()),
            )
        }
    }

    /// The output that a tick stores for the current `raw` that the arithmetic gave: the
    /// current held to the limit, and `+0.0` if that is still no finite number.
    pub open spec fn settled(raw: Binary64) -> Binary64 {
        raw.clamped(Self::negative_limit(), Self::limit()).finite_or_zero()
    }

    /// Whether `trace` holds answers of `arithmetic` to the questions of one tick on this
    /// state. The current is `g_us * (post_v * 1000 - (pre_v * 1000 * scale + offset_mv))`,
    /// with `scale` and `offset_mv` as `transform` chooses them from the stored scale and
    /// from the stored offset times a thousand.
    pub open spec fn computes<A: Arithmetic>(self, arithmetic: &A, trace: TickTrace) -> bool {
        let used = Self::transform(self.scale, trace.offset_mv);
        &&& is_product(arithmetic, self.offset, Binary64::thousand(), trace.offset_mv)
        &&& is_product(arithmetic, self.post_v, Binary64::thousand(), trace.v_post_mv)
        &&& is_product(arithmetic, self.pre_v, Binary64::thousand(), trace.pre_mv)
        &&& is_product(arithmetic, trace.pre_mv, used.0, trace.scaled_pre_mv)
        &&& is_sum(arithmetic, trace.scaled_pre_mv, used.1, trace.v_pre_mv)
        &&& is_difference(arithmetic, trace.v_post_mv, trace.v_pre_mv, trace.drop_mv)
        &&& is_product(arithmetic, self.g_us, trace.drop_mv, trace.raw)
    }

    /// Whether `after` is a state that one tick can leave. A tick changes the output
    /// alone. On a corrupted state the output becomes `+0.0`; on any other it becomes what
    /// `settled` makes of the current that `arithmetic` computes.
    pub open spec fn ticked<A: Arithmetic>(self, arithmetic: &A, after: Self) -> bool {
        if self.corrupted() {
            after == (RthybridElectricalSynapseRust { out_0: Binary64::zero(), ..self })
        } else {
            exists|trace: TickTrace|
                {
                    &&& #[trigger] self.computes(arithmetic, trace)
                    &&& after == (RthybridElectricalSynapseRust {
                        out_0: Self::settled(trace.raw),
                        ..self
                    })
                }
        }
    }

    /// What `get_output_value` answers for a name.
    pub open spec fn output_value(self, key: Seq<char>) -> Binary64 {
        if is_output_port(key) {
            self.out_0
        } else {
            Binary64::zero()
        }
    }

    /// What `get_internal_value` answers for a name.
    pub open spec fn internal_value(self, key: Seq<char>) -> Option<Binary64> {
        match variable_of(key) {
            Some(variable) => Some(self.variable(variable)),
            None => None,
        }
    }

    /// `1e6`.
    #[verifier::allow_in_spec]
    pub fn limit() -> Binary64
        returns
            (Binary64 { bits: LIMIT_BITS }),
    {
        Binary64 { bits: LIMIT_BITS }
    }

    /// `-1e6`.
    #[verifier::allow_in_spec]
    pub fn negative_limit() -> Binary64
        returns
            (Binary64 { bits: NEGATIVE_LIMIT_BITS }),
    {
        Binary64 { bits: NEGATIVE_LIMIT_BITS }
    }

    /// The binary64 nearest to `1e-15`.
    #[verifier::allow_in_spec]
    pub fn degenerate_scale() -> Binary64
        returns
            (Binary64 { bits: DEGENERATE_SCALE_BITS }),
    {
        Binary64 { bits: DEGENERATE_SCALE_BITS }
    }

    /// Takes a configuration value. A value that is no number is passed over, and so is a
    /// key that is none of the conductance keys. Under `g_us`, `g_gap`, `g (uS)`,
    /// `g (microS)` and `g` the number becomes the conductance as it is; under `g (nS)`
    /// it is divided by a thousand first.
    pub fn set_config_value<A: Arithmetic>(
        &mut self,
        key: &str,
        value: &serde_json::Value,
        arithmetic: &A,
    )
        ensures
            match json_number_bits(*value) {
                Some(bits) => old(self).configured(
                    arithmetic,
                    key@,
                    Binary64::from_bits(bits),
                    *final(self),
                ),
                None => *final(self) == *old(self),
            },
            conductance_unit_of(key@) is None ==> *final(self) == *old(self),
            final(self).post_v == old(self).post_v,
            final(self).pre_v == old(self).pre_v,
            final(self).scale == old(self).scale,
            final(self).offset == old(self).offset,
            final(self).out_0 == old(self).out_0,
            old(self).wf() ==> final(self).wf(),
    {
        match number_bits(value) {
            Some(bits) => {
                self.set_config_number(key, Binary64::from_bits(bits), arithmetic);
            },
            None => {},
        }
    }

    /// Takes a configuration number: what `set_config_value` does once it has the number
    /// out of the value. The number is stored as it comes, finite or not.
    pub fn set_config_number<A: Arithmetic>(&mut self, key: &str, number: Binary64, arithmetic: &A)
        ensures
            old(self).configured(arithmetic, key@, number, *final(self)),
            conductance_unit_of(key@) is None ==> *final(self) == *old(self),
            conductance_unit_of(key@) == Some(ConductanceUnit::Microsiemens) ==> final(self).g_us
                == number,
            final(self).post_v == old(self).post_v,
            final(self).pre_v == old(self).pre_v,
            final(self).scale == old(self).scale,
            final(self).offset == old(self).offset,
            final(self).out_0 == old(self).out_0,
            old(self).wf() ==> final(self).wf(),
    {
        match ConductanceUnit::parse(key) {
            Some(ConductanceUnit::Microsiemens) => {
                self.g_us = number;
            },
            Some(ConductanceUnit::Nanosiemens) => {
                let thousandth = arithmetic.quotient(number, Binary64::thousand());
                self.g_us = thousandth;
                assert(is_quotient(arithmetic, number, Binary64::thousand(), thousandth));
            },
            None => {},
        }
    }

    /// Takes a value for the input port named `key`. A finite value is stored bit for
    /// bit; in place of an infinity or a NaN the port gets `+0.0`. A name that is no
    /// input port changes nothing.
    pub fn set_input_value(&mut self, key: &str, v: Binary64)
        ensures
            *final(self) == old(self).with_input(key@, v),
            input_port_of(key@) is None ==> *final(self) == *old(self),
            input_port_of(key@) matches Some(port) ==> {
                &&& final(self).input(port) == v.finite_or_zero()
                &&& final(self).input(port).is_finite()
                &&& !v.is_finite() ==> final(self).input(port) == Binary64::zero()
            },
            old(self).wf() ==> final(self).wf(),
    {
        match InputPort::parse(key) {
            Some(InputPort::PostVoltage) => {
                self.post_v = v.finite_or_zero();
            },
            Some(InputPort::PreVoltage) => {
                self.pre_v = v.finite_or_zero();
            },
            Some(InputPort::Scale) => {
                self.scale = v.finite_or_zero();
            },
            Some(InputPort::Offset) => {
                self.offset = v.finite_or_zero();
            },
            None => {},
        }
    }

    /// Whether the conductance or one of the four inputs is an infinity or a NaN.
    pub fn is_corrupted(&self) -> (corrupted: bool)
        ensures
            corrupted == self.corrupted(),
    {
        !self.g_us.is_finite() || !self.post_v.is_finite() || !self.pre_v.is_finite()
            || !self.scale.is_finite() || !self.offset.is_finite()
    }

    /// Chooses the scale and the offset in millivolts that a tick computes with.
    /// `offset_mv` is the stored offset times a thousand.
    pub fn effective_transform(scale: Binary64, offset_mv: Binary64) -> (used: (
        Binary64,
        Binary64,
    ))
        ensures
            used == Self::transform(scale, offset_mv),
            scale.is_finite() ==> Self::within_limit(used.0),
            !offset_mv.is_nan() ==> Self::within_limit(used.1),
    {
        let mut scale = scale;
        let mut offset_mv = offset_mv;
        if scale.abs().lt(Self::degenerate_scale()) {
            scale = Binary64::one();
            offset_mv = Binary64::zero();
        }
        (
            scale.clamp(Self::negative_limit(), Self::limit()),
            offset_mv.clamp(Self::negative_limit(), Self::limit()),
        )
    }

    /// Turns the current that the arithmetic gave into the output to store: a current
    /// above the limit becomes the limit, one below the negative limit becomes the
    /// negative limit, a NaN becomes `+0.0`, and any other current is kept bit for bit.
    pub fn settle_output(raw: Binary64) -> (out: Binary64)
        ensures
            out == Self::settled(raw),
            Self::within_limit(out),
            raw.gt(Self::limit()) ==> out == Self::limit(),
            raw.lt(Self::negative_limit()) ==> out == Self::negative_limit(),
            raw.is_nan() ==> out == Binary64::zero(),
            Self::within_limit(raw) ==> out == raw,
    {
        raw.clamp(Self::negative_limit(), Self::limit()).finite_or_zero()
    }

    /// Advances the synapse by one tick: computes the output current from the stored
    /// inputs and conductance. Neither the tick's index nor its period enters into it.
    ///
    /// If the conductance or an input is an infinity or a NaN the output is `+0.0`, and
    /// the arithmetic is not asked. Otherwise the arithmetic is asked for the current as
    /// `computes` lays it out, and the output is what `settled` makes of its answer. In
    /// both cases the output is finite and within the limit, whatever the arithmetic
    /// answered.
    pub fn process_tick<A: Arithmetic>(
        &mut self,
        _tick: u64,
        _period_seconds: Binary64,
        arithmetic: &A,
    )
        ensures
            old(self).ticked(arithmetic, *final(self)),
            old(self).corrupted() ==> final(self).out_0 == Binary64::zero(),
            Self::within_limit(final(self).out_0),
            final(self).post_v == old(self).post_v,
            final(self).pre_v == old(self).pre_v,
            final(self).scale == old(self).scale,
            final(self).offset == old(self).offset,
            final(self).g_us == old(self).g_us,
            old(self).wf() ==> final(self).wf(),
    {
        if self.is_corrupted() {
            self.out_0 = Binary64::zero();
            return ;
        }
        let offset_mv = arithmetic.product(self.offset, Binary64::thousand());
        let (scale, offset_mv_used) = Self::effective_transform(self.scale, offset_mv);
        let v_post_mv = arithmetic.product(self.post_v, Binary64::thousand());
        let pre_mv = arithmetic.product(self.pre_v, Binary64::thousand());
        let scaled_pre_mv = arithmetic.product(pre_mv, scale);
        let v_pre_mv = arithmetic.sum(scaled_pre_mv, offset_mv_used);
        let drop_mv = arithmetic.difference(v_post_mv, v_pre_mv);
        let raw = arithmetic.product(self.g_us, drop_mv);
        self.out_0 = Self::settle_output(raw);
        proof {
            let trace = TickTrace {
                offset_mv,
                v_post_mv,
                pre_mv,
                scaled_pre_mv,
                v_pre_mv,
                drop_mv,
                raw,
            };
            assert(old(self).computes(arithmetic, trace));
        }
    }

    /// The last computed current under the name of the output port, `+0.0` under any
    /// other name.
    pub fn get_output_value(&self, key: &str) -> (value: Binary64)
        ensures
            value == self.output_value(key@),
            !is_output_port(key@) ==> value == Binary64::zero(),
    {
        if same_text(key, "Current (nA)") {
            self.out_0
        } else {
            Binary64::zero()
        }
    }

    /// The value of the variable named `key`, or `None` where the name is that of no
    /// variable.
    pub fn get_internal_value(&self, key: &str) -> (value: Option<Binary64>)
        ensures
            value == self.internal_value(key@),
            value is None <==> variable_of(key@) is None,
    {
        match Variable::parse(key) {
            Some(Variable::PostVoltage) => Some(self.post_v),
            Some(Variable::PreVoltage) => Some(self.pre_v),
            Some(Variable::Scale) => Some(self.scale),
            Some(Variable::Offset) => Some(self.offset),
            Some(Variable::Conductance) => Some(self.g_us),
            Some(Variable::Current) => Some(self.out_0),
            None => None,
        }
    }
}

impl Default for RthybridElectricalSynapseRust {
    /// A new synapse: inputs, conductance and output all `+0.0`.
    fn default() -> (synapse: Self)
        ensures
            synapse == Self::initial(),
            synapse.wf(),
    {
        RthybridElectricalSynapseRust {
            post_v: Binary64::zero(),
            pre_v: Binary64::zero(),
            scale: Binary64::zero(),
            offset: Binary64::zero(),
            out_0: Binary64::zero(),
            g_us: Binary64::zero(),
        }
    }
}

} // verus!
