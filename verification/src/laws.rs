//! What holds of the synapse as a whole: the numbers its limits stand for, the formula a
//! tick computes, and how its operations relate to one another.
use crate::arithmetic::{is_quotient, Arithmetic};
use crate::binary64::Binary64;
use crate::keys::{
    conductance_unit_of, is_output_port, lemma_config_keys, lemma_input_names,
    lemma_variable_names, variable_of, ConductanceUnit,
};
use crate::synapse::{RthybridElectricalSynapseRust, TickTrace};
use crate::value::{
    clamped_int, exact_difference, exact_product, exact_sum, hidden_bit, lemma_clamped_value,
    lemma_constant_values, lemma_rank_orders_values, scaled_one,
};
use vstd::arithmetic::power2::{
    lemma2_to64, lemma2_to64_rest, lemma_pow2_adds, lemma_pow2_pos, pow2,
};
use vstd::prelude::*;

verus! {

/// One million, in units of `2^-1074`.
pub open spec fn scaled_million() -> int {
    1_000_000 * scaled_one()
}

impl RthybridElectricalSynapseRust {
    /// The scale that a tick computes with, as a value: one where the stored scale counts
    /// as none, else the stored scale held between minus and plus one million.
    pub open spec fn scale_in_use(self) -> int {
        if self.scale.scaled_magnitude() < Self::degenerate_scale().scaled_value() {
            scaled_one()
        } else {
            clamped_int(self.scale.scaled_value(), -scaled_million(), scaled_million())
        }
    }

    /// The offset in millivolts that a tick computes with, as a value: zero where the
    /// stored scale counts as none, else a thousand times the stored offset, held between
    /// minus and plus one million.
    pub open spec fn offset_mv_in_use(self) -> int {
        if self.scale.scaled_magnitude() < Self::degenerate_scale().scaled_value() {
            0
        } else {
            clamped_int(1000 * self.offset.scaled_value(), -scaled_million(), scaled_million())
        }
    }

    /// Whether every answer in `trace` is exact: the arithmetic rounded nothing away in
    /// the course of the tick.
    pub open spec fn exact(self, trace: TickTrace) -> bool {
        let used = Self::transform(self.scale, trace.offset_mv);
        &&& exact_product(self.offset, Binary64::thousand(), trace.offset_mv)
        &&& exact_product(self.post_v, Binary64::thousand(), trace.v_post_mv)
        &&& exact_product(self.pre_v, Binary64::thousand(), trace.pre_mv)
        &&& exact_product(trace.pre_mv, used.0, trace.scaled_pre_mv)
        &&& exact_sum(trace.scaled_pre_mv, used.1, trace.v_pre_mv)
        &&& exact_difference(trace.v_post_mv, trace.v_pre_mv, trace.drop_mv)
        &&& exact_product(self.g_us, trace.drop_mv, trace.raw)
    }

    /// The limit is one million and the negative limit is minus one million.
    pub proof fn lemma_limit_values()
        ensures
            Self::limit().is_finite(),
            Self::limit().scaled_value() == scaled_million(),
            Self::negative_limit().is_finite(),
            Self::negative_limit().scaled_value() == -scaled_million(),
    {
        lemma2_to64();
        lemma2_to64_rest();
        let limit = Self::limit();
        assert(limit.exponent_field() == 1042 && limit.fraction_field() == 0xe_8480_0000_0000);
        assert(Self::negative_limit().magnitude() == limit.magnitude());
        // The significand is 1000000 * 2^33.
        assert(hidden_bit() + limit.fraction_field() == 1_000_000 * pow2(33));
        lemma_pow2_adds(33, 1041);
        assert(1_000_000 * pow2(33) * pow2(1041) == 1_000_000 * (pow2(33) * pow2(1041)))
            by (nonlinear_arith);
    }

    /// A number is within the limit exactly when it is finite and its value lies between
    /// minus one million and one million.
    pub proof fn lemma_within_limit_bounds_value(x: Binary64)
        ensures
            Self::within_limit(x) <==> x.is_finite() && -scaled_million() <= x.scaled_value()
                <= scaled_million(),
    {
        if x.is_finite() {
            Self::lemma_limit_values();
            lemma_rank_orders_values(x, Self::limit());
            lemma_rank_orders_values(Self::negative_limit(), x);
        }
    }

    /// The threshold below which a scale counts as none is the binary64 nearest to
    /// `1e-15`. Its value is `0x12_03af_9ee7_5616 * 2^-102`; the numbers next to it lie
    /// `2^-102` away on either side, and it misses `1e-15` by less than half of that.
    pub proof fn lemma_degenerate_scale_value()
        ensures
            Self::degenerate_scale().is_finite(),
            Self::degenerate_scale().scaled_value() == 0x12_03af_9ee7_5616 * pow2(972),
            scaled_one() == pow2(102) * pow2(972),
            ({
                let gap = pow2(972) as int;
                let miss = 1_000_000_000_000_000 * Self::degenerate_scale().scaled_value()
                    - scaled_one();
                -1_000_000_000_000_000 * gap < 2 * miss < 1_000_000_000_000_000 * gap
            }),
    {
        lemma2_to64();
        lemma2_to64_rest();
        let tiny = Self::degenerate_scale();
        assert(tiny.exponent_field() == 973 && tiny.fraction_field() == 0x2_03af_9ee7_5616);
        lemma_pow2_adds(102, 972);
        lemma_pow2_adds(51, 51);
        assert(pow2(102) == 0x40_0000_0000_0000_0000_0000_0000);
        lemma_pow2_pos(972);
        let gap = pow2(972) as int;
        let value = tiny.scaled_value();
        assert(1_000_000_000_000_000 * value - 0x40_0000_0000_0000_0000_0000_0000 * gap
            == 394_013_187_178_496 * gap) by (nonlinear_arith)
            requires
                value == 0x12_03af_9ee7_5616 * gap,
        ;
    }

    /// A finite scale counts as none exactly when its absolute value is below that of the
    /// threshold. The tick then computes with scale one and offset zero, whatever the
    /// stored offset is.
    pub proof fn lemma_degenerate_scale_is_identity(scale: Binary64, offset_mv: Binary64)
        requires
            scale.is_finite(),
        ensures
            scale.abs().lt(Self::degenerate_scale()) <==> scale.scaled_magnitude()
                < Self::degenerate_scale().scaled_value(),
            scale.abs().lt(Self::degenerate_scale()) ==> Self::transform(scale, offset_mv) == (
                Binary64::one(),
                Binary64::zero(),
            ),
    {
        Self::lemma_degenerate_scale_value();
        lemma_rank_orders_values(scale.abs(), Self::degenerate_scale());
    }

    /// Where the arithmetic rounds nothing away, a tick computes the current
    /// `g_us * (post_v * 1000 - (pre_v * 1000 * scale + offset_mv))` and stores it held
    /// between minus and plus one million. The values are in units of `2^-1074`; with `u`
    /// for `scaled_one()`, the current `raw` is stated as
    /// `raw * u * u == g_us * (1000 * post_v * u - (1000 * pre_v * scale + offset_mv * u))`.
    pub proof fn lemma_tick_formula(self, trace: TickTrace)
        requires
            !self.corrupted(),
            self.exact(trace),
        ensures
            trace.raw.scaled_value() * scaled_one() * scaled_one() == self.g_us.scaled_value() * (
            1000 * self.post_v.scaled_value() * scaled_one() - (1000 * self.pre_v.scaled_value()
                * self.scale_in_use() + self.offset_mv_in_use() * scaled_one())),
            Self::settled(trace.raw).scaled_value() == clamped_int(
                trace.raw.scaled_value(),
                -scaled_million(),
                scaled_million(),
            ),
    {
        let u = scaled_one();
        let used = Self::transform(self.scale, trace.offset_mv);
        lemma_pow2_pos(1074);
        lemma_constant_values();
        Self::lemma_limit_values();
        Self::lemma_degenerate_scale_is_identity(self.scale, trace.offset_mv);
        lemma_clamped_value(self.scale, Self::negative_limit(), Self::limit());
        lemma_clamped_value(trace.offset_mv, Self::negative_limit(), Self::limit());
        lemma_clamped_value(trace.raw, Self::negative_limit(), Self::limit());

        let offset = self.offset.scaled_value();
        let post = self.post_v.scaled_value();
        let pre = self.pre_v.scaled_value();
        let g = self.g_us.scaled_value();
        let offset_mv = trace.offset_mv.scaled_value();
        let v_post_mv = trace.v_post_mv.scaled_value();
        let pre_mv = trace.pre_mv.scaled_value();
        let scaled_pre_mv = trace.scaled_pre_mv.scaled_value();
        let drop_mv = trace.drop_mv.scaled_value();
        let raw = trace.raw.scaled_value();
        let scale = used.0.scaled_value();
        let offset_mv_used = used.1.scaled_value();

        assert(offset_mv == 1000 * offset) by (nonlinear_arith)
            requires
                offset_mv * u == offset * (1000 * u),
                u > 0,
        ;
        assert(v_post_mv == 1000 * post) by (nonlinear_arith)
            requires
                v_post_mv * u == post * (1000 * u),
                u > 0,
        ;
        assert(pre_mv == 1000 * pre) by (nonlinear_arith)
            requires
                pre_mv * u == pre * (1000 * u),
                u > 0,
        ;
        assert(scale == self.scale_in_use());
        assert(offset_mv_used == self.offset_mv_in_use());
        assert(raw * u * u == g * (1000 * post * u - (1000 * pre * scale + offset_mv_used * u)))
            by (nonlinear_arith)
            requires
                raw * u == g * drop_mv,
                drop_mv == v_post_mv - (scaled_pre_mv + offset_mv_used),
                scaled_pre_mv * u == pre_mv * scale,
                v_post_mv == 1000 * post,
                pre_mv == 1000 * pre,
        ;
    }

    /// With a scale that counts as none, the pre-synaptic voltage passes through as it is
    /// and the stored offset plays no part: where the arithmetic rounds nothing away, the
    /// current is `g_us * (post_v * 1000 - pre_v * 1000)`.
    pub proof fn lemma_degenerate_scale_ignores_offset(self, trace: TickTrace)
        requires
            !self.corrupted(),
            self.scale.abs().lt(Self::degenerate_scale()),
            self.exact(trace),
        ensures
            trace.raw.scaled_value() * scaled_one() == self.g_us.scaled_value() * (1000
                * self.post_v.scaled_value() - 1000 * self.pre_v.scaled_value()),
    {
        let u = scaled_one();
        lemma_pow2_pos(1074);
        self.lemma_tick_formula(trace);
        Self::lemma_degenerate_scale_is_identity(self.scale, trace.offset_mv);
        let g = self.g_us.scaled_value();
        let post = self.post_v.scaled_value();
        let pre = self.pre_v.scaled_value();
        let raw = trace.raw.scaled_value();
        assert(raw * u == g * (1000 * post - 1000 * pre)) by (nonlinear_arith)
            requires
                raw * u * u == g * (1000 * post * u - (1000 * pre * u + 0 * u)),
                u > 0,
        ;
    }

    /// What a tick stores is within the limit whatever current the arithmetic gave, and a
    /// current that is within the limit is stored as it is. So to settle a settled output
    /// changes nothing.
    pub proof fn lemma_settled_within_limit(raw: Binary64)
        ensures
            Self::within_limit(Self::settled(raw)),
            Self::within_limit(raw) ==> Self::settled(raw) == raw,
            Self::settled(Self::settled(raw)) == Self::settled(raw),
    {
    }

    /// A current beyond the limit is stored as the limit itself, on either side, and that
    /// holds of the infinities too.
    pub proof fn lemma_settled_saturates(raw: Binary64)
        ensures
            raw.gt(Self::limit()) ==> Self::settled(raw) == Self::limit(),
            raw.lt(Self::negative_limit()) ==> Self::settled(raw) == Self::negative_limit(),
            Self::settled(Binary64::from_bits(0x7ff0_0000_0000_0000)) == Self::limit(),
            Self::settled(Binary64::from_bits(0xfff0_0000_0000_0000)) == Self::negative_limit(),
    {
    }

    /// Whatever the arithmetic answers, a tick leaves the inputs and the conductance as
    /// they were and an output that is finite and within the limit; on a corrupted state
    /// that output is `+0.0`.
    pub proof fn lemma_tick_is_safe<A: Arithmetic>(self, arithmetic: &A, after: Self)
        requires
            self.ticked(arithmetic, after),
        ensures
            Self::within_limit(after.out_0),
            self.corrupted() ==> after.out_0 == Binary64::zero(),
            after.post_v == self.post_v,
            after.pre_v == self.pre_v,
            after.scale == self.scale,
            after.offset == self.offset,
            after.g_us == self.g_us,
            self.wf() ==> after.wf(),
    {
    }

    /// The output of one tick does not enter into the next: what a tick can leave after
    /// an earlier tick, it can leave without it.
    pub proof fn lemma_tick_forgets_output<A: Arithmetic>(
        self,
        arithmetic: &A,
        once: Self,
        twice: Self,
    )
        requires
            self.ticked(arithmetic, once),
        ensures
            once.ticked(arithmetic, twice) <==> self.ticked(arithmetic, twice),
    {
        if !self.corrupted() {
            assert forall|trace: TickTrace|
                self.computes(arithmetic, trace) <==> once.computes(arithmetic, trace) by {}
        }
    }

    /// The five keys that give the conductance in microsiemens are synonyms: what a
    /// number can leave under one of them, it can leave under `g_us`, and the other way
    /// round. It is the state with that number for its conductance.
    pub proof fn lemma_microsiemens_synonyms<A: Arithmetic>(
        self,
        arithmetic: &A,
        key: Seq<char>,
        number: Binary64,
        after: Self,
    )
        requires
            conductance_unit_of(key) == Some(ConductanceUnit::Microsiemens),
        ensures
            self.configured(arithmetic, key, number, after) <==> self.configured(
                arithmetic,
                "g_us"@,
                number,
                after,
            ),
            self.configured(arithmetic, key, number, after) <==> after == (
            RthybridElectricalSynapseRust { g_us: number, ..self }),
    {
        lemma_config_keys();
    }

    /// A number under `g (nS)` leaves what its thousandth leaves under `g_us`: a thousand
    /// nanosiemens are one microsiemens.
    pub proof fn lemma_nanosiemens_are_thousandths<A: Arithmetic>(
        self,
        arithmetic: &A,
        number: Binary64,
        after: Self,
    )
        ensures
            self.configured(arithmetic, "g (nS)"@, number, after) <==> exists|thousandth: Binary64|
                {
                    &&& #[trigger] is_quotient(
                        arithmetic,
                        number,
                        Binary64::thousand(),
                        thousandth,
                    )
                    &&& self.configured(arithmetic, "g_us"@, thousandth, after)
                },
    {
        lemma_config_keys();
    }

    /// To give the input setter the same name and value twice is to give them once, and
    /// of two values for one port the later one stays.
    pub proof fn lemma_set_input_twice(self, key: Seq<char>, first: Binary64, second: Binary64)
        ensures
            self.with_input(key, first).with_input(key, first) == self.with_input(key, first),
            self.with_input(key, first).with_input(key, second) == self.with_input(key, second),
    {
    }

    /// Whatever arrives on the input ports, no input is left an infinity or a NaN, so a
    /// synapse whose conductance is finite is not corrupted after its four ports were set.
    pub proof fn lemma_inputs_are_sanitized(
        self,
        post_v: Binary64,
        pre_v: Binary64,
        scale: Binary64,
        offset: Binary64,
    )
        ensures
            ({
                let after = self.with_input("Post-synaptic Voltage (V)"@, post_v).with_input(
                    "Pre-synaptic Voltage (V)"@,
                    pre_v,
                ).with_input("Scale (Pre to Post)"@, scale).with_input(
                    "Offset (Pre to Post)"@,
                    offset,
                );
                &&& after.post_v == post_v.finite_or_zero()
                &&& after.pre_v == pre_v.finite_or_zero()
                &&& after.scale == scale.finite_or_zero()
                &&& after.offset == offset.finite_or_zero()
                &&& after.g_us == self.g_us
                &&& after.out_0 == self.out_0
                &&& after.corrupted() <==> !self.g_us.is_finite()
            }),
    {
        lemma_input_names();
    }

    /// Under a name that is neither the output port nor a variable the two accessors
    /// differ: the output accessor answers `+0.0`, the variable accessor answers nothing.
    /// A variable that holds zero is answered with `Some`, not with `None`.
    pub proof fn lemma_accessors_on_unknown_key(self, key: Seq<char>)
        ensures
            !is_output_port(key) ==> self.output_value(key) == Binary64::zero(),
            variable_of(key) is None ==> self.internal_value(key) is None,
            variable_of(key) is Some ==> self.internal_value(key) is Some,
            Self::initial().internal_value("current"@) == Some(Binary64::zero()),
            Self::initial().output_value("Current (nA)"@) == Binary64::zero(),
    {
        lemma_variable_names();
    }
}

} // verus!
