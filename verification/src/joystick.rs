//! The joystick processor: converts batches of raw analog axis
//! readings into calibrated pointer-motion reports.
//!
//! Each consumed event runs through the same pipeline: the raw
//! snapshot replaces the running record, the per-axis bias is added
//! with saturating arithmetic, an N-by-N linear transform in
//! fixed-point arithmetic maps raw-axis space to the output axes, a
//! dead-zone threshold suppresses idle jitter, and the result is
//! clamped to the signed 8-bit report range — saturating, never
//! wrapping.
//!
//! Transform coefficients and dead-zone thresholds are fixed-point
//! values in thousandths (`FIXED_POINT_SCALE`): a coefficient of
//! `-4` scales an axis by `-0.004`, a threshold of `400` suppresses
//! transformed magnitudes below `0.4` output units.

use crate::event::{Event, ProcessResult};
use crate::keymap::KeyMap;
use crate::report::{MouseReport, Report};
use vstd::math::abs;
use vstd::prelude::*;

verus! {

/// Denominator of the fixed-point transform and threshold values.
pub const FIXED_POINT_SCALE: i64 = 1000;

/// Largest supported axis count.  It keeps the transform accumulator
/// within `i64`: each product of a coefficient and a corrected sample
/// has magnitude at most `2^46`, so at most `2^16` of them sum to at
/// most `2^62`.
pub const MAX_AXES: usize = 65536;

/// Which physical half of the board a processor serves; it selects
/// the report fields the computed motion populates.
#[derive(Clone, Copy, PartialEq, Eq, Structural, Debug)]
pub enum KeyboardSide {
    Left,
    Right,
}

/// Addition clamped to the 16-bit signed range instead of wrapping.
pub open spec fn sat_add16(a: int, b: int) -> int {
    if a + b > i16::MAX as int {
        i16::MAX as int
    } else if a + b < i16::MIN as int {
        i16::MIN as int
    } else {
        a + b
    }
}

/// The record after bias correction: element-wise saturating addition.
pub open spec fn corrected_record(record: Seq<i16>, bias: Seq<i16>) -> Seq<i16> {
    Seq::new(record.len(), |i: int| sat_add16(record[i] as int, bias[i] as int) as i16)
}

/// Dot product of the first `k` transform coefficients of one output
/// axis with the first `k` corrected samples.
pub open spec fn axis_dot(row: Seq<i32>, record: Seq<i16>, k: int) -> int
    decreases k,
{
    if k <= 0 {
        0
    } else {
        axis_dot(row, record, k - 1) + (row[k - 1] as int) * (record[k - 1] as int)
    }
}

/// Dead-zone thresholding: a transformed value whose magnitude lies
/// below the axis threshold is forced to zero; intentional motion
/// beyond the threshold is kept.
pub open spec fn dead_zone(sum: int, threshold: int) -> int {
    if abs(sum) < threshold {
        0
    } else {
        sum
    }
}

/// Integer division rounding toward zero, as the quantization step
/// truncates.
pub open spec fn div_toward_zero(a: int, d: int) -> int {
    if a >= 0 {
        a / d
    } else {
        -((-a) / d)
    }
}

/// Saturating quantization: scale a fixed-point transformed value back
/// to output units, truncate, and clamp to the signed 8-bit report
/// range.
pub open spec fn quantize(sum: int) -> int {
    let q = div_toward_zero(sum, FIXED_POINT_SCALE as int);
    if q > i8::MAX as int {
        i8::MAX as int
    } else if q < i8::MIN as int {
        i8::MIN as int
    } else {
        q
    }
}

/// The mathematical model of a joystick processor: its calibration
/// constants, running record and side selector.
#[verifier::ext_equal]
pub struct JoystickView {
    pub transform: Seq<Seq<i32>>,
    pub bias: Seq<i16>,
    pub threshold: Seq<i64>,
    pub record: Seq<i16>,
    pub side: KeyboardSide,
}

impl JoystickView {
    /// The configured axis count.
    pub open spec fn axes(self) -> nat {
        self.record.len()
    }

    /// Shape consistency, fixed at construction: the transform is
    /// square with one row per axis, bias and threshold have one entry
    /// per axis, and a left-side processor has the two motion axes it
    /// populates.
    pub open spec fn wf(self) -> bool {
        &&& self.transform.len() == self.axes()
        &&& forall|i: int|
            0 <= i < self.transform.len() ==> (#[trigger] self.transform[i]).len() == self.axes()
        &&& self.bias.len() == self.axes()
        &&& self.threshold.len() == self.axes()
        &&& self.axes() <= MAX_AXES
        &&& self.side == KeyboardSide::Left ==> self.axes() >= 2
    }

    /// The quantized output of one axis, given the corrected record.
    pub open spec fn axis_output(self, record: Seq<i16>, i: int) -> int {
        quantize(dead_zone(axis_dot(self.transform[i], record, record.len() as int), self.threshold[i] as int))
    }

    /// The report assembled from a corrected record: the left side
    /// maps axis 0 to X and axis 1 to Y; the right side's computed
    /// values are intentionally suppressed pending a wheel/pan
    /// mapping.
    pub open spec fn report_from(self, corrected: Seq<i16>) -> MouseReport {
        match self.side {
            KeyboardSide::Left => (MouseReport {
                buttons: 0u8,
                x: self.axis_output(corrected, 0) as i8,
                y: self.axis_output(corrected, 1) as i8,
                wheel: 0i8,
                pan: 0i8,
            }),
            KeyboardSide::Right => (MouseReport {
                buttons: 0u8,
                x: 0i8,
                y: 0i8,
                wheel: 0i8,
                pan: 0i8,
            }),
        }
    }

    /// The report one call of `generate_report` emits.
    pub open spec fn report_spec(self) -> MouseReport {
        self.report_from(corrected_record(self.record, self.bias))
    }

    /// The state after `generate_report`: the bias correction is
    /// written back into the record.
    pub open spec fn after_report(self) -> Self {
        JoystickView { record: corrected_record(self.record, self.bias), ..self }
    }

    /// The state after latching one raw snapshot: a full replace of
    /// the record, not an accumulation.
    pub open spec fn latched(self, readings: Seq<i16>) -> Self {
        JoystickView { record: readings, ..self }
    }

    /// The state after one whole consumed joystick event.
    pub open spec fn after_process(self, readings: Seq<i16>) -> Self {
        self.latched(readings).after_report()
    }

    /// The report one consumed joystick event emits.
    pub open spec fn process_report(self, readings: Seq<i16>) -> MouseReport {
        self.latched(readings).report_spec()
    }
}

/// One joystick processor instance; the board runs one per physical
/// sensor cluster.  The calibration constants are fixed at
/// construction; only `record` is ever mutated.
pub struct JoystickProcessor<'a> {
    transform: Vec<Vec<i32>>,
    bias: Vec<i16>,
    threshold: Vec<i64>,
    keymap: &'a KeyMap,
    record: Vec<i16>,
    side: KeyboardSide,
}

impl<'a> View for JoystickProcessor<'a> {
    type V = JoystickView;

    closed spec fn view(&self) -> JoystickView {
        JoystickView {
            transform: Seq::new(self.transform@.len(), |i: int| self.transform@[i]@),
            bias: self.bias@,
            threshold: self.threshold@,
            record: self.record@,
            side: self.side,
        }
    }
}

impl<'a> JoystickProcessor<'a> {
    /// The keymap reference this processor borrows.
    pub closed spec fn spec_keymap(&self) -> &'a KeyMap {
        self.keymap
    }

    /// Construct a processor from its calibration constants.
    /// Transform coefficients and thresholds are fixed-point values in
    /// thousandths.  The record starts at zero on every axis.
    pub fn new(
        transform: Vec<Vec<i32>>,
        bias: Vec<i16>,
        threshold: Vec<i64>,
        keymap: &'a KeyMap,
        side: KeyboardSide,
    ) -> (r: Self)
        requires
            transform@.len() == bias@.len(),
            forall|i: int|
                0 <= i < transform@.len() ==> (#[trigger] transform@[i])@.len() == bias@.len(),
            threshold@.len() == bias@.len(),
            bias@.len() <= MAX_AXES,
            side == KeyboardSide::Left ==> bias@.len() >= 2,
        ensures
            r@.wf(),
            r@.transform == Seq::new(transform@.len(), |i: int| transform@[i]@),
            r@.bias == bias@,
            r@.threshold == threshold@,
            r@.side == side,
            r@.record == Seq::new(bias@.len(), |i: int| 0i16),
            r.spec_keymap() == keymap,
    {
        let n = bias.len();
        let mut record: Vec<i16> = Vec::new();
        let mut i: usize = 0;
        while i < n
            invariant
                i <= n,
                record@.len() == i,
                forall|j: int| 0 <= j < i ==> record@[j] == 0i16,
            decreases n - i,
        {
            record.push(0i16);
            i += 1;
        }
        proof {
            assert(record@ =~= Seq::new(bias@.len(), |i: int| 0i16));
        }
        JoystickProcessor { transform, bias, threshold, keymap, record, side }
    }

    /// The configured axis count: the length every consumed joystick
    /// event's reading sequence must have.
    pub fn num_axes(&self) -> (r: usize)
        ensures
            r == self@.axes(),
    {
        self.record.len()
    }

    /// The shared keymap this processor consults.
    pub fn get_keymap(&self) -> (r: &'a KeyMap)
        ensures
            r == self.spec_keymap(),
    {
        self.keymap
    }

    /// Steps 3 to 7 of the pipeline: bias correction written back into
    /// the record, linear transform, dead-zone thresholding,
    /// saturating quantization and report assembly.  Emitting the
    /// report and the rate gate ahead of it are the caller's
    /// suspension points.
    pub fn generate_report(&mut self) -> (r: MouseReport)
        requires
            old(self)@.wf(),
        ensures
            final(self)@ == old(self)@.after_report(),
            final(self)@.wf(),
            final(self).spec_keymap() == old(self).spec_keymap(),
            r == old(self)@.report_spec(),
    {
        let ghost orig = self@;
        let ghost km = self.keymap;
        let n = self.record.len();

        // Bias correction, in place and saturating.
        let mut j: usize = 0;
        while j < n
            invariant
                j <= n,
                n == orig.axes(),
                orig.wf(),
                self@.transform == orig.transform,
                self@.bias == orig.bias,
                self@.threshold == orig.threshold,
                self@.side == orig.side,
                self.keymap == km,
                self.record@.len() == n,
                forall|t: int|
                    0 <= t < j ==> self.record@[t] == corrected_record(orig.record, orig.bias)[t],
                forall|t: int| j <= t < n ==> self.record@[t] == orig.record[t],
            decreases n - j,
        {
            let v = sat_add_i16(self.record[j], self.bias[j]);
            self.record.set(j, v);
            j += 1;
        }
        proof {
            assert(self.record@ =~= corrected_record(orig.record, orig.bias));
        }
        let ghost rec = self.record@;

        // Linear transform, dead zone and quantization, one output
        // axis at a time.
        let mut outputs: Vec<i8> = Vec::new();
        let mut i: usize = 0;
        while i < n
            invariant
                i <= n,
                n == orig.axes(),
                orig.wf(),
                self@.transform == orig.transform,
                self@.bias == orig.bias,
                self@.threshold == orig.threshold,
                self@.side == orig.side,
                self.keymap == km,
                self.record@ == rec,
                rec.len() == n,
                outputs@.len() == i,
                forall|t: int| 0 <= t < i ==> outputs@[t] as int == orig.axis_output(rec, t),
            decreases n - i,
        {
            let mut sum: i64 = 0;
            let mut j2: usize = 0;
            while j2 < n
                invariant
                    j2 <= n,
                    i < n,
                    n == orig.axes(),
                    orig.wf(),
                    self@.transform == orig.transform,
                    self.record@ == rec,
                    rec.len() == n,
                    sum == axis_dot(orig.transform[i as int], rec, j2 as int),
                    -(j2 as int) * 0x4000_0000_0000 <= sum <= (j2 as int) * 0x4000_0000_0000,
                decreases n - j2,
            {
                let c: i32 = self.transform[i][j2];
                let rv: i16 = self.record[j2];
                proof {
                    assert(orig.transform[i as int][j2 as int] == c);
                    assert((c as int) * (rv as int) <= 0x4000_0000_0000 && -0x4000_0000_0000 <= (
                    c as int) * (rv as int)) by (nonlinear_arith)
                        requires
                            -0x8000_0000 <= c as int <= 0x7fff_ffff,
                            -0x8000 <= rv as int <= 0x7fff,
                    ;
                }
                let term: i64 = (c as i64) * (rv as i64);
                sum = sum + term;
                j2 += 1;
            }
            let thr: i64 = self.threshold[i];
            let mag: i64 = if sum >= 0 {
                sum
            } else {
                -sum
            };
            let gated: i64 = if mag < thr {
                0
            } else {
                sum
            };
            proof {
                assert(gated as int == dead_zone(sum as int, thr as int));
            }
            let gmag: u64 = if gated >= 0 {
                gated as u64
            } else {
                (-gated) as u64
            };
            let q: i64 = (gmag / (FIXED_POINT_SCALE as u64)) as i64;
            let qs: i64 = if gated >= 0 {
                q
            } else {
                -q
            };
            proof {
                assert(qs as int == div_toward_zero(gated as int, FIXED_POINT_SCALE as int));
            }
            let out: i8 = if qs > 127 {
                127i8
            } else if qs < -128 {
                -128i8
            } else {
                qs as i8
            };
            proof {
                assert(out as int == orig.axis_output(rec, i as int));
            }
            outputs.push(out);
            i += 1;
        }

        let report = match self.side {
            KeyboardSide::Left => {
                let x = outputs[0];
                let y = outputs[1];
                MouseReport { buttons: 0, x, y, wheel: 0, pan: 0 }
            },
            KeyboardSide::Right => MouseReport { buttons: 0, x: 0, y: 0, wheel: 0, pan: 0 },
        };
        proof {
            assert(self@ =~= orig.after_report());
            assert(report == orig.report_spec());
        }
        report
    }

    /// Offer one event to this processor.  A joystick event is
    /// consumed: its readings replace the record, a report is computed
    /// and handed to the sink, and propagation stops.  Any other event
    /// passes through unchanged.  The caller owes the fixed rate-gate
    /// delay before each report is emitted; the delay is a suspension
    /// point, not part of the computation.
    pub fn process(&mut self, event: Event, sink: &mut Vec<Report>) -> (r: ProcessResult)
        requires
            old(self)@.wf(),
            event matches Event::Joystick(readings) ==> readings@.len() == old(self)@.axes(),
        ensures
            final(self)@.wf(),
            final(self).spec_keymap() == old(self).spec_keymap(),
            match event {
                Event::Joystick(readings) => {
                    &&& r is Stop
                    &&& final(self)@ == old(self)@.after_process(readings@)
                    &&& final(sink)@ == old(sink)@.push(
                        Report::Mouse(old(self)@.process_report(readings@)),
                    )
                },
                _ => {
                    &&& r == ProcessResult::Continue(event)
                    &&& final(self)@ == old(self)@
                    &&& final(sink)@ == old(sink)@
                },
            },
    {
        match event {
            Event::Joystick(readings) => {
                let ghost orig = self@;
                let ghost rd = readings@;
                // Latch: the fresh snapshot replaces the record.
                self.record = readings;
                proof {
                    assert(self@ =~= orig.latched(rd));
                }
                let rep = self.generate_report();
                sink.push(Report::Mouse(rep));
                ProcessResult::Stop
            },
            other => ProcessResult::Continue(other),
        }
    }
}

fn sat_add_i16(a: i16, b: i16) -> (r: i16)
    ensures
        r as int == sat_add16(a as int, b as int),
{
    let s: i32 = a as i32 + b as i32;
    if s > 32767 {
        32767i16
    } else if s < -32768 {
        -32768i16
    } else {
        s as i16
    }
}

/// Law: saturating bias correction never wraps.  The corrected value
/// always stays in the 16-bit signed range, and the correction is
/// idempotent at the boundary values: a boundary record pushed further
/// past the boundary is left unchanged.
pub proof fn lemma_bias_correction_saturates(a: int, b: int)
    requires
        i16::MIN as int <= a <= i16::MAX as int,
        i16::MIN as int <= b <= i16::MAX as int,
    ensures
        i16::MIN as int <= sat_add16(a, b) <= i16::MAX as int,
        a == i16::MAX as int && b >= 0 ==> sat_add16(a, b) == a,
        a == i16::MIN as int && b <= 0 ==> sat_add16(a, b) == a,
{
}

/// Law: quantization clamps to the signed 8-bit range; it never
/// wraps, whatever the transformed value.
pub proof fn lemma_quantize_in_range(sum: int)
    ensures
        i8::MIN as int <= quantize(sum) <= i8::MAX as int,
{
}

/// Law: every byte of every emitted report lies within the signed
/// 8-bit range, for every transform, threshold and bias configuration
/// and every raw reading batch; on the left side the motion bytes
/// carry the quantized axis outputs exactly, without wrap-around.
pub proof fn lemma_report_bytes_in_range(v: JoystickView, readings: Seq<i16>)
    requires
        v.wf(),
        readings.len() == v.axes(),
    ensures
        i8::MIN as int <= v.process_report(readings).x as int <= i8::MAX as int,
        i8::MIN as int <= v.process_report(readings).y as int <= i8::MAX as int,
        v.process_report(readings).wheel == 0 && v.process_report(readings).pan == 0,
        v.side == KeyboardSide::Left ==> v.process_report(readings).x as int == v.axis_output(
            corrected_record(readings, v.bias),
            0,
        ),
        v.side == KeyboardSide::Left ==> v.process_report(readings).y as int == v.axis_output(
            corrected_record(readings, v.bias),
            1,
        ),
{
    let corrected = corrected_record(readings, v.bias);
    lemma_quantize_in_range(
        dead_zone(axis_dot(v.transform[0], corrected, corrected.len() as int), v.threshold[0] as int),
    );
    lemma_quantize_in_range(
        dead_zone(axis_dot(v.transform[1], corrected, corrected.len() as int), v.threshold[1] as int),
    );
}

/// Law: a transformed axis value whose magnitude lies below the
/// axis's dead-zone threshold is suppressed to exactly zero in the
/// emitted report.
pub proof fn lemma_dead_zone_suppresses(v: JoystickView, readings: Seq<i16>, i: int)
    requires
        v.wf(),
        readings.len() == v.axes(),
        0 <= i < v.axes(),
        abs(axis_dot(v.transform[i], corrected_record(readings, v.bias), readings.len() as int))
            < v.threshold[i] as int,
    ensures
        v.axis_output(corrected_record(readings, v.bias), i) == 0,
        v.side == KeyboardSide::Left && i == 0 ==> v.process_report(readings).x == 0,
        v.side == KeyboardSide::Left && i == 1 ==> v.process_report(readings).y == 0,
{
    let corrected = corrected_record(readings, v.bias);
    assert(dead_zone(axis_dot(v.transform[i], corrected, corrected.len() as int), v.threshold[i] as int)
        == 0);
    assert(div_toward_zero(0, FIXED_POINT_SCALE as int) == 0);
}

/// Law: feeding the same raw reading batch twice yields the same
/// report and the same processor state both times.  The record is
/// replaced on latch, so nothing accumulates across events.
pub proof fn lemma_same_readings_same_report(v: JoystickView, readings: Seq<i16>)
    requires
        v.wf(),
        readings.len() == v.axes(),
    ensures
        v.after_process(readings).process_report(readings) == v.process_report(readings),
        v.after_process(readings).after_process(readings) == v.after_process(readings),
{
    assert(v.after_process(readings).latched(readings) =~= v.latched(readings));
    assert(v.after_process(readings).after_process(readings) =~= v.after_process(readings));
}

} // verus!
