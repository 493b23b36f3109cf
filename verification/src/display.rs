//! Displays: what the window system tells about its outputs, the refresh
//! rate that a surface is shown with, and what the engine is told of it.

use vstd::prelude::*;

verus! {

/// The frame interval that is assumed when no output tells its refresh rate:
/// that of 60 frames a second, in nanoseconds.
pub const FRAME_INTERVAL_60_HZ_IN_NANOS: u64 = 16_666_666;

/// Nanoseconds in a second, times a thousand: divided by a rate in
/// millihertz it gives the frame interval in nanoseconds.
pub const NANOS_TIMES_MILLIHERTZ: u64 = 1_000_000_000_000;

/// A video mode of an output.
#[derive(Clone, Copy, Debug, PartialEq, Eq)]
pub struct Mode {
    /// Width and height in pixels.
    pub dimensions: (i32, i32),
    /// Refresh rate in millihertz; zero where the output has none to tell.
    pub refresh_rate: i32,
    /// Whether the output is in this mode now.
    pub current: bool,
    pub preferred: bool,
}

/// What the window system tells about an output, as far as the shell reads it.
#[derive(Clone, Debug, PartialEq, Eq)]
pub struct OutputInfo {
    pub id: u32,
    pub scale_factor: i32,
    pub modes: Vec<Mode>,
}

/// The first current mode among `modes`.
pub open spec fn first_current_mode(modes: Seq<Mode>) -> Option<Mode>
    decreases modes.len(),
{
    if modes.len() == 0 {
        None
    } else if modes.first().current {
        Some(modes.first())
    } else {
        first_current_mode(modes.drop_first())
    }
}

/// The refresh rate that an output runs at, if it tells one: that of its
/// first current mode.
pub open spec fn output_refresh_rate(info: Option<OutputInfo>) -> Option<i32> {
    match info {
        Some(info) => match first_current_mode(info.modes@) {
            Some(mode) => Some(mode.refresh_rate),
            None => None,
        },
        None => None,
    }
}

/// The frame interval, in nanoseconds, of a refresh rate in millihertz. A
/// rate of zero has none. A negative rate, which no output should tell, is
/// taken for a very large one and gives an interval of zero.
pub open spec fn frame_interval(refresh_rate: i32) -> Option<u64> {
    if refresh_rate == 0 {
        None
    } else if refresh_rate < 0 {
        Some(0u64)
    } else {
        Some((NANOS_TIMES_MILLIHERTZ as int / refresh_rate as int) as u64)
    }
}

impl OutputInfo {
    /// The refresh rate of the first current mode, if there is a current mode.
    pub fn current_refresh_rate(&self) -> (rate: Option<i32>)
        ensures
            rate == output_refresh_rate(Some(*self)),
            match rate {
                Some(rate) => exists|i: int|
                    0 <= i < self.modes@.len() && self.modes@[i].current
                        && self.modes@[i].refresh_rate == rate && forall|j: int|
                        0 <= j < i ==> !self.modes@[j].current,
                None => forall|i: int| 0 <= i < self.modes@.len() ==> !self.modes@[i].current,
            },
    {
        let mut index: usize = 0;
        assert(self.modes@.skip(0) =~= self.modes@);
        while index < self.modes.len()
            invariant
                index <= self.modes@.len(),
                forall|j: int| 0 <= j < index ==> !self.modes@[j].current,
                first_current_mode(self.modes@) == first_current_mode(
                    self.modes@.skip(index as int),
                ),
            decreases self.modes@.len() - index,
        {
            let mode = self.modes[index];
            proof {
                let rest = self.modes@.skip(index as int);
                assert(rest.first() == self.modes@[index as int]);
                assert(rest.drop_first() =~= self.modes@.skip(index as int + 1));
            }
            if mode.current {
                return Some(mode.refresh_rate);
            }
            index += 1;
        }
        proof {
            assert(self.modes@.skip(index as int).len() == 0);
        }
        None
    }
}

/// The larger of two rates, where a missing rate gives way to the other.
pub open spec fn larger_rate(one: Option<i32>, other: Option<i32>) -> Option<i32> {
    match (one, other) {
        (Some(a), Some(b)) => Some(if b > a { b } else { a }),
        (Some(a), None) => Some(a),
        (None, other) => other,
    }
}

/// The largest refresh rate that any of `outputs` tells; `None` if none
/// tells one.
pub open spec fn max_refresh_rate(outputs: Seq<Option<OutputInfo>>) -> Option<i32>
    decreases outputs.len(),
{
    if outputs.len() == 0 {
        None
    } else {
        larger_rate(max_refresh_rate(outputs.drop_last()), output_refresh_rate(outputs.last()))
    }
}

/// The frame interval that a surface is shown with: that of the largest
/// refresh rate among its outputs. `None` if the surface carries no list of
/// outputs, if no output tells a rate, or if the largest rate is zero.
pub open spec fn surface_frame_interval(outputs: Option<Seq<Option<OutputInfo>>>) -> Option<u64> {
    match outputs {
        Some(outputs) => match max_refresh_rate(outputs) {
            Some(rate) => frame_interval(rate),
            None => None,
        },
        None => None,
    }
}

/// The frame interval to pace with: `interval`, or that of 60 frames a
/// second where there is none.
pub open spec fn interval_or_default(interval: Option<u64>) -> u64 {
    match interval {
        Some(nanos) => nanos,
        None => FRAME_INTERVAL_60_HZ_IN_NANOS,
    }
}

/// The largest refresh rate is a rate that one of the outputs tells, and no
/// output tells a larger one; there is none exactly if no output tells one.
pub proof fn lemma_max_refresh_rate(outputs: Seq<Option<OutputInfo>>)
    ensures
        match max_refresh_rate(outputs) {
            Some(rate) => (exists|i: int|
                0 <= i < outputs.len() && output_refresh_rate(outputs[i]) == Some(rate)) && forall|
                i: int,
            |
                0 <= i < outputs.len() ==> (#[trigger] output_refresh_rate(outputs[i]) matches Some(
                    other,
                ) ==> other <= rate),
            None => forall|i: int|
                0 <= i < outputs.len() ==> #[trigger] output_refresh_rate(outputs[i]) is None,
        },
    decreases outputs.len(),
{
    if outputs.len() > 0 {
        let earlier = outputs.drop_last();
        lemma_max_refresh_rate(earlier);
        assert forall|i: int| 0 <= i < earlier.len() implies earlier[i] == outputs[i] by {}
        let last = outputs.len() - 1;
        match max_refresh_rate(outputs) {
            Some(rate) => {
                match max_refresh_rate(earlier) {
                    Some(known) => {
                        let i = choose|i: int|
                            0 <= i < earlier.len() && output_refresh_rate(earlier[i]) == Some(known);
                        if rate == known {
                            assert(output_refresh_rate(outputs[i]) == Some(rate));
                        } else {
                            assert(output_refresh_rate(outputs[last]) == Some(rate));
                        }
                    },
                    None => {
                        assert(output_refresh_rate(outputs[last]) == Some(rate));
                    },
                }
                assert forall|i: int| 0 <= i < outputs.len() implies (
                #[trigger] output_refresh_rate(outputs[i]) matches Some(other) ==> other
                    <= rate) by {
                    if i < last {
                        assert(earlier[i] == outputs[i]);
                    }
                }
            },
            None => {
                assert forall|i: int| 0 <= i < outputs.len() implies #[trigger] output_refresh_rate(
                    outputs[i],
                ) is None by {
                    if i < last {
                        assert(earlier[i] == outputs[i]);
                    }
                }
            },
        }
    }
}

/// The largest refresh rate, in millihertz, among the outputs that a surface
/// is shown on. `outputs` holds, for each of them, what the window system
/// tells about it, or `None` where it tells nothing. Outputs that tell no
/// rate are passed over.
pub fn get_surface_refresh_rate_in_mhz(outputs: &Vec<Option<OutputInfo>>) -> (rate: Option<i32>)
    ensures
        rate == max_refresh_rate(outputs@),
{
    let mut best: Option<i32> = None;
    let mut index: usize = 0;
    while index < outputs.len()
        invariant
            index <= outputs@.len(),
            best == max_refresh_rate(outputs@.take(index as int)),
        decreases outputs@.len() - index,
    {
        let found = match &outputs[index] {
            Some(info) => info.current_refresh_rate(),
            None => None,
        };
        proof {
            let next = outputs@.take(index as int + 1);
            assert(next.drop_last() =~= outputs@.take(index as int));
            assert(next.last() == outputs@[index as int]);
        }
        match found {
            Some(rate) => {
                let better = match best {
                    Some(known) => rate > known,
                    None => true,
                };
                if better {
                    best = Some(rate);
                }
            },
            None => {},
        }
        index += 1;
    }
    assert(outputs@.take(index as int) =~= outputs@);
    best
}

/// The frame interval of a refresh rate, see [`frame_interval`].
pub fn frame_interval_in_nanos(refresh_rate: i32) -> (interval: Option<u64>)
    ensures
        interval == frame_interval(refresh_rate),
{
    if refresh_rate == 0 {
        None
    } else if refresh_rate < 0 {
        Some(0)
    } else {
        Some(NANOS_TIMES_MILLIHERTZ / (refresh_rate as u64))
    }
}

/// The list of outputs as a mathematical value.
pub open spec fn outputs_view(outputs: Option<&Vec<Option<OutputInfo>>>) -> Option<
    Seq<Option<OutputInfo>>,
> {
    match outputs {
        Some(outputs) => Some(outputs@),
        None => None,
    }
}

/// The frame interval, in nanoseconds, that a surface is shown with, see
/// [`surface_frame_interval`]. `outputs` is `None` where the surface carries
/// no list of outputs.
pub fn get_surface_frame_interval_in_nanos(outputs: Option<&Vec<Option<OutputInfo>>>) -> (interval:
    Option<u64>)
    ensures
        interval == surface_frame_interval(outputs_view(outputs)),
{
    let outputs = match outputs {
        Some(outputs) => outputs,
        None => {
            return None;
        },
    };
    match get_surface_refresh_rate_in_mhz(outputs) {
        Some(rate) => frame_interval_in_nanos(rate),
        None => None,
    }
}

/// The frame interval to pace a surface with, see [`interval_or_default`].
pub fn frame_interval_or_default(interval: Option<u64>) -> (nanos: u64)
    ensures
        nanos == interval_or_default(interval),
{
    match interval {
        Some(nanos) => nanos,
        None => FRAME_INTERVAL_60_HZ_IN_NANOS,
    }
}

/// An output of the window system, as the shell hands it to the engine.
#[derive(Clone, Debug, PartialEq, Eq)]
pub struct SctkOutput {
    display_id: u64,
    info: Option<OutputInfo>,
}

/// What the engine is told about a display.
#[derive(Clone, Copy, Debug, PartialEq, Eq)]
pub struct FlutterEngineDisplay {
    pub display_id: u64,
    /// Nanoseconds between two frames; `None` where the output tells no rate.
    pub frame_interval_nanos: Option<u64>,
    /// How many pixels make a logical pixel; 1 where the output tells nothing.
    pub scale_factor: i32,
}

/// Whether a display update describes the displays at start-up or a change.
#[derive(Clone, Copy, Debug, PartialEq, Eq, Structural)]
pub enum FlutterEngineDisplaysUpdateType {
    Startup,
    Count,
}

/// A notification to the engine that lists the displays.
#[derive(Clone, Debug, PartialEq, Eq)]
pub struct DisplayUpdate {
    pub update_type: FlutterEngineDisplaysUpdateType,
    pub displays: Vec<FlutterEngineDisplay>,
}

impl SctkOutput {
    pub closed spec fn spec_display_id(&self) -> u64 {
        self.display_id
    }

    pub closed spec fn spec_info(&self) -> Option<OutputInfo> {
        self.info
    }

    /// What the engine is told about this output.
    pub open spec fn spec_display(&self) -> FlutterEngineDisplay {
        FlutterEngineDisplay {
            display_id: self.spec_display_id(),
            frame_interval_nanos: match output_refresh_rate(self.spec_info()) {
                Some(rate) => frame_interval(rate),
                None => None,
            },
            scale_factor: match self.spec_info() {
                Some(info) => info.scale_factor,
                None => 1,
            },
        }
    }

    /// The output with protocol id `display_id`, with what the window system
    /// tells about it.
    pub fn new(display_id: u64, info: Option<OutputInfo>) -> (output: SctkOutput)
        ensures
            output.spec_display_id() == display_id,
            output.spec_info() == info,
    {
        SctkOutput { display_id, info }
    }

    /// What the engine is told about this output, see
    /// [`SctkOutput::spec_display`].
    pub fn display(&self) -> (display: FlutterEngineDisplay)
        ensures
            display == self.spec_display(),
    {
        let (rate, scale_factor) = match &self.info {
            Some(info) => (info.current_refresh_rate(), info.scale_factor),
            None => (None, 1),
        };
        let frame_interval_nanos = match rate {
            Some(rate) => frame_interval_in_nanos(rate),
            None => None,
        };
        FlutterEngineDisplay { display_id: self.display_id, frame_interval_nanos, scale_factor }
    }
}

/// The notification that lists `outputs`, in their order, as the displays
/// at start-up.
pub fn display_update(outputs: &Vec<SctkOutput>) -> (update: DisplayUpdate)
    ensures
        update.update_type == FlutterEngineDisplaysUpdateType::Startup,
        update.displays@.len() == outputs@.len(),
        forall|i: int|
            0 <= i < outputs@.len() ==> update.displays@[i] == (#[trigger] outputs@[i]).spec_display(),
{
    let mut displays: Vec<FlutterEngineDisplay> = Vec::new();
    let mut index: usize = 0;
    while index < outputs.len()
        invariant
            index <= outputs@.len(),
            displays@.len() == index,
            forall|i: int|
                0 <= i < index ==> displays@[i] == (#[trigger] outputs@[i]).spec_display(),
        decreases outputs@.len() - index,
    {
        displays.push(outputs[index].display());
        index += 1;
    }
    DisplayUpdate { update_type: FlutterEngineDisplaysUpdateType::Startup, displays }
}

} // verus!
