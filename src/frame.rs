//! The per-tick orchestration: input carry-over, payloads, destinations and
//! the two history buffers, advanced together.
use crate::codec::{encode_input, encode_signal, input_payload, signal_payload, InputSample};
use crate::raster::{intensity_cell, ScrollingRaster};
use crate::trace::PeriodTrace;
use crate::transport::{Channel, Endpoint, EndpointPair};
use vstd::prelude::*;

verus! {

/// What one tick hands to the transport: both payloads, each with the
/// destination its channel had when the tick ran.
pub struct TickOutput {
    pub input_payload: Vec<u8>,
    pub signal_payload: Vec<u8>,
    pub input_dest: Endpoint,
    pub signal_dest: Endpoint,
    /// The raster column (and period slot) that the tick wrote.
    pub column: usize,
}

/// Everything that lives from one tick to the next.
pub struct SimulatorState {
    input: InputSample,
    raster: ScrollingRaster,
    trace: PeriodTrace,
    endpoints: EndpointPair,
}

impl SimulatorState {
    pub closed spec fn spec_input(&self) -> InputSample {
        self.input
    }

    pub closed spec fn spec_raster(&self) -> ScrollingRaster {
        self.raster
    }

    pub closed spec fn spec_trace(&self) -> PeriodTrace {
        self.trace
    }

    pub closed spec fn spec_endpoints(&self) -> EndpointPair {
        self.endpoints
    }

    /// The raster is well formed and the period ring has one slot per column.
    pub closed spec fn wf(&self) -> bool {
        &&& self.raster.wf()
        &&& self.trace.spec_periods().len() == self.raster.spec_width()
    }

    /// A fresh simulator: a black `width` x `channels` raster, zero periods,
    /// the input at the origin and both channels aimed at `host`.
    pub fn new(width: usize, channels: usize, host: &String) -> (r: SimulatorState)
        requires
            width > 0,
        ensures
            r.wf(),
            r.spec_raster().wf(),
            r.spec_input() == (InputSample { x0: 0, x1: 0 }),
            r.spec_raster().spec_width() == width,
            r.spec_raster().spec_rows() == channels,
            r.spec_raster().spec_ticks() == 0,
            r.spec_raster().spec_cursor() == 0,
            forall|c: int, i: int|
                0 <= c < width && 0 <= i < channels ==> #[trigger] r.spec_raster().spec_columns()[c][i]
                    == intensity_cell(0),
            r.spec_trace().spec_periods() == Seq::new(width as nat, |i: int| 0u64),
            r.spec_trace().spec_last() == 0,
            r.spec_endpoints() == EndpointPair::new_spec(host),
    {
        let endpoints = EndpointPair::new(host);
        SimulatorState {
            input: InputSample { x0: 0, x1: 0 },
            raster: ScrollingRaster::new(width, channels),
            trace: PeriodTrace::new(width),
            endpoints,
        }
    }

    /// What well-formedness guarantees.
    pub proof fn lemma_wf(&self)
        requires
            self.wf(),
        ensures
            self.spec_raster().wf(),
            self.spec_trace().spec_periods().len() == self.spec_raster().spec_width(),
    {
    }

    pub fn input(&self) -> (r: InputSample)
        ensures
            r == self.spec_input(),
    {
        self.input
    }

    pub fn raster(&self) -> (r: &ScrollingRaster)
        ensures
            *r == self.spec_raster(),
    {
        &self.raster
    }

    pub fn trace(&self) -> (r: &PeriodTrace)
        ensures
            *r == self.spec_trace(),
    {
        &self.trace
    }

    pub fn endpoints(&self) -> (r: &EndpointPair)
        ensures
            *r == self.spec_endpoints(),
    {
        &self.endpoints
    }

    /// Takes in this tick's pointer reading: a contact replaces the input,
    /// no contact keeps the previous one. Returns the input now in force.
    pub fn observe(&mut self, contact: Option<InputSample>) -> (r: InputSample)
        ensures
            r == final(self).spec_input(),
            final(self).spec_input() == match contact {
                Some(x) => x,
                None => old(self).spec_input(),
            },
            final(self).wf() == old(self).wf(),
            final(self).spec_raster() == old(self).spec_raster(),
            final(self).spec_trace() == old(self).spec_trace(),
            final(self).spec_endpoints() == old(self).spec_endpoints(),
    {
        match contact {
            Some(x) => {
                self.input = x;
            },
            None => {},
        }
        self.input
    }

    /// Aims one channel elsewhere between ticks; the other channel, the
    /// input and the buffers are untouched.
    pub fn rebind(&mut self, ch: Channel, host: String, port: u16)
        ensures
            final(self).spec_endpoints().spec_destination(ch) == Endpoint::new_spec(host, port),
            ch == Channel::Input ==> final(self).spec_endpoints().signal == old(
                self,
            ).spec_endpoints().signal,
            ch == Channel::Signal ==> final(self).spec_endpoints().input == old(
                self,
            ).spec_endpoints().input,
            final(self).spec_input() == old(self).spec_input(),
            final(self).wf() == old(self).wf(),
            final(self).spec_raster() == old(self).spec_raster(),
            final(self).spec_trace() == old(self).spec_trace(),
    {
        self.endpoints.rebind(ch, host, port);
    }

    /// Aims both channels at `host` on their fixed ports.
    pub fn connect_host(&mut self, host: &String)
        ensures
            final(self).spec_endpoints() == EndpointPair::new_spec(host),
            final(self).spec_input() == old(self).spec_input(),
            final(self).wf() == old(self).wf(),
            final(self).spec_raster() == old(self).spec_raster(),
            final(self).spec_trace() == old(self).spec_trace(),
    {
        self.endpoints.connect_host(host);
    }

    /// Runs one tick on the signal `z` and its display-scaled copy `display`
    /// (both as `f32` bit patterns, one per channel) at clock reading `now`:
    /// encodes both payloads against the destinations in force, advances the
    /// cursor with wraparound, and writes the display column and the period
    /// at the column it lands on.
    pub fn tick(&mut self, z: &Vec<u32>, display: &Vec<u32>, now: u64) -> (r: TickOutput)
        requires
            old(self).wf(),
            z@.len() == old(self).spec_raster().spec_rows(),
            display@.len() == old(self).spec_raster().spec_rows(),
            old(self).spec_trace().spec_last() <= now,
        ensures
            final(self).wf(),
            r.input_payload@ == input_payload(old(self).spec_input()),
            r.signal_payload@ == signal_payload(z@),
            r.input_dest == old(self).spec_endpoints().input,
            r.signal_dest == old(self).spec_endpoints().signal,
            final(self).spec_raster().wf(),
            final(self).spec_trace().spec_periods().len() == final(self).spec_raster().spec_width(),
            r.column == (old(self).spec_raster().spec_cursor() + 1) % old(
                self,
            ).spec_raster().spec_width(),
            r.column < old(self).spec_raster().spec_width(),
            final(self).spec_raster().spec_cursor() == r.column,
            final(self).spec_raster().spec_width() == old(self).spec_raster().spec_width(),
            final(self).spec_raster().spec_rows() == old(self).spec_raster().spec_rows(),
            final(self).spec_raster().spec_ticks() == old(self).spec_raster().spec_ticks() + 1,
            final(self).spec_raster().spec_columns() == old(
                self,
            ).spec_raster().spec_columns().update(
                r.column as int,
                signal_payload(display@).map_values(|g: u8| intensity_cell(g)),
            ),
            final(self).spec_trace().spec_periods() == old(self).spec_trace().spec_periods().update(
                r.column as int,
                (now - old(self).spec_trace().spec_last()) as u64,
            ),
            final(self).spec_trace().spec_last() == now,
            final(self).spec_input() == old(self).spec_input(),
            final(self).spec_endpoints() == old(self).spec_endpoints(),
    {
        proof {
            old(self).spec_raster().lemma_shape();
        }
        let input_payload = encode_input(self.input);
        let signal_payload = encode_signal(z);
        let input_dest = self.endpoints.input.clone();
        let signal_dest = self.endpoints.signal.clone();
        let greens = encode_signal(display);
        let column = self.raster.write_column(&greens);
        self.trace.record(column, now);
        TickOutput { input_payload, signal_payload, input_dest, signal_dest, column }
    }
}

} // verus!
