//! Reports of the datapath, and their decoding.
//!
//! A report carries the identifier of the program instance that produced it and
//! the values of the fields that the program declares. A field that the
//! controller expects and the report lacks means that the program text and the
//! decoder no longer agree: decoding fails, and no default takes the field's
//! place.

use vstd::prelude::*;

verus! {

/// A field that a program reports.
#[derive(Clone, Copy, Debug, PartialEq, Eq, Structural)]
pub enum ReportField {
    /// The smallest round-trip sample, in microseconds.
    MinRtt,
    /// The packets lost.
    Loss,
    /// The largest delivery rate, in bytes per second.
    Rate,
    /// The phase of the pacing-gain cycle at the time of the report.
    PulseState,
}

impl ReportField {
    /// The name by which the program texts declare the field.
    pub open spec fn spec_name(self) -> Seq<char> {
        match self {
            ReportField::MinRtt => "Report.minrtt"@,
            ReportField::Loss => "Report.loss"@,
            ReportField::Rate => "Report.rate"@,
            ReportField::PulseState => "Report.pulseState"@,
        }
    }

    /// The name by which the program texts declare the field.
    pub fn name(self) -> (r: &'static str)
        ensures
            r@ == self.spec_name(),
    {
        match self {
            ReportField::MinRtt => "Report.minrtt",
            ReportField::Loss => "Report.loss",
            ReportField::Rate => "Report.rate",
            ReportField::PulseState => "Report.pulseState",
        }
    }
}

/// Why a report could not be decoded.
#[derive(Clone, Copy, Debug, PartialEq, Eq, Structural)]
pub enum ReportError {
    /// The report lacks a field that the controller's mode requires.
    MissingField(ReportField),
}

/// One report: the program instance it comes from, and each field's value where
/// the report holds one.
#[derive(Clone, Copy, Debug, PartialEq, Eq)]
pub struct Report {
    pub program_uid: u32,
    pub min_rtt: Option<u64>,
    pub loss: Option<u64>,
    pub rate: Option<u64>,
    pub pulse_state: Option<u64>,
}

/// The low 32 bits of a reported value: the width of the controller's counters.
pub open spec fn spec_low32(v: u64) -> u32 {
    (v as nat % 0x1_0000_0000) as u32
}

/// The low 32 bits of `v`.
pub fn low32(v: u64) -> (r: u32)
    ensures
        r == spec_low32(v),
{
    let masked: u64 = v & 0xffff_ffff;
    assert(masked == v % 0x1_0000_0000) by (bit_vector)
        requires
            masked == v & 0xffff_ffff,
    ;
    masked as u32
}

impl Report {
    /// The value of `field`, where the report holds one.
    pub open spec fn spec_get(self, field: ReportField) -> Option<u64> {
        match field {
            ReportField::MinRtt => self.min_rtt,
            ReportField::Loss => self.loss,
            ReportField::Rate => self.rate,
            ReportField::PulseState => self.pulse_state,
        }
    }

    /// The value of `field`, or the error that names it.
    pub open spec fn spec_get_field(self, field: ReportField) -> Result<u64, ReportError> {
        match self.spec_get(field) {
            Some(v) => Ok(v),
            None => Err(ReportError::MissingField(field)),
        }
    }

    /// What a report decodes to while the controller probes for bandwidth:
    /// losses, minimum round-trip time, rate and phase, in this order. All four
    /// fields are required; the error names the first that is missing, in the
    /// order round-trip time, losses, rate, phase.
    pub open spec fn spec_probe_bw_fields(self) -> Result<(u32, u32, u64, u32), ReportError> {
        if self.min_rtt is None {
            Err(ReportError::MissingField(ReportField::MinRtt))
        } else if self.loss is None {
            Err(ReportError::MissingField(ReportField::Loss))
        } else if self.rate is None {
            Err(ReportError::MissingField(ReportField::Rate))
        } else if self.pulse_state is None {
            Err(ReportError::MissingField(ReportField::PulseState))
        } else {
            Ok(
                (
                    spec_low32(self.loss->0),
                    spec_low32(self.min_rtt->0),
                    self.rate->0,
                    spec_low32(self.pulse_state->0),
                ),
            )
        }
    }

    /// What a report decodes to while the controller probes for the round-trip
    /// time: the minimum round-trip time, the only field required.
    pub open spec fn spec_probe_minrtt(self) -> Result<u32, ReportError> {
        match self.min_rtt {
            Some(v) => Ok(spec_low32(v)),
            None => Err(ReportError::MissingField(ReportField::MinRtt)),
        }
    }

    /// The value of `field`, or the error that names it.
    pub fn get_field(&self, field: ReportField) -> (r: Result<u64, ReportError>)
        ensures
            r == self.spec_get_field(field),
    {
        let value = match field {
            ReportField::MinRtt => self.min_rtt,
            ReportField::Loss => self.loss,
            ReportField::Rate => self.rate,
            ReportField::PulseState => self.pulse_state,
        };
        match value {
            Some(v) => Ok(v),
            None => Err(ReportError::MissingField(field)),
        }
    }

    /// Decodes a report of the gain cycle, or of the bootstrap program:
    /// losses, minimum round-trip time, rate and phase.
    pub fn get_probe_bw_fields(&self) -> (r: Result<(u32, u32, u64, u32), ReportError>)
        ensures
            r == self.spec_probe_bw_fields(),
    {
        let rtt = match self.get_field(ReportField::MinRtt) {
            Ok(v) => low32(v),
            Err(e) => { return Err(e); },
        };
        let loss = match self.get_field(ReportField::Loss) {
            Ok(v) => low32(v),
            Err(e) => { return Err(e); },
        };
        let rate = match self.get_field(ReportField::Rate) {
            Ok(v) => v,
            Err(e) => { return Err(e); },
        };
        let state = match self.get_field(ReportField::PulseState) {
            Ok(v) => low32(v),
            Err(e) => { return Err(e); },
        };
        Ok((loss, rtt, rate, state))
    }

    /// Decodes the report that ends a probe of the round-trip time.
    pub fn get_probe_minrtt(&self) -> (r: Result<u32, ReportError>)
        ensures
            r == self.spec_probe_minrtt(),
    {
        match self.get_field(ReportField::MinRtt) {
            Ok(v) => Ok(low32(v)),
            Err(e) => Err(e),
        }
    }
}

/// No two fields share a name.
pub proof fn lemma_field_names_are_distinct(a: ReportField, b: ReportField)
    requires
        a.spec_name() == b.spec_name(),
    ensures
        a == b,
{
    reveal_strlit("Report.minrtt");
    reveal_strlit("Report.loss");
    reveal_strlit("Report.rate");
    reveal_strlit("Report.pulseState");
    assert("Report.minrtt"@.len() == 13);
    assert("Report.loss"@.len() == 11 && "Report.loss"@[7] == 'l');
    assert("Report.rate"@.len() == 11 && "Report.rate"@[7] == 'r');
    assert("Report.pulseState"@.len() == 17);
}

} // verus!
