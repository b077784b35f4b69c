//! Weight readings and the request and response records around them.

use crate::decimal::Decimal;
use crate::decimal::DecimalView;
use crate::views::option_text;
use vstd::prelude::*;

verus! {

/// One reading of a scale.
#[derive(Debug)]
pub struct WeightReading {
    pub gross_weight: Decimal,
    pub net_weight: Decimal,
    pub unit: String,
    pub is_stable: bool,
    pub tare_weight: Option<Decimal>,
    pub status: Option<String>,
    /// Milliseconds since the Unix epoch at which the reading was made.
    pub timestamp: i64,
}

/// The mathematical content of a [`WeightReading`].
pub struct WeightReadingView {
    pub gross_weight: DecimalView,
    pub net_weight: DecimalView,
    pub unit: Seq<char>,
    pub is_stable: bool,
    pub tare_weight: Option<DecimalView>,
    pub status: Option<Seq<char>>,
    pub timestamp: i64,
}

impl View for WeightReading {
    type V = WeightReadingView;

    open spec fn view(&self) -> WeightReadingView {
        WeightReadingView {
            gross_weight: self.gross_weight@,
            net_weight: self.net_weight@,
            unit: self.unit@,
            is_stable: self.is_stable,
            tare_weight: self.tare_weight.deep_view(),
            status: option_text(self.status),
            timestamp: self.timestamp,
        }
    }
}

impl WeightReadingView {
    /// A reading of gross and net weight without tare and status.
    pub open spec fn plain(
        gross_weight: DecimalView,
        net_weight: DecimalView,
        unit: Seq<char>,
        is_stable: bool,
        timestamp: i64,
    ) -> WeightReadingView {
        WeightReadingView {
            gross_weight,
            net_weight,
            unit,
            is_stable,
            tare_weight: None,
            status: None,
            timestamp,
        }
    }

    /// Both weights are well-formed decimals, and so is the tare.
    pub open spec fn wf(self) -> bool {
        &&& self.gross_weight.wf()
        &&& self.net_weight.wf()
        &&& self.tare_weight matches Some(t) ==> t.wf()
    }
}

impl WeightReading {
    /// A reading of gross and net weight without tare and status.
    pub fn plain(
        gross_weight: Decimal,
        net_weight: Decimal,
        unit: String,
        is_stable: bool,
        timestamp: i64,
    ) -> (r: WeightReading)
        ensures
            r@ == WeightReadingView::plain(
                gross_weight@,
                net_weight@,
                unit@,
                is_stable,
                timestamp,
            ),
    {
        WeightReading {
            gross_weight,
            net_weight,
            unit,
            is_stable,
            tare_weight: None,
            status: None,
            timestamp,
        }
    }
}

/// A logical command addressed to one device.
#[derive(Debug)]
pub struct ScaleCommandRequest {
    pub device_id: String,
    pub command: String,
}

/// The answer to a [`ScaleCommandRequest`].
#[derive(Debug)]
pub struct ScaleCommandResponse {
    pub success: bool,
    pub device_id: String,
    pub command: String,
    pub result: Option<WeightReading>,
    pub error: Option<String>,
}

/// The mathematical content of a [`ScaleCommandResponse`].
pub struct ScaleCommandResponseView {
    pub success: bool,
    pub device_id: Seq<char>,
    pub command: Seq<char>,
    pub result: Option<WeightReadingView>,
    pub error: Option<Seq<char>>,
}

impl View for ScaleCommandResponse {
    type V = ScaleCommandResponseView;

    open spec fn view(&self) -> ScaleCommandResponseView {
        ScaleCommandResponseView {
            success: self.success,
            device_id: self.device_id@,
            command: self.command@,
            result: match self.result {
                Some(r) => Some(r@),
                None => None,
            },
            error: option_text(self.error),
        }
    }
}

/// The answer to a health probe.
#[derive(Debug)]
pub struct HealthResponse {
    pub status: String,
    pub service: String,
    pub version: String,
}

/// The answer to a request for the list of devices: identity, name and model
/// of each.
#[derive(Debug)]
pub struct DeviceListResponse {
    pub success: bool,
    pub devices: Vec<(String, String, String)>,
}

} // verus!
